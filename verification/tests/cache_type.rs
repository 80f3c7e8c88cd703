use turbo_kv_cache::cache_type::{
    auto_asymmetric_upgrades_k, cuda_supports_fp8, is_multiple_of, layer_is_boundary,
    plain_keys_notice, turbo4_layer_plan, Backend, CacheTypeError, DeviceInfo, PagedCacheType,
    PlainKeysNotice, Turbo4LayerPlan, Turbo4Settings, AUTO_ASYMMETRIC_GQA_THRESHOLD,
};
use turbo_kv_cache::model::{KvCacheLayout, LayerConfig, ModelConfigLike, ModelConfigMetadata};
use turbo_kv_cache::tensor::{DeviceKind, ElementType};

const PLAIN_BUILD: Backend = Backend {
    cuda: false,
    metal: false,
    use_fp8: false,
};

const FULL_BUILD: Backend = Backend {
    cuda: true,
    metal: true,
    use_fp8: true,
};

fn model_config(layout: KvCacheLayout) -> ModelConfigMetadata {
    ModelConfigMetadata {
        max_seq_len: 4096,
        num_layers: 2,
        hidden_size: 1024,
        num_kv_heads: 4,
        num_attn_heads: 16,
        sliding_window: None,
        k_head_dim: 128,
        v_head_dim: 128,
        kv_cache_layout: layout,
    }
}

/// A model whose layers are listed one by one.
struct Layers(Vec<LayerConfig>);

impl ModelConfigLike for Layers {
    fn layer_count(&self) -> usize {
        self.0.len()
    }

    fn layer(&self, layer_idx: usize) -> LayerConfig {
        self.0[layer_idx]
    }

    fn num_layers(&self) -> usize {
        self.0.len()
    }

    fn layer_has_paged_kv_cache(&self, layer_idx: usize) -> bool {
        self.0[layer_idx].has_paged_kv_cache
    }

    fn kv_cache_layout_for_layer(&self, layer_idx: usize) -> KvCacheLayout {
        self.0[layer_idx].kv_cache_layout
    }

    fn num_attn_heads_for_layer(&self, layer_idx: usize) -> usize {
        self.0[layer_idx].num_attn_heads
    }

    fn num_kv_heads_for_layer(&self, layer_idx: usize) -> usize {
        self.0[layer_idx].num_kv_heads
    }

    fn k_head_dim_for_layer(&self, layer_idx: usize) -> usize {
        self.0[layer_idx].k_head_dim
    }

    fn v_head_dim_for_layer(&self, layer_idx: usize) -> usize {
        self.0[layer_idx].v_head_dim
    }
}

fn layer(paged: bool, mla: bool, head_dim: usize) -> LayerConfig {
    LayerConfig {
        has_paged_kv_cache: paged,
        kv_cache_layout: if mla {
            KvCacheLayout::Mla {
                kv_lora_rank: 512,
                kpe_head_dim: 64,
            }
        } else {
            KvCacheLayout::StandardNoFlashInfer
        },
        num_attn_heads: 32,
        num_kv_heads: 4,
        k_head_dim: head_dim,
        v_head_dim: head_dim,
    }
}

fn cuda(compute_major: Option<i32>) -> DeviceInfo {
    DeviceInfo {
        kind: DeviceKind::Cuda,
        compute_major,
    }
}

fn metal() -> DeviceInfo {
    DeviceInfo {
        kind: DeviceKind::Metal,
        compute_major: None,
    }
}

#[test]
fn fp8_cache_rejects_cpu_before_allocation() {
    let err = PagedCacheType::F8E4M3
        .validate(
            ElementType::BF16,
            &model_config(KvCacheLayout::Standard),
            DeviceInfo::cpu(),
            &[],
            PLAIN_BUILD,
        )
        .unwrap_err();
    assert!(err.contains("only supported on CUDA or Metal"));
}

#[test]
fn fp8_cache_rejects_mla_before_allocation() {
    let err = PagedCacheType::F8E4M3
        .validate(
            ElementType::BF16,
            &model_config(KvCacheLayout::Mla {
                kv_lora_rank: 512,
                kpe_head_dim: 64,
            }),
            DeviceInfo::cpu(),
            &[],
            PLAIN_BUILD,
        )
        .unwrap_err();
    assert!(err.contains("not supported for MLA layer 0"));
}

#[test]
fn turbo4_cache_accepts_valid_standard_layout() {
    PagedCacheType::Turbo4
        .validate(
            ElementType::BF16,
            &model_config(KvCacheLayout::Standard),
            DeviceInfo::cpu(),
            &[],
            PLAIN_BUILD,
        )
        .unwrap();
}

#[test]
fn turbo4_cache_rejects_mla_layout() {
    let err = PagedCacheType::Turbo4
        .validate(
            ElementType::BF16,
            &model_config(KvCacheLayout::Mla {
                kv_lora_rank: 512,
                kpe_head_dim: 64,
            }),
            DeviceInfo::cpu(),
            &[],
            PLAIN_BUILD,
        )
        .unwrap_err();
    assert!(err.contains("does not support the Mla"));
}

#[test]
fn turbo4_cache_rejects_head_dim_not_a_multiple_of_the_group_size() {
    let mut model = model_config(KvCacheLayout::Standard);
    model.k_head_dim = 96;
    let err = PagedCacheType::Turbo4
        .validate(ElementType::BF16, &model, DeviceInfo::cpu(), &[], PLAIN_BUILD)
        .unwrap_err();
    assert!(err.contains("multiple of the 128-element rotation group"));
}

#[test]
fn auto_asymmetric_upgrades_k_only_above_the_gqa_threshold() {
    // Four key heads for 28 query heads, 7:1.
    assert!(auto_asymmetric_upgrades_k(7, false));
    // The threshold itself is inclusive.
    assert!(auto_asymmetric_upgrades_k(6, false));
    // Eight key heads for 32 query heads, 4:1.
    assert!(!auto_asymmetric_upgrades_k(4, false));
    assert!(!auto_asymmetric_upgrades_k(1, false));
    assert!(!auto_asymmetric_upgrades_k(7, true));
}

#[test]
fn layer_is_boundary_matches_upstream_modes() {
    const N: usize = 28;
    assert!(!layer_is_boundary(0, 0, N));
    assert!(!layer_is_boundary(0, N - 1, N));
    // The first and the last four layers.
    assert!(layer_is_boundary(1, 0, N));
    assert!(layer_is_boundary(1, 3, N));
    assert!(!layer_is_boundary(1, 4, N));
    assert!(!layer_is_boundary(1, N - 5, N));
    assert!(layer_is_boundary(1, N - 4, N));
    assert!(layer_is_boundary(1, N - 1, N));
    // The last eight layers.
    assert!(!layer_is_boundary(2, 0, N));
    assert!(!layer_is_boundary(2, N - 9, N));
    assert!(layer_is_boundary(2, N - 8, N));
    assert!(layer_is_boundary(2, N - 1, N));
    // A short model has no boundary.
    assert!(!layer_is_boundary(1, 0, 4));
    assert!(!layer_is_boundary(2, 3, 4));
}

#[test]
fn turbo4_layer_plan_matches_qwen_family_measurements() {
    let settings = Turbo4Settings::default();
    // 16 query heads for 4 key heads, 4:1: both sides are packed.
    let qwen3_shaped = model_config(KvCacheLayout::Standard);
    let plan = turbo4_layer_plan(&qwen3_shaped, 0, settings);
    assert!(plan.k_is_turbo && plan.v_is_turbo);

    // 12 query heads for 2 key heads, 6:1: keys are plain, values are packed.
    let mut qwen2_5_shaped = model_config(KvCacheLayout::Standard);
    qwen2_5_shaped.num_attn_heads = 12;
    qwen2_5_shaped.num_kv_heads = 2;
    let plan = turbo4_layer_plan(&qwen2_5_shaped, 0, settings);
    assert!(!plan.k_is_turbo && plan.v_is_turbo);
}

#[test]
fn formats_have_element_types() {
    assert_eq!(
        PagedCacheType::Auto.to_dtype(ElementType::F16),
        ElementType::F16
    );
    assert_eq!(
        PagedCacheType::F8E4M3.to_dtype(ElementType::F16),
        ElementType::F8E4M3
    );
    assert_eq!(
        PagedCacheType::Turbo4.to_dtype(ElementType::F16),
        ElementType::U8
    );
    assert_eq!(PagedCacheType::default(), PagedCacheType::Auto);
}

#[test]
fn formats_are_parsed_by_name() {
    assert_eq!("auto".parse::<PagedCacheType>(), Ok(PagedCacheType::Auto));
    assert_eq!(
        "f8e4m3".parse::<PagedCacheType>(),
        Ok(PagedCacheType::F8E4M3)
    );
    assert_eq!(
        PagedCacheType::from_str("turbo4"),
        Ok(PagedCacheType::Turbo4)
    );
    assert_eq!(
        "Turbo4".parse::<PagedCacheType>(),
        Err("Unexpected `PagedCacheType`, got `Turbo4` but expected `auto`, `f8e4m3`, and `turbo4`."
            .to_string())
    );
    assert!(PagedCacheType::from_str("").is_err());
    assert!(PagedCacheType::from_str("auto ").is_err());
}

#[test]
fn auto_suits_every_model() {
    let mla = model_config(KvCacheLayout::Mla {
        kv_lora_rank: 512,
        kpe_head_dim: 64,
    });
    assert_eq!(
        PagedCacheType::Auto.validate(ElementType::U8, &mla, DeviceInfo::cpu(), &[], PLAIN_BUILD),
        Ok(())
    );
}

#[test]
fn turbo4_refusals_name_the_layer() {
    let mut model = model_config(KvCacheLayout::FlashInferHnd);
    model.v_head_dim = 192;
    assert_eq!(
        PagedCacheType::Turbo4.check(ElementType::F16, &model, DeviceInfo::cpu(), &[], PLAIN_BUILD),
        Err(CacheTypeError::Turbo4HeadDim {
            layer: 0,
            k_head_dim: 128,
            v_head_dim: 192
        })
    );
    assert_eq!(
        PagedCacheType::Turbo4.validate(
            ElementType::F16,
            &model,
            DeviceInfo::cpu(),
            &[],
            PLAIN_BUILD
        ),
        Err("Turbo4 KV cache requires head_dim (got k=128, v=192 on layer 0) to be a multiple of the 128-element rotation group".to_string())
    );
    assert_eq!(
        CacheTypeError::Turbo4Mla { layer: 17 }.message(),
        "Turbo4 KV cache does not support the Mla layout (layer 17)"
    );
    // No layer, no refusal.
    model.num_layers = 0;
    assert_eq!(
        PagedCacheType::Turbo4.check(ElementType::F16, &model, DeviceInfo::cpu(), &[], PLAIN_BUILD),
        Ok(())
    );
}

#[test]
fn fp8_needs_float_activations() {
    let model = model_config(KvCacheLayout::Standard);
    for dtype in [ElementType::F16, ElementType::BF16, ElementType::F32] {
        assert_eq!(
            PagedCacheType::F8E4M3.check(dtype, &model, cuda(Some(9)), &[], FULL_BUILD),
            Ok(())
        );
    }
    assert_eq!(
        PagedCacheType::F8E4M3.validate(
            ElementType::F64,
            &model,
            cuda(Some(9)),
            &[],
            FULL_BUILD
        ),
        Err("FP8 KV cache requires f16, bf16, or f32 activations, got F64".to_string())
    );
}

#[test]
fn fp8_needs_a_capable_device_on_every_layer() {
    let model = model_config(KvCacheLayout::Standard);
    let check = |device: DeviceInfo, own: &[Option<DeviceInfo>], backend: Backend| {
        PagedCacheType::F8E4M3.check(ElementType::BF16, &model, device, own, backend)
    };
    assert_eq!(check(cuda(Some(8)), &[], FULL_BUILD), Ok(()));
    assert_eq!(
        check(cuda(Some(7)), &[], FULL_BUILD),
        Err(CacheTypeError::Fp8ComputeCapability)
    );
    assert_eq!(
        check(cuda(None), &[], FULL_BUILD),
        Err(CacheTypeError::Fp8ComputeCapability)
    );
    let no_fp8 = Backend {
        use_fp8: false,
        ..FULL_BUILD
    };
    assert_eq!(
        check(cuda(Some(9)), &[], no_fp8),
        Err(CacheTypeError::Fp8ComputeCapability)
    );
    assert_eq!(
        check(cuda(Some(9)), &[], PLAIN_BUILD),
        Err(CacheTypeError::Fp8NeedsCuda)
    );
    assert_eq!(check(metal(), &[], FULL_BUILD), Ok(()));
    assert_eq!(
        check(metal(), &[], PLAIN_BUILD),
        Err(CacheTypeError::Fp8NeedsMetal)
    );
    // The second layer has a device of its own.
    assert_eq!(
        check(cuda(Some(9)), &[None, Some(DeviceInfo::cpu())], FULL_BUILD),
        Err(CacheTypeError::Fp8Device { layer: 1 })
    );
    assert_eq!(
        check(DeviceInfo::cpu(), &[Some(cuda(Some(9))), Some(metal())], FULL_BUILD),
        Ok(())
    );
    // A list that is too short leaves the model's device to the rest.
    assert_eq!(
        check(DeviceInfo::cpu(), &[Some(cuda(Some(9)))], FULL_BUILD),
        Err(CacheTypeError::Fp8Device { layer: 1 })
    );
}

#[test]
fn the_first_unsuitable_layer_is_named() {
    let model = Layers(vec![
        layer(true, false, 256),
        // Without a paged cache nothing is asked of a layer.
        layer(false, true, 100),
        layer(true, false, 100),
        layer(true, true, 256),
    ]);
    let check = |t: PagedCacheType, model: &Layers| {
        t.check(ElementType::F16, model, cuda(Some(8)), &[], FULL_BUILD)
    };
    assert_eq!(
        check(PagedCacheType::Turbo4, &model),
        Err(CacheTypeError::Turbo4HeadDim {
            layer: 2,
            k_head_dim: 100,
            v_head_dim: 100
        })
    );
    assert_eq!(
        check(PagedCacheType::F8E4M3, &model),
        Err(CacheTypeError::Fp8Mla { layer: 3 })
    );
    let suitable = Layers(model.0[..2].to_vec());
    assert_eq!(check(PagedCacheType::Turbo4, &suitable), Ok(()));
    assert_eq!(check(PagedCacheType::F8E4M3, &suitable), Ok(()));
}

#[test]
fn the_first_paged_layer_stands_for_the_model() {
    let mut plain = layer(true, false, 128);
    plain.num_kv_heads = 5;
    let packed = layer(true, false, 128);
    let settings = Turbo4Settings::default();
    let none = layer(false, false, 128);
    assert_eq!(
        plain_keys_notice(&Layers(vec![none, plain, packed]), settings),
        Some(PlainKeysNotice {
            gqa_ratio: 6,
            num_attn_heads: 32,
            num_kv_heads: 5
        })
    );
    let mut few = packed;
    few.num_kv_heads = 8;
    assert_eq!(plain_keys_notice(&Layers(vec![none, few, plain]), settings), None);
    assert_eq!(plain_keys_notice(&Layers(vec![none]), settings), None);
}

#[test]
fn fp8_messages() {
    assert_eq!(
        CacheTypeError::Fp8Mla { layer: 3 }.message(),
        "FP8 KV cache is not supported for MLA layer 3"
    );
    assert_eq!(
        CacheTypeError::Fp8ComputeCapability.message(),
        "FP8 KV cache requires CUDA compute capability 8.0 or newer and a matching CUDA build"
    );
    assert_eq!(
        CacheTypeError::Fp8NeedsCuda.message(),
        "FP8 KV cache requires the CUDA paged-attention backend"
    );
    assert_eq!(
        CacheTypeError::Fp8NeedsMetal.message(),
        "FP8 KV cache requires the Metal paged-attention backend"
    );
    assert_eq!(
        CacheTypeError::Fp8Device { layer: 10 }.message(),
        "FP8 KV cache is only supported on CUDA or Metal, got Cpu for layer 10"
    );
}

#[test]
fn fp8_capability_of_a_device() {
    assert!(cuda_supports_fp8(cuda(Some(8)), FULL_BUILD));
    assert!(!cuda_supports_fp8(cuda(Some(7)), FULL_BUILD));
    assert!(!cuda_supports_fp8(cuda(None), FULL_BUILD));
    assert!(!cuda_supports_fp8(metal(), FULL_BUILD));
    assert!(!cuda_supports_fp8(cuda(Some(9)), PLAIN_BUILD));
}

#[test]
fn settings_come_from_the_environment() {
    let read = |asymmetric: Option<&str>, adaptive: Option<&str>| {
        Turbo4Settings::from_env(
            &asymmetric.map(str::to_string),
            &adaptive.map(str::to_string),
        )
    };
    assert_eq!(read(None, None), Turbo4Settings::default());
    assert!(read(Some("0"), None).auto_asymmetric_disabled);
    assert!(!read(Some("1"), None).auto_asymmetric_disabled);
    assert!(!read(Some(""), None).auto_asymmetric_disabled);
    assert!(!read(Some("00"), None).auto_asymmetric_disabled);
    assert_eq!(read(None, Some("2")).adaptive_mode, 2);
    assert_eq!(read(None, Some("+1")).adaptive_mode, 1);
    assert_eq!(read(None, Some("-12")).adaptive_mode, -12);
    assert_eq!(read(None, Some("007")).adaptive_mode, 7);
    assert_eq!(read(None, Some("2147483647")).adaptive_mode, i32::MAX);
    assert_eq!(read(None, Some("-2147483648")).adaptive_mode, i32::MIN);
    assert_eq!(read(None, Some("2147483648")).adaptive_mode, 0);
    assert_eq!(read(None, Some("-2147483649")).adaptive_mode, 0);
    for text in ["", "-", "+", " 1", "1 ", "one", "1.0", "--1", "\u{661}"] {
        assert_eq!(read(None, Some(text)).adaptive_mode, 0, "{text:?}");
    }
}

#[test]
fn mitigations_turn_sides_plain() {
    let plan = |model: &ModelConfigMetadata, layer: usize, disabled: bool, mode: i32| {
        turbo4_layer_plan(
            model,
            layer,
            Turbo4Settings {
                auto_asymmetric_disabled: disabled,
                adaptive_mode: mode,
            },
        )
    };
    let packed = Turbo4LayerPlan {
        k_is_turbo: true,
        v_is_turbo: true,
    };
    let plain = Turbo4LayerPlan {
        k_is_turbo: false,
        v_is_turbo: false,
    };
    let mut model = model_config(KvCacheLayout::Standard);
    model.num_layers = 12;
    model.num_attn_heads = 4 * AUTO_ASYMMETRIC_GQA_THRESHOLD;
    assert!(!plan(&model, 5, false, 0).k_is_turbo);
    assert!(plan(&model, 5, false, 0).v_is_turbo);
    assert_eq!(plan(&model, 5, true, 0), packed);
    assert_eq!(plan(&model, 5, true, 1), packed);
    assert_eq!(plan(&model, 3, true, 1), plain);
    assert_eq!(plan(&model, 8, true, 1), plain);
    assert_eq!(plan(&model, 3, true, 2), packed);
    assert_eq!(plan(&model, 4, true, 2), plain);
    assert_eq!(plan(&model, 4, true, 3), packed);
    // A model without key heads counts as 1:1.
    model.num_kv_heads = 0;
    assert_eq!(plan(&model, 5, false, 0), packed);
}

#[test]
fn boundary_is_symmetric_and_has_eight_layers() {
    for n in 8..40usize {
        for mode in [1, 2] {
            let count = (0..n).filter(|&i| layer_is_boundary(mode, i, n)).count();
            assert_eq!(count, 8);
        }
        for i in 0..n {
            assert_eq!(
                layer_is_boundary(1, i, n),
                layer_is_boundary(1, n - 1 - i, n)
            );
        }
    }
    for n in 0..8usize {
        assert!((0..n).all(|i| !layer_is_boundary(1, i, n) && !layer_is_boundary(2, i, n)));
    }
}

#[test]
fn plain_keys_are_noticed() {
    let settings = Turbo4Settings::default();
    let mut model = model_config(KvCacheLayout::Standard);
    assert_eq!(plain_keys_notice(&model, settings), None);
    model.num_attn_heads = 30;
    assert_eq!(
        plain_keys_notice(&model, settings),
        Some(PlainKeysNotice {
            gqa_ratio: 7,
            num_attn_heads: 30,
            num_kv_heads: 4
        })
    );
    // At the boundary keys are plain whatever the ratio.
    model.num_layers = 8;
    model.num_kv_heads = 0;
    let boundary = Turbo4Settings {
        adaptive_mode: 2,
        ..settings
    };
    assert_eq!(
        plain_keys_notice(&model, boundary),
        Some(PlainKeysNotice {
            gqa_ratio: 0,
            num_attn_heads: 30,
            num_kv_heads: 0
        })
    );
    model.num_layers = 0;
    assert_eq!(plain_keys_notice(&model, boundary), None);
}

#[test]
fn zero_divides_only_zero() {
    assert!(is_multiple_of(0, 0));
    assert!(!is_multiple_of(3, 0));
    assert!(is_multiple_of(0, 7));
    assert!(is_multiple_of(21, 7));
    assert!(!is_multiple_of(22, 7));
}
