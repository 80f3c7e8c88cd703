use candle_core::{DType, Device};
use turbo_kv_cache::cache_engine::{
    fa3_prefill_cache_coverage, fa3_probe_for_shapes, layer_cache_shapes, CacheConfig, CacheDevice,
    CacheEngine, CacheError, Fa3PrefillProbe, LayerShapes,
};
use turbo_kv_cache::cache_type::{Backend, PagedCacheType, Turbo4Settings};
use turbo_kv_cache::model::{KvCacheLayout, LayerConfig, ModelConfigLike, ModelConfigMetadata};
use turbo_kv_cache::tensor::{DeviceKind, ElementType, TensorError};

const PLAIN_BUILD: Backend = Backend {
    cuda: false,
    metal: false,
    use_fp8: false,
};

const FULL_BUILD: Backend = Backend {
    cuda: true,
    metal: true,
    use_fp8: true,
};

fn model_config(layout: KvCacheLayout) -> ModelConfigMetadata {
    ModelConfigMetadata {
        max_seq_len: 4096,
        num_layers: 2,
        hidden_size: 1024,
        num_kv_heads: 4,
        num_attn_heads: 16,
        sliding_window: None,
        k_head_dim: 128,
        v_head_dim: 128,
        kv_cache_layout: layout,
    }
}

fn cache_config(cache_type: PagedCacheType) -> CacheConfig {
    CacheConfig {
        block_size: 32,
        num_gpu_blocks: 3,
        cache_type,
        kv_cache_group_ids: vec![0],
    }
}

fn on(handle: Device) -> CacheDevice {
    CacheDevice {
        handle,
        compute_major: None,
    }
}

fn cuda() -> CacheDevice {
    CacheDevice {
        handle: Device::Cuda(candle_core::CudaDevice),
        compute_major: Some(9),
    }
}

fn unplaced(n: usize) -> Vec<Option<CacheDevice>> {
    (0..n).map(|_| None).collect()
}

fn cpu_engine<M: ModelConfigLike>(
    model: &M,
    cache: &CacheConfig,
    dtype: ElementType,
    layers: usize,
) -> Result<CacheEngine, CacheError> {
    CacheEngine::new(
        model,
        cache,
        dtype,
        &on(Device::Cpu),
        unplaced(layers),
        PLAIN_BUILD,
        Turbo4Settings::default(),
    )
}

/// The shapes that the engine would give the tensors of a layer.
fn shapes<M: ModelConfigLike>(
    model: &M,
    cache: &CacheConfig,
    act_dtype: ElementType,
    kind: DeviceKind,
    layer: usize,
) -> LayerShapes {
    layer_cache_shapes(
        model,
        cache,
        cache.cache_type.to_dtype(act_dtype),
        act_dtype,
        kind,
        Turbo4Settings::default(),
        layer,
    )
}

/// A model some of whose layers keep no paged cache.
struct Hybrid {
    attention: ModelConfigMetadata,
    paged: fn(usize) -> bool,
}

fn even(layer_idx: usize) -> bool {
    layer_idx % 2 == 0
}

impl ModelConfigLike for Hybrid {
    fn layer_count(&self) -> usize {
        self.num_layers()
    }

    fn layer(&self, layer_idx: usize) -> LayerConfig {
        LayerConfig {
            has_paged_kv_cache: self.layer_has_paged_kv_cache(layer_idx),
            kv_cache_layout: self.kv_cache_layout_for_layer(layer_idx),
            num_attn_heads: self.num_attn_heads_for_layer(layer_idx),
            num_kv_heads: self.num_kv_heads_for_layer(layer_idx),
            k_head_dim: self.k_head_dim_for_layer(layer_idx),
            v_head_dim: self.v_head_dim_for_layer(layer_idx),
        }
    }

    fn num_layers(&self) -> usize {
        self.attention.num_layers
    }

    fn layer_has_paged_kv_cache(&self, layer_idx: usize) -> bool {
        (self.paged)(layer_idx)
    }

    fn kv_cache_layout_for_layer(&self, layer_idx: usize) -> KvCacheLayout {
        self.attention.kv_cache_layout_for_layer(layer_idx)
    }

    fn num_attn_heads_for_layer(&self, layer_idx: usize) -> usize {
        self.attention.num_attn_heads_for_layer(layer_idx)
    }

    fn num_kv_heads_for_layer(&self, layer_idx: usize) -> usize {
        self.attention.num_kv_heads_for_layer(layer_idx)
    }

    fn k_head_dim_for_layer(&self, layer_idx: usize) -> usize {
        self.attention.k_head_dim_for_layer(layer_idx) + layer_idx % 2
    }

    fn v_head_dim_for_layer(&self, layer_idx: usize) -> usize {
        self.attention.v_head_dim_for_layer(layer_idx)
    }
}

#[test]
fn turbo4_cache_allocates_packed_u8_blocks() {
    let model = model_config(KvCacheLayout::Standard);
    let cache = CacheConfig {
        block_size: 32,
        num_gpu_blocks: 3,
        cache_type: PagedCacheType::Turbo4,
        kv_cache_group_ids: vec![0],
    };
    let engine = CacheEngine::new(
        &model,
        &cache,
        ElementType::BF16,
        &on(Device::Cpu),
        unplaced(2),
        PLAIN_BUILD,
        Turbo4Settings::default(),
    )
    .unwrap();
    let kv_cache = engine.get_kv_cache();
    assert_eq!(kv_cache.len(), 2);
    for (key_blocks, value_blocks) in kv_cache.iter() {
        assert_eq!(key_blocks.dtype(), DType::U8);
        assert_eq!(value_blocks.dtype(), DType::U8);
        // Blocks, slots, heads, groups of a head, bytes of a group.
        assert_eq!(key_blocks.dims(), &[3, 32, 4, 1, 66]);
        assert_eq!(value_blocks.dims(), &[3, 32, 4, 1, 66]);
    }
}

#[test]
fn fa3_prefill_coverage_requires_compatible_registered_caches() {
    let mut model = model_config(KvCacheLayout::FlashInferHnd);
    model.k_head_dim = 256;
    model.v_head_dim = 256;
    let cache = CacheConfig {
        block_size: 32,
        num_gpu_blocks: 2,
        cache_type: PagedCacheType::F8E4M3,
        kv_cache_group_ids: vec![0],
    };
    let tensors = |model: &ModelConfigMetadata| -> Vec<LayerShapes> {
        (0..model.num_layers)
            .map(|i| shapes(model, &cache, ElementType::BF16, DeviceKind::Cuda, i))
            .collect()
    };
    let expected_num_sm = Some(132);
    let replies = vec![Ok(expected_num_sm), Ok(expected_num_sm)];
    assert_eq!(
        fa3_prefill_cache_coverage(&model, &cache, true, &tensors(&model), &replies),
        Ok(vec![expected_num_sm, expected_num_sm])
    );
    assert_eq!(
        fa3_prefill_cache_coverage(&model, &cache, false, &tensors(&model), &replies),
        Ok(vec![None, None])
    );

    model.v_head_dim = 128;
    assert_eq!(
        fa3_prefill_cache_coverage(&model, &cache, true, &tensors(&model), &replies),
        Ok(vec![None, None])
    );
}

#[test]
fn only_fitting_layers_are_asked_about() {
    let mut model = model_config(KvCacheLayout::FlashInferHnd);
    model.k_head_dim = 256;
    model.v_head_dim = 256;
    let cache = cache_config(PagedCacheType::F8E4M3);
    let asked = |model: &ModelConfigMetadata, cache: &CacheConfig, kind: DeviceKind| {
        let tensors = shapes(model, cache, ElementType::BF16, kind, 0);
        fa3_probe_for_shapes(model, cache, 0, &tensors)
    };
    let probe = Fa3PrefillProbe {
        q_heads: 16,
        kv_heads: 4,
        head_dim: 256,
        block_size: 32,
    };
    assert_eq!(asked(&model, &cache, DeviceKind::Cuda), Some(probe));
    // Elsewhere the layer has the standard layout.
    assert_eq!(asked(&model, &cache, DeviceKind::Metal), None);
    let auto = cache_config(PagedCacheType::Auto);
    assert_eq!(asked(&model, &auto, DeviceKind::Cuda), None);
    let mut uneven = model.clone();
    uneven.num_attn_heads = 18;
    assert_eq!(asked(&uneven, &cache, DeviceKind::Cuda), None);
    uneven.num_attn_heads = 0;
    assert_eq!(asked(&uneven, &cache, DeviceKind::Cuda), None);
    let mut headless = model.clone();
    headless.num_kv_heads = 0;
    assert_eq!(asked(&headless, &cache, DeviceKind::Cuda), None);
    let mut standard = model.clone();
    standard.kv_cache_layout = KvCacheLayout::Standard;
    assert_eq!(asked(&standard, &cache, DeviceKind::Cuda), None);
    // Tensors of another size are not those of the cache.
    let tensors = shapes(&model, &cache, ElementType::BF16, DeviceKind::Cuda, 0);
    let mut larger = cache.clone();
    larger.num_gpu_blocks = 4;
    assert_eq!(fa3_probe_for_shapes(&model, &larger, 0, &tensors), None);
    let hybrid = Hybrid {
        attention: model,
        paged: even,
    };
    let tensors = shapes(&hybrid, &cache, ElementType::BF16, DeviceKind::Cuda, 1);
    assert_eq!(fa3_probe_for_shapes(&hybrid, &cache, 1, &tensors), None);
}

#[test]
fn the_first_failed_reply_is_returned() {
    let mut model = model_config(KvCacheLayout::FlashInferHnd);
    model.k_head_dim = 256;
    model.v_head_dim = 256;
    model.num_layers = 3;
    let cache = cache_config(PagedCacheType::F8E4M3);
    let tensors: Vec<LayerShapes> = (0..3)
        .map(|i| shapes(&model, &cache, ElementType::BF16, DeviceKind::Cuda, i))
        .collect();
    let replies = vec![
        Ok(Some(8)),
        Err("second".to_string()),
        Err("third".to_string()),
    ];
    assert_eq!(
        fa3_prefill_cache_coverage(&model, &cache, true, &tensors, &replies),
        Err("second".to_string())
    );
    // A failure counts only where something was asked.
    let one = tensors[..1].to_vec();
    assert_eq!(
        fa3_prefill_cache_coverage(&model, &cache, true, &one, &replies),
        Ok(vec![Some(8), None, None])
    );
    let mut empty = cache.clone();
    empty.num_gpu_blocks = 0;
    assert_eq!(
        fa3_prefill_cache_coverage(&model, &empty, true, &tensors, &replies),
        Ok(vec![None, None, None])
    );
}

#[test]
fn engine_takes_coverage_in() {
    let mut model = model_config(KvCacheLayout::FlashInferHnd);
    model.k_head_dim = 256;
    model.v_head_dim = 256;
    let cache = cache_config(PagedCacheType::Auto);
    let mut engine = cpu_engine(&model, &cache, ElementType::F32, 2).unwrap();
    assert_eq!(engine.fa3_prefill_num_sm_by_layer(), &[None, None]);
    assert_eq!(engine.fa3_prefill_probe(&model, &cache, true, 0), None);
    assert_eq!(engine.fa3_prefill_probe(&model, &cache, true, 7), None);
    let replies = vec![Ok(Some(3)), Err("unasked".to_string())];
    assert_eq!(
        engine.cover_fa3_prefill(&model, &cache, true, &replies),
        Ok(())
    );
    assert_eq!(engine.fa3_prefill_num_sm_by_layer(), &[None, None]);
    assert_eq!(engine.get_kv_cache().len(), 2);
}

#[test]
fn standard_layout_splits_keys() {
    let mut model = model_config(KvCacheLayout::Standard);
    model.v_head_dim = 64;
    assert_eq!(
        CacheEngine::calculate_key_block_shape(&model, ElementType::BF16, 32, 0),
        (4, 16, 32, 8)
    );
    assert_eq!(
        CacheEngine::calculate_key_block_shape(&model, ElementType::F8E4M3, 32, 0),
        (4, 8, 32, 16)
    );
    assert_eq!(
        CacheEngine::calculate_key_block_shape(&model, ElementType::F64, 16, 1),
        (4, 64, 16, 2)
    );
    assert_eq!(
        CacheEngine::calculate_value_block_shape(&model, 32, 0),
        (4, 64, 32)
    );
    assert_eq!(
        CacheEngine::calculate_flashinfer_block_shape(&model, 32, 0),
        (4, 32, 128)
    );
    let cache = cache_config(PagedCacheType::Auto);
    for layout in [
        KvCacheLayout::Standard,
        KvCacheLayout::StandardNoFlashInfer,
        // Not on CUDA.
        KvCacheLayout::FlashInferHnd,
    ] {
        model.kv_cache_layout = layout;
        let engine = cpu_engine(&model, &cache, ElementType::F32, 2).unwrap();
        for (key, value) in engine.get_kv_cache() {
            assert_eq!(key.dims(), &[3, 4, 32, 32, 4]);
            assert_eq!(value.dims(), &[3, 4, 64, 32]);
            assert_eq!(key.dtype(), DType::F32);
            assert_eq!(key.elem_count(), 3 * 4 * 32 * 128);
        }
    }
}

#[test]
fn flashinfer_layout_is_for_cuda() {
    let model = model_config(KvCacheLayout::FlashInferHnd);
    let cache = cache_config(PagedCacheType::F8E4M3);
    let got = shapes(&model, &cache, ElementType::BF16, DeviceKind::Cuda, 0);
    assert_eq!(got.key.dims, vec![3, 4, 32, 128]);
    assert_eq!(got.value.dims, vec![3, 4, 32, 128]);
    assert_eq!(got.key.dtype, ElementType::F8E4M3);
    let got = shapes(&model, &cache, ElementType::BF16, DeviceKind::Metal, 0);
    assert_eq!(got.key.dims, vec![3, 4, 8, 32, 16]);
    assert_eq!(got.value.dims, vec![3, 4, 128, 32]);
}

#[test]
fn mla_layout_keeps_the_latent_vectors() {
    let model = model_config(KvCacheLayout::Mla {
        kv_lora_rank: 512,
        kpe_head_dim: 64,
    });
    let cache = cache_config(PagedCacheType::Auto);
    let engine = cpu_engine(&model, &cache, ElementType::BF16, 2).unwrap();
    for (key, value) in engine.get_kv_cache() {
        assert_eq!(key.dims(), &[3, 32, 512]);
        assert_eq!(value.dims(), &[3, 32, 64]);
        assert_eq!(value.dtype(), DType::BF16);
    }
}

#[test]
fn plain_sides_hold_the_compute_type() {
    let mut model = model_config(KvCacheLayout::Standard);
    model.num_attn_heads = 24;
    model.v_head_dim = 256;
    let cache = cache_config(PagedCacheType::Turbo4);
    let engine = cpu_engine(&model, &cache, ElementType::F16, 2).unwrap();
    for (key, value) in engine.get_kv_cache() {
        assert_eq!(key.dims(), &[3, 32, 4, 128]);
        assert_eq!(key.dtype(), DType::F16);
        assert_eq!(value.dims(), &[3, 32, 4, 2, 66]);
        assert_eq!(value.dtype(), DType::U8);
        // 33 bits for every eight coefficients.
        assert_eq!(8 * 8 * value.elem_count(), 33 * 3 * 32 * 4 * 256);
    }
}

#[test]
fn layers_without_a_cache_keep_their_places() {
    let hybrid = Hybrid {
        attention: model_config(KvCacheLayout::Standard),
        paged: even,
    };
    for cache_type in [PagedCacheType::Auto, PagedCacheType::Turbo4] {
        let cache = cache_config(cache_type);
        let engine = cpu_engine(&hybrid, &cache, ElementType::F32, 2).unwrap();
        let kv_cache = engine.get_kv_cache();
        assert_eq!(kv_cache.len(), 2);
        assert_eq!(kv_cache[0].0.dims()[0], 3);
        assert_eq!(kv_cache[1].0.dims()[0], 0);
        assert_eq!(kv_cache[1].0.elem_count(), 0);
        assert_eq!(kv_cache[1].1.elem_count(), 0);
        assert_eq!(kv_cache[0].0.dims().len(), kv_cache[1].0.dims().len());
        assert_eq!(kv_cache[0].1.dims()[1..], kv_cache[1].1.dims()[1..]);
    }
}

#[test]
fn the_device_list_bounds_the_layers() {
    let model = model_config(KvCacheLayout::Standard);
    let cache = cache_config(PagedCacheType::Auto);
    for (devices, layers) in [(0, 0), (1, 1), (2, 2), (5, 2)] {
        let engine = cpu_engine(&model, &cache, ElementType::F32, devices).unwrap();
        assert_eq!(engine.get_kv_cache().len(), layers);
        assert_eq!(engine.fa3_prefill_num_sm_by_layer().len(), 2);
    }
}

#[test]
fn engine_refuses_what_does_not_suit() {
    let model = model_config(KvCacheLayout::Standard);
    let cache = cache_config(PagedCacheType::F8E4M3);
    match cpu_engine(&model, &cache, ElementType::BF16, 2) {
        Err(CacheError::Invalid(s)) => assert_eq!(
            s,
            "FP8 KV cache is only supported on CUDA or Metal, got Cpu for layer 0"
        ),
        _ => panic!("the cache should have been refused"),
    }
}

#[test]
fn engine_refuses_to_split_small_elements() {
    let mut model = model_config(KvCacheLayout::Standard);
    let cache = cache_config(PagedCacheType::Auto);
    assert!(matches!(
        cpu_engine(&model, &cache, ElementType::F4, 2),
        Err(CacheError::SubByteElements)
    ));
    // Nothing is split here, but CPU memory cannot hold the elements.
    model.kv_cache_layout = KvCacheLayout::Mla {
        kv_lora_rank: 512,
        kpe_head_dim: 64,
    };
    assert!(matches!(
        cpu_engine(&model, &cache, ElementType::F4, 2),
        Err(CacheError::Tensor(TensorError::Candle(_)))
    ));
    assert!(cpu_engine(&model, &cache, ElementType::F4, 0).is_ok());
}

#[test]
fn engine_refuses_tensors_beyond_the_address_space() {
    let model = model_config(KvCacheLayout::Standard);
    let mut cache = cache_config(PagedCacheType::Auto);
    cache.num_gpu_blocks = usize::MAX / 8;
    assert!(matches!(
        cpu_engine(&model, &cache, ElementType::F32, 2),
        Err(CacheError::Tensor(TensorError::TooLarge))
    ));
}

#[test]
fn each_layer_gets_its_own_device() {
    let model = model_config(KvCacheLayout::Standard);
    let cache = cache_config(PagedCacheType::Auto);
    // The model's device cannot make tensors here, the layers' own can.
    let engine = CacheEngine::new(
        &model,
        &cache,
        ElementType::F32,
        &cuda(),
        vec![Some(on(Device::Cpu)), Some(on(Device::Cpu))],
        FULL_BUILD,
        Turbo4Settings::default(),
    )
    .unwrap();
    assert!(engine.get_kv_cache()[1].0.device().is_cpu());
    let mixed = CacheEngine::new(
        &model,
        &cache,
        ElementType::F32,
        &on(Device::Cpu),
        vec![None, Some(cuda())],
        FULL_BUILD,
        Turbo4Settings::default(),
    );
    assert!(matches!(
        mixed,
        Err(CacheError::Tensor(TensorError::Candle(_)))
    ));
}

#[test]
fn devices_describe_themselves() {
    assert_eq!(on(Device::Cpu).info().kind, DeviceKind::Cpu);
    assert_eq!(cuda().info().kind, DeviceKind::Cuda);
    assert_eq!(cuda().info().compute_major, Some(9));
    let metal = on(Device::Metal(candle_core::MetalDevice));
    assert_eq!(metal.info().kind, DeviceKind::Metal);
}

#[test]
fn empty_layers_take_no_room() {
    let mut attention = model_config(KvCacheLayout::Standard);
    attention.v_head_dim = usize::MAX / 256;
    let unpaged = Hybrid {
        attention,
        paged: |_| false,
    };
    let cache = cache_config(PagedCacheType::Auto);
    let engine = cpu_engine(&unpaged, &cache, ElementType::F64, 2).unwrap();
    assert_eq!(
        engine.get_kv_cache()[1].1.dims(),
        &[0, 4, usize::MAX / 256, 32]
    );
}

#[test]
fn no_two_caches_share_a_tensor() {
    let mut model = model_config(KvCacheLayout::Standard);
    model.num_layers = 5;
    let cache = cache_config(PagedCacheType::Turbo4);
    let engine = cpu_engine(&model, &cache, ElementType::BF16, 5).unwrap();
    let tensors: Vec<_> = engine
        .get_kv_cache()
        .iter()
        .flat_map(|(key, value)| [key, value])
        .collect();
    for i in 0..tensors.len() {
        for j in 0..i {
            assert!(tensors[i].id() != tensors[j].id());
        }
        assert!(tensors[i].is_contiguous());
    }
}

#[test]
fn turbo4_caches_start_zeroed() {
    let mut model = model_config(KvCacheLayout::FlashInferHnd);
    model.num_attn_heads = 24;
    let cache = cache_config(PagedCacheType::Turbo4);
    let engine = cpu_engine(&model, &cache, ElementType::F32, 2).unwrap();
    for (key, value) in engine.get_kv_cache() {
        let keys = key.flatten_all().unwrap().to_vec1::<f32>().unwrap();
        assert_eq!(keys, vec![0.0; 3 * 32 * 4 * 128]);
        let values = value.flatten_all().unwrap().to_vec1::<u8>().unwrap();
        assert_eq!(values, vec![0; 3 * 32 * 4 * 66]);
    }
}
