//! Which models a cache format suits and which sides of a Turbo4 cache are packed, said of the
//! fields of layers, devices and builds.
use crate::cache_type::{
    Backend, CacheTypeError, DeviceInfo, PagedCacheType, PlainKeysNotice, Turbo4Settings,
    first_error, first_paged_layer, fp8_capable, fp8_layer_error, is_boundary, layer_device,
    layer_plan, multiple_of, number_i32, plain_keys, turbo4_layer_error,
};
use crate::laws::lemma_first_error;
use crate::model::{LayerConfig, ModelConfigLike, ModelConfigMetadata};
use crate::tensor::ElementType;
use vstd::arithmetic::div_mod::{lemma_fundamental_div_mod, lemma_fundamental_div_mod_converse};
use vstd::prelude::*;

verus! {

/// A number is a multiple of another if it is that number some times over, and only then.
pub proof fn lemma_multiples(a: nat, b: nat)
    ensures
        multiple_of(a, b) <==> exists|c: nat| a == #[trigger] (b * c),
{
    if b == 0 {
        if a == 0 {
            assert(a == b * 0nat);
        }
        assert forall|c: nat| a == #[trigger] (b * c) implies a == 0 by {
            assert(0 * c == 0) by (nonlinear_arith);
        }
    } else {
        if a % b == 0 {
            lemma_fundamental_div_mod(a as int, b as int);
            assert(a == b * (a / b));
        }
        assert forall|c: nat| a == #[trigger] (b * c) implies a % b == 0 by {
            assert(b * c == c * b) by (nonlinear_arith);
            lemma_fundamental_div_mod_converse(a as int, b as int, c as int, 0);
        }
    }
}

/// The layers at the boundary, counted from the first and from the last: four at either end in mode
/// 1, eight at the end in mode 2, and none in a model of fewer than eight layers.
pub proof fn lemma_boundary_places(adaptive_mode: i32, layer_idx: usize, n_layer: usize)
    ensures
        is_boundary(adaptive_mode, layer_idx as int, n_layer as int) <==> n_layer >= 8 && ((
        adaptive_mode == 1 && (layer_idx < 4 || layer_idx + 4 >= n_layer)) || (adaptive_mode == 2
            && layer_idx + 8 >= n_layer)),
{
}

/// A side of a layer is packed by the place of the layer and, for keys, by its head counts: unless
/// that mitigation is off, keys are plain from six query heads for each key head on.
pub proof fn lemma_packed_by_head_counts<M: ModelConfigLike>(
    model_config: M,
    layer_idx: usize,
    settings: Turbo4Settings,
)
    ensures
        ({
            let plan = layer_plan(model_config, layer_idx, settings);
            let n = model_config.layer_count();
            let kv = model_config.layer(layer_idx).num_kv_heads;
            let q = model_config.layer(layer_idx).num_attn_heads;
            let mode = settings.adaptive_mode;
            let boundary = n >= 8 && ((mode == 1 && (layer_idx < 4 || layer_idx + 4 >= n)) || (mode
                == 2 && layer_idx + 8 >= n));
            &&& plan.v_is_turbo <==> !boundary
            &&& plan.k_is_turbo <==> !boundary && (settings.auto_asymmetric_disabled || kv == 0
                || q < 6 * kv)
        }),
{
    let kv = model_config.layer(layer_idx).num_kv_heads as int;
    let q = model_config.layer(layer_idx).num_attn_heads as int;
    if kv > 0 {
        lemma_ratio_below(q, kv, 6);
    }
}

/// A quotient lies below a number exactly if the dividend lies below so many divisors.
proof fn lemma_ratio_below(a: int, b: int, c: int)
    requires
        a >= 0,
        b > 0,
    ensures
        a / b < c <==> a < c * b,
{
    lemma_fundamental_div_mod(a, b);
    let d = a / b;
    let r = a % b;
    assert(d < c <==> b * d + r < c * b) by (nonlinear_arith)
        requires
            0 <= r < b,
    ;
}

/// Query heads more never pack keys, and key heads more never unpack them, while there are any.
pub proof fn lemma_sharing_decides<M: ModelConfigLike>(
    few: M,
    many: M,
    layer_idx: usize,
    settings: Turbo4Settings,
)
    requires
        few.layer_count() == many.layer_count(),
        0 < many.layer(layer_idx).num_kv_heads <= few.layer(layer_idx).num_kv_heads,
        few.layer(layer_idx).num_attn_heads <= many.layer(layer_idx).num_attn_heads,
        layer_plan(many, layer_idx, settings).k_is_turbo,
    ensures
        layer_plan(few, layer_idx, settings).k_is_turbo,
{
    lemma_packed_by_head_counts(few, layer_idx, settings);
    lemma_packed_by_head_counts(many, layer_idx, settings);
}

/// A device computes with FP8 elements exactly if it is a CUDA device whose driver reports a major
/// compute capability of eight or more, and the kernels were built for them.
pub proof fn lemma_fp8_capability(device: DeviceInfo, backend: Backend)
    ensures
        fp8_capable(device, backend) <==> backend.use_fp8 && device.kind is Cuda && (
        device.compute_major matches Some(major) && major >= 8),
{
}

/// A device that is newer than one that is capable is capable.
pub proof fn lemma_newer_devices_stay_capable(older: DeviceInfo, newer: DeviceInfo, backend: Backend)
    requires
        older.kind == newer.kind,
        older.compute_major is Some,
        newer.compute_major is Some,
        newer.compute_major->0 >= older.compute_major->0,
        fp8_capable(older, backend),
    ensures
        fp8_capable(newer, backend),
{
}

/// What keeps a layer from running with an FP8 cache, if anything does: no paged cache, nothing;
/// then the MLA layout, then the build, then the device.
pub proof fn lemma_fp8_layer(
    layer: LayerConfig,
    layer_idx: usize,
    device: DeviceInfo,
    backend: Backend,
)
    ensures
        ({
            let paged = layer.has_paged_kv_cache;
            let mla = layer.kv_cache_layout is Mla;
            let new_enough = device.compute_major matches Some(major) && major >= 8;
            match fp8_layer_error(layer, layer_idx, device, backend) {
                None => paged ==> !mla && ((device.kind is Cuda && backend.cuda && backend.use_fp8
                    && new_enough) || (device.kind is Metal && backend.metal)),
                Some(CacheTypeError::Fp8Mla { layer: i }) => paged && mla && i == layer_idx,
                Some(CacheTypeError::Fp8NeedsCuda) => paged && !mla && device.kind is Cuda
                    && !backend.cuda,
                Some(CacheTypeError::Fp8ComputeCapability) => paged && !mla && device.kind is Cuda
                    && backend.cuda && !(backend.use_fp8 && new_enough),
                Some(CacheTypeError::Fp8NeedsMetal) => paged && !mla && device.kind is Metal
                    && !backend.metal,
                Some(CacheTypeError::Fp8Device { layer: i }) => paged && !mla && device.kind is Cpu
                    && i == layer_idx,
                _ => false,
            }
        }),
{
}

/// What keeps a layer from running with a Turbo4 cache, if anything does: no paged cache, nothing;
/// then the MLA layout, then heads that are not whole groups of 128.
pub proof fn lemma_turbo4_layer(layer: LayerConfig, layer_idx: usize)
    ensures
        ({
            let paged = layer.has_paged_kv_cache;
            let mla = layer.kv_cache_layout is Mla;
            let whole = layer.k_head_dim % 128 == 0 && layer.v_head_dim % 128 == 0;
            match turbo4_layer_error(layer, layer_idx) {
                None => paged ==> !mla && whole,
                Some(CacheTypeError::Turbo4Mla { layer: i }) => paged && mla && i == layer_idx,
                Some(CacheTypeError::Turbo4HeadDim { layer: i, k_head_dim, v_head_dim }) => paged
                    && !mla && !whole && i == layer_idx && k_head_dim == layer.k_head_dim
                    && v_head_dim == layer.v_head_dim,
                _ => false,
            }
        }),
{
}

/// A layer runs on its own device where it has one, and else on the model's.
pub proof fn lemma_layer_devices(
    device: DeviceInfo,
    layer_devices: Seq<Option<DeviceInfo>>,
    i: int,
)
    requires
        0 <= i,
    ensures
        i < layer_devices.len() && layer_devices[i] is Some ==> Some(
            layer_device(device, layer_devices, i),
        ) == layer_devices[i],
        i >= layer_devices.len() || layer_devices[i] is None ==> layer_device(
            device,
            layer_devices,
            i,
        ) == device,
{
}

/// An FP8 cache is accepted exactly if the activations are f16, bf16 or f32 and every layer with a
/// paged cache is free of MLA and runs on a capable CUDA device or on Metal, in a build for it.
pub proof fn lemma_fp8_accepted<M: ModelConfigLike>(
    act_dtype: ElementType,
    model_config: M,
    device: DeviceInfo,
    layer_devices: Seq<Option<DeviceInfo>>,
    backend: Backend,
)
    ensures
        PagedCacheType::F8E4M3.validation(act_dtype, model_config, device, layer_devices, backend)
            is None <==> (act_dtype is F16 || act_dtype is BF16 || act_dtype is F32) && (forall|
            i: usize,
        |
            i < model_config.layer_count() && (
            #[trigger] model_config.layer(i)).has_paged_kv_cache ==> {
                let own = if i < layer_devices.len() && layer_devices[i as int] is Some {
                    layer_devices[i as int]->0
                } else {
                    device
                };
                &&& !(model_config.layer(i).kv_cache_layout is Mla)
                &&& {
                    ||| own.kind is Cuda && backend.cuda && backend.use_fp8
                        && own.compute_major is Some && own.compute_major->0 >= 8
                    ||| own.kind is Metal && backend.metal
                }
            }),
        !(act_dtype is F16 || act_dtype is BF16 || act_dtype is F32)
            ==> PagedCacheType::F8E4M3.validation(
            act_dtype,
            model_config,
            device,
            layer_devices,
            backend,
        ) == Some(CacheTypeError::Fp8Activations { dtype: act_dtype }),
{
    let errors = |i: usize|
        fp8_layer_error(
            model_config.layer(i),
            i,
            layer_device(device, layer_devices, i as int),
            backend,
        );
    let n = model_config.layer_count();
    lemma_first_error(errors, 0, n);
    if first_error(errors, 0, n) is None {
        assert forall|i: usize|
            i < n && (#[trigger] model_config.layer(i)).has_paged_kv_cache implies {
            let own = if i < layer_devices.len() && layer_devices[i as int] is Some {
                layer_devices[i as int]->0
            } else {
                device
            };
            &&& !(model_config.layer(i).kv_cache_layout is Mla)
            &&& {
                ||| own.kind is Cuda && backend.cuda && backend.use_fp8
                    && own.compute_major is Some && own.compute_major->0 >= 8
                ||| own.kind is Metal && backend.metal
            }
        } by {
            assert(errors(i) is None);
        }
    } else {
        let i = choose|i: usize|
            0 <= i < n && #[trigger] errors(i) == first_error(errors, 0, n) && (forall|j: usize|
                0 <= j < i ==> #[trigger] errors(j) is None);
        assert(errors(i) is Some);
        assert(model_config.layer(i).has_paged_kv_cache);
    }
}

/// A Turbo4 cache is accepted exactly if every layer with a paged cache is free of MLA and has heads
/// of whole groups of 128, whatever the activations, the devices and the build.
pub proof fn lemma_turbo4_accepted<M: ModelConfigLike>(
    act_dtype: ElementType,
    model_config: M,
    device: DeviceInfo,
    layer_devices: Seq<Option<DeviceInfo>>,
    backend: Backend,
)
    ensures
        PagedCacheType::Turbo4.validation(act_dtype, model_config, device, layer_devices, backend)
            is None <==> (forall|i: usize|
            i < model_config.layer_count() && (
            #[trigger] model_config.layer(i)).has_paged_kv_cache ==> {
                &&& !(model_config.layer(i).kv_cache_layout is Mla)
                &&& model_config.layer(i).k_head_dim % 128 == 0
                &&& model_config.layer(i).v_head_dim % 128 == 0
            }),
{
    let errors = |i: usize| turbo4_layer_error(model_config.layer(i), i);
    let n = model_config.layer_count();
    lemma_first_error(errors, 0, n);
    if first_error(errors, 0, n) is None {
        assert forall|i: usize|
            i < n && (#[trigger] model_config.layer(i)).has_paged_kv_cache implies {
            &&& !(model_config.layer(i).kv_cache_layout is Mla)
            &&& model_config.layer(i).k_head_dim % 128 == 0
            &&& model_config.layer(i).v_head_dim % 128 == 0
        } by {
            assert(errors(i) is None);
        }
    } else {
        let i = choose|i: usize|
            0 <= i < n && #[trigger] errors(i) == first_error(errors, 0, n) && (forall|j: usize|
                0 <= j < i ==> #[trigger] errors(j) is None);
        assert(errors(i) is Some);
        assert(model_config.layer(i).has_paged_kv_cache);
    }
}

/// A refused FP8 or Turbo4 cache is refused for a layer that is at fault, and no layer before it is.
pub proof fn lemma_refusals_name_the_first_fault<M: ModelConfigLike>(
    t: PagedCacheType,
    act_dtype: ElementType,
    model_config: M,
    device: DeviceInfo,
    layer_devices: Seq<Option<DeviceInfo>>,
    backend: Backend,
)
    requires
        t is Turbo4 || act_dtype is F16 || act_dtype is BF16 || act_dtype is F32,
    ensures
        ({
            let error = |i: usize|
                if t is Turbo4 {
                    turbo4_layer_error(model_config.layer(i), i)
                } else {
                    fp8_layer_error(
                        model_config.layer(i),
                        i,
                        if i < layer_devices.len() && layer_devices[i as int] is Some {
                            layer_devices[i as int]->0
                        } else {
                            device
                        },
                        backend,
                    )
                };
            let refused = t.validation(act_dtype, model_config, device, layer_devices, backend);
            refused is Some ==> exists|i: usize|
                i < model_config.layer_count() && refused == #[trigger] error(i) && (forall|
                    j: usize,
                |
                    j < i ==> #[trigger] error(j) is None)
        }),
{
    let error = |i: usize|
        if t is Turbo4 {
            turbo4_layer_error(model_config.layer(i), i)
        } else {
            fp8_layer_error(
                model_config.layer(i),
                i,
                if i < layer_devices.len() && layer_devices[i as int] is Some {
                    layer_devices[i as int]->0
                } else {
                    device
                },
                backend,
            )
        };
    let refused = t.validation(act_dtype, model_config, device, layer_devices, backend);
    if refused is Some {
        let errors = if t is Turbo4 {
            |i: usize| turbo4_layer_error(model_config.layer(i), i)
        } else {
            |i: usize|
                fp8_layer_error(
                    model_config.layer(i),
                    i,
                    layer_device(device, layer_devices, i as int),
                    backend,
                )
        };
        let n = model_config.layer_count();
        lemma_first_error(errors, 0, n);
        assert(refused == first_error(errors, 0, n));
        let i = choose|i: usize|
            0 <= i < n && #[trigger] errors(i) == first_error(errors, 0, n) && (forall|j: usize|
                0 <= j < i ==> #[trigger] errors(j) is None);
        assert forall|j: usize| #[trigger] error(j) == errors(j) by {}
        assert(refused == error(i));
        assert forall|j: usize| j < i implies #[trigger] error(j) is None by {
            assert(errors(j) is None);
        }
    }
}

/// The element types of the formats.
pub proof fn lemma_format_dtypes(act_dtype: ElementType)
    ensures
        PagedCacheType::Auto.dtype(act_dtype) == act_dtype,
        PagedCacheType::F8E4M3.dtype(act_dtype) is F8E4M3,
        PagedCacheType::Turbo4.dtype(act_dtype) is U8,
{
}

/// The first layer with a paged cache, from an index on.
proof fn lemma_first_paged<M: ModelConfigLike>(model_config: M, from: int)
    requires
        0 <= from <= model_config.layer_count(),
    ensures
        match first_paged_layer(model_config, from) {
            None => forall|j: usize|
                from <= j < model_config.layer_count() ==> !(
                #[trigger] model_config.layer(j)).has_paged_kv_cache,
            Some(i) => {
                &&& from <= i < model_config.layer_count()
                &&& model_config.layer(i).has_paged_kv_cache
                &&& forall|j: usize|
                    from <= j < i ==> !(#[trigger] model_config.layer(j)).has_paged_kv_cache
            },
        },
    decreases model_config.layer_count() - from,
{
    if from < model_config.layer_count() && !model_config.layer(
        from as usize,
    ).has_paged_kv_cache {
        lemma_first_paged(model_config, from + 1);
    }
}

/// The notice on plain keys speaks of the first layer with a paged cache, exactly where its keys are
/// plain, and gives its head counts and how often the key heads go into the query heads.
pub proof fn lemma_notice_tells_of_first_paged_layer<M: ModelConfigLike>(
    model_config: M,
    settings: Turbo4Settings,
    i: usize,
)
    requires
        i < model_config.layer_count(),
        model_config.layer(i).has_paged_kv_cache,
        forall|j: usize| j < i ==> !(#[trigger] model_config.layer(j)).has_paged_kv_cache,
    ensures
        ({
            let layer = model_config.layer(i);
            let (q, kv) = (layer.num_attn_heads, layer.num_kv_heads);
            match plain_keys(model_config, settings) {
                None => layer_plan(model_config, i, settings).k_is_turbo,
                Some(notice) => {
                    &&& !layer_plan(model_config, i, settings).k_is_turbo
                    &&& notice.num_attn_heads == q
                    &&& notice.num_kv_heads == kv
                    &&& kv == 0 ==> notice.gqa_ratio == 0
                    &&& kv > 0 ==> notice.gqa_ratio * kv <= q < (notice.gqa_ratio + 1) * kv
                },
            }
        }),
{
    lemma_first_paged(model_config, 0);
    let first = first_paged_layer(model_config, 0);
    assert(first is Some) by {
        if first is None {
            assert(!model_config.layer(i).has_paged_kv_cache);
        }
    }
    assert(first->0 == i) by {
        if first->0 < i {
            assert(!model_config.layer(first->0).has_paged_kv_cache);
        }
        if i < first->0 {
            assert(!model_config.layer(i).has_paged_kv_cache);
        }
    }
    let (q, kv) = (
        model_config.layer(i).num_attn_heads as int,
        model_config.layer(i).num_kv_heads as int,
    );
    if kv > 0 {
        lemma_fundamental_div_mod(q, kv);
        let (d, r) = (q / kv, q % kv);
        assert(d * kv <= q < (d + 1) * kv) by (nonlinear_arith)
            requires
                q == kv * d + r,
                0 <= r < kv,
        ;
    }
}

/// Without a paged layer there is nothing to say of keys.
pub proof fn lemma_no_notice_without_paged_layers<M: ModelConfigLike>(
    model_config: M,
    settings: Turbo4Settings,
)
    requires
        forall|j: usize|
            j < model_config.layer_count() ==> !(
            #[trigger] model_config.layer(j)).has_paged_kv_cache,
    ensures
        plain_keys(model_config, settings) == None::<PlainKeysNotice>,
{
    lemma_first_paged(model_config, 0);
}

/// What texts ask for: keys stay packed for a lone zero and for nothing else, and the mode is the
/// number that is written, or none where none is.
pub proof fn lemma_settings_asked_for(
    auto_asymmetric: Option<Seq<char>>,
    layer_adaptive: Option<Seq<char>>,
)
    ensures
        ({
            let s = Turbo4Settings::asked_for(auto_asymmetric, layer_adaptive);
            &&& s.auto_asymmetric_disabled <==> (auto_asymmetric matches Some(t) && t.len() == 1
                && t[0] == '0')
            &&& layer_adaptive is None ==> s.adaptive_mode == 0
            &&& layer_adaptive matches Some(t) ==> (if number_i32(t) is Some {
                Some(s.adaptive_mode) == number_i32(t)
            } else {
                s.adaptive_mode == 0
            })
        }),
{
    reveal_strlit("0");
    assert("0"@ =~= seq!['0']);
    if auto_asymmetric is Some && auto_asymmetric->0.len() == 1 && auto_asymmetric->0[0] == '0' {
        assert(auto_asymmetric->0 =~= "0"@);
    }
}

/// A model whose layers are all alike has as many as it says, and each has a paged cache, the layout
/// of the model and its head counts and dimensions.
pub proof fn lemma_uniform_models(m: ModelConfigMetadata, i: usize)
    ensures
        m.layer_count() == m.num_layers,
        m.layer(i).has_paged_kv_cache,
        m.layer(i).kv_cache_layout == m.kv_cache_layout,
        m.layer(i).num_attn_heads == m.num_attn_heads,
        m.layer(i).num_kv_heads == m.num_kv_heads,
        m.layer(i).k_head_dim == m.k_head_dim,
        m.layer(i).v_head_dim == m.v_head_dim,
{
}

} // verus!
