//! What holds across the parts of the library: which models a cache format suits, what the caches
//! of a model look like, and that the kernels take the caches that the engine makes.
use crate::cache_engine::{
    CacheConfig, CacheRequest, Fa3PrefillProbe, KVCache, LayerShapesView, all_ok, cache_shapes,
    fa3_answers, fa3_asked, fa3_probe, layer_blocks, plain_shapes, run_length, splits_keys, turbo4_shapes,
    turbo4_side,
};
use crate::cache_type::{
    Backend, CacheTypeError, DeviceInfo, PagedCacheType, Turbo4LayerPlan, Turbo4Settings,
    first_error, fp8_layer_error, gqa_ratio, is_boundary, layer_device, layer_plan,
    multiple_of, turbo4_layer_error,
};
use crate::gather::{GatherPlan, counted, plain_plan, turbo4_plan};
use crate::kernels::{
    KernelErrorView, MAX_FUSED_DECODE_CONTEXT_TOKENS, MAX_GROUPS_PER_HEAD, is_table_dtype,
};
use crate::model::{LayerConfig, ModelConfigLike};
use crate::paged_attention::{SideInfo, decode_heads, decode_plan};
use crate::tensor::{
    DeviceKind, ElementType, MetaView, ShapeView, born_zeroed, dtype_size, elements, tensor_dims,
    tensor_dtype, tensor_meta,
};
use crate::turbo_quant::{BLOCK_TURBO4_BYTES, GROUP};
use vstd::prelude::*;

verus! {

/// Values stay plain only where keys do.
pub proof fn lemma_plain_values_mean_plain_keys<M: ModelConfigLike>(
    model_config: M,
    layer_idx: usize,
    settings: Turbo4Settings,
)
    ensures
        !layer_plan(model_config, layer_idx, settings).v_is_turbo ==> !layer_plan(
            model_config,
            layer_idx,
            settings,
        ).k_is_turbo,
{
}

/// With both mitigations off, both sides of every layer are packed.
pub proof fn lemma_mitigations_off<M: ModelConfigLike>(
    model_config: M,
    layer_idx: usize,
    settings: Turbo4Settings,
)
    requires
        settings.auto_asymmetric_disabled,
        settings.adaptive_mode != 1,
        settings.adaptive_mode != 2,
    ensures
        layer_plan(model_config, layer_idx, settings) == (Turbo4LayerPlan {
            k_is_turbo: true,
            v_is_turbo: true,
        }),
{
}

/// Away from the boundary, values are packed, and keys are unless six query heads or more share
/// each of them.
pub proof fn lemma_inner_layers<M: ModelConfigLike>(
    model_config: M,
    layer_idx: usize,
    settings: Turbo4Settings,
)
    requires
        !is_boundary(
            settings.adaptive_mode,
            layer_idx as int,
            model_config.layer_count() as int,
        ),
    ensures
        layer_plan(model_config, layer_idx, settings).v_is_turbo,
        layer_plan(model_config, layer_idx, settings).k_is_turbo <==> (
        settings.auto_asymmetric_disabled || gqa_ratio(model_config.layer(layer_idx)) < 6),
{
}

/// A model of fewer than eight layers has no boundary, nor has any model in a mode other than the
/// two known ones.
pub proof fn lemma_no_boundary(adaptive_mode: i32, layer_idx: usize, n_layer: usize)
    requires
        n_layer < 8 || (adaptive_mode != 1 && adaptive_mode != 2),
    ensures
        !is_boundary(adaptive_mode, layer_idx as int, n_layer as int),
{
}

/// In mode 1 the boundary is the same seen from either end of the model.
pub proof fn lemma_boundary_is_symmetric(layer_idx: usize, n_layer: usize)
    requires
        layer_idx < n_layer,
    ensures
        is_boundary(1, layer_idx as int, n_layer as int) == is_boundary(
            1,
            n_layer - 1 - layer_idx,
            n_layer as int,
        ),
{
}

/// The layers among the first `n` of `n_layer` that lie at the boundary.
pub open spec fn boundary_layers(adaptive_mode: i32, n: nat, n_layer: int) -> nat
    decreases n,
{
    if n == 0 {
        0
    } else {
        boundary_layers(adaptive_mode, (n - 1) as nat, n_layer) + if is_boundary(
            adaptive_mode,
            n - 1,
            n_layer,
        ) {
            1nat
        } else {
            0nat
        }
    }
}

/// How many of the first `n` layers lie at the boundary, in each of the two modes.
proof fn lemma_boundary_prefix(adaptive_mode: i32, n: nat, n_layer: int)
    requires
        adaptive_mode == 1 || adaptive_mode == 2,
        8 <= n_layer,
        n <= n_layer,
    ensures
        adaptive_mode == 1 ==> boundary_layers(1, n, n_layer) == (if n <= 4 {
            n as int
        } else if n <= n_layer - 4 {
            4
        } else {
            n - n_layer + 8
        }),
        adaptive_mode == 2 ==> boundary_layers(2, n, n_layer) == (if n <= n_layer - 8 {
            0
        } else {
            n - n_layer + 8
        }),
    decreases n,
{
    if n > 0 {
        lemma_boundary_prefix(adaptive_mode, (n - 1) as nat, n_layer);
    }
}

/// In both modes exactly eight layers of a model that has them lie at the boundary.
pub proof fn lemma_boundary_has_eight_layers(adaptive_mode: i32, n_layer: usize)
    requires
        adaptive_mode == 1 || adaptive_mode == 2,
        n_layer >= 8,
    ensures
        boundary_layers(adaptive_mode, n_layer as nat, n_layer as int) == 8,
{
    lemma_boundary_prefix(adaptive_mode, n_layer as nat, n_layer as int);
}

/// There is no first error where no index gives one, and else it is that of the lowest index.
pub proof fn lemma_first_error(
    errors: spec_fn(usize) -> Option<CacheTypeError>,
    from: int,
    n: usize,
)
    requires
        0 <= from <= n,
    ensures
        first_error(errors, from, n) is None <==> (forall|i: usize|
            from <= i < n ==> #[trigger] errors(i) is None),
        first_error(errors, from, n) is Some ==> exists|i: usize|
            from <= i < n && #[trigger] errors(i) == first_error(errors, from, n) && (forall|
                j: usize,
            |
                from <= j < i ==> #[trigger] errors(j) is None),
    decreases n - from,
{
    if from < n {
        lemma_first_error(errors, from + 1, n);
        let first = from as usize;
        if errors(first) is Some {
            assert(errors(first) == first_error(errors, from, n));
        } else if first_error(errors, from + 1, n) is Some {
            let i = choose|i: usize|
                from + 1 <= i < n && #[trigger] errors(i) == first_error(errors, from + 1, n) && (
                forall|j: usize| from + 1 <= j < i ==> #[trigger] errors(j) is None);
            assert(errors(i) == first_error(errors, from, n));
            assert forall|j: usize| from <= j < i implies #[trigger] errors(j) is None by {
                if j != first {
                    assert(from + 1 <= j);
                }
            }
        } else {
            assert forall|j: usize| from <= j < n implies #[trigger] errors(j) is None by {
                if j != first {
                    assert(from + 1 <= j);
                }
            }
        }
    }
}

/// Any model runs with a cache of its own element type.
pub proof fn lemma_auto_suits_every_model<M: ModelConfigLike>(
    act_dtype: ElementType,
    model_config: M,
    device: DeviceInfo,
    layer_devices: Seq<Option<DeviceInfo>>,
    backend: Backend,
)
    ensures
        PagedCacheType::Auto.validation(act_dtype, model_config, device, layer_devices, backend)
            is None,
{
}

/// Whether a layer can run with a packed cache.
pub open spec fn suits_turbo4(layer: LayerConfig) -> bool {
    layer.has_paged_kv_cache ==> {
        &&& !(layer.kv_cache_layout is Mla)
        &&& layer.k_head_dim % 128 == 0
        &&& layer.v_head_dim % 128 == 0
    }
}

/// A model runs with a Turbo4 cache exactly if each of its layers can, wherever they run.
pub proof fn lemma_turbo4_suits<M: ModelConfigLike>(
    act_dtype: ElementType,
    model_config: M,
    device: DeviceInfo,
    layer_devices: Seq<Option<DeviceInfo>>,
    backend: Backend,
)
    ensures
        PagedCacheType::Turbo4.validation(act_dtype, model_config, device, layer_devices, backend)
            is None <==> (forall|i: usize|
            i < model_config.layer_count() ==> suits_turbo4(#[trigger] model_config.layer(i))),
{
    let errors = |i: usize| turbo4_layer_error(model_config.layer(i), i);
    let n = model_config.layer_count();
    lemma_first_error(errors, 0, n);
    assert forall|i: usize| #[trigger] errors(i) is None <==> suits_turbo4(
        model_config.layer(i),
    ) by {}
    if first_error(errors, 0, n) is None {
        assert forall|i: usize| i < n implies suits_turbo4(#[trigger] model_config.layer(i)) by {
            assert(errors(i) is None);
        }
    }
}

/// Whether an element type is one that the kernels compute in.
pub open spec fn is_compute_dtype(dtype: ElementType) -> bool {
    dtype is F16 || dtype is BF16 || dtype is F32
}

/// Whether a layer can run with an FP8 cache on a device.
pub open spec fn suits_fp8(layer: LayerConfig, device: DeviceInfo, backend: Backend) -> bool {
    layer.has_paged_kv_cache ==> {
        &&& !(layer.kv_cache_layout is Mla)
        &&& {
            ||| device.kind is Cuda && backend.cuda && backend.use_fp8
                && device.compute_major is Some && device.compute_major->0 >= 8
            ||| device.kind is Metal && backend.metal
        }
    }
}

/// A model runs with an FP8 cache exactly if its activations are floating-point numbers of 16 or
/// 32 bits and each layer can on its device.
pub proof fn lemma_fp8_suits<M: ModelConfigLike>(
    act_dtype: ElementType,
    model_config: M,
    device: DeviceInfo,
    layer_devices: Seq<Option<DeviceInfo>>,
    backend: Backend,
)
    ensures
        PagedCacheType::F8E4M3.validation(act_dtype, model_config, device, layer_devices, backend)
            is None <==> (is_compute_dtype(act_dtype) && (forall|i: usize|
            i < model_config.layer_count() ==> suits_fp8(
                #[trigger] model_config.layer(i),
                layer_device(device, layer_devices, i as int),
                backend,
            ))),
{
    let errors = |i: usize|
        fp8_layer_error(
            model_config.layer(i),
            i,
            layer_device(device, layer_devices, i as int),
            backend,
        );
    let n = model_config.layer_count();
    lemma_first_error(errors, 0, n);
    assert forall|i: usize| #[trigger] errors(i) is None <==> suits_fp8(
        model_config.layer(i),
        layer_device(device, layer_devices, i as int),
        backend,
    ) by {}
    if first_error(errors, 0, n) is None {
        assert forall|i: usize| i < n implies suits_fp8(
            #[trigger] model_config.layer(i),
            layer_device(device, layer_devices, i as int),
            backend,
        ) by {
            assert(errors(i) is None);
        }
    }
}

/// A Turbo4 cache is refused for the first layer that cannot run with one.
pub proof fn lemma_turbo4_names_first_layer<M: ModelConfigLike>(
    act_dtype: ElementType,
    model_config: M,
    device: DeviceInfo,
    layer_devices: Seq<Option<DeviceInfo>>,
    backend: Backend,
)
    ensures
        ({
            let refused = PagedCacheType::Turbo4.validation(
                act_dtype,
                model_config,
                device,
                layer_devices,
                backend,
            );
            refused is Some ==> exists|i: usize|
                i < model_config.layer_count() && refused == turbo4_layer_error(
                    #[trigger] model_config.layer(i),
                    i,
                ) && (forall|j: usize| j < i ==> suits_turbo4(#[trigger] model_config.layer(j)))
        }),
{
    let errors = |i: usize| turbo4_layer_error(model_config.layer(i), i);
    let n = model_config.layer_count();
    lemma_first_error(errors, 0, n);
    if first_error(errors, 0, n) is Some {
        let i = choose|i: usize|
            0 <= i < n && #[trigger] errors(i) == first_error(errors, 0, n) && (forall|j: usize|
                0 <= j < i ==> #[trigger] errors(j) is None);
        assert forall|j: usize| j < i implies suits_turbo4(#[trigger] model_config.layer(j)) by {
            assert(errors(j) is None);
        }
        assert(first_error(errors, 0, n) == turbo4_layer_error(model_config.layer(i), i));
    }
}

/// An FP8 cache is refused for the first layer that cannot run with one, unless the activations
/// already rule it out.
pub proof fn lemma_fp8_names_first_layer<M: ModelConfigLike>(
    act_dtype: ElementType,
    model_config: M,
    device: DeviceInfo,
    layer_devices: Seq<Option<DeviceInfo>>,
    backend: Backend,
)
    requires
        is_compute_dtype(act_dtype),
    ensures
        ({
            let refused = PagedCacheType::F8E4M3.validation(
                act_dtype,
                model_config,
                device,
                layer_devices,
                backend,
            );
            refused is Some ==> exists|i: usize|
                i < model_config.layer_count() && refused == fp8_layer_error(
                    #[trigger] model_config.layer(i),
                    i,
                    layer_device(device, layer_devices, i as int),
                    backend,
                ) && (forall|j: usize|
                    j < i ==> suits_fp8(
                        #[trigger] model_config.layer(j),
                        layer_device(device, layer_devices, j as int),
                        backend,
                    ))
        }),
{
    let errors = |i: usize|
        fp8_layer_error(
            model_config.layer(i),
            i,
            layer_device(device, layer_devices, i as int),
            backend,
        );
    let n = model_config.layer_count();
    lemma_first_error(errors, 0, n);
    if first_error(errors, 0, n) is Some {
        let i = choose|i: usize|
            0 <= i < n && #[trigger] errors(i) == first_error(errors, 0, n) && (forall|j: usize|
                0 <= j < i ==> #[trigger] errors(j) is None);
        assert forall|j: usize| j < i implies suits_fp8(
            #[trigger] model_config.layer(j),
            layer_device(device, layer_devices, j as int),
            backend,
        ) by {
            assert(errors(j) is None);
        }
        assert(first_error(errors, 0, n) == fp8_layer_error(
            model_config.layer(i),
            i,
            layer_device(device, layer_devices, i as int),
            backend,
        ));
    }
}

/// Each name stands for one format and each format has one name.
pub proof fn lemma_formats_have_names(s: Seq<char>, t: PagedCacheType)
    ensures
        PagedCacheType::named(s) == Some(t) <==> s == (match t {
            PagedCacheType::Auto => "auto"@,
            PagedCacheType::F8E4M3 => "f8e4m3"@,
            PagedCacheType::Turbo4 => "turbo4"@,
        }),
{
    reveal_strlit("auto");
    reveal_strlit("f8e4m3");
    reveal_strlit("turbo4");
    assert("auto"@.len() == 4 && "f8e4m3"@.len() == 6 && "turbo4"@.len() == 6);
    assert("f8e4m3"@[0] == 'f' && "turbo4"@[0] == 't');
}

/// The number of elements in a tensor of four dimensions.
proof fn lemma_elements4(a: usize, b: usize, c: usize, d: usize)
    ensures
        elements(seq![a, b, c, d]) == a * b * c * d,
{
    assert(seq![a, b, c, d].drop_last() =~= seq![a, b, c]);
    assert(seq![a, b, c].drop_last() =~= seq![a, b]);
    assert(seq![a, b].drop_last() =~= seq![a]);
    assert(seq![a].drop_last() =~= Seq::<usize>::empty());
    assert(elements(Seq::<usize>::empty()) == 1);
    assert(elements(seq![a]) == 1 * a as nat);
    assert(elements(seq![a, b]) == a as nat * b as nat);
    assert(elements(seq![a, b, c]) == a as nat * b as nat * c as nat);
}

/// The number of elements in a tensor of five dimensions.
proof fn lemma_elements5(a: usize, b: usize, c: usize, d: usize, e: usize)
    ensures
        elements(seq![a, b, c, d, e]) == a * b * c * d * e,
{
    assert(seq![a, b, c, d, e].drop_last() =~= seq![a, b, c, d]);
    lemma_elements4(a, b, c, d);
}

/// A packed side takes 33 bits for every eight coefficients, and covers each head exactly.
pub proof fn lemma_packed_size(
    blocks: usize,
    block_size: usize,
    kv_heads: usize,
    head_dim: usize,
    act_dtype: ElementType,
)
    requires
        multiple_of(head_dim as nat, GROUP as nat),
    ensures
        ({
            let packed = turbo4_side(true, blocks, block_size, kv_heads, head_dim, act_dtype);
            let plain = turbo4_side(false, blocks, block_size, kv_heads, head_dim, act_dtype);
            &&& packed.dims[3] * GROUP == head_dim
            &&& 8 * (8 * elements(packed.dims)) == 33 * elements(plain.dims)
        }),
{
    let groups = (head_dim / GROUP) as usize;
    lemma_elements4(blocks, block_size, kv_heads, head_dim);
    lemma_elements5(blocks, block_size, kv_heads, groups, BLOCK_TURBO4_BYTES);
    let slots = blocks * block_size * kv_heads;
    assert(8 * (8 * (slots * groups * 66)) == 33 * (slots * (groups * 128))) by (nonlinear_arith);
}

/// Keys that are split into runs lose no element where whole runs make up a head: there are as
/// many as in a cache that keeps each head in one piece, and a run is 16 bytes long.
pub proof fn lemma_split_keys_keep_elements(
    layer: LayerConfig,
    config: CacheConfig,
    dtype: ElementType,
    kind: DeviceKind,
)
    requires
        splits_keys(layer, kind),
        dtype_size(dtype) > 0,
        layer.k_head_dim as int % run_length(dtype) == 0,
    ensures
        run_length(dtype) * dtype_size(dtype) == 16,
        elements(plain_shapes(layer, config, dtype, kind).key.dims) == elements(
            seq![
                layer_blocks(layer, config),
                layer.num_kv_heads,
                config.block_size,
                layer.k_head_dim,
            ],
        ),
{
    let blocks = layer_blocks(layer, config);
    let heads = layer.num_kv_heads;
    let slots = config.block_size;
    let x = run_length(dtype) as usize;
    let runs = (layer.k_head_dim as int / run_length(dtype)) as usize;
    assert(x == 16 || x == 8 || x == 4 || x == 2);
    lemma_elements5(blocks, heads, runs, slots, x);
    lemma_elements4(blocks, heads, slots, layer.k_head_dim);
    assert(runs * x == layer.k_head_dim) by {
        vstd::arithmetic::div_mod::lemma_fundamental_div_mod(layer.k_head_dim as int, x as int);
        vstd::arithmetic::mul::lemma_mul_is_commutative(runs as int, x as int);
    }
    assert(blocks * heads * runs * slots * x == blocks * heads * slots * (runs * x))
        by (nonlinear_arith);
}

/// A layer without a paged cache keeps its place with empty tensors, which differ from those that
/// it would else have in the number of blocks alone.
pub proof fn lemma_unpaged_layers_are_empty<M: ModelConfigLike>(request: CacheRequest<M>, i: int)
    requires
        0 <= i < request.layers(),
        !request.model_config.layer(i as usize).has_paged_kv_cache,
    ensures
        ({
            let layer = request.model_config.layer(i as usize);
            let paged = LayerConfig { has_paged_kv_cache: true, ..layer };
            let other = if request.config.cache_type is Turbo4 {
                let plan = layer_plan(request.model_config, i as usize, request.settings);
                turbo4_shapes(paged, plan, request.config, request.act_dtype)
            } else {
                plain_shapes(paged, request.config, request.dtype(), request.kind(i))
            };
            let shapes = request.shapes(i);
            &&& elements(shapes.key.dims) == 0
            &&& elements(shapes.value.dims) == 0
            &&& shapes.key == (ShapeView {
                dtype: other.key.dtype,
                dims: other.key.dims.update(0, 0),
            })
            &&& shapes.value == (ShapeView {
                dtype: other.value.dtype,
                dims: other.value.dims.update(0, 0),
            })
        }),
{
    let layer = request.model_config.layer(i as usize);
    let paged = LayerConfig { has_paged_kv_cache: true, ..layer };
    let shapes = request.shapes(i);
    lemma_no_blocks(shapes.key.dims);
    lemma_no_blocks(shapes.value.dims);
    if request.config.cache_type is Turbo4 {
        let plan = layer_plan(request.model_config, i as usize, request.settings);
        let other = turbo4_shapes(paged, plan, request.config, request.act_dtype);
        assert(shapes.key.dims =~= other.key.dims.update(0, 0));
        assert(shapes.value.dims =~= other.value.dims.update(0, 0));
    } else {
        let other = plain_shapes(paged, request.config, request.dtype(), request.kind(i));
        assert(shapes.key.dims =~= other.key.dims.update(0, 0));
        assert(shapes.value.dims =~= other.value.dims.update(0, 0));
    }
}

/// A tensor without blocks has no elements.
proof fn lemma_no_blocks(dims: Seq<usize>)
    requires
        dims.len() > 0,
        dims[0] == 0,
    ensures
        elements(dims) == 0,
    decreases dims.len(),
{
    if dims.len() == 1 {
        assert(elements(dims) == elements(dims.drop_last()) * 0);
    } else {
        lemma_no_blocks(dims.drop_last());
    }
}

/// The tensors of a Turbo4 cache: on each layer, each side holds packed bytes or heads of the compute
/// type, as the plan of the layer says for that side alone. They are zero when they are made, and
/// the layout that the model would else prefer plays no part.
pub proof fn lemma_turbo4_caches<M: ModelConfigLike>(
    request: CacheRequest<M>,
    gpu_cache: Seq<KVCache>,
    i: int,
)
    requires
        request.is_met_by(gpu_cache),
        request.config.cache_type is Turbo4,
        0 <= i < gpu_cache.len(),
    ensures
        ({
            let layer = request.model_config.layer(i as usize);
            let plan = layer_plan(request.model_config, i as usize, request.settings);
            let blocks = if layer.has_paged_kv_cache {
                request.config.num_gpu_blocks
            } else {
                0
            };
            let heads = layer.num_kv_heads;
            let size = request.config.block_size;
            &&& tensor_dtype(gpu_cache[i].0) == (if plan.k_is_turbo {
                ElementType::U8
            } else {
                request.act_dtype
            })
            &&& tensor_dims(gpu_cache[i].0) == (if plan.k_is_turbo {
                seq![blocks, size, heads, (layer.k_head_dim / 128) as usize, 66]
            } else {
                seq![blocks, size, heads, layer.k_head_dim]
            })
            &&& tensor_dtype(gpu_cache[i].1) == (if plan.v_is_turbo {
                ElementType::U8
            } else {
                request.act_dtype
            })
            &&& tensor_dims(gpu_cache[i].1) == (if plan.v_is_turbo {
                seq![blocks, size, heads, (layer.v_head_dim / 128) as usize, 66]
            } else {
                seq![blocks, size, heads, layer.v_head_dim]
            })
            &&& born_zeroed(gpu_cache[i].0)
            &&& born_zeroed(gpu_cache[i].1)
        }),
{
    assert(request.is_layer(i, gpu_cache[i]));
}

/// The plan of a gather from one side of a Turbo4 cache, by the kernel for its format.
pub open spec fn side_plan(
    packed: bool,
    cache: MetaView,
    block_table: ElementType,
    cu_seq_lens: MetaView,
    num_tokens: usize,
    act_dtype: ElementType,
) -> Result<GatherPlan, KernelErrorView> {
    if packed {
        turbo4_plan(cache, block_table, cu_seq_lens, num_tokens, act_dtype)
    } else {
        plain_plan(cache, block_table, cu_seq_lens, num_tokens)
    }
}

/// Whether a plan gathers `num_tokens` tokens of heads of the given number and size from blocks of
/// the given size.
pub open spec fn gathers_heads(
    plan: Result<GatherPlan, KernelErrorView>,
    num_tokens: usize,
    kv_heads: usize,
    head_dim: usize,
    block_size: usize,
    act_dtype: ElementType,
) -> bool {
    &&& plan is Ok
    &&& plan->Ok_0.out_dims() == seq![num_tokens, kv_heads, head_dim]
    &&& plan->Ok_0.out_dtype == act_dtype
    &&& plan->Ok_0.block_size == block_size
}

/// The caches of a model that runs with Turbo4 can be gathered: on each layer, each side is taken
/// by the gather kernel for its format, and comes out as tokens of whole heads in the compute type.
pub proof fn lemma_turbo4_caches_can_be_gathered<M: ModelConfigLike>(
    request: CacheRequest<M>,
    gpu_cache: Seq<KVCache>,
    i: int,
    block_table: ElementType,
    cu_seq_lens: MetaView,
    num_tokens: usize,
)
    requires
        request.is_met_by(gpu_cache),
        request.config.cache_type is Turbo4,
        0 <= i < gpu_cache.len(),
        request.model_config.layer(i as usize).has_paged_kv_cache,
        suits_turbo4(request.model_config.layer(i as usize)),
        is_compute_dtype(request.act_dtype),
        is_table_dtype(block_table),
        is_table_dtype(cu_seq_lens.dtype),
        counted(num_tokens, cu_seq_lens.dims) is Ok,
    ensures
        ({
            let layer = request.model_config.layer(i as usize);
            let plan = layer_plan(request.model_config, i as usize, request.settings);
            let key = side_plan(
                plan.k_is_turbo,
                tensor_meta(gpu_cache[i].0),
                block_table,
                cu_seq_lens,
                num_tokens,
                request.act_dtype,
            );
            let value = side_plan(
                plan.v_is_turbo,
                tensor_meta(gpu_cache[i].1),
                block_table,
                cu_seq_lens,
                num_tokens,
                request.act_dtype,
            );
            &&& gathers_heads(
                key,
                num_tokens,
                layer.num_kv_heads,
                layer.k_head_dim,
                request.config.block_size,
                request.act_dtype,
            )
            &&& gathers_heads(
                value,
                num_tokens,
                layer.num_kv_heads,
                layer.v_head_dim,
                request.config.block_size,
                request.act_dtype,
            )
        }),
{
    assert(request.is_layer(i, gpu_cache[i]));
    assert(cache_shapes(gpu_cache[i]) == request.shapes(i));
}

/// The fused kernel takes the caches of a model that runs with Turbo4, whichever sides are packed:
/// it finds the heads and blocks that the cache was made with.
pub proof fn lemma_turbo4_caches_can_be_decoded<M: ModelConfigLike>(
    request: CacheRequest<M>,
    gpu_cache: Seq<KVCache>,
    i: int,
    query: MetaView,
)
    requires
        request.is_met_by(gpu_cache),
        request.config.cache_type is Turbo4,
        0 <= i < gpu_cache.len(),
        request.model_config.layer(i as usize).has_paged_kv_cache,
        suits_turbo4(request.model_config.layer(i as usize)),
        is_compute_dtype(request.act_dtype),
        request.model_config.layer(i as usize).k_head_dim == request.model_config.layer(
            i as usize,
        ).v_head_dim,
        request.model_config.layer(i as usize).k_head_dim <= MAX_GROUPS_PER_HEAD * GROUP,
        query.dtype == request.act_dtype,
        query.dims.len() == 3,
        query.dims[2] == request.model_config.layer(i as usize).k_head_dim,
        multiple_of(
            query.dims[1] as nat,
            request.model_config.layer(i as usize).num_kv_heads as nat,
        ),
    ensures
        ({
            let layer = request.model_config.layer(i as usize);
            let plan = layer_plan(request.model_config, i as usize, request.settings);
            let heads = decode_heads(
                query,
                tensor_meta(gpu_cache[i].0),
                tensor_meta(gpu_cache[i].1),
            );
            &&& heads is Ok
            &&& heads->Ok_0.key == (SideInfo {
                is_turbo: plan.k_is_turbo,
                block_size: request.config.block_size,
                kv_heads: layer.num_kv_heads,
            })
            &&& heads->Ok_0.value == (SideInfo {
                is_turbo: plan.v_is_turbo,
                block_size: request.config.block_size,
                kv_heads: layer.num_kv_heads,
            })
        }),
{
    assert(request.is_layer(i, gpu_cache[i]));
    assert(cache_shapes(gpu_cache[i]) == request.shapes(i));
}

/// Whatever the fused kernel is called with, a sequence addresses no more tokens than its limit,
/// the query heads divide evenly among the key heads, and a head is made of one to four groups, or
/// is empty.
pub proof fn lemma_decode_keeps_limits(
    query: MetaView,
    key: MetaView,
    value: MetaView,
    block_table: MetaView,
    context_lens: MetaView,
)
    ensures
        ({
            let plan = decode_plan(query, key, value, block_table, context_lens);
            plan is Ok ==> {
                let p = plan->Ok_0;
                &&& p.max_num_blocks_per_seq * p.heads.key.block_size
                    <= MAX_FUSED_DECODE_CONTEXT_TOKENS
                &&& multiple_of(p.heads.num_heads as nat, p.heads.key.kv_heads as nat)
                &&& p.heads.head_size == p.heads.groups_per_head * GROUP
                &&& p.heads.groups_per_head <= MAX_GROUPS_PER_HEAD
                &&& p.heads.key.block_size == p.heads.value.block_size
                &&& p.heads.key.kv_heads == p.heads.value.kv_heads
            }
        }),
{
}

/// The prefill kernel covers a layer only where it was asked about it and said so.
pub proof fn lemma_covered_layers_were_asked_for<M: ModelConfigLike>(
    model_config: M,
    config: CacheConfig,
    use_fa3_fp8_paged: bool,
    shapes: Seq<LayerShapesView>,
    replies: Seq<Result<Option<usize>, String>>,
    values: Seq<Option<usize>>,
    i: int,
)
    requires
        replies.len() == model_config.layer_count(),
        all_ok(fa3_answers(model_config, config, use_fa3_fp8_paged, shapes, replies), values),
        0 <= i < values.len(),
        values[i] is Some,
    ensures
        fa3_asked(model_config, config, use_fa3_fp8_paged, shapes, i) is Some,
        replies[i] == Ok::<Option<usize>, String>(values[i]),
{
    let answers = fa3_answers(model_config, config, use_fa3_fp8_paged, shapes, replies);
    assert(answers[i] == Ok::<Option<usize>, String>(values[i]));
}

/// The FP8 caches that the engine makes on a CUDA device for a layer in the FlashInfer layout are
/// ones that the prefill kernel is asked about, where the kernel handles the heads of the layer.
pub proof fn lemma_fp8_caches_are_asked_about<M: ModelConfigLike>(
    request: CacheRequest<M>,
    gpu_cache: Seq<KVCache>,
    i: int,
)
    requires
        request.is_met_by(gpu_cache),
        request.config.cache_type is F8E4M3,
        0 <= i < gpu_cache.len(),
        request.kind(i) is Cuda,
    ensures
        ({
            let layer = request.model_config.layer(i as usize);
            fa3_probe(layer, request.config, cache_shapes(gpu_cache[i])) == (if {
                &&& layer.has_paged_kv_cache
                &&& layer.kv_cache_layout is FlashInferHnd
                &&& layer.num_kv_heads != 0
                &&& layer.num_attn_heads != 0
                &&& multiple_of(layer.num_attn_heads as nat, layer.num_kv_heads as nat)
                &&& layer.k_head_dim == 256
                &&& layer.v_head_dim == 256
            } {
                Some(
                    Fa3PrefillProbe {
                        q_heads: layer.num_attn_heads,
                        kv_heads: layer.num_kv_heads,
                        head_dim: 256,
                        block_size: request.config.block_size,
                    },
                )
            } else {
                None
            })
        }),
{
    assert(request.is_layer(i, gpu_cache[i]));
    assert(cache_shapes(gpu_cache[i]) == request.shapes(i));
}

} // verus!
