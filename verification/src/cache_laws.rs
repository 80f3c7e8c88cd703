//! The tensors that the engine makes, said of the layers, the configuration and the devices that it
//! was asked for.
use crate::cache_engine::{
    CacheConfig, CacheDevice, CacheRequest, KVCache, LayerShapesView, all_ok, cache_request,
    cache_shapes, described_all, fa3_answers, fa3_asked, first_failure, run_length, splits_keys,
};
use crate::cache_type::{Backend, Turbo4Settings};
use crate::gather::{Gather, gathers, plain_gather, turbo4_gather};
use crate::kernel_laws::{
    holds_size, lemma_prepared_decode, lemma_prepared_plain_gather, lemma_prepared_turbo4_gather,
};
use crate::model::{KvCacheLayout, ModelConfigLike};
use crate::paged_attention::{Decode, decoded, decodes};
use crate::plan_laws::{
    lemma_fp8_accepted, lemma_packed_by_head_counts, lemma_turbo4_accepted,
};
use crate::tensor::{
    ElementType, born_zeroed, cpu_holds, device_kind, device_ordinal, dtype_size,
    elements, fits, has_row_major, lemma_elements_front, tensor_dims, tensor_dtype, tensor_kind,
    tensor_meta, tensor_ordinal, tensor_row_major,
};
use vstd::prelude::*;

verus! {

/// The bytes of the elements, and which of them CPU memory cannot hold.
pub proof fn lemma_element_types(d: ElementType)
    ensures
        d is U8 || d is F8E4M3 || d is F8E8M0 <==> dtype_size(d) == 1,
        d is I16 || d is BF16 || d is F16 <==> dtype_size(d) == 2,
        d is U32 || d is I32 || d is F32 <==> dtype_size(d) == 4,
        d is I64 || d is F64 <==> dtype_size(d) == 8,
        d is F6E2M3 || d is F6E3M2 || d is F4 <==> dtype_size(d) == 0,
        cpu_holds(d) <==> dtype_size(d) > 0 && d != ElementType::F8E8M0,
        dtype_size(d) == 1 ==> run_length(d) == 16,
        dtype_size(d) == 2 ==> run_length(d) == 8,
        dtype_size(d) == 4 ==> run_length(d) == 4,
        dtype_size(d) == 8 ==> run_length(d) == 2,
{
}

/// Elements multiply dimension by dimension, and none at all make one.
pub proof fn lemma_elements_multiply(dims: Seq<usize>, n: usize)
    ensures
        elements(Seq::<usize>::empty()) == 1,
        elements(dims.push(n)) == elements(dims) * n,
{
    assert(dims.push(n).drop_last() =~= dims);
}

/// Dimensions that are not zero only add elements.
proof fn lemma_parts_are_smaller(dims: Seq<usize>, i: int)
    requires
        0 <= i <= dims.len(),
        forall|j: int| 0 <= j < dims.len() ==> #[trigger] dims[j] > 0,
    ensures
        0 < elements(dims.take(i)) <= elements(dims),
        0 < elements(dims.skip(i)) <= elements(dims),
    decreases dims.len(),
{
    if dims.len() == 0 {
        assert(dims.take(i) =~= dims);
        assert(dims.skip(i) =~= dims);
    } else {
        let front = dims.drop_last();
        let last = dims.last() as nat;
        if i < dims.len() {
            lemma_parts_are_smaller(front, i);
            assert(front.take(i) =~= dims.take(i));
            assert(dims.skip(i).drop_last() =~= front.skip(i));
            let (a, b) = (elements(front.skip(i)), elements(front));
            assert(0 < a * last <= b * last && b * last >= b) by (nonlinear_arith)
                requires
                    0 < a <= b,
                    last >= 1,
            ;
        } else {
            lemma_parts_are_smaller(front, i - 1);
            assert(front.take(i - 1) =~= front);
            assert(dims.take(i) =~= dims);
            assert(dims.skip(i) =~= Seq::<usize>::empty());
            assert(elements(Seq::<usize>::empty()) == 1);
            assert(elements(front) * last >= 1) by (nonlinear_arith)
                requires
                    elements(front) >= 1,
                    last >= 1,
            ;
        }
    }
}

/// A tensor with elements fits into the address space exactly if they can be counted and their bytes
/// addressed.
pub proof fn lemma_filled_tensors_fit(dims: Seq<usize>, d: ElementType)
    requires
        forall|j: int| 0 <= j < dims.len() ==> #[trigger] dims[j] > 0,
    ensures
        fits(dims, d) <==> elements(dims) <= usize::MAX && elements(dims) * dtype_size(d)
            <= isize::MAX,
{
    assert(dims.take(dims.len() as int) =~= dims);
    if elements(dims) <= usize::MAX {
        assert forall|i: int| 0 <= i <= dims.len() implies #[trigger] elements(dims.take(i))
            <= usize::MAX by {
            lemma_parts_are_smaller(dims, i);
        }
        assert forall|i: int| 0 <= i <= dims.len() implies #[trigger] elements(dims.skip(i))
            <= usize::MAX by {
            lemma_parts_are_smaller(dims, i);
        }
    }
}

/// A tensor without blocks fits into the address space exactly if a block of it could be counted,
/// whatever its element type.
pub proof fn lemma_tensors_without_blocks_fit(dims: Seq<usize>, d: ElementType)
    requires
        dims.len() > 0,
        dims[0] == 0,
        forall|j: int| 0 < j < dims.len() ==> #[trigger] dims[j] > 0,
    ensures
        fits(dims, d) <==> elements(dims.skip(1)) <= usize::MAX,
{
    let rest = dims.skip(1);
    assert forall|i: int| 0 < i <= dims.len() implies #[trigger] elements(dims.take(i)) == 0 by {
        lemma_elements_front(dims.take(i));
        assert(0 * elements(dims.take(i).skip(1)) == 0) by (nonlinear_arith);
    }
    assert(dims.take(0) =~= Seq::<usize>::empty());
    assert(elements(Seq::<usize>::empty()) == 1);
    assert(dims.take(dims.len() as int) =~= dims);
    assert(dims.skip(0) =~= dims);
    assert(0 * dtype_size(d) == 0);
    if elements(rest) <= usize::MAX {
        assert forall|i: int| 0 <= i <= dims.len() implies #[trigger] elements(dims.skip(i))
            <= usize::MAX by {
            if i > 0 {
                lemma_parts_are_smaller(rest, i - 1);
                assert(rest.skip(i - 1) =~= dims.skip(i));
            }
        }
    }
}

/// A tensor with one empty dimension fits into the address space exactly if the dimensions before it
/// and those behind it can be multiplied, whatever its element type.
pub proof fn lemma_empty_tensors_fit(before: Seq<usize>, after: Seq<usize>, d: ElementType)
    requires
        forall|j: int| 0 <= j < before.len() ==> #[trigger] before[j] > 0,
        forall|j: int| 0 <= j < after.len() ==> #[trigger] after[j] > 0,
    ensures
        fits(before.push(0) + after, d) <==> elements(before) <= usize::MAX && elements(after)
            <= usize::MAX,
{
    let dims = before.push(0) + after;
    let k = before.len() as int;
    assert(dims.take(k) =~= before);
    assert(dims.skip(k + 1) =~= after);
    assert forall|i: int| k < i <= dims.len() implies #[trigger] elements(dims.take(i)) == 0 by {
        lemma_zero_empties(dims.take(i), k);
    }
    assert forall|i: int| 0 <= i <= k implies #[trigger] elements(dims.skip(i)) == 0 by {
        lemma_zero_empties(dims.skip(i), k - i);
    }
    assert(dims.take(dims.len() as int) =~= dims);
    assert(elements(dims) == 0);
    assert(0 * dtype_size(d) == 0);
    if elements(before) <= usize::MAX && elements(after) <= usize::MAX {
        assert forall|i: int| 0 <= i <= dims.len() implies #[trigger] elements(dims.take(i))
            <= usize::MAX by {
            if i <= k {
                lemma_parts_are_smaller(before, i);
                assert(before.take(i) =~= dims.take(i));
            }
        }
        assert forall|i: int| 0 <= i <= dims.len() implies #[trigger] elements(dims.skip(i))
            <= usize::MAX by {
            if i > k {
                lemma_parts_are_smaller(after, i - k - 1);
                assert(after.skip(i - k - 1) =~= dims.skip(i));
            }
        }
    }
}

/// An empty dimension leaves no elements.
proof fn lemma_zero_empties(dims: Seq<usize>, k: int)
    requires
        0 <= k < dims.len(),
        dims[k] == 0,
    ensures
        elements(dims) == 0,
    decreases dims.len(),
{
    let front = elements(dims.drop_last());
    if k == dims.len() - 1 {
        assert(front * 0 == 0) by (nonlinear_arith);
    } else {
        lemma_zero_empties(dims.drop_last(), k);
        assert(0 * dims.last() as nat == 0) by (nonlinear_arith);
    }
}

/// Candle may fail at a layer only where the tensors before it and its own keys fit into the address
/// space, and the layer is not one whose tensors CPU memory can hold and is asked to.
pub proof fn lemma_where_candle_may_fail<M: ModelConfigLike>(request: CacheRequest<M>, i: int, j: int)
    requires
        request.may_fail_at(i),
        0 <= j < i,
    ensures
        fits(request.shapes(j).key.dims, request.shapes(j).key.dtype),
        fits(request.shapes(j).value.dims, request.shapes(j).value.dtype),
        fits(request.shapes(i).key.dims, request.shapes(i).key.dtype),
        !(device_kind(request.place(i)) is Cpu) || !cpu_holds(request.shapes(i).key.dtype)
            || !cpu_holds(request.shapes(i).value.dtype),
{
    assert(request.shapes(j) == request.shapes(j));
}

/// A tensor is had in row-major order without a driver exactly if it fits and is in that order, or
/// lies in CPU memory that holds its elements.
pub proof fn lemma_row_major_on_hand(t: candle_core::Tensor)
    ensures
        has_row_major(t) <==> fits(tensor_dims(t), tensor_dtype(t)) && (tensor_row_major(t) || (
        tensor_kind(t) is Cpu && dtype_size(tensor_dtype(t)) > 0 && tensor_dtype(t)
            != ElementType::F8E8M0)),
{
}

/// The tensors of an engine: one pair for each layer that the list of devices reaches, on the
/// layer's own device or else the model's, zeroed and in row-major order.
pub proof fn lemma_engine_places_layers<M: ModelConfigLike>(
    model_config: M,
    config: CacheConfig,
    act_dtype: ElementType,
    device: CacheDevice,
    layer_devices: Seq<Option<CacheDevice>>,
    settings: Turbo4Settings,
    gpu_cache: Seq<KVCache>,
    i: int,
)
    requires
        cache_request(
            model_config,
            config,
            act_dtype,
            device,
            layer_devices,
            settings,
        ).is_met_by(gpu_cache),
        0 <= i < gpu_cache.len(),
    ensures
        gpu_cache.len() <= layer_devices.len(),
        gpu_cache.len() <= model_config.layer_count(),
        gpu_cache.len() == layer_devices.len() || gpu_cache.len() == model_config.layer_count(),
        ({
            let own = if layer_devices[i] is Some {
                layer_devices[i]->0
            } else {
                device
            };
            &&& tensor_kind(gpu_cache[i].0) == device_kind(own.handle)
            &&& tensor_kind(gpu_cache[i].1) == device_kind(own.handle)
            &&& tensor_ordinal(gpu_cache[i].0) == device_ordinal(own.handle)
            &&& tensor_ordinal(gpu_cache[i].1) == device_ordinal(own.handle)
        }),
        tensor_row_major(gpu_cache[i].0) && tensor_row_major(gpu_cache[i].1),
        born_zeroed(gpu_cache[i].0) && born_zeroed(gpu_cache[i].1),
{
}

/// The tensors of an engine are as many as there are layers, even where there are none.
pub proof fn lemma_engine_covers_layers<M: ModelConfigLike>(
    request: CacheRequest<M>,
    gpu_cache: Seq<KVCache>,
)
    requires
        request.is_met_by(gpu_cache),
    ensures
        request.layer_devices.len() <= request.model_config.layer_count() ==> gpu_cache.len()
            == request.layer_devices.len(),
        request.model_config.layer_count() <= request.layer_devices.len() ==> gpu_cache.len()
            == request.model_config.layer_count(),
{
}

/// No tensor of an engine stands in two places.
pub proof fn lemma_engine_shares_no_tensor<M: ModelConfigLike>(
    request: CacheRequest<M>,
    gpu_cache: Seq<KVCache>,
    i: int,
    j: int,
)
    requires
        request.is_met_by(gpu_cache),
        0 <= i < gpu_cache.len(),
        0 <= j < gpu_cache.len(),
    ensures
        gpu_cache[i].0 != gpu_cache[j].1,
        i != j ==> gpu_cache[i].0 != gpu_cache[j].0,
        i != j ==> gpu_cache[i].1 != gpu_cache[j].1,
{
    if i < j {
        assert(gpu_cache[j].0 != gpu_cache[i].0);
    } else if j < i {
        assert(gpu_cache[i].0 != gpu_cache[j].0);
    }
}

/// The elementwise tensors of a layer. In the standard layout, which also stands in for FlashInfer's
/// off CUDA, values are blocks of heads, head dimension and slots, and keys are blocks of heads,
/// runs of 16 bytes, slots and elements of a run. FlashInfer's own has blocks of heads, slots and
/// head dimension on both sides, and MLA blocks of slots and of its two vectors.
pub proof fn lemma_elementwise_caches<M: ModelConfigLike>(
    model_config: M,
    config: CacheConfig,
    act_dtype: ElementType,
    device: CacheDevice,
    layer_devices: Seq<Option<CacheDevice>>,
    settings: Turbo4Settings,
    gpu_cache: Seq<KVCache>,
    i: int,
)
    requires
        cache_request(
            model_config,
            config,
            act_dtype,
            device,
            layer_devices,
            settings,
        ).is_met_by(gpu_cache),
        0 <= i < gpu_cache.len(),
        !(config.cache_type is Turbo4),
    ensures
        ({
            let layer = model_config.layer(i as usize);
            let (key, value) = (gpu_cache[i].0, gpu_cache[i].1);
            let d = if config.cache_type is F8E4M3 {
                ElementType::F8E4M3
            } else {
                act_dtype
            };
            let blocks = if layer.has_paged_kv_cache {
                config.num_gpu_blocks
            } else {
                0
            };
            let heads = layer.num_kv_heads;
            let slots = config.block_size;
            let on_cuda = device_kind(
                (if layer_devices[i] is Some {
                    layer_devices[i]->0
                } else {
                    device
                }).handle,
            ) is Cuda;
            let x: usize = if d is U8 || d is F8E4M3 || d is F8E8M0 {
                16
            } else if d is I16 || d is BF16 || d is F16 {
                8
            } else if d is U32 || d is I32 || d is F32 {
                4
            } else {
                2
            };
            let sub_byte = d is F6E2M3 || d is F6E3M2 || d is F4;
            &&& tensor_dtype(key) == d
            &&& tensor_dtype(value) == d
            &&& match layer.kv_cache_layout {
                KvCacheLayout::Mla { kv_lora_rank, kpe_head_dim } => {
                    &&& tensor_dims(key) == seq![blocks, slots, kv_lora_rank]
                    &&& tensor_dims(value) == seq![blocks, slots, kpe_head_dim]
                },
                KvCacheLayout::FlashInferHnd if on_cuda => {
                    &&& tensor_dims(key) == seq![blocks, heads, slots, layer.k_head_dim]
                    &&& tensor_dims(value) == seq![blocks, heads, slots, layer.k_head_dim]
                },
                _ => {
                    &&& tensor_dims(value) == seq![blocks, heads, layer.v_head_dim, slots]
                    &&& !sub_byte ==> tensor_dims(key) == seq![
                        blocks,
                        heads,
                        layer.k_head_dim / x,
                        slots,
                        x,
                    ]
                },
            }
        }),
{
    let request = cache_request(model_config, config, act_dtype, device, layer_devices, settings);
    assert(request.is_layer(i, gpu_cache[i]));
}

/// The tensors of a Turbo4 cache, by the place and the head counts of the layer: a packed side holds
/// 66 bytes for each whole group of 128 coefficients, a plain one heads of the compute type. Either
/// side is decided for itself, and neither the layout nor the device plays a part.
pub proof fn lemma_turbo4_caches_by_head_counts<M: ModelConfigLike>(
    model_config: M,
    config: CacheConfig,
    act_dtype: ElementType,
    device: CacheDevice,
    layer_devices: Seq<Option<CacheDevice>>,
    settings: Turbo4Settings,
    gpu_cache: Seq<KVCache>,
    i: int,
)
    requires
        cache_request(
            model_config,
            config,
            act_dtype,
            device,
            layer_devices,
            settings,
        ).is_met_by(gpu_cache),
        0 <= i < gpu_cache.len(),
        config.cache_type is Turbo4,
    ensures
        ({
            let layer = model_config.layer(i as usize);
            let n = model_config.layer_count();
            let mode = settings.adaptive_mode;
            let boundary = n >= 8 && ((mode == 1 && (i < 4 || i + 4 >= n)) || (mode == 2 && i + 8
                >= n));
            let shared = !settings.auto_asymmetric_disabled && layer.num_kv_heads > 0
                && layer.num_attn_heads >= 6 * layer.num_kv_heads;
            let blocks = if layer.has_paged_kv_cache {
                config.num_gpu_blocks
            } else {
                0
            };
            let (heads, slots) = (layer.num_kv_heads, config.block_size);
            let (k, v) = (layer.k_head_dim, layer.v_head_dim);
            &&& boundary || shared ==> tensor_dtype(gpu_cache[i].0) == act_dtype && tensor_dims(
                gpu_cache[i].0,
            ) == seq![blocks, slots, heads, k]
            &&& !boundary && !shared ==> tensor_dtype(gpu_cache[i].0) is U8 && tensor_dims(
                gpu_cache[i].0,
            ) == seq![blocks, slots, heads, k / 128, 66]
            &&& boundary ==> tensor_dtype(gpu_cache[i].1) == act_dtype && tensor_dims(
                gpu_cache[i].1,
            ) == seq![blocks, slots, heads, v]
            &&& !boundary ==> tensor_dtype(gpu_cache[i].1) is U8 && tensor_dims(gpu_cache[i].1)
                == seq![blocks, slots, heads, v / 128, 66]
        }),
{
    let request = cache_request(model_config, config, act_dtype, device, layer_devices, settings);
    assert(request.is_layer(i, gpu_cache[i]));
    lemma_packed_by_head_counts(model_config, i as usize, settings);
}

/// The fused kernel is told of the caches of an engine what they are: the flag of a side says
/// whether the layer packs that side, and the sizes are those of the configuration and the layer.
pub proof fn lemma_engine_caches_are_decoded_as_made<M: ModelConfigLike>(
    model_config: M,
    config: CacheConfig,
    act_dtype: ElementType,
    device: CacheDevice,
    layer_devices: Seq<Option<CacheDevice>>,
    settings: Turbo4Settings,
    gpu_cache: Seq<KVCache>,
    i: int,
    d: Decode,
    query: candle_core::Tensor,
    block_table: candle_core::Tensor,
    context_lens: candle_core::Tensor,
)
    requires
        cache_request(
            model_config,
            config,
            act_dtype,
            device,
            layer_devices,
            settings,
        ).is_met_by(gpu_cache),
        0 <= i < gpu_cache.len(),
        config.cache_type is Turbo4,
        act_dtype is F16 || act_dtype is BF16 || act_dtype is F32,
        decodes(
            Ok(d),
            decoded(
                tensor_meta(query),
                tensor_meta(gpu_cache[i].0),
                tensor_meta(gpu_cache[i].1),
                tensor_meta(block_table),
                tensor_meta(context_lens),
            ),
            query,
            block_table,
            context_lens,
        ),
        d.call is Some,
    ensures
        ({
            let layer = model_config.layer(i as usize);
            let n = model_config.layer_count();
            let mode = settings.adaptive_mode;
            let boundary = n >= 8 && ((mode == 1 && (i < 4 || i + 4 >= n)) || (mode == 2 && i + 8
                >= n));
            let shared = !settings.auto_asymmetric_disabled && layer.num_kv_heads > 0
                && layer.num_attn_heads >= 6 * layer.num_kv_heads;
            let l = d.call->0.launch;
            &&& l.key_is_turbo == (if boundary || shared {
                0i32
            } else {
                1
            })
            &&& l.value_is_turbo == (if boundary {
                0i32
            } else {
                1
            })
            &&& holds_size(l.num_kv_heads, layer.num_kv_heads as int)
            &&& holds_size(l.block_size, config.block_size as int)
        }),
{
    lemma_turbo4_caches_by_head_counts(
        model_config,
        config,
        act_dtype,
        device,
        layer_devices,
        settings,
        gpu_cache,
        i,
    );
    lemma_prepared_decode(
        d,
        query,
        gpu_cache[i].0,
        gpu_cache[i].1,
        block_table,
        context_lens,
    );
}

/// Gathering the packed keys that an engine made gives heads of the layer's size back: the groups
/// that the kernel is told, 128 coefficients each, make up a head of the layer.
pub proof fn lemma_engine_keys_are_gathered_whole<M: ModelConfigLike>(
    request: CacheRequest<M>,
    gpu_cache: Seq<KVCache>,
    i: int,
    g: Gather,
    block_table: candle_core::Tensor,
    cu_seq_lens: candle_core::Tensor,
    num_tokens: usize,
    out_dtype: ElementType,
)
    requires
        request.is_met_by(gpu_cache),
        0 <= i < gpu_cache.len(),
        request.config.cache_type is Turbo4,
        request.model_config.layer(i as usize).k_head_dim % 128 == 0,
        gathers(
            Ok(g),
            turbo4_gather(
                tensor_meta(gpu_cache[i].0),
                tensor_meta(block_table),
                tensor_meta(cu_seq_lens),
                num_tokens,
                out_dtype,
            ),
            gpu_cache[i].0,
            block_table,
            cu_seq_lens,
        ),
    ensures
        tensor_dims(g.out) == seq![
            num_tokens,
            request.model_config.layer(i as usize).num_kv_heads,
            request.model_config.layer(i as usize).k_head_dim,
        ],
        g.call matches Some(call) ==> (request.model_config.layer(i as usize).k_head_dim
            <= 2147483647 ==> 128 * call.launch.head_units == request.model_config.layer(
            i as usize,
        ).k_head_dim),
{
    assert(request.is_layer(i, gpu_cache[i]));
    lemma_prepared_turbo4_gather(
        g,
        gpu_cache[i].0,
        block_table,
        cu_seq_lens,
        num_tokens,
        out_dtype,
    );
    assert(tensor_dims(g.out) =~= seq![
        num_tokens,
        request.model_config.layer(i as usize).num_kv_heads,
        request.model_config.layer(i as usize).k_head_dim,
    ]);
}

/// Gathering the packed values that an engine made gives heads of the layer's size back.
pub proof fn lemma_engine_values_are_gathered_whole<M: ModelConfigLike>(
    request: CacheRequest<M>,
    gpu_cache: Seq<KVCache>,
    i: int,
    g: Gather,
    block_table: candle_core::Tensor,
    cu_seq_lens: candle_core::Tensor,
    num_tokens: usize,
    out_dtype: ElementType,
)
    requires
        request.is_met_by(gpu_cache),
        0 <= i < gpu_cache.len(),
        request.config.cache_type is Turbo4,
        request.model_config.layer(i as usize).v_head_dim % 128 == 0,
        gathers(
            Ok(g),
            turbo4_gather(
                tensor_meta(gpu_cache[i].1),
                tensor_meta(block_table),
                tensor_meta(cu_seq_lens),
                num_tokens,
                out_dtype,
            ),
            gpu_cache[i].1,
            block_table,
            cu_seq_lens,
        ),
    ensures
        tensor_dims(g.out) == seq![
            num_tokens,
            request.model_config.layer(i as usize).num_kv_heads,
            request.model_config.layer(i as usize).v_head_dim,
        ],
        g.call matches Some(call) ==> (request.model_config.layer(i as usize).v_head_dim
            <= 2147483647 ==> 128 * call.launch.head_units == request.model_config.layer(
            i as usize,
        ).v_head_dim),
{
    assert(request.is_layer(i, gpu_cache[i]));
    lemma_prepared_turbo4_gather(
        g,
        gpu_cache[i].1,
        block_table,
        cu_seq_lens,
        num_tokens,
        out_dtype,
    );
    assert(tensor_dims(g.out) =~= seq![
        num_tokens,
        request.model_config.layer(i as usize).num_kv_heads,
        request.model_config.layer(i as usize).v_head_dim,
    ]);
}

/// Gathering plain keys or values that an engine made for Turbo4 gives heads of the layer's size and
/// of the compute type back.
pub proof fn lemma_engine_plain_sides_are_gathered_whole<M: ModelConfigLike>(
    request: CacheRequest<M>,
    gpu_cache: Seq<KVCache>,
    i: int,
    keys: bool,
    g: Gather,
    block_table: candle_core::Tensor,
    cu_seq_lens: candle_core::Tensor,
    num_tokens: usize,
)
    requires
        request.is_met_by(gpu_cache),
        0 <= i < gpu_cache.len(),
        request.config.cache_type is Turbo4,
        ({
            let side = if keys {
                gpu_cache[i].0
            } else {
                gpu_cache[i].1
            };
            gathers(
                Ok(g),
                plain_gather(
                    tensor_meta(side),
                    tensor_meta(block_table),
                    tensor_meta(cu_seq_lens),
                    num_tokens,
                ),
                side,
                block_table,
                cu_seq_lens,
            )
        }),
    ensures
        ({
            let layer = request.model_config.layer(i as usize);
            let head_dim = if keys {
                layer.k_head_dim
            } else {
                layer.v_head_dim
            };
            &&& tensor_dims(g.out) == seq![num_tokens, layer.num_kv_heads, head_dim]
            &&& tensor_dtype(g.out) == request.act_dtype
            &&& g.call matches Some(call) ==> holds_size(call.launch.head_units, head_dim as int)
        }),
{
    assert(request.is_layer(i, gpu_cache[i]));
    let side = if keys {
        gpu_cache[i].0
    } else {
        gpu_cache[i].1
    };
    let layer = request.model_config.layer(i as usize);
    lemma_prepared_plain_gather(g, side, block_table, cu_seq_lens, num_tokens);
    assert(tensor_dims(g.out) =~= seq![
        num_tokens,
        layer.num_kv_heads,
        if keys {
            layer.k_head_dim
        } else {
            layer.v_head_dim
        },
    ]);
}

/// Keys of elements smaller than a byte would have to be split exactly if the cache holds such and a
/// layer that gets tensors has the standard layout, or FlashInfer's off CUDA.
pub proof fn lemma_sub_byte_splits<M: ModelConfigLike>(
    model_config: M,
    config: CacheConfig,
    act_dtype: ElementType,
    device: CacheDevice,
    layer_devices: Seq<Option<CacheDevice>>,
    settings: Turbo4Settings,
)
    ensures
        cache_request(
            model_config,
            config,
            act_dtype,
            device,
            layer_devices,
            settings,
        ).splits_sub_byte() <==> config.cache_type is Auto && (act_dtype is F6E2M3
            || act_dtype is F6E3M2 || act_dtype is F4) && exists|i: int|
            #![trigger layer_devices[i]]
            0 <= i < layer_devices.len() && i < model_config.layer_count() && match model_config.layer(
                i as usize,
            ).kv_cache_layout {
                KvCacheLayout::Mla { .. } => false,
                KvCacheLayout::FlashInferHnd => !(device_kind(
                    (if layer_devices[i] is Some {
                        layer_devices[i]->0
                    } else {
                        device
                    }).handle,
                ) is Cuda),
                _ => true,
            },
{
    let request = cache_request(model_config, config, act_dtype, device, layer_devices, settings);
    if request.splits_sub_byte() {
        let i = choose|i: int|
            0 <= i < request.layers() && splits_keys(
                request.model_config.layer(i as usize),
                #[trigger] request.kind(i),
            );
        assert(layer_devices[i] is Some || layer_devices[i] is None);
    }
    assert forall|i: int|
        #![trigger layer_devices[i]]
        0 <= i < layer_devices.len() && i < model_config.layer_count() && match model_config.layer(
            i as usize,
        ).kv_cache_layout {
            KvCacheLayout::Mla { .. } => false,
            KvCacheLayout::FlashInferHnd => !(device_kind(
                (if layer_devices[i] is Some {
                    layer_devices[i]->0
                } else {
                    device
                }).handle,
            ) is Cuda),
            _ => true,
        } implies splits_keys(
        request.model_config.layer(i as usize),
        request.kind(i),
    ) by {}
}

/// A request fits into the address space, lies on the CPU and can be held there exactly if that is
/// so of both tensors of every layer.
pub proof fn lemma_requests_layer_by_layer<M: ModelConfigLike>(request: CacheRequest<M>)
    ensures
        request.fits() <==> forall|i: int|
            0 <= i < request.layers() ==> fits(
                (#[trigger] request.shapes(i)).key.dims,
                request.shapes(i).key.dtype,
            ) && fits(request.shapes(i).value.dims, request.shapes(i).value.dtype),
        request.cpu_can_hold() <==> forall|i: int|
            0 <= i < request.layers() ==> cpu_holds((#[trigger] request.shapes(i)).key.dtype)
                && cpu_holds(request.shapes(i).value.dtype),
        request.on_cpu() <==> forall|i: int|
            0 <= i < request.layers() ==> device_kind(#[trigger] request.place(i)) is Cpu,
{
    if request.on_cpu() {
        assert forall|i: int| 0 <= i < request.layers() implies device_kind(
            #[trigger] request.place(i),
        ) is Cpu by {
            assert(request.kind(i) is Cpu);
        }
    }
    if forall|i: int| 0 <= i < request.layers() ==> device_kind(#[trigger] request.place(i)) is Cpu {
        assert forall|i: int| 0 <= i < request.layers() implies #[trigger] request.kind(i) is Cpu by {
            assert(device_kind(request.place(i)) is Cpu);
        }
    }
}

/// The prefill kernel is asked about a layer exactly if it handles paged FP8 caches, there are
/// blocks, and the layer keeps both sides as FP8 blocks of heads, slots and 256 elements in
/// FlashInfer's layout, with query heads that are some times as many as the key heads.
pub proof fn lemma_prefill_is_asked<M: ModelConfigLike>(
    model_config: M,
    config: CacheConfig,
    use_fa3_fp8_paged: bool,
    shapes: Seq<LayerShapesView>,
    i: usize,
)
    ensures
        ({
            let asked = fa3_asked(model_config, config, use_fa3_fp8_paged, shapes, i as int);
            let layer = model_config.layer(i);
            let dims = seq![config.num_gpu_blocks, layer.num_kv_heads, config.block_size, 256];
            &&& asked is Some <==> {
                &&& use_fa3_fp8_paged
                &&& config.num_gpu_blocks > 0
                &&& i < shapes.len()
                &&& layer.has_paged_kv_cache
                &&& layer.kv_cache_layout is FlashInferHnd
                &&& layer.num_kv_heads > 0
                &&& layer.num_attn_heads > 0
                &&& layer.num_attn_heads % layer.num_kv_heads == 0
                &&& layer.k_head_dim == 256
                &&& layer.v_head_dim == 256
                &&& shapes[i as int].key.dtype is F8E4M3 && shapes[i as int].key.dims == dims
                &&& shapes[i as int].value.dtype is F8E4M3 && shapes[i as int].value.dims == dims
            }
            &&& asked matches Some(probe) ==> {
                &&& probe.q_heads == layer.num_attn_heads
                &&& probe.kv_heads == layer.num_kv_heads
                &&& probe.head_dim == 256
                &&& probe.block_size == config.block_size
            }
        }),
{
}

/// The coverage of the prefill kernel: for each layer the reply where it was asked, and none where it
/// was not. Where a reply that counts failed, the first of those is returned.
pub proof fn lemma_prefill_coverage<M: ModelConfigLike>(
    model_config: M,
    config: CacheConfig,
    use_fa3_fp8_paged: bool,
    shapes: Seq<LayerShapesView>,
    replies: Seq<Result<Option<usize>, String>>,
    values: Seq<Option<usize>>,
    e: String,
)
    requires
        replies.len() == model_config.layer_count(),
    ensures
        ({
            let answers = fa3_answers(model_config, config, use_fa3_fp8_paged, shapes, replies);
            &&& all_ok(answers, values) ==> {
                &&& values.len() == model_config.layer_count()
                &&& forall|i: int|
                    0 <= i < values.len() ==> (if fa3_asked(
                        model_config,
                        config,
                        use_fa3_fp8_paged,
                        shapes,
                        i,
                    ) is Some {
                        replies[i] == Ok::<Option<usize>, String>(#[trigger] values[i])
                    } else {
                        values[i] is None
                    })
            }
            &&& first_failure(answers, e) ==> exists|i: int|
                0 <= i < replies.len() && fa3_asked(
                    model_config,
                    config,
                    use_fa3_fp8_paged,
                    shapes,
                    i,
                ) is Some && (#[trigger] replies[i] matches Err(f) && f@ == e@) && (forall|j: int|
                    0 <= j < i && fa3_asked(model_config, config, use_fa3_fp8_paged, shapes, j)
                        is Some ==> #[trigger] replies[j] is Ok)
        }),
{
    let answers = fa3_answers(model_config, config, use_fa3_fp8_paged, shapes, replies);
    if all_ok(answers, values) {
        assert forall|i: int| 0 <= i < values.len() implies (if fa3_asked(
            model_config,
            config,
            use_fa3_fp8_paged,
            shapes,
            i,
        ) is Some {
            replies[i] == Ok::<Option<usize>, String>(#[trigger] values[i])
        } else {
            values[i] is None
        }) by {
            assert(answers[i] == Ok::<Option<usize>, String>(values[i]));
        }
    }
    if first_failure(answers, e) {
        let i = choose|i: int|
            0 <= i < answers.len() && (#[trigger] answers[i] matches Err(f) && f@ == e@) && (forall|
                j: int,
            |
                0 <= j < i ==> #[trigger] answers[j] is Ok);
        assert(answers[i] == replies[i]);
        assert forall|j: int|
            0 <= j < i && fa3_asked(model_config, config, use_fa3_fp8_paged, shapes, j)
                is Some implies #[trigger] replies[j] is Ok by {
            assert(answers[j] is Ok);
        }
    }
}

/// The shapes of the two tensors of a layer are those of its key and its value tensor.
pub proof fn lemma_cache_shapes(c: KVCache)
    ensures
        cache_shapes(c).key.dtype == tensor_dtype(c.0),
        cache_shapes(c).key.dims == tensor_dims(c.0),
        cache_shapes(c).value.dtype == tensor_dtype(c.1),
        cache_shapes(c).value.dims == tensor_dims(c.1),
{
}

/// What is known of a device when a format is chosen is its family and its capability, and that of
/// the layers' own devices place by place.
pub proof fn lemma_devices_are_described(
    device: CacheDevice,
    layer_devices: Seq<Option<CacheDevice>>,
    i: int,
)
    ensures
        device.described().kind == device_kind(device.handle),
        device.described().compute_major == device.compute_major,
        described_all(layer_devices).len() == layer_devices.len(),
        0 <= i < layer_devices.len() ==> (match layer_devices[i] {
            Some(own) => described_all(layer_devices)[i] == Some(own.described()),
            None => described_all(layer_devices)[i] is None,
        }),
{
}

/// An engine is refused an FP8 cache unless the activations are f16, bf16 or f32 and each layer with
/// a paged cache is free of MLA and has its tensors on a capable CUDA device or on Metal.
pub proof fn lemma_engine_accepts_fp8<M: ModelConfigLike>(
    model_config: M,
    config: CacheConfig,
    act_dtype: ElementType,
    device: CacheDevice,
    layer_devices: Seq<Option<CacheDevice>>,
    settings: Turbo4Settings,
    backend: Backend,
)
    requires
        config.cache_type is F8E4M3,
    ensures
        cache_request(
            model_config,
            config,
            act_dtype,
            device,
            layer_devices,
            settings,
        ).validation(backend) is None <==> (act_dtype is F16 || act_dtype is BF16
            || act_dtype is F32) && (forall|i: usize|
            i < model_config.layer_count() && (
            #[trigger] model_config.layer(i)).has_paged_kv_cache ==> {
                let own = if i < layer_devices.len() && layer_devices[i as int] is Some {
                    layer_devices[i as int]->0
                } else {
                    device
                };
                &&& !(model_config.layer(i).kv_cache_layout is Mla)
                &&& {
                    ||| device_kind(own.handle) is Cuda && backend.cuda && backend.use_fp8
                        && own.compute_major is Some && own.compute_major->0 >= 8
                    ||| device_kind(own.handle) is Metal && backend.metal
                }
            }),
{
    let infos = described_all(layer_devices);
    lemma_fp8_accepted(act_dtype, model_config, device.described(), infos, backend);
    assert forall|i: usize| i < layer_devices.len() implies #[trigger] infos[i as int] == (
    match layer_devices[i as int] {
        Some(own) => Some(own.described()),
        None => None,
    }) by {}
}

/// An engine is refused a Turbo4 cache unless each layer with a paged cache is free of MLA and has
/// heads of whole groups of 128, and is never refused a cache of the compute type.
pub proof fn lemma_engine_accepts_turbo4<M: ModelConfigLike>(
    model_config: M,
    config: CacheConfig,
    act_dtype: ElementType,
    device: CacheDevice,
    layer_devices: Seq<Option<CacheDevice>>,
    settings: Turbo4Settings,
    backend: Backend,
)
    ensures
        config.cache_type is Turbo4 ==> (cache_request(
            model_config,
            config,
            act_dtype,
            device,
            layer_devices,
            settings,
        ).validation(backend) is None <==> (forall|i: usize|
            i < model_config.layer_count() && (
            #[trigger] model_config.layer(i)).has_paged_kv_cache ==> {
                &&& !(model_config.layer(i).kv_cache_layout is Mla)
                &&& model_config.layer(i).k_head_dim % 128 == 0
                &&& model_config.layer(i).v_head_dim % 128 == 0
            })),
        config.cache_type is Auto ==> cache_request(
            model_config,
            config,
            act_dtype,
            device,
            layer_devices,
            settings,
        ).validation(backend) is None,
{
    lemma_turbo4_accepted(
        act_dtype,
        model_config,
        device.described(),
        described_all(layer_devices),
        backend,
    );
}

} // verus!
