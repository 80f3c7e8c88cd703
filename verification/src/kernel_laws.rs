//! What the kernels are called with, said of the element types, dimensions and places of the tensors
//! that a caller hands over.
use crate::gather::{
    Gather, GatherPlan, gather_operands, gathers, head_size_overflows, launched,
    plain_gather, plain_plan, tables_checked, turbo4_gather, turbo4_plan,
};
use crate::kernels::{
    CallError, DimsFault, Failure, KernelErrorView, Op, Operand, Refusal, Role, Side, candle_failed,
    fails_with, first_refused, io_code, is_table_dtype, out_code,
};
use crate::paged_attention::{
    Decode, DecodePlan, capacity_overflows, decode_heads, decode_launched, decode_operands,
    decode_plan, decoded, decodes, side_info,
};
use crate::plan_laws::lemma_multiples;
use crate::tensor::{
    DeviceKind, ElementType, MetaView, born_zeroed, fits, row_major_form, tensor_dims, tensor_dtype,
    tensor_kind, tensor_meta, tensor_ordinal, tensor_row_major,
};
use vstd::prelude::*;

verus! {

/// The numbers of the element types that the kernels compute in; all others are refused by name.
pub proof fn lemma_dtype_codes(dtype: ElementType, op: Op)
    ensures
        out_code(dtype, op) == Ok::<u32, KernelErrorView>(0) <==> dtype is F16,
        out_code(dtype, op) == Ok::<u32, KernelErrorView>(1) <==> dtype is BF16,
        out_code(dtype, op) == Ok::<u32, KernelErrorView>(2) <==> dtype is F32,
        !(dtype is F16 || dtype is BF16 || dtype is F32) ==> out_code(dtype, op) == Err::<
            u32,
            KernelErrorView,
        >(KernelErrorView::Refused(Refusal::OutDType { op, dtype })),
        io_code(dtype, op) == Ok::<u32, KernelErrorView>(0) <==> dtype is F16,
        io_code(dtype, op) == Ok::<u32, KernelErrorView>(1) <==> dtype is BF16,
        io_code(dtype, op) == Ok::<u32, KernelErrorView>(2) <==> dtype is F32,
        !(dtype is F16 || dtype is BF16 || dtype is F32) ==> io_code(dtype, op) == Err::<
            u32,
            KernelErrorView,
        >(KernelErrorView::Refused(Refusal::IoDType { op, dtype })),
        is_table_dtype(dtype) <==> dtype == ElementType::I32 || dtype == ElementType::U32,
{
}

/// Tables are refused exactly if one of them does not hold 32-bit integers; the block table is looked
/// at first.
pub proof fn lemma_tables(block_table: ElementType, cu_seq_lens: ElementType, op: Op)
    ensures
        ({
            let table = block_table == ElementType::I32 || block_table == ElementType::U32;
            let lens = cu_seq_lens == ElementType::I32 || cu_seq_lens == ElementType::U32;
            match tables_checked(block_table, cu_seq_lens, op) {
                Ok(_) => table && lens,
                Err(e) => e == KernelErrorView::Refused(
                    Refusal::TableDType {
                        op,
                        role: if table {
                            Role::CuSeqLens
                        } else {
                            Role::BlockTable
                        },
                        dtype: if table {
                            cu_seq_lens
                        } else {
                            block_table
                        },
                    },
                ) && !(table && lens),
            }
        }),
{
}

/// Operands are in order exactly if all of them live on CUDA devices and the tables that the kernel
/// takes for unsigned integers hold such. Else the first that is not is named.
pub proof fn lemma_operands(operands: Seq<Operand>)
    ensures
        match first_refused(operands) {
            None => forall|i: int|
                0 <= i < operands.len() ==> (#[trigger] operands[i]).kind is Cuda && (
                operands[i].unsigned_table is None || operands[i].unsigned_table->0 is U32),
            Some(r) => exists|k: int|
                0 <= k < operands.len() && (if (#[trigger] operands[k]).kind is Cuda {
                    operands[k].unsigned_table is Some && !(operands[k].unsigned_table->0 is U32)
                        && r == (Refusal::TableSlice { dtype: operands[k].unsigned_table->0 })
                } else {
                    r == (Refusal::NotCuda { role: operands[k].role })
                }) && (forall|i: int|
                    0 <= i < k ==> (#[trigger] operands[i]).kind is Cuda && (
                    operands[i].unsigned_table is None || operands[i].unsigned_table->0 is U32)),
        },
    decreases operands.len(),
{
    if operands.len() > 0 {
        let rest = operands.skip(1);
        lemma_operands(rest);
        assert forall|i: int| 0 <= i < rest.len() implies #[trigger] rest[i] == operands[i + 1] by {}
        if operands[0].refusal() is Some {
            assert(operands[0].kind is Cuda ==> operands[0].unsigned_table is Some);
        } else if first_refused(rest) is None {
            assert forall|i: int| 0 <= i < operands.len() implies (#[trigger] operands[i]).kind
                is Cuda && (operands[i].unsigned_table is None
                || operands[i].unsigned_table->0 is U32) by {
                if i > 0 {
                    assert(rest[i - 1] == operands[i]);
                }
            }
        } else {
            let r = first_refused(rest)->0;
            let k = choose|k: int|
                0 <= k < rest.len() && (if (#[trigger] rest[k]).kind is Cuda {
                    rest[k].unsigned_table is Some && !(rest[k].unsigned_table->0 is U32) && r == (
                    Refusal::TableSlice { dtype: rest[k].unsigned_table->0 })
                } else {
                    r == (Refusal::NotCuda { role: rest[k].role })
                }) && (forall|i: int|
                    0 <= i < k ==> (#[trigger] rest[i]).kind is Cuda && (
                    rest[i].unsigned_table is None || rest[i].unsigned_table->0 is U32));
            assert(operands[k + 1] == rest[k]);
            assert forall|i: int| 0 <= i < k + 1 implies (#[trigger] operands[i]).kind is Cuda && (
            operands[i].unsigned_table is None || operands[i].unsigned_table->0 is U32) by {
                if i > 0 {
                    assert(rest[i - 1] == operands[i]);
                }
            }
        }
    }
}

/// Whether a number of the kernel is a size, as far as it can hold it.
pub open spec fn holds_size(n: i32, size: int) -> bool {
    size <= 2147483647 ==> n == size
}

/// A packed gather is in order exactly if the cache is packed bytes in blocks of 66, the tables hold
/// 32-bit integers, the offsets are a list that starts somewhere, tokens and sequences can be
/// counted in 32 bits, and the output has a type that the kernel writes. The kernel is then told the
/// dimensions of the cache, and the groups that it is told make up the heads of the output.
pub proof fn lemma_turbo4_plan(
    cache: MetaView,
    block_table: ElementType,
    cu_seq_lens: MetaView,
    num_tokens: usize,
    out_dtype: ElementType,
)
    ensures
        ({
            let plan = turbo4_plan(cache, block_table, cu_seq_lens, num_tokens, out_dtype);
            &&& plan is Ok <==> {
                &&& cache.dtype == ElementType::U8
                &&& cache.dims.len() == 5
                &&& cache.dims[4] == 66
                &&& block_table == ElementType::I32 || block_table == ElementType::U32
                &&& cu_seq_lens.dtype == ElementType::I32 || cu_seq_lens.dtype == ElementType::U32
                &&& cu_seq_lens.dims.len() == 1
                &&& 1 <= cu_seq_lens.dims[0] <= 2147483648
                &&& num_tokens <= 2147483647
                &&& out_dtype is F16 || out_dtype is BF16 || out_dtype is F32
            }
            &&& plan is Ok ==> {
                let p = plan->Ok_0;
                &&& p.num_tokens == num_tokens
                &&& p.num_tokens_i32 == num_tokens
                &&& p.num_seqs_i32 + 1 == cu_seq_lens.dims[0]
                &&& p.block_size == cache.dims[1]
                &&& p.kv_heads == cache.dims[2]
                &&& p.head_units == cache.dims[3]
                &&& cache.dims[3] * 128 <= usize::MAX ==> p.head_size == 128 * p.head_units
                &&& p.out_dtype == out_dtype
                &&& p.out_dtype_code == (if out_dtype is F16 {
                    0u32
                } else if out_dtype is BF16 {
                    1
                } else {
                    2
                })
                &&& p.out_dims() == seq![p.num_tokens, p.kv_heads, p.head_size]
            }
            &&& head_size_overflows(cache, block_table, cu_seq_lens.dtype) <==> {
                &&& cache.dtype == ElementType::U8
                &&& cache.dims.len() == 5
                &&& cache.dims[4] == 66
                &&& block_table == ElementType::I32 || block_table == ElementType::U32
                &&& cu_seq_lens.dtype == ElementType::I32 || cu_seq_lens.dtype == ElementType::U32
                &&& cache.dims[3] * 128 > usize::MAX
            }
        }),
{
}

/// Why a packed gather is not in order: what is said of the arguments is so, and what is looked at
/// before is in order.
pub proof fn lemma_turbo4_plan_errors(
    cache: MetaView,
    block_table: ElementType,
    cu_seq_lens: MetaView,
    num_tokens: usize,
    out_dtype: ElementType,
)
    ensures
        ({
            let plan = turbo4_plan(cache, block_table, cu_seq_lens, num_tokens, out_dtype);
            let op = Op::GatherTurbo4Cache;
            let packed = cache.dtype == ElementType::U8;
            let table = block_table == ElementType::I32 || block_table == ElementType::U32;
            let lens = cu_seq_lens.dtype == ElementType::I32 || cu_seq_lens.dtype
                == ElementType::U32;
            let blocks = cache.dims.len() == 5 && cache.dims[4] == 66;
            let offsets = cu_seq_lens.dims.len() == 1 && cu_seq_lens.dims[0] >= 1;
            match plan {
                Ok(_) => true,
                Err(KernelErrorView::Refused(r)) => match r {
                    Refusal::PackedDType { dtype } => !packed && dtype == cache.dtype,
                    Refusal::TableDType { op: o, role, dtype } => packed && o == op && (if table {
                        !lens && role is CuSeqLens && dtype == cu_seq_lens.dtype
                    } else {
                        role is BlockTable && dtype == block_table
                    }),
                    Refusal::BlockBytes { got } => packed && table && lens && cache.dims.len() == 5
                        && cache.dims[4] != 66 && got == cache.dims[4],
                    Refusal::NoInitialOffset => packed && table && lens && blocks
                        && cu_seq_lens.dims =~= seq![0usize],
                    Refusal::TooManyTokens => packed && table && lens && blocks && offsets
                        && num_tokens > 2147483647,
                    Refusal::TooManySeqs => packed && table && lens && blocks && offsets
                        && num_tokens <= 2147483647 && cu_seq_lens.dims[0] > 2147483648,
                    Refusal::OutDType { op: o, dtype } => packed && table && lens && blocks
                        && offsets && num_tokens <= 2147483647 && cu_seq_lens.dims[0] <= 2147483648
                        && o == op && dtype == out_dtype && !(out_dtype is F16 || out_dtype is BF16
                        || out_dtype is F32),
                    _ => false,
                },
                Err(KernelErrorView::Dims { fault, dims }) => packed && table && lens && (if blocks {
                    fault == (DimsFault::Rank { expected: 1 }) && dims == cu_seq_lens.dims
                        && dims.len() != 1
                } else {
                    fault == (DimsFault::Rank { expected: 5 }) && dims == cache.dims && dims.len()
                        != 5
                }),
            }
        }),
{
}

/// A plain gather is in order exactly if the cache has a type that the kernel writes and four
/// dimensions, and tables, tokens and sequences are as for a packed one. The kernel is then told the
/// dimensions of the cache, and the elements that it is told are the heads of the output.
pub proof fn lemma_plain_plan(
    cache: MetaView,
    block_table: ElementType,
    cu_seq_lens: MetaView,
    num_tokens: usize,
)
    ensures
        ({
            let plan = plain_plan(cache, block_table, cu_seq_lens, num_tokens);
            &&& plan is Ok <==> {
                &&& cache.dtype is F16 || cache.dtype is BF16 || cache.dtype is F32
                &&& cache.dims.len() == 4
                &&& block_table == ElementType::I32 || block_table == ElementType::U32
                &&& cu_seq_lens.dtype == ElementType::I32 || cu_seq_lens.dtype == ElementType::U32
                &&& cu_seq_lens.dims.len() == 1
                &&& 1 <= cu_seq_lens.dims[0] <= 2147483648
                &&& num_tokens <= 2147483647
            }
            &&& plan is Ok ==> {
                let p = plan->Ok_0;
                &&& p.num_tokens == num_tokens
                &&& p.num_tokens_i32 == num_tokens
                &&& p.num_seqs_i32 + 1 == cu_seq_lens.dims[0]
                &&& p.block_size == cache.dims[1]
                &&& p.kv_heads == cache.dims[2]
                &&& p.head_units == cache.dims[3]
                &&& p.head_size == p.head_units
                &&& p.out_dtype == cache.dtype
                &&& p.out_dtype_code == (if cache.dtype is F16 {
                    0u32
                } else if cache.dtype is BF16 {
                    1
                } else {
                    2
                })
                &&& p.out_dims() == seq![p.num_tokens, p.kv_heads, p.head_size]
            }
        }),
{
}

/// Why a plain gather is not in order: what is said of the arguments is so, and what is looked at
/// before is in order.
pub proof fn lemma_plain_plan_errors(
    cache: MetaView,
    block_table: ElementType,
    cu_seq_lens: MetaView,
    num_tokens: usize,
)
    ensures
        ({
            let plan = plain_plan(cache, block_table, cu_seq_lens, num_tokens);
            let op = Op::GatherPlainKvCache;
            let float = cache.dtype is F16 || cache.dtype is BF16 || cache.dtype is F32;
            let table = block_table == ElementType::I32 || block_table == ElementType::U32;
            let lens = cu_seq_lens.dtype == ElementType::I32 || cu_seq_lens.dtype
                == ElementType::U32;
            let heads = cache.dims.len() == 4;
            let offsets = cu_seq_lens.dims.len() == 1 && cu_seq_lens.dims[0] >= 1;
            match plan {
                Ok(_) => true,
                Err(KernelErrorView::Refused(r)) => match r {
                    Refusal::OutDType { op: o, dtype } => !float && o == op && dtype == cache.dtype,
                    Refusal::TableDType { op: o, role, dtype } => float && o == op && (if table {
                        !lens && role is CuSeqLens && dtype == cu_seq_lens.dtype
                    } else {
                        role is BlockTable && dtype == block_table
                    }),
                    Refusal::NoInitialOffset => float && table && lens && heads
                        && cu_seq_lens.dims =~= seq![0usize],
                    Refusal::TooManyTokens => float && table && lens && heads && offsets
                        && num_tokens > 2147483647,
                    Refusal::TooManySeqs => float && table && lens && heads && offsets && num_tokens
                        <= 2147483647 && cu_seq_lens.dims[0] > 2147483648,
                    _ => false,
                },
                Err(KernelErrorView::Dims { fault, dims }) => float && table && lens && (if heads {
                    fault == (DimsFault::Rank { expected: 1 }) && dims == cu_seq_lens.dims
                        && dims.len() != 1
                } else {
                    fault == (DimsFault::Rank { expected: 4 }) && dims == cache.dims
                }),
            }
        }),
{
}

/// A gather kernel is called exactly if cache, output, table and offsets live on CUDA devices and
/// the table holds unsigned integers in rows. It is told the numbers of the plan and the length of
/// the rows.
pub proof fn lemma_gather_launch(
    plan: GatherPlan,
    cache: DeviceKind,
    out: DeviceKind,
    block_table: MetaView,
    cu_seq_lens: DeviceKind,
)
    ensures
        ({
            let launch = launched(plan, cache, out, block_table, cu_seq_lens);
            &&& launch is Ok <==> {
                &&& cache is Cuda
                &&& out is Cuda
                &&& block_table.kind is Cuda
                &&& cu_seq_lens is Cuda
                &&& block_table.dtype == ElementType::U32
                &&& block_table.dims.len() == 2
            }
            &&& launch matches Ok(l) ==> {
                &&& l.num_tokens == plan.num_tokens_i32
                &&& l.num_seqs == plan.num_seqs_i32
                &&& holds_size(l.block_size, plan.block_size as int)
                &&& holds_size(l.block_table_stride, block_table.dims[1] as int)
                &&& holds_size(l.kv_heads, plan.kv_heads as int)
                &&& holds_size(l.head_units, plan.head_units as int)
                &&& l.out_dtype_code == plan.out_dtype_code
            }
            &&& launch matches Err(KernelErrorView::Refused(r)) ==> match r {
                Refusal::NotCuda { role } => match role {
                    Role::Cache => !(cache is Cuda),
                    Role::Out => cache is Cuda && !(out is Cuda),
                    Role::BlockTable => cache is Cuda && out is Cuda && !(block_table.kind is Cuda),
                    Role::CuSeqLens => cache is Cuda && out is Cuda && block_table.kind is Cuda
                        && block_table.dtype == ElementType::U32 && !(cu_seq_lens is Cuda),
                    _ => false,
                },
                Refusal::TableSlice { dtype } => cache is Cuda && out is Cuda
                    && block_table.kind is Cuda && dtype == block_table.dtype && dtype
                    != ElementType::U32,
                _ => false,
            }
            &&& launch matches Err(KernelErrorView::Dims { fault, dims }) ==> fault == (
            DimsFault::Rank { expected: 2 }) && dims == block_table.dims && dims.len() != 2
        }),
{
    let ops = gather_operands(cache, out, block_table, cu_seq_lens);
    lemma_operands(ops);
    assert(ops.len() == 4);
    assert(ops[0] == (Operand { role: Role::Cache, kind: cache, unsigned_table: None }));
    assert(ops[1] == (Operand { role: Role::Out, kind: out, unsigned_table: None }));
    assert(ops[2] == (Operand {
        role: Role::BlockTable,
        kind: block_table.kind,
        unsigned_table: Some(block_table.dtype),
    }));
    assert(ops[3] == (Operand { role: Role::CuSeqLens, kind: cu_seq_lens, unsigned_table: None }));
}

/// What a prepared gather hands over and tells the kernel, whichever the cache: the given tables in
/// row-major order, a zeroed output beside the cache, and the counts of tokens and sequences.
pub open spec fn hands_over(
    g: Gather,
    cache: candle_core::Tensor,
    block_table: candle_core::Tensor,
    cu_seq_lens: candle_core::Tensor,
    num_tokens: usize,
    out_dtype: ElementType,
) -> bool {
    &&& tensor_dtype(g.out) == out_dtype
    &&& tensor_kind(g.out) == tensor_kind(cache)
    &&& tensor_ordinal(g.out) == tensor_ordinal(cache)
    &&& tensor_row_major(g.out)
    &&& born_zeroed(g.out)
    &&& g.out != cache
    &&& g.call is None <==> num_tokens == 0
    &&& g.call matches Some(call) ==> {
        &&& row_major_form(block_table, call.block_table)
        &&& row_major_form(cu_seq_lens, call.cu_seq_lens)
        &&& tensor_row_major(call.block_table)
        &&& tensor_row_major(call.cu_seq_lens)
        &&& tensor_dims(call.block_table) == tensor_dims(block_table)
        &&& tensor_dims(call.cu_seq_lens) == tensor_dims(cu_seq_lens)
        &&& tensor_kind(cache) is Cuda
        &&& tensor_kind(block_table) is Cuda
        &&& tensor_kind(cu_seq_lens) is Cuda
        &&& tensor_dtype(block_table) == ElementType::U32
        &&& tensor_dims(block_table).len() == 2
        &&& tensor_dims(cu_seq_lens).len() == 1
        &&& call.launch.num_tokens == num_tokens
        &&& call.launch.num_seqs + 1 == tensor_dims(cu_seq_lens)[0]
        &&& holds_size(call.launch.block_size, tensor_dims(cache)[1] as int)
        &&& holds_size(call.launch.kv_heads, tensor_dims(cache)[2] as int)
        &&& holds_size(call.launch.head_units, tensor_dims(cache)[3] as int)
        &&& holds_size(call.launch.block_table_stride, tensor_dims(block_table)[1] as int)
        &&& call.launch.out_dtype_code == (if out_dtype is F16 {
            0u32
        } else if out_dtype is BF16 {
            1
        } else {
            2
        })
    }
}

/// A prepared packed gather: tokens of heads of 128 coefficients for each group of the cache, and a
/// kernel that is told as many groups as make up such a head.
pub proof fn lemma_prepared_turbo4_gather(
    g: Gather,
    cache: candle_core::Tensor,
    block_table: candle_core::Tensor,
    cu_seq_lens: candle_core::Tensor,
    num_tokens: usize,
    out_dtype: ElementType,
)
    requires
        gathers(
            Ok(g),
            turbo4_gather(
                tensor_meta(cache),
                tensor_meta(block_table),
                tensor_meta(cu_seq_lens),
                num_tokens,
                out_dtype,
            ),
            cache,
            block_table,
            cu_seq_lens,
        ),
    ensures
        tensor_dtype(cache) == ElementType::U8,
        tensor_dims(cache).len() == 5,
        tensor_dims(cache)[4] == 66,
        tensor_dims(g.out).len() == 3,
        tensor_dims(g.out)[0] == num_tokens,
        tensor_dims(g.out)[1] == tensor_dims(cache)[2],
        tensor_dims(g.out)[2] == 128 * tensor_dims(cache)[3],
        hands_over(g, cache, block_table, cu_seq_lens, num_tokens, out_dtype),
        g.call matches Some(call) ==> (tensor_dims(g.out)[2] <= 2147483647 ==> 128
            * call.launch.head_units == tensor_dims(g.out)[2]),
{
    let (c, t, l) = (tensor_meta(cache), tensor_meta(block_table), tensor_meta(cu_seq_lens));
    lemma_turbo4_plan(c, t.dtype, l, num_tokens, out_dtype);
    let plan = turbo4_plan(c, t.dtype, l, num_tokens, out_dtype)->Ok_0;
    lemma_gather_launch(plan, c.kind, c.kind, t, l.kind);
}

/// A prepared plain gather: tokens of the heads of the cache in its own element type, and a kernel
/// that is told the elements of such a head.
pub proof fn lemma_prepared_plain_gather(
    g: Gather,
    cache: candle_core::Tensor,
    block_table: candle_core::Tensor,
    cu_seq_lens: candle_core::Tensor,
    num_tokens: usize,
)
    requires
        gathers(
            Ok(g),
            plain_gather(
                tensor_meta(cache),
                tensor_meta(block_table),
                tensor_meta(cu_seq_lens),
                num_tokens,
            ),
            cache,
            block_table,
            cu_seq_lens,
        ),
    ensures
        tensor_dims(cache).len() == 4,
        tensor_dims(g.out).len() == 3,
        tensor_dims(g.out)[0] == num_tokens,
        tensor_dims(g.out)[1] == tensor_dims(cache)[2],
        tensor_dims(g.out)[2] == tensor_dims(cache)[3],
        hands_over(g, cache, block_table, cu_seq_lens, num_tokens, tensor_dtype(cache)),
        g.call matches Some(call) ==> (tensor_dims(g.out)[2] <= 2147483647
            ==> call.launch.head_units == tensor_dims(g.out)[2]),
{
    let (c, t, l) = (tensor_meta(cache), tensor_meta(block_table), tensor_meta(cu_seq_lens));
    lemma_plain_plan(c, t.dtype, l, num_tokens);
    let plan = plain_plan(c, t.dtype, l, num_tokens)->Ok_0;
    lemma_gather_launch(plan, c.kind, c.kind, t, l.kind);
}

/// A packed gather whose tensors and output fit into the address space can be prepared exactly if
/// its arguments are in order and, where there are tokens, so are the tensors of the launch.
pub proof fn lemma_turbo4_gather_succeeds(
    cache: MetaView,
    block_table: MetaView,
    cu_seq_lens: MetaView,
    num_tokens: usize,
    out_dtype: ElementType,
)
    requires
        fits(block_table.dims, block_table.dtype),
        fits(cu_seq_lens.dims, cu_seq_lens.dtype),
        cache.dims.len() == 5 ==> cache.dims[3] * 128 <= usize::MAX && fits(
            seq![num_tokens, cache.dims[2], (128 * cache.dims[3]) as usize],
            out_dtype,
        ),
    ensures
        turbo4_gather(cache, block_table, cu_seq_lens, num_tokens, out_dtype) is Ok <==> {
            &&& cache.dtype == ElementType::U8
            &&& cache.dims.len() == 5
            &&& cache.dims[4] == 66
            &&& block_table.dtype == ElementType::I32 || block_table.dtype == ElementType::U32
            &&& cu_seq_lens.dtype == ElementType::I32 || cu_seq_lens.dtype == ElementType::U32
            &&& cu_seq_lens.dims.len() == 1
            &&& 1 <= cu_seq_lens.dims[0] <= 2147483648
            &&& num_tokens <= 2147483647
            &&& out_dtype is F16 || out_dtype is BF16 || out_dtype is F32
            &&& num_tokens == 0 || {
                &&& cache.kind is Cuda
                &&& block_table.kind is Cuda
                &&& cu_seq_lens.kind is Cuda
                &&& block_table.dtype == ElementType::U32
                &&& block_table.dims.len() == 2
            }
        },
        turbo4_gather(cache, block_table, cu_seq_lens, num_tokens, out_dtype) matches Err(f)
            ==> f is Kernel,
{
    lemma_turbo4_plan(cache, block_table.dtype, cu_seq_lens, num_tokens, out_dtype);
    let plan = turbo4_plan(cache, block_table.dtype, cu_seq_lens, num_tokens, out_dtype);
    if plan is Ok {
        lemma_gather_launch(plan->Ok_0, cache.kind, cache.kind, block_table, cu_seq_lens.kind);
        assert(plan->Ok_0.out_dims() =~= seq![
            num_tokens,
            cache.dims[2],
            (128 * cache.dims[3]) as usize,
        ]);
    }
}

/// A plain gather whose tensors and output fit into the address space can be prepared exactly if its
/// arguments are in order and, where there are tokens, so are the tensors of the launch.
pub proof fn lemma_plain_gather_succeeds(
    cache: MetaView,
    block_table: MetaView,
    cu_seq_lens: MetaView,
    num_tokens: usize,
)
    requires
        fits(block_table.dims, block_table.dtype),
        fits(cu_seq_lens.dims, cu_seq_lens.dtype),
        cache.dims.len() == 4 ==> fits(
            seq![num_tokens, cache.dims[2], cache.dims[3]],
            cache.dtype,
        ),
    ensures
        plain_gather(cache, block_table, cu_seq_lens, num_tokens) is Ok <==> {
            &&& cache.dtype is F16 || cache.dtype is BF16 || cache.dtype is F32
            &&& cache.dims.len() == 4
            &&& block_table.dtype == ElementType::I32 || block_table.dtype == ElementType::U32
            &&& cu_seq_lens.dtype == ElementType::I32 || cu_seq_lens.dtype == ElementType::U32
            &&& cu_seq_lens.dims.len() == 1
            &&& 1 <= cu_seq_lens.dims[0] <= 2147483648
            &&& num_tokens <= 2147483647
            &&& num_tokens == 0 || {
                &&& cache.kind is Cuda
                &&& block_table.kind is Cuda
                &&& cu_seq_lens.kind is Cuda
                &&& block_table.dtype == ElementType::U32
                &&& block_table.dims.len() == 2
            }
        },
        plain_gather(cache, block_table, cu_seq_lens, num_tokens) matches Err(f) ==> f is Kernel,
{
    lemma_plain_plan(cache, block_table.dtype, cu_seq_lens, num_tokens);
    let plan = plain_plan(cache, block_table.dtype, cu_seq_lens, num_tokens);
    if plan is Ok {
        lemma_gather_launch(plan->Ok_0, cache.kind, cache.kind, block_table, cu_seq_lens.kind);
        assert(plan->Ok_0.out_dims() =~= seq![num_tokens, cache.dims[2], cache.dims[3]]);
    }
}

/// The reason that a failed call gives is the reason that it failed for, and what candle reports is
/// neither a refusal nor a size.
pub proof fn lemma_failures(e: CallError, f: Failure)
    requires
        fails_with(e, f),
    ensures
        f is TooLarge <==> e is Tensor,
        f matches Failure::Kernel(k) ==> (e matches CallError::Kernel(own) && own@ == k),
        !candle_failed::<Gather>(Err(e)),
        !candle_failed::<Decode>(Err(e)),
{
}

/// A side of the cache is taken exactly if it is packed bytes of as many groups as a head has, or
/// plain heads of the query's element type and size. It counts as packed exactly if it holds bytes.
pub proof fn lemma_side(
    cache: MetaView,
    head_size: usize,
    groups_per_head: usize,
    io_dtype: ElementType,
    side: Side,
)
    ensures
        ({
            let info = side_info(cache, head_size, groups_per_head, io_dtype, side);
            &&& info is Ok <==> {
                ||| cache.dtype == ElementType::U8 && cache.dims.len() == 5 && cache.dims[4] == 66
                    && cache.dims[3] == groups_per_head
                ||| cache.dtype != ElementType::U8 && cache.dtype == io_dtype && cache.dims.len()
                    == 4 && cache.dims[3] == head_size
            }
            &&& info matches Ok(i) ==> {
                &&& i.is_turbo <==> cache.dtype == ElementType::U8
                &&& i.block_size == cache.dims[1]
                &&& i.kv_heads == cache.dims[2]
            }
            &&& info matches Err(KernelErrorView::Refused(r)) ==> cache.dtype != ElementType::U8
                && match r {
                Refusal::SideDType { side: s, dtype, io_dtype: io } => s == side && dtype
                    == cache.dtype && io == io_dtype && dtype != io,
                Refusal::SideHeadSize { side: s, got, head_size: h } => s == side && cache.dtype
                    == io_dtype && cache.dims.len() == 4 && got == cache.dims[3] && h == head_size
                    && got != h,
                _ => false,
            }
            &&& info matches Err(KernelErrorView::Dims { fault, dims }) ==> dims == cache.dims
                && match fault {
                DimsFault::Rank { expected } => dims.len() != expected && (if cache.dtype
                    == ElementType::U8 {
                    expected == 5
                } else {
                    expected == 4 && cache.dtype == io_dtype
                }),
                DimsFault::PackedSide { side: s, groups_per_head: g } => s == side && g
                    == groups_per_head && cache.dtype == ElementType::U8 && dims.len() == 5 && (
                dims[4] != 66 || dims[3] != g),
            }
        }),
{
}

/// Whether a side of the cache can be attended to by heads of the given size and element type.
pub open spec fn side_suits(cache: MetaView, head_size: int, io_dtype: ElementType) -> bool {
    ||| cache.dtype == ElementType::U8 && cache.dims.len() == 5 && cache.dims[4] == 66 && 128
        * cache.dims[3] == head_size
    ||| cache.dtype == io_dtype && cache.dims.len() == 4 && cache.dims[3] == head_size
}

/// A query and the sides of a cache go together exactly if the query has a type that the kernel
/// computes in and three dimensions, its heads are made of at most four whole groups, both sides
/// suit them and have the same blocks and heads, and the query heads are some times as many as
/// those. The sides count as packed exactly if they hold bytes, each for itself.
pub proof fn lemma_decode_heads(query: MetaView, key: MetaView, value: MetaView)
    ensures
        ({
            let heads = decode_heads(query, key, value);
            &&& heads is Ok <==> {
                &&& query.dtype is F16 || query.dtype is BF16 || query.dtype is F32
                &&& query.dims.len() == 3
                &&& query.dims[2] % 128 == 0
                &&& query.dims[2] <= 512
                &&& side_suits(key, query.dims[2] as int, query.dtype)
                &&& side_suits(value, query.dims[2] as int, query.dtype)
                &&& key.dims[1] == value.dims[1]
                &&& key.dims[2] == value.dims[2]
                &&& exists|c: nat| query.dims[1] as nat == #[trigger] (key.dims[2] as nat * c)
            }
            &&& heads matches Ok(h) ==> {
                &&& h.num_seqs == query.dims[0]
                &&& h.num_heads == query.dims[1]
                &&& h.head_size == query.dims[2]
                &&& 128 * h.groups_per_head == query.dims[2]
                &&& h.key.is_turbo <==> key.dtype == ElementType::U8
                &&& h.value.is_turbo <==> value.dtype == ElementType::U8
                &&& h.key.block_size == key.dims[1]
                &&& h.value.block_size == value.dims[1]
                &&& h.key.kv_heads == key.dims[2]
                &&& h.value.kv_heads == value.dims[2]
                &&& h.io_dtype == query.dtype
                &&& h.io_dtype_code == (if query.dtype is F16 {
                    0u32
                } else if query.dtype is BF16 {
                    1
                } else {
                    2
                })
            }
        }),
{
    if query.dims.len() == 3 {
        let groups = query.dims[2] / 128;
        lemma_side(key, query.dims[2], groups, query.dtype, Side::Key);
        lemma_side(value, query.dims[2], groups, query.dtype, Side::Value);
        lemma_multiples(query.dims[1] as nat, key.dims[2] as nat);
    }
}

/// Why a query and a cache do not go together: what is said of them is so, and what is looked at
/// before is in order.
pub proof fn lemma_decode_heads_errors(query: MetaView, key: MetaView, value: MetaView)
    ensures
        ({
            let float = query.dtype is F16 || query.dtype is BF16 || query.dtype is F32;
            let rank = query.dims.len() == 3;
            let whole = rank && query.dims[2] % 128 == 0;
            let small = whole && query.dims[2] <= 512;
            let size = query.dims[2] as int;
            let k = side_suits(key, size, query.dtype);
            let v = side_suits(value, size, query.dtype);
            match decode_heads(query, key, value) {
                Ok(_) => true,
                Err(KernelErrorView::Refused(r)) => match r {
                    Refusal::IoDType { op, dtype } => !float && op == Op::PagedAttentionTurbo4
                        && dtype == query.dtype,
                    Refusal::HeadSize { head_size } => float && rank && !whole && head_size == size,
                    Refusal::TooManyGroups { head_size, groups_per_head } => float && whole
                        && !small && head_size == size && 128 * groups_per_head == size,
                    Refusal::SideDType { side, dtype, io_dtype } => float && small && io_dtype
                        == query.dtype && dtype != io_dtype && dtype != ElementType::U8 && match side {
                        Side::Key => dtype == key.dtype,
                        Side::Value => k && dtype == value.dtype,
                    },
                    Refusal::SideHeadSize { side, got, head_size } => float && small && head_size
                        == size && got != size && match side {
                        Side::Key => key.dtype == query.dtype && key.dims.len() == 4 && got
                            == key.dims[3],
                        Side::Value => k && value.dtype == query.dtype && value.dims.len() == 4
                            && got == value.dims[3],
                    },
                    Refusal::BlockSizes { key: a, value: b } => float && small && k && v && a
                        == key.dims[1] && b == value.dims[1] && a != b,
                    Refusal::KvHeads { key: a, value: b } => float && small && k && v && key.dims[1]
                        == value.dims[1] && a == key.dims[2] && b == value.dims[2] && a != b,
                    Refusal::Heads { num_heads, num_kv_heads } => float && small && k && v
                        && key.dims[1] == value.dims[1] && key.dims[2] == value.dims[2] && num_heads
                        == query.dims[1] && num_kv_heads == key.dims[2] && !(exists|c: nat|
                        num_heads as nat == #[trigger] (num_kv_heads as nat * c)),
                    _ => false,
                },
                Err(KernelErrorView::Dims { fault, dims }) => float && match fault {
                    DimsFault::Rank { expected } => dims.len() != expected && (if rank {
                        small && (if k {
                            dims == value.dims && !v
                        } else {
                            dims == key.dims
                        })
                    } else {
                        expected == 3 && dims == query.dims
                    }),
                    DimsFault::PackedSide { side, groups_per_head } => small && 128
                        * groups_per_head == size && match side {
                        Side::Key => key.dtype == ElementType::U8 && dims == key.dims && !k,
                        Side::Value => k && value.dtype == ElementType::U8 && dims == value.dims
                            && !v,
                    },
                },
            }
        }),
{
    if query.dims.len() == 3 {
        let groups = query.dims[2] / 128;
        lemma_side(key, query.dims[2], groups, query.dtype, Side::Key);
        lemma_side(value, query.dims[2], groups, query.dtype, Side::Value);
        lemma_multiples(query.dims[1] as nat, key.dims[2] as nat);
    }
}

/// A decode is in order exactly if query and cache go together, the block table has a row of 32-bit
/// integers for each sequence whose blocks hold at most 8192 tokens, and there is one 32-bit context
/// length for each sequence.
pub proof fn lemma_decode_plan(
    query: MetaView,
    key: MetaView,
    value: MetaView,
    block_table: MetaView,
    context_lens: MetaView,
)
    ensures
        ({
            let plan = decode_plan(query, key, value, block_table, context_lens);
            let heads = decode_heads(query, key, value);
            &&& plan is Ok <==> {
                &&& heads is Ok
                &&& block_table.dtype == ElementType::I32 || block_table.dtype == ElementType::U32
                &&& block_table.dims.len() == 2
                &&& block_table.dims[0] == query.dims[0]
                &&& block_table.dims[1] * key.dims[1] <= 8192
                &&& context_lens.dtype == ElementType::I32 || context_lens.dtype == ElementType::U32
                &&& context_lens.dims.len() == 1
                &&& context_lens.dims[0] == query.dims[0]
            }
            &&& plan matches Ok(p) ==> {
                &&& heads == Ok::<_, KernelErrorView>(p.heads)
                &&& p.max_num_blocks_per_seq == block_table.dims[1]
                &&& p.out_dims() == query.dims
            }
            &&& capacity_overflows(query, key, value, block_table) <==> {
                &&& heads is Ok
                &&& block_table.dtype == ElementType::I32 || block_table.dtype == ElementType::U32
                &&& block_table.dims.len() == 2
                &&& block_table.dims[0] == query.dims[0]
                &&& block_table.dims[1] * key.dims[1] > usize::MAX
            }
        }),
{
    lemma_decode_heads(query, key, value);
    let plan = decode_plan(query, key, value, block_table, context_lens);
    if plan is Ok {
        assert(plan->Ok_0.out_dims() =~= query.dims);
    }
}

/// Why the tables of a decode are not in order: what is said of them is so, and what is looked at
/// before is in order.
pub proof fn lemma_decode_table_errors(
    query: MetaView,
    key: MetaView,
    value: MetaView,
    block_table: MetaView,
    context_lens: MetaView,
)
    requires
        decode_heads(query, key, value) is Ok,
    ensures
        ({
            let op = Op::PagedAttentionTurbo4;
            let table = block_table.dtype == ElementType::I32 || block_table.dtype
                == ElementType::U32;
            let lens = context_lens.dtype == ElementType::I32 || context_lens.dtype
                == ElementType::U32;
            let capacity = block_table.dims[1] * key.dims[1];
            let rows = table && block_table.dims.len() == 2 && block_table.dims[0] == query.dims[0];
            let held = rows && capacity <= 8192;
            match decode_plan(query, key, value, block_table, context_lens) {
                Ok(_) => true,
                Err(KernelErrorView::Refused(r)) => match r {
                    Refusal::TableDType { op: o, role, dtype } => o == op && (if role is BlockTable {
                        !table && dtype == block_table.dtype
                    } else {
                        role is ContextLens && held && !lens && dtype == context_lens.dtype
                    }),
                    Refusal::BlockTableRows { rows: got, num_seqs } => table
                        && block_table.dims.len() == 2 && got == block_table.dims[0] && num_seqs
                        == query.dims[0] && got != num_seqs,
                    Refusal::Capacity { capacity: c } => rows && capacity > 8192 && (capacity
                        <= usize::MAX ==> c == capacity),
                    Refusal::ContextLensLen => held && lens && context_lens.dims.len() == 1
                        && context_lens.dims[0] != query.dims[0],
                    _ => false,
                },
                Err(KernelErrorView::Dims { fault, dims }) => if held {
                    lens && fault == (DimsFault::Rank { expected: 1 }) && dims == context_lens.dims
                        && dims.len() != 1
                } else {
                    table && fault == (DimsFault::Rank { expected: 2 }) && dims == block_table.dims
                        && dims.len() != 2
                },
            }
        }),
{
    lemma_decode_heads(query, key, value);
}

/// The fused kernel is called exactly if all six tensors live on CUDA devices and both tables hold
/// unsigned integers. It is told the numbers of the plan, and of each side whether it is packed.
pub proof fn lemma_decode_launch(
    plan: DecodePlan,
    query: DeviceKind,
    out: DeviceKind,
    key: DeviceKind,
    value: DeviceKind,
    block_table: MetaView,
    context_lens: MetaView,
)
    ensures
        ({
            let launch = decode_launched(
                plan,
                decode_operands(query, out, key, value, block_table, context_lens),
            );
            let on_cuda = query is Cuda && out is Cuda && key is Cuda && value is Cuda;
            let table = block_table.kind is Cuda && block_table.dtype == ElementType::U32;
            &&& launch is Ok <==> on_cuda && table && context_lens.kind is Cuda
                && context_lens.dtype == ElementType::U32
            &&& launch matches Ok(l) ==> {
                &&& l.key_is_turbo == (if plan.heads.key.is_turbo {
                    1i32
                } else {
                    0
                })
                &&& l.value_is_turbo == (if plan.heads.value.is_turbo {
                    1i32
                } else {
                    0
                })
                &&& holds_size(l.num_seqs, plan.heads.num_seqs as int)
                &&& holds_size(l.num_heads, plan.heads.num_heads as int)
                &&& holds_size(l.num_kv_heads, plan.heads.key.kv_heads as int)
                &&& holds_size(l.head_size, plan.heads.head_size as int)
                &&& holds_size(l.groups_per_head, plan.heads.groups_per_head as int)
                &&& holds_size(l.block_size, plan.heads.key.block_size as int)
                &&& holds_size(l.max_num_blocks_per_seq, plan.max_num_blocks_per_seq as int)
                &&& l.io_dtype_code == plan.heads.io_dtype_code
            }
            &&& launch matches Err(e) ==> (e matches KernelErrorView::Refused(r) && match r {
                Refusal::NotCuda { role } => match role {
                    Role::Query => !(query is Cuda),
                    Role::Out => query is Cuda && !(out is Cuda),
                    Role::KeyCache => query is Cuda && out is Cuda && !(key is Cuda),
                    Role::ValueCache => query is Cuda && out is Cuda && key is Cuda && !(
                    value is Cuda),
                    Role::BlockTable => on_cuda && !(block_table.kind is Cuda),
                    Role::ContextLens => on_cuda && table && !(context_lens.kind is Cuda),
                    _ => false,
                },
                Refusal::TableSlice { dtype } => on_cuda && dtype != ElementType::U32 && (if table {
                    context_lens.kind is Cuda && dtype == context_lens.dtype
                } else {
                    block_table.kind is Cuda && dtype == block_table.dtype
                }),
                _ => false,
            })
        }),
{
    let ops = decode_operands(query, out, key, value, block_table, context_lens);
    lemma_operands(ops);
    assert(ops.len() == 6);
    assert(ops[0] == (Operand { role: Role::Query, kind: query, unsigned_table: None }));
    assert(ops[1] == (Operand { role: Role::Out, kind: out, unsigned_table: None }));
    assert(ops[2] == (Operand { role: Role::KeyCache, kind: key, unsigned_table: None }));
    assert(ops[3] == (Operand { role: Role::ValueCache, kind: value, unsigned_table: None }));
    assert(ops[4] == (Operand {
        role: Role::BlockTable,
        kind: block_table.kind,
        unsigned_table: Some(block_table.dtype),
    }));
    assert(ops[5] == (Operand {
        role: Role::ContextLens,
        kind: context_lens.kind,
        unsigned_table: Some(context_lens.dtype),
    }));
}

/// A prepared decode: a zeroed output of the query's dimensions beside it, and a kernel that is
/// handed the given query and tables in row-major order. Each side's flag says whether that side of
/// the cache holds bytes, whatever the other holds, and the sizes are those of the tensors.
pub proof fn lemma_prepared_decode(
    d: Decode,
    query: candle_core::Tensor,
    key: candle_core::Tensor,
    value: candle_core::Tensor,
    block_table: candle_core::Tensor,
    context_lens: candle_core::Tensor,
)
    requires
        decodes(
            Ok(d),
            decoded(
                tensor_meta(query),
                tensor_meta(key),
                tensor_meta(value),
                tensor_meta(block_table),
                tensor_meta(context_lens),
            ),
            query,
            block_table,
            context_lens,
        ),
    ensures
        tensor_dims(query).len() == 3,
        tensor_dims(d.out) == tensor_dims(query),
        tensor_dtype(d.out) == tensor_dtype(query),
        tensor_kind(d.out) == tensor_kind(query),
        tensor_ordinal(d.out) == tensor_ordinal(query),
        tensor_row_major(d.out),
        born_zeroed(d.out),
        d.out != query,
        d.call is None <==> tensor_dims(query)[0] == 0,
        d.call matches Some(call) ==> {
            let l = call.launch;
            let (q, k, v) = (tensor_dims(query), tensor_dims(key), tensor_dims(value));
            &&& row_major_form(query, call.query)
            &&& row_major_form(block_table, call.block_table)
            &&& row_major_form(context_lens, call.context_lens)
            &&& tensor_row_major(call.query)
            &&& tensor_row_major(call.block_table)
            &&& tensor_row_major(call.context_lens)
            &&& d.out != call.query
            &&& tensor_kind(query) is Cuda && tensor_kind(key) is Cuda && tensor_kind(value) is Cuda
            &&& tensor_kind(block_table) is Cuda && tensor_kind(context_lens) is Cuda
            &&& l.key_is_turbo == 0 || l.key_is_turbo == 1
            &&& l.value_is_turbo == 0 || l.value_is_turbo == 1
            &&& l.key_is_turbo == 1 <==> tensor_dtype(key) == ElementType::U8
            &&& l.value_is_turbo == 1 <==> tensor_dtype(value) == ElementType::U8
            &&& holds_size(l.num_seqs, q[0] as int)
            &&& holds_size(l.num_heads, q[1] as int)
            &&& l.head_size == q[2]
            &&& 128 * l.groups_per_head == l.head_size
            &&& holds_size(l.num_kv_heads, k[2] as int)
            &&& holds_size(l.num_kv_heads, v[2] as int)
            &&& holds_size(l.block_size, k[1] as int)
            &&& holds_size(l.block_size, v[1] as int)
            &&& holds_size(l.max_num_blocks_per_seq, tensor_dims(block_table)[1] as int)
            &&& tensor_dims(block_table)[1] * k[1] <= 8192
            &&& tensor_dims(block_table)[0] == q[0]
            &&& tensor_dims(context_lens) == seq![q[0]]
            &&& l.io_dtype_code == (if tensor_dtype(query) is F16 {
                0u32
            } else if tensor_dtype(query) is BF16 {
                1
            } else {
                2
            })
        },
{
    let (q, k, v) = (tensor_meta(query), tensor_meta(key), tensor_meta(value));
    let (t, l) = (tensor_meta(block_table), tensor_meta(context_lens));
    lemma_decode_heads(q, k, v);
    lemma_decode_plan(q, k, v, t, l);
    let plan = decode_plan(q, k, v, t, l)->Ok_0;
    lemma_decode_launch(plan, q.kind, q.kind, k.kind, v.kind, t, l);
    assert(tensor_dims(context_lens) =~= seq![tensor_dims(query)[0]]);
}

/// A decode whose tensors fit into the address space can be prepared exactly if its arguments are in
/// order and, where there are sequences, so are the tensors of the launch.
pub proof fn lemma_decode_succeeds(
    query: MetaView,
    key: MetaView,
    value: MetaView,
    block_table: MetaView,
    context_lens: MetaView,
)
    requires
        fits(query.dims, query.dtype),
        fits(block_table.dims, block_table.dtype),
        fits(context_lens.dims, context_lens.dtype),
        !capacity_overflows(query, key, value, block_table),
    ensures
        decoded(query, key, value, block_table, context_lens) is Ok <==> {
            &&& decode_plan(query, key, value, block_table, context_lens) is Ok
            &&& query.dims[0] == 0 || {
                &&& query.kind is Cuda && key.kind is Cuda && value.kind is Cuda
                &&& block_table.kind is Cuda && context_lens.kind is Cuda
                &&& block_table.dtype == ElementType::U32
                &&& context_lens.dtype == ElementType::U32
            }
        },
        decoded(query, key, value, block_table, context_lens) matches Err(f) ==> f is Kernel,
{
    lemma_decode_heads(query, key, value);
    lemma_decode_plan(query, key, value, block_table, context_lens);
    let plan = decode_plan(query, key, value, block_table, context_lens);
    if plan is Ok {
        lemma_decode_launch(
            plan->Ok_0,
            query.kind,
            query.kind,
            key.kind,
            value.kind,
            block_table,
            context_lens,
        );
    }
}

} // verus!
