//! Attention of one query token for each sequence over a paged cache, in one kernel.
//!
//! Each side of the cache may be packed or plain. The kernel is called only where its limits hold;
//! callers whose caches are too large for it gather the cache instead.
use crate::cache_type::{is_multiple_of, multiple_of};
use crate::kernels::{
    CallError, DimsFault, Failure, KernelError, KernelErrorView, MAX_FUSED_DECODE_CONTEXT_TOKENS,
    MAX_GROUPS_PER_HEAD, Op, Operand, Refusal, Role, Side, agrees, candle_failed, check_operands,
    copy_dims, fails_with, first_refused, io_code, io_dtype_code, is_table_dtype, rank_error,
    reads_table, refused, wrong_rank,
};
use crate::tensor::{
    DeviceKind, ElementType, MetaView, TensorError, TensorMeta, contiguous, fits,
    has_row_major, is_made, is_row_major_of, meta, tensor_kind, tensor_meta, tensor_ordinal,
    zeros_beside,
};
use crate::turbo_quant::{BLOCK_TURBO4_BYTES, GROUP};
use vstd::prelude::*;

verus! {

/// What one side of the cache says of itself.
#[derive(Clone, Copy, Debug, PartialEq, Eq, Structural)]
pub struct SideInfo {
    pub is_turbo: bool,
    pub block_size: usize,
    pub kv_heads: usize,
}

/// The heads of a query, and the sides of the cache that they attend to.
#[derive(Clone, Copy, Debug, PartialEq, Eq, Structural)]
pub struct DecodeHeads {
    pub num_seqs: usize,
    pub num_heads: usize,
    pub head_size: usize,
    pub groups_per_head: usize,
    pub key: SideInfo,
    pub value: SideInfo,
    pub io_dtype: ElementType,
    pub io_dtype_code: u32,
}

/// What the kernel computes, once its arguments have been checked.
#[derive(Clone, Copy, Debug, PartialEq, Eq, Structural)]
pub struct DecodePlan {
    pub heads: DecodeHeads,
    pub max_num_blocks_per_seq: usize,
}

/// The numbers that the kernel is called with.
#[derive(Clone, Copy, Debug, PartialEq, Eq, Structural)]
pub struct DecodeLaunch {
    pub key_is_turbo: i32,
    pub value_is_turbo: i32,
    pub num_seqs: i32,
    pub num_heads: i32,
    pub num_kv_heads: i32,
    pub head_size: i32,
    pub groups_per_head: i32,
    pub block_size: i32,
    pub max_num_blocks_per_seq: i32,
    pub io_dtype_code: u32,
}

/// A call of the kernel that is ready to be made.
pub struct DecodeCall {
    pub query: candle_core::Tensor,
    pub block_table: candle_core::Tensor,
    pub context_lens: candle_core::Tensor,
    pub launch: DecodeLaunch,
}

/// A prepared decode: the tensor to fill, and the call that fills it, unless there are no
/// sequences.
pub struct Decode {
    pub out: candle_core::Tensor,
    pub call: Option<DecodeCall>,
}

impl DecodePlan {
    /// The dimensions of the result.
    pub open spec fn out_dims(self) -> Seq<usize> {
        seq![self.heads.num_seqs, self.heads.num_heads, self.heads.head_size]
    }
}

/// What a side of the cache must look like: packed bytes of the expected number of groups, or
/// plain heads of the query's element type and size.
pub open spec fn side_info(
    cache: MetaView,
    head_size: usize,
    groups_per_head: usize,
    io_dtype: ElementType,
    side: Side,
) -> Result<SideInfo, KernelErrorView> {
    if cache.dtype is U8 {
        if cache.dims.len() != 5 {
            wrong_rank(5, cache.dims)
        } else if cache.dims[4] != BLOCK_TURBO4_BYTES || cache.dims[3] != groups_per_head {
            Err(
                KernelErrorView::Dims {
                    fault: DimsFault::PackedSide { side, groups_per_head },
                    dims: cache.dims,
                },
            )
        } else {
            Ok(SideInfo { is_turbo: true, block_size: cache.dims[1], kv_heads: cache.dims[2] })
        }
    } else if cache.dtype != io_dtype {
        refused(Refusal::SideDType { side, dtype: cache.dtype, io_dtype })
    } else if cache.dims.len() != 4 {
        wrong_rank(4, cache.dims)
    } else if cache.dims[3] != head_size {
        refused(Refusal::SideHeadSize { side, got: cache.dims[3], head_size })
    } else {
        Ok(SideInfo { is_turbo: false, block_size: cache.dims[1], kv_heads: cache.dims[2] })
    }
}

/// The two sides must have the same blocks and the same heads, and the query heads must divide
/// evenly among the latter.
pub open spec fn sides_checked(num_heads: usize, key: SideInfo, value: SideInfo) -> Result<
    (),
    KernelErrorView,
> {
    if key.block_size != value.block_size {
        refused(Refusal::BlockSizes { key: key.block_size, value: value.block_size })
    } else if key.kv_heads != value.kv_heads {
        refused(Refusal::KvHeads { key: key.kv_heads, value: value.kv_heads })
    } else if !multiple_of(num_heads as nat, key.kv_heads as nat) {
        refused(Refusal::Heads { num_heads, num_kv_heads: key.kv_heads })
    } else {
        Ok(())
    }
}

/// The heads of a query and the sides of the cache that they attend to.
pub open spec fn decode_heads(query: MetaView, key: MetaView, value: MetaView) -> Result<
    DecodeHeads,
    KernelErrorView,
> {
    match io_code(query.dtype, Op::PagedAttentionTurbo4) {
        Err(e) => Err(e),
        Ok(io_dtype_code) => if query.dims.len() != 3 {
            wrong_rank(3, query.dims)
        } else {
            let num_heads = query.dims[1];
            let head_size = query.dims[2];
            let groups_per_head = head_size / GROUP;
            if head_size % GROUP != 0 {
                refused(Refusal::HeadSize { head_size })
            } else if groups_per_head > MAX_GROUPS_PER_HEAD {
                refused(Refusal::TooManyGroups { head_size, groups_per_head })
            } else {
                match side_info(key, head_size, groups_per_head, query.dtype, Side::Key) {
                    Err(e) => Err(e),
                    Ok(k) => match side_info(
                        value,
                        head_size,
                        groups_per_head,
                        query.dtype,
                        Side::Value,
                    ) {
                        Err(e) => Err(e),
                        Ok(v) => match sides_checked(num_heads, k, v) {
                            Err(e) => Err(e),
                            Ok(_) => Ok(
                                DecodeHeads {
                                    num_seqs: query.dims[0],
                                    num_heads,
                                    head_size,
                                    groups_per_head,
                                    key: k,
                                    value: v,
                                    io_dtype: query.dtype,
                                    io_dtype_code,
                                },
                            ),
                        },
                    },
                }
            }
        },
    }
}

/// The block table must have a row of 32-bit integers for each sequence, and a row may address no
/// more tokens than the kernel can hold. Gives the blocks of a row.
pub open spec fn blocks_per_seq(heads: DecodeHeads, block_table: MetaView) -> Result<
    usize,
    KernelErrorView,
> {
    if !is_table_dtype(block_table.dtype) {
        refused(
            Refusal::TableDType {
                op: Op::PagedAttentionTurbo4,
                role: Role::BlockTable,
                dtype: block_table.dtype,
            },
        )
    } else if block_table.dims.len() != 2 {
        wrong_rank(2, block_table.dims)
    } else if block_table.dims[0] != heads.num_seqs {
        refused(
            Refusal::BlockTableRows { rows: block_table.dims[0], num_seqs: heads.num_seqs },
        )
    } else if block_table.dims[1] * heads.key.block_size > MAX_FUSED_DECODE_CONTEXT_TOKENS {
        refused(
            Refusal::Capacity {
                capacity: (block_table.dims[1] * heads.key.block_size) as usize,
            },
        )
    } else {
        Ok(block_table.dims[1])
    }
}

/// Whether the tokens that a row of the block table addresses leave the range of sizes.
pub open spec fn row_overflows(heads: DecodeHeads, block_table: MetaView) -> bool {
    &&& is_table_dtype(block_table.dtype)
    &&& block_table.dims.len() == 2
    &&& block_table.dims[0] == heads.num_seqs
    &&& block_table.dims[1] * heads.key.block_size > usize::MAX
}

/// Whether the tokens of a row leave the range of sizes once all that comes before has been found
/// in order.
pub open spec fn capacity_overflows(
    query: MetaView,
    key: MetaView,
    value: MetaView,
    block_table: MetaView,
) -> bool {
    &&& decode_heads(query, key, value) matches Ok(heads)
    &&& row_overflows(heads, block_table)
}

/// There must be one context length, a 32-bit integer, for each sequence.
pub open spec fn lens_checked(num_seqs: usize, context_lens: MetaView) -> Result<
    (),
    KernelErrorView,
> {
    if !is_table_dtype(context_lens.dtype) {
        refused(
            Refusal::TableDType {
                op: Op::PagedAttentionTurbo4,
                role: Role::ContextLens,
                dtype: context_lens.dtype,
            },
        )
    } else if context_lens.dims.len() != 1 {
        wrong_rank(1, context_lens.dims)
    } else if context_lens.dims[0] != num_seqs {
        refused(Refusal::ContextLensLen)
    } else {
        Ok(())
    }
}

/// What a decode comes to.
pub open spec fn decode_plan(
    query: MetaView,
    key: MetaView,
    value: MetaView,
    block_table: MetaView,
    context_lens: MetaView,
) -> Result<DecodePlan, KernelErrorView> {
    match decode_heads(query, key, value) {
        Err(e) => Err(e),
        Ok(heads) => match blocks_per_seq(heads, block_table) {
            Err(e) => Err(e),
            Ok(max_num_blocks_per_seq) => match lens_checked(heads.num_seqs, context_lens) {
                Err(e) => Err(e),
                Ok(_) => Ok(DecodePlan { heads, max_num_blocks_per_seq }),
            },
        },
    }
}

/// The tensors that the kernel is handed, in the order in which they are looked at.
pub open spec fn decode_operands(
    query: DeviceKind,
    out: DeviceKind,
    key: DeviceKind,
    value: DeviceKind,
    block_table: MetaView,
    context_lens: MetaView,
) -> Seq<Operand> {
    seq![
        Operand { role: Role::Query, kind: query, unsigned_table: None },
        Operand { role: Role::Out, kind: out, unsigned_table: None },
        Operand { role: Role::KeyCache, kind: key, unsigned_table: None },
        Operand { role: Role::ValueCache, kind: value, unsigned_table: None },
        Operand {
            role: Role::BlockTable,
            kind: block_table.kind,
            unsigned_table: Some(block_table.dtype),
        },
        Operand {
            role: Role::ContextLens,
            kind: context_lens.kind,
            unsigned_table: Some(context_lens.dtype),
        },
    ]
}

/// A flag as the kernel takes it.
pub open spec fn flag(b: bool) -> i32 {
    if b {
        1
    } else {
        0
    }
}

/// The numbers that the kernel is called with: all tensors must live on CUDA devices, and the
/// tables must hold unsigned integers. The kernel takes sizes as 32-bit integers.
pub open spec fn decode_launched(plan: DecodePlan, operands: Seq<Operand>) -> Result<
    DecodeLaunch,
    KernelErrorView,
> {
    match first_refused(operands) {
        Some(r) => refused(r),
        None => Ok(
            DecodeLaunch {
                key_is_turbo: flag(plan.heads.key.is_turbo),
                value_is_turbo: flag(plan.heads.value.is_turbo),
                num_seqs: plan.heads.num_seqs as i32,
                num_heads: plan.heads.num_heads as i32,
                num_kv_heads: plan.heads.key.kv_heads as i32,
                head_size: plan.heads.head_size as i32,
                groups_per_head: plan.heads.groups_per_head as i32,
                block_size: plan.heads.key.block_size as i32,
                max_num_blocks_per_seq: plan.max_num_blocks_per_seq as i32,
                io_dtype_code: plan.heads.io_dtype_code,
            },
        ),
    }
}

/// Looks at one side of the cache.
pub fn classify_side(
    cache: &TensorMeta,
    head_size: usize,
    groups_per_head: usize,
    io_dtype: ElementType,
    side: Side,
) -> (r: Result<SideInfo, KernelError>)
    ensures
        agrees(r, side_info(cache@, head_size, groups_per_head, io_dtype, side)),
{
    if cache.dtype == ElementType::U8 {
        if cache.dims.len() != 5 {
            return Err(rank_error(5, cache));
        }
        if cache.dims[4] != BLOCK_TURBO4_BYTES || cache.dims[3] != groups_per_head {
            return Err(
                KernelError::Dims {
                    fault: DimsFault::PackedSide { side, groups_per_head },
                    dims: copy_dims(&cache.dims),
                },
            );
        }
        Ok(SideInfo { is_turbo: true, block_size: cache.dims[1], kv_heads: cache.dims[2] })
    } else {
        if cache.dtype != io_dtype {
            return Err(
                KernelError::Refused(Refusal::SideDType { side, dtype: cache.dtype, io_dtype }),
            );
        }
        if cache.dims.len() != 4 {
            return Err(rank_error(4, cache));
        }
        if cache.dims[3] != head_size {
            return Err(
                KernelError::Refused(Refusal::SideHeadSize { side, got: cache.dims[3], head_size }),
            );
        }
        Ok(SideInfo { is_turbo: false, block_size: cache.dims[1], kv_heads: cache.dims[2] })
    }
}

/// Checks the query against the two sides of the cache.
pub fn check_heads(query: &TensorMeta, key: &TensorMeta, value: &TensorMeta) -> (r: Result<
    DecodeHeads,
    KernelError,
>)
    ensures
        agrees(r, decode_heads(query@, key@, value@)),
{
    let io_dtype = query.dtype;
    let io_dtype_code: u32 = match io_dtype_code(io_dtype, Op::PagedAttentionTurbo4) {
        Ok(code) => code,
        Err(e) => {
            return Err(e);
        },
    };
    if query.dims.len() != 3 {
        return Err(rank_error(3, query));
    }
    let num_seqs: usize = query.dims[0];
    let num_heads: usize = query.dims[1];
    let head_size: usize = query.dims[2];
    if head_size % GROUP != 0 {
        return Err(KernelError::Refused(Refusal::HeadSize { head_size }));
    }
    let groups_per_head: usize = head_size / GROUP;
    if groups_per_head > MAX_GROUPS_PER_HEAD {
        return Err(KernelError::Refused(Refusal::TooManyGroups { head_size, groups_per_head }));
    }
    let key = match classify_side(key, head_size, groups_per_head, io_dtype, Side::Key) {
        Ok(side) => side,
        Err(e) => {
            return Err(e);
        },
    };
    let value = match classify_side(value, head_size, groups_per_head, io_dtype, Side::Value) {
        Ok(side) => side,
        Err(e) => {
            return Err(e);
        },
    };
    if key.block_size != value.block_size {
        return Err(
            KernelError::Refused(
                Refusal::BlockSizes { key: key.block_size, value: value.block_size },
            ),
        );
    }
    if key.kv_heads != value.kv_heads {
        return Err(
            KernelError::Refused(Refusal::KvHeads { key: key.kv_heads, value: value.kv_heads }),
        );
    }
    let num_kv_heads: usize = key.kv_heads;
    if !is_multiple_of(num_heads, num_kv_heads) {
        return Err(KernelError::Refused(Refusal::Heads { num_heads, num_kv_heads }));
    }
    Ok(
        DecodeHeads {
            num_seqs,
            num_heads,
            head_size,
            groups_per_head,
            key,
            value,
            io_dtype,
            io_dtype_code,
        },
    )
}

/// Checks the block table, and gives the blocks that each of its rows has room for.
pub fn check_block_table(heads: DecodeHeads, block_table: &TensorMeta) -> (r: Result<
    usize,
    KernelError,
>)
    requires
        !row_overflows(heads, block_table@),
    ensures
        agrees(r, blocks_per_seq(heads, block_table@)),
{
    if !reads_table(block_table.dtype) {
        return Err(
            KernelError::Refused(
                Refusal::TableDType {
                    op: Op::PagedAttentionTurbo4,
                    role: Role::BlockTable,
                    dtype: block_table.dtype,
                },
            ),
        );
    }
    if block_table.dims.len() != 2 {
        return Err(rank_error(2, block_table));
    }
    let rows: usize = block_table.dims[0];
    let max_num_blocks_per_seq: usize = block_table.dims[1];
    if rows != heads.num_seqs {
        return Err(
            KernelError::Refused(Refusal::BlockTableRows { rows, num_seqs: heads.num_seqs }),
        );
    }
    let capacity: usize = max_num_blocks_per_seq * heads.key.block_size;
    if capacity > MAX_FUSED_DECODE_CONTEXT_TOKENS {
        return Err(KernelError::Refused(Refusal::Capacity { capacity }));
    }
    Ok(max_num_blocks_per_seq)
}

/// Checks the context lengths.
pub fn check_context_lens(num_seqs: usize, context_lens: &TensorMeta) -> (r: Result<
    (),
    KernelError,
>)
    ensures
        agrees(r, lens_checked(num_seqs, context_lens@)),
{
    if !reads_table(context_lens.dtype) {
        return Err(
            KernelError::Refused(
                Refusal::TableDType {
                    op: Op::PagedAttentionTurbo4,
                    role: Role::ContextLens,
                    dtype: context_lens.dtype,
                },
            ),
        );
    }
    if context_lens.dims.len() != 1 {
        return Err(rank_error(1, context_lens));
    }
    if context_lens.dims[0] != num_seqs {
        return Err(KernelError::Refused(Refusal::ContextLensLen));
    }
    Ok(())
}

/// Checks the arguments of a decode.
pub fn plan_decode(
    query: &TensorMeta,
    key: &TensorMeta,
    value: &TensorMeta,
    block_table: &TensorMeta,
    context_lens: &TensorMeta,
) -> (r: Result<DecodePlan, KernelError>)
    requires
        !capacity_overflows(query@, key@, value@, block_table@),
    ensures
        agrees(r, decode_plan(query@, key@, value@, block_table@, context_lens@)),
{
    let heads = match check_heads(query, key, value) {
        Ok(heads) => heads,
        Err(e) => {
            return Err(e);
        },
    };
    let max_num_blocks_per_seq: usize = match check_block_table(heads, block_table) {
        Ok(n) => n,
        Err(e) => {
            return Err(e);
        },
    };
    match check_context_lens(heads.num_seqs, context_lens) {
        Ok(_) => Ok(DecodePlan { heads, max_num_blocks_per_seq }),
        Err(e) => Err(e),
    }
}

/// The numbers that the kernel is called with.
pub fn decode_launch(
    plan: DecodePlan,
    query: DeviceKind,
    out: DeviceKind,
    key: DeviceKind,
    value: DeviceKind,
    block_table: &TensorMeta,
    context_lens: &TensorMeta,
) -> (r: Result<DecodeLaunch, KernelError>)
    ensures
        agrees(
            r,
            decode_launched(
                plan,
                decode_operands(query, out, key, value, block_table@, context_lens@),
            ),
        ),
{
    let operands: Vec<Operand> = vec![
        Operand { role: Role::Query, kind: query, unsigned_table: None },
        Operand { role: Role::Out, kind: out, unsigned_table: None },
        Operand { role: Role::KeyCache, kind: key, unsigned_table: None },
        Operand { role: Role::ValueCache, kind: value, unsigned_table: None },
        Operand {
            role: Role::BlockTable,
            kind: block_table.kind,
            unsigned_table: Some(block_table.dtype),
        },
        Operand {
            role: Role::ContextLens,
            kind: context_lens.kind,
            unsigned_table: Some(context_lens.dtype),
        },
    ];
    assert(operands@ =~= decode_operands(query, out, key, value, block_table@, context_lens@));
    match check_operands(&operands) {
        Some(r) => Err(KernelError::Refused(r)),
        None => Ok(
            DecodeLaunch {
                key_is_turbo: if plan.heads.key.is_turbo {
                    1
                } else {
                    0
                },
                value_is_turbo: if plan.heads.value.is_turbo {
                    1
                } else {
                    0
                },
                num_seqs: plan.heads.num_seqs as i32,
                num_heads: plan.heads.num_heads as i32,
                num_kv_heads: plan.heads.key.kv_heads as i32,
                head_size: plan.heads.head_size as i32,
                groups_per_head: plan.heads.groups_per_head as i32,
                block_size: plan.heads.key.block_size as i32,
                max_num_blocks_per_seq: plan.max_num_blocks_per_seq as i32,
                io_dtype_code: plan.heads.io_dtype_code,
            },
        ),
    }
}

/// A plan, and the numbers that the kernel is called with: none where there are no sequences.
pub open spec fn decode_completed(plan: DecodePlan, operands: Seq<Operand>) -> Result<
    (DecodePlan, Option<DecodeLaunch>),
    Failure,
> {
    if !fits(plan.out_dims(), plan.heads.io_dtype) {
        Err(Failure::TooLarge)
    } else if plan.heads.num_seqs == 0 {
        Ok((plan, None))
    } else {
        match decode_launched(plan, operands) {
            Err(e) => Err(Failure::Kernel(e)),
            Ok(launch) => Ok((plan, Some(launch))),
        }
    }
}

/// Whether a decode is in order as far as the tensor that it fills.
pub open spec fn decode_awaits_tensor(plan: Result<DecodePlan, KernelErrorView>) -> bool {
    plan is Ok && fits(plan->Ok_0.out_dims(), plan->Ok_0.heads.io_dtype)
}

/// What a decode comes to.
pub open spec fn decoded(
    query: MetaView,
    key: MetaView,
    value: MetaView,
    block_table: MetaView,
    context_lens: MetaView,
) -> Result<(DecodePlan, Option<DecodeLaunch>), Failure> {
    let heads = decode_heads(query, key, value);
    if io_code(query.dtype, Op::PagedAttentionTurbo4) is Ok && !fits(query.dims, query.dtype) {
        Err(Failure::TooLarge)
    } else if heads is Ok && (!fits(block_table.dims, block_table.dtype) || row_overflows(
        heads->Ok_0,
        block_table,
    )) {
        Err(Failure::TooLarge)
    } else if heads is Ok && blocks_per_seq(heads->Ok_0, block_table) is Ok && !fits(
        context_lens.dims,
        context_lens.dtype,
    ) {
        Err(Failure::TooLarge)
    } else {
        match decode_plan(query, key, value, block_table, context_lens) {
            Err(e) => Err(Failure::Kernel(e)),
            Ok(plan) => decode_completed(
                plan,
                decode_operands(
                    query.kind,
                    query.kind,
                    key.kind,
                    value.kind,
                    block_table,
                    context_lens,
                ),
            ),
        }
    }
}

/// Whether a prepared decode is what it should come to: a new tensor on the device of the query and,
/// where the kernel is called, the given query and tables in row-major order and the numbers.
pub open spec fn decodes(
    r: Result<Decode, CallError>,
    want: Result<(DecodePlan, Option<DecodeLaunch>), Failure>,
    query: candle_core::Tensor,
    block_table: candle_core::Tensor,
    context_lens: candle_core::Tensor,
) -> bool {
    match r {
        Ok(d) => {
            &&& want matches Ok((plan, launch))
            &&& is_made(
                d.out,
                plan.out_dims(),
                plan.heads.io_dtype,
                tensor_kind(query),
                tensor_ordinal(query),
            )
            &&& d.out != query
            &&& match d.call {
                None => launch is None,
                Some(call) => {
                    &&& launch == Some(call.launch)
                    &&& is_row_major_of(call.query, query)
                    &&& is_row_major_of(call.block_table, block_table)
                    &&& is_row_major_of(call.context_lens, context_lens)
                    &&& d.out != call.query
                },
            }
        },
        Err(e) => want is Err && fails_with(e, want->Err_0),
    }
}

/// Prepares attention of one query token for each sequence over a paged cache. The query has
/// sequences, heads and elements of a head; the block table has a row of blocks for each sequence.
pub fn paged_attention_turbo4(
    query: &candle_core::Tensor,
    key_cache: &candle_core::Tensor,
    value_cache: &candle_core::Tensor,
    block_table: &candle_core::Tensor,
    context_lens: &candle_core::Tensor,
) -> (r: Result<Decode, CallError>)
    ensures
        ({
            let q = tensor_meta(*query);
            let k = tensor_meta(*key_cache);
            let v = tensor_meta(*value_cache);
            let t = tensor_meta(*block_table);
            let l = tensor_meta(*context_lens);
            let want = decoded(q, k, v, t, l);
            &&& candle_failed(r) || decodes(r, want, *query, *block_table, *context_lens)
            &&& candle_failed(r) ==> io_code(q.dtype, Op::PagedAttentionTurbo4) is Ok && fits(
                q.dims,
                q.dtype,
            )
            &&& candle_failed(r) && has_row_major(*query) ==> decode_heads(q, k, v) is Ok && fits(
                t.dims,
                t.dtype,
            )
            &&& candle_failed(r) && has_row_major(*query) && has_row_major(*block_table)
                ==> !capacity_overflows(q, k, v, t) && blocks_per_seq(
                decode_heads(q, k, v)->Ok_0,
                t,
            ) is Ok && fits(l.dims, l.dtype)
            &&& candle_failed(r) && has_row_major(*query) && has_row_major(*block_table)
                && has_row_major(*context_lens) ==> !(q.kind is Cpu) && decode_awaits_tensor(
                decode_plan(q, k, v, t, l),
            )
        }),
{
    let given = meta(query);
    match io_dtype_code(given.dtype, Op::PagedAttentionTurbo4) {
        Ok(_) => {},
        Err(e) => {
            return Err(CallError::Kernel(e));
        },
    }
    let query = match contiguous(query) {
        Ok(t) => t,
        Err(e) => {
            return Err(CallError::Tensor(e));
        },
    };
    let q = meta(&query);
    let k = meta(key_cache);
    let v = meta(value_cache);
    let heads = match check_heads(&q, &k, &v) {
        Ok(heads) => heads,
        Err(e) => {
            return Err(CallError::Kernel(e));
        },
    };
    let block_table = match contiguous(block_table) {
        Ok(t) => t,
        Err(e) => {
            return Err(CallError::Tensor(e));
        },
    };
    let t = meta(&block_table);
    if reads_table(t.dtype) && t.dims.len() == 2 && t.dims[0] == heads.num_seqs {
        match t.dims[1].checked_mul(heads.key.block_size) {
            Some(_) => {},
            None => {
                return Err(CallError::Tensor(TensorError::TooLarge));
            },
        }
    }
    let max_num_blocks_per_seq: usize = match check_block_table(heads, &t) {
        Ok(n) => n,
        Err(e) => {
            return Err(CallError::Kernel(e));
        },
    };
    let context_lens = match contiguous(context_lens) {
        Ok(t) => t,
        Err(e) => {
            return Err(CallError::Tensor(e));
        },
    };
    let l = meta(&context_lens);
    match check_context_lens(heads.num_seqs, &l) {
        Ok(_) => {},
        Err(e) => {
            return Err(CallError::Kernel(e));
        },
    }
    let plan = DecodePlan { heads, max_num_blocks_per_seq };
    let dims: Vec<usize> = vec![heads.num_seqs, heads.num_heads, heads.head_size];
    assert(dims@ =~= plan.out_dims());
    let out = match zeros_beside(&dims, heads.io_dtype, &query) {
        Ok(t) => t,
        Err(e) => {
            return Err(CallError::Tensor(e));
        },
    };
    if heads.num_seqs == 0 {
        return Ok(Decode { out, call: None });
    }
    let out_kind = meta(&out).kind;
    match decode_launch(plan, q.kind, out_kind, k.kind, v.kind, &t, &l) {
        Ok(launch) => Ok(
            Decode { out, call: Some(DecodeCall { query, block_table, context_lens, launch }) },
        ),
        Err(e) => Err(CallError::Kernel(e)),
    }
}

} // verus!
