//! Gathering the cached keys or values of a batch into one flat tensor.
//!
//! A gather kernel walks the block table of each sequence. Everything that it relies on is checked
//! before: the functions here prepare a call, and the caller hands it to the kernel.
use crate::kernels::{
    CallError, Failure, KernelError, KernelErrorView, Op, Operand, Refusal, Role, agrees,
    candle_failed, check_operands, fails_with, first_refused, is_table_dtype, out_code,
    out_dtype_code, rank_error, reads_table, refused, wrong_rank,
};
use crate::tensor::{
    DeviceKind, ElementType, MetaView, TensorError, TensorMeta, contiguous, cpu_holds, fits,
    has_row_major, is_made, is_row_major_of, meta, tensor_kind, tensor_meta, tensor_ordinal,
    zeros_beside,
};
use crate::turbo_quant::{BLOCK_TURBO4_BYTES, GROUP};
use vstd::prelude::*;

verus! {

/// What a gather produces and reads, once its arguments have been checked.
#[derive(Clone, Copy, Debug, PartialEq, Eq, Structural)]
pub struct GatherPlan {
    pub num_tokens: usize,
    pub num_tokens_i32: i32,
    pub num_seqs_i32: i32,
    pub block_size: usize,
    pub kv_heads: usize,
    pub head_size: usize,
    /// How the kernel is told the size of a head: in groups for a packed cache, in elements for a
    /// plain one.
    pub head_units: usize,
    pub out_dtype: ElementType,
    pub out_dtype_code: u32,
}

/// The numbers that a gather kernel is called with.
#[derive(Clone, Copy, Debug, PartialEq, Eq, Structural)]
pub struct GatherLaunch {
    pub num_tokens: i32,
    pub num_seqs: i32,
    pub block_size: i32,
    pub block_table_stride: i32,
    pub kv_heads: i32,
    pub head_units: i32,
    pub out_dtype_code: u32,
}

/// A call of a gather kernel that is ready to be made.
pub struct GatherCall {
    pub block_table: candle_core::Tensor,
    pub cu_seq_lens: candle_core::Tensor,
    pub launch: GatherLaunch,
}

/// A prepared gather: the tensor to fill, and the call that fills it, unless there are no tokens.
pub struct Gather {
    pub out: candle_core::Tensor,
    pub call: Option<GatherCall>,
}

impl GatherPlan {
    /// The dimensions of the gathered tensor.
    pub open spec fn out_dims(self) -> Seq<usize> {
        seq![self.num_tokens, self.kv_heads, self.head_size]
    }
}

/// The tables of a gather must hold 32-bit integers.
pub open spec fn tables_checked(block_table: ElementType, cu_seq_lens: ElementType, op: Op) ->
    Result<(), KernelErrorView> {
    if !is_table_dtype(block_table) {
        refused(Refusal::TableDType { op, role: Role::BlockTable, dtype: block_table })
    } else if !is_table_dtype(cu_seq_lens) {
        refused(Refusal::TableDType { op, role: Role::CuSeqLens, dtype: cu_seq_lens })
    } else {
        Ok(())
    }
}

/// The numbers of tokens and of sequences, which the kernel counts in 32 bits. The sequences are
/// delimited by their offsets and one offset more.
pub open spec fn counted(num_tokens: usize, cu_seq_lens: Seq<usize>) -> Result<
    (i32, i32),
    KernelErrorView,
> {
    if cu_seq_lens.len() != 1 {
        wrong_rank(1, cu_seq_lens)
    } else if cu_seq_lens[0] == 0 {
        refused(Refusal::NoInitialOffset)
    } else if num_tokens > i32::MAX {
        refused(Refusal::TooManyTokens)
    } else if cu_seq_lens[0] - 1 > i32::MAX {
        refused(Refusal::TooManySeqs)
    } else {
        Ok((num_tokens as i32, (cu_seq_lens[0] - 1) as i32))
    }
}

/// Whether the head size of a packed cache leaves the range of sizes.
pub open spec fn head_size_overflows(
    cache: MetaView,
    block_table: ElementType,
    cu_seq_lens: ElementType,
) -> bool {
    &&& cache.dtype is U8
    &&& is_table_dtype(block_table)
    &&& is_table_dtype(cu_seq_lens)
    &&& cache.dims.len() == 5
    &&& cache.dims[4] == BLOCK_TURBO4_BYTES
    &&& cache.dims[3] * GROUP > usize::MAX
}

/// What a gather from a packed cache comes to.
pub open spec fn turbo4_plan(
    cache: MetaView,
    block_table: ElementType,
    cu_seq_lens: MetaView,
    num_tokens: usize,
    out_dtype: ElementType,
) -> Result<GatherPlan, KernelErrorView> {
    let op = Op::GatherTurbo4Cache;
    if !(cache.dtype is U8) {
        refused(Refusal::PackedDType { dtype: cache.dtype })
    } else {
        match tables_checked(block_table, cu_seq_lens.dtype, op) {
            Err(e) => Err(e),
            Ok(_) => if cache.dims.len() != 5 {
                wrong_rank(5, cache.dims)
            } else if cache.dims[4] != BLOCK_TURBO4_BYTES {
                refused(Refusal::BlockBytes { got: cache.dims[4] })
            } else {
                match counted(num_tokens, cu_seq_lens.dims) {
                    Err(e) => Err(e),
                    Ok((tokens, seqs)) => match out_code(out_dtype, op) {
                        Err(e) => Err(e),
                        Ok(code) => Ok(
                            GatherPlan {
                                num_tokens,
                                num_tokens_i32: tokens,
                                num_seqs_i32: seqs,
                                block_size: cache.dims[1],
                                kv_heads: cache.dims[2],
                                head_size: (cache.dims[3] * GROUP) as usize,
                                head_units: cache.dims[3],
                                out_dtype,
                                out_dtype_code: code,
                            },
                        ),
                    },
                }
            },
        }
    }
}

/// What a gather from a plain cache comes to.
pub open spec fn plain_plan(
    cache: MetaView,
    block_table: ElementType,
    cu_seq_lens: MetaView,
    num_tokens: usize,
) -> Result<GatherPlan, KernelErrorView> {
    let op = Op::GatherPlainKvCache;
    match out_code(cache.dtype, op) {
        Err(e) => Err(e),
        Ok(code) => match tables_checked(block_table, cu_seq_lens.dtype, op) {
            Err(e) => Err(e),
            Ok(_) => if cache.dims.len() != 4 {
                wrong_rank(4, cache.dims)
            } else {
                match counted(num_tokens, cu_seq_lens.dims) {
                    Err(e) => Err(e),
                    Ok((tokens, seqs)) => Ok(
                        GatherPlan {
                            num_tokens,
                            num_tokens_i32: tokens,
                            num_seqs_i32: seqs,
                            block_size: cache.dims[1],
                            kv_heads: cache.dims[2],
                            head_size: cache.dims[3],
                            head_units: cache.dims[3],
                            out_dtype: cache.dtype,
                            out_dtype_code: code,
                        },
                    ),
                }
            },
        },
    }
}

/// The tensors that a gather kernel is handed, in the order in which they are looked at.
pub open spec fn gather_operands(
    cache: DeviceKind,
    out: DeviceKind,
    block_table: MetaView,
    cu_seq_lens: DeviceKind,
) -> Seq<Operand> {
    seq![
        Operand { role: Role::Cache, kind: cache, unsigned_table: None },
        Operand { role: Role::Out, kind: out, unsigned_table: None },
        Operand {
            role: Role::BlockTable,
            kind: block_table.kind,
            unsigned_table: Some(block_table.dtype),
        },
        Operand { role: Role::CuSeqLens, kind: cu_seq_lens, unsigned_table: None },
    ]
}

/// The numbers that the kernel is called with: all tensors must live on CUDA devices, the block
/// table must hold unsigned integers and have two dimensions. The kernel takes sizes as 32-bit
/// integers.
pub open spec fn launched(
    plan: GatherPlan,
    cache: DeviceKind,
    out: DeviceKind,
    block_table: MetaView,
    cu_seq_lens: DeviceKind,
) -> Result<GatherLaunch, KernelErrorView> {
    match first_refused(gather_operands(cache, out, block_table, cu_seq_lens)) {
        Some(r) => refused(r),
        None => if block_table.dims.len() != 2 {
            wrong_rank(2, block_table.dims)
        } else {
            Ok(
                GatherLaunch {
                    num_tokens: plan.num_tokens_i32,
                    num_seqs: plan.num_seqs_i32,
                    block_size: plan.block_size as i32,
                    block_table_stride: block_table.dims[1] as i32,
                    kv_heads: plan.kv_heads as i32,
                    head_units: plan.head_units as i32,
                    out_dtype_code: plan.out_dtype_code,
                },
            )
        },
    }
}

/// Checks that the tables of a gather hold 32-bit integers.
pub fn validate_block_table_and_cu_seq_lens(
    block_table: ElementType,
    cu_seq_lens: ElementType,
    op: Op,
) -> (r: Result<(), KernelError>)
    ensures
        agrees(r, tables_checked(block_table, cu_seq_lens, op)),
{
    if !reads_table(block_table) {
        return Err(
            KernelError::Refused(
                Refusal::TableDType { op, role: Role::BlockTable, dtype: block_table },
            ),
        );
    }
    if !reads_table(cu_seq_lens) {
        return Err(
            KernelError::Refused(
                Refusal::TableDType { op, role: Role::CuSeqLens, dtype: cu_seq_lens },
            ),
        );
    }
    Ok(())
}

/// The numbers of tokens and of sequences.
fn count(num_tokens: usize, cu_seq_lens: &TensorMeta) -> (r: Result<(i32, i32), KernelError>)
    ensures
        agrees(r, counted(num_tokens, cu_seq_lens.dims@)),
{
    if cu_seq_lens.dims.len() != 1 {
        return Err(rank_error(1, cu_seq_lens));
    }
    if cu_seq_lens.dims[0] == 0 {
        return Err(KernelError::Refused(Refusal::NoInitialOffset));
    }
    let num_seqs: usize = cu_seq_lens.dims[0] - 1;
    if num_tokens > i32::MAX as usize {
        return Err(KernelError::Refused(Refusal::TooManyTokens));
    }
    if num_seqs > i32::MAX as usize {
        return Err(KernelError::Refused(Refusal::TooManySeqs));
    }
    Ok((num_tokens as i32, num_seqs as i32))
}

/// Checks the arguments of a gather from a packed cache, whose dimensions are blocks, slots, heads,
/// groups of a head and bytes of a group.
pub fn plan_gather_turbo4(
    cache: &TensorMeta,
    block_table: ElementType,
    cu_seq_lens: &TensorMeta,
    num_tokens: usize,
    out_dtype: ElementType,
) -> (r: Result<GatherPlan, KernelError>)
    requires
        !head_size_overflows(cache@, block_table, cu_seq_lens.dtype),
    ensures
        agrees(r, turbo4_plan(cache@, block_table, cu_seq_lens@, num_tokens, out_dtype)),
{
    if cache.dtype != ElementType::U8 {
        return Err(KernelError::Refused(Refusal::PackedDType { dtype: cache.dtype }));
    }
    match validate_block_table_and_cu_seq_lens(
        block_table,
        cu_seq_lens.dtype,
        Op::GatherTurbo4Cache,
    ) {
        Ok(_) => {},
        Err(e) => {
            return Err(e);
        },
    }
    if cache.dims.len() != 5 {
        return Err(rank_error(5, cache));
    }
    let groups_per_head: usize = cache.dims[3];
    let block_bytes: usize = cache.dims[4];
    if block_bytes != BLOCK_TURBO4_BYTES {
        return Err(KernelError::Refused(Refusal::BlockBytes { got: block_bytes }));
    }
    let head_size: usize = groups_per_head * GROUP;
    let (num_tokens_i32, num_seqs_i32) = match count(num_tokens, cu_seq_lens) {
        Ok(c) => c,
        Err(e) => {
            return Err(e);
        },
    };
    let out_dtype_code: u32 = match out_dtype_code(out_dtype, Op::GatherTurbo4Cache) {
        Ok(code) => code,
        Err(e) => {
            return Err(e);
        },
    };
    Ok(
        GatherPlan {
            num_tokens,
            num_tokens_i32,
            num_seqs_i32,
            block_size: cache.dims[1],
            kv_heads: cache.dims[2],
            head_size,
            head_units: groups_per_head,
            out_dtype,
            out_dtype_code,
        },
    )
}

/// Checks the arguments of a gather from a plain cache, whose dimensions are blocks, slots, heads
/// and elements of a head. The gathered tensor has the element type of the cache.
pub fn plan_gather_plain(
    cache: &TensorMeta,
    block_table: ElementType,
    cu_seq_lens: &TensorMeta,
    num_tokens: usize,
) -> (r: Result<GatherPlan, KernelError>)
    ensures
        agrees(r, plain_plan(cache@, block_table, cu_seq_lens@, num_tokens)),
{
    let out_dtype_code: u32 = match out_dtype_code(cache.dtype, Op::GatherPlainKvCache) {
        Ok(code) => code,
        Err(e) => {
            return Err(e);
        },
    };
    match validate_block_table_and_cu_seq_lens(
        block_table,
        cu_seq_lens.dtype,
        Op::GatherPlainKvCache,
    ) {
        Ok(_) => {},
        Err(e) => {
            return Err(e);
        },
    }
    if cache.dims.len() != 4 {
        return Err(rank_error(4, cache));
    }
    let (num_tokens_i32, num_seqs_i32) = match count(num_tokens, cu_seq_lens) {
        Ok(c) => c,
        Err(e) => {
            return Err(e);
        },
    };
    Ok(
        GatherPlan {
            num_tokens,
            num_tokens_i32,
            num_seqs_i32,
            block_size: cache.dims[1],
            kv_heads: cache.dims[2],
            head_size: cache.dims[3],
            head_units: cache.dims[3],
            out_dtype: cache.dtype,
            out_dtype_code,
        },
    )
}

/// The numbers that a gather kernel is called with.
pub fn gather_launch(
    plan: GatherPlan,
    cache: DeviceKind,
    out: DeviceKind,
    block_table: &TensorMeta,
    cu_seq_lens: DeviceKind,
) -> (r: Result<GatherLaunch, KernelError>)
    ensures
        agrees(r, launched(plan, cache, out, block_table@, cu_seq_lens)),
{
    let operands: Vec<Operand> = vec![
        Operand { role: Role::Cache, kind: cache, unsigned_table: None },
        Operand { role: Role::Out, kind: out, unsigned_table: None },
        Operand {
            role: Role::BlockTable,
            kind: block_table.kind,
            unsigned_table: Some(block_table.dtype),
        },
        Operand { role: Role::CuSeqLens, kind: cu_seq_lens, unsigned_table: None },
    ];
    assert(operands@ =~= gather_operands(cache, out, block_table@, cu_seq_lens));
    match check_operands(&operands) {
        Some(r) => {
            return Err(KernelError::Refused(r));
        },
        None => {},
    }
    if block_table.dims.len() != 2 {
        return Err(rank_error(2, block_table));
    }
    Ok(
        GatherLaunch {
            num_tokens: plan.num_tokens_i32,
            num_seqs: plan.num_seqs_i32,
            block_size: plan.block_size as i32,
            block_table_stride: block_table.dims[1] as i32,
            kv_heads: plan.kv_heads as i32,
            head_units: plan.head_units as i32,
            out_dtype_code: plan.out_dtype_code,
        },
    )
}

/// A plan, and the numbers that the kernel is called with: none where there are no tokens.
pub open spec fn completed(
    plan: GatherPlan,
    cache: MetaView,
    block_table: MetaView,
    cu_seq_lens: MetaView,
) -> Result<(GatherPlan, Option<GatherLaunch>), Failure> {
    if !fits(plan.out_dims(), plan.out_dtype) {
        Err(Failure::TooLarge)
    } else if plan.num_tokens == 0 {
        Ok((plan, None))
    } else {
        match launched(plan, cache.kind, cache.kind, block_table, cu_seq_lens.kind) {
            Err(e) => Err(Failure::Kernel(e)),
            Ok(launch) => Ok((plan, Some(launch))),
        }
    }
}

/// Whether a gather is in order as far as the tensor that it fills.
pub open spec fn awaits_tensor(plan: Result<GatherPlan, KernelErrorView>) -> bool {
    plan is Ok && fits(plan->Ok_0.out_dims(), plan->Ok_0.out_dtype)
}

/// What a gather from a packed cache comes to.
pub open spec fn turbo4_gather(
    cache: MetaView,
    block_table: MetaView,
    cu_seq_lens: MetaView,
    num_tokens: usize,
    out_dtype: ElementType,
) -> Result<(GatherPlan, Option<GatherLaunch>), Failure> {
    if cache.dtype is U8 && (!fits(block_table.dims, block_table.dtype) || !fits(
        cu_seq_lens.dims,
        cu_seq_lens.dtype,
    ) || head_size_overflows(cache, block_table.dtype, cu_seq_lens.dtype)) {
        Err(Failure::TooLarge)
    } else {
        match turbo4_plan(cache, block_table.dtype, cu_seq_lens, num_tokens, out_dtype) {
            Err(e) => Err(Failure::Kernel(e)),
            Ok(plan) => completed(plan, cache, block_table, cu_seq_lens),
        }
    }
}

/// What a gather from a plain cache comes to.
pub open spec fn plain_gather(
    cache: MetaView,
    block_table: MetaView,
    cu_seq_lens: MetaView,
    num_tokens: usize,
) -> Result<(GatherPlan, Option<GatherLaunch>), Failure> {
    if out_code(cache.dtype, Op::GatherPlainKvCache) is Ok && (!fits(
        block_table.dims,
        block_table.dtype,
    ) || !fits(cu_seq_lens.dims, cu_seq_lens.dtype)) {
        Err(Failure::TooLarge)
    } else {
        match plain_plan(cache, block_table.dtype, cu_seq_lens, num_tokens) {
            Err(e) => Err(Failure::Kernel(e)),
            Ok(plan) => completed(plan, cache, block_table, cu_seq_lens),
        }
    }
}

/// Whether a prepared gather is what it should come to: a tensor on the device of the cache and,
/// where the kernel is called, the given tables in row-major order and the numbers.
pub open spec fn gathers(
    r: Result<Gather, CallError>,
    want: Result<(GatherPlan, Option<GatherLaunch>), Failure>,
    cache: candle_core::Tensor,
    block_table: candle_core::Tensor,
    cu_seq_lens: candle_core::Tensor,
) -> bool {
    match r {
        Ok(g) => {
            &&& want matches Ok((plan, launch))
            &&& is_made(
                g.out,
                plan.out_dims(),
                plan.out_dtype,
                tensor_kind(cache),
                tensor_ordinal(cache),
            )
            &&& g.out != cache
            &&& match g.call {
                None => launch is None,
                Some(call) => {
                    &&& launch == Some(call.launch)
                    &&& is_row_major_of(call.block_table, block_table)
                    &&& is_row_major_of(call.cu_seq_lens, cu_seq_lens)
                },
            }
        },
        Err(e) => want is Err && fails_with(e, want->Err_0),
    }
}

/// Makes the tensor that a gather fills, and settles the call that fills it.
fn prepare(
    plan: GatherPlan,
    cache: &candle_core::Tensor,
    block_table: candle_core::Tensor,
    cu_seq_lens: candle_core::Tensor,
) -> (r: Result<Gather, CallError>)
    ensures
        ({
            let c = tensor_meta(*cache);
            let want = completed(plan, c, tensor_meta(block_table), tensor_meta(cu_seq_lens));
            &&& match r {
                Ok(g) => {
                    &&& is_made(
                        g.out,
                        plan.out_dims(),
                        plan.out_dtype,
                        tensor_kind(*cache),
                        tensor_ordinal(*cache),
                    )
                    &&& g.out != *cache
                    &&& want == Ok::<(GatherPlan, Option<GatherLaunch>), Failure>(
                        (
                            plan,
                            match g.call {
                                None => None,
                                Some(call) => Some(call.launch),
                            },
                        ),
                    )
                    &&& g.call matches Some(call) ==> call.block_table == block_table
                        && call.cu_seq_lens == cu_seq_lens
                },
                Err(e) => candle_failed(r) || (want is Err && fails_with(e, want->Err_0)),
            }
            &&& candle_failed(r) ==> !(c.kind is Cpu && cpu_holds(plan.out_dtype)) && fits(
                plan.out_dims(),
                plan.out_dtype,
            )
        }),
{
    let dims: Vec<usize> = vec![plan.num_tokens, plan.kv_heads, plan.head_size];
    assert(dims@ =~= plan.out_dims());
    let out = match zeros_beside(&dims, plan.out_dtype, cache) {
        Ok(t) => t,
        Err(e) => {
            return Err(CallError::Tensor(e));
        },
    };
    if plan.num_tokens == 0 {
        return Ok(Gather { out, call: None });
    }
    let cache_kind = meta(cache).kind;
    let out_kind = meta(&out).kind;
    let table = meta(&block_table);
    let lens_kind = meta(&cu_seq_lens).kind;
    match gather_launch(plan, cache_kind, out_kind, &table, lens_kind) {
        Ok(launch) => Ok(Gather { out, call: Some(GatherCall { block_table, cu_seq_lens, launch }) }),
        Err(e) => Err(CallError::Kernel(e)),
    }
}

/// Prepares a gather of `num_tokens` tokens from a packed cache into a tensor of tokens, heads and
/// elements of a head.
pub fn gather_turbo4_cache(
    cache: &candle_core::Tensor,
    block_table: &candle_core::Tensor,
    cu_seq_lens: &candle_core::Tensor,
    num_tokens: usize,
    out_dtype: ElementType,
) -> (r: Result<Gather, CallError>)
    ensures
        ({
            let c = tensor_meta(*cache);
            let t = tensor_meta(*block_table);
            let l = tensor_meta(*cu_seq_lens);
            let want = turbo4_gather(c, t, l, num_tokens, out_dtype);
            &&& candle_failed(r) || gathers(r, want, *cache, *block_table, *cu_seq_lens)
            &&& candle_failed(r) ==> c.dtype is U8 && fits(t.dims, t.dtype)
            &&& candle_failed(r) && has_row_major(*block_table) ==> fits(l.dims, l.dtype)
            &&& candle_failed(r) && has_row_major(*block_table) && has_row_major(*cu_seq_lens)
                ==> !(c.kind is Cpu) && !head_size_overflows(c, t.dtype, l.dtype) && awaits_tensor(
                turbo4_plan(c, t.dtype, l, num_tokens, out_dtype),
            )
        }),
{
    let c = meta(cache);
    if c.dtype != ElementType::U8 {
        return Err(
            CallError::Kernel(KernelError::Refused(Refusal::PackedDType { dtype: c.dtype })),
        );
    }
    let block_table = match contiguous(block_table) {
        Ok(t) => t,
        Err(e) => {
            return Err(CallError::Tensor(e));
        },
    };
    let cu_seq_lens = match contiguous(cu_seq_lens) {
        Ok(t) => t,
        Err(e) => {
            return Err(CallError::Tensor(e));
        },
    };
    let table = meta(&block_table);
    let lens = meta(&cu_seq_lens);
    if reads_table(table.dtype) && reads_table(lens.dtype) && c.dims.len() == 5 && c.dims[4]
        == BLOCK_TURBO4_BYTES && c.dims[3] > usize::MAX / GROUP {
        return Err(CallError::Tensor(TensorError::TooLarge));
    }
    let plan = match plan_gather_turbo4(&c, table.dtype, &lens, num_tokens, out_dtype) {
        Ok(p) => p,
        Err(e) => {
            return Err(CallError::Kernel(e));
        },
    };
    prepare(plan, cache, block_table, cu_seq_lens)
}

/// Prepares a gather of `num_tokens` tokens from a plain cache into a tensor of tokens, heads and
/// elements of a head, of the same element type.
pub fn gather_plain_kv_cache(
    cache: &candle_core::Tensor,
    block_table: &candle_core::Tensor,
    cu_seq_lens: &candle_core::Tensor,
    num_tokens: usize,
) -> (r: Result<Gather, CallError>)
    ensures
        ({
            let c = tensor_meta(*cache);
            let t = tensor_meta(*block_table);
            let l = tensor_meta(*cu_seq_lens);
            let want = plain_gather(c, t, l, num_tokens);
            &&& candle_failed(r) || gathers(r, want, *cache, *block_table, *cu_seq_lens)
            &&& candle_failed(r) ==> out_code(c.dtype, Op::GatherPlainKvCache) is Ok && fits(
                t.dims,
                t.dtype,
            )
            &&& candle_failed(r) && has_row_major(*block_table) ==> fits(l.dims, l.dtype)
            &&& candle_failed(r) && has_row_major(*block_table) && has_row_major(*cu_seq_lens)
                ==> !(c.kind is Cpu) && awaits_tensor(plain_plan(c, t.dtype, l, num_tokens))
        }),
{
    let c = meta(cache);
    match out_dtype_code(c.dtype, Op::GatherPlainKvCache) {
        Ok(_) => {},
        Err(e) => {
            return Err(CallError::Kernel(e));
        },
    }
    let block_table = match contiguous(block_table) {
        Ok(t) => t,
        Err(e) => {
            return Err(CallError::Tensor(e));
        },
    };
    let cu_seq_lens = match contiguous(cu_seq_lens) {
        Ok(t) => t,
        Err(e) => {
            return Err(CallError::Tensor(e));
        },
    };
    let table = meta(&block_table);
    let lens = meta(&cu_seq_lens);
    let plan = match plan_gather_plain(&c, table.dtype, &lens, num_tokens) {
        Ok(p) => p,
        Err(e) => {
            return Err(CallError::Kernel(e));
        },
    };
    prepare(plan, cache, block_table, cu_seq_lens)
}

} // verus!
