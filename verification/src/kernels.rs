//! What the Turbo4 kernels share: how they refuse their arguments, and how they number element
//! types.
use crate::tensor::{DeviceKind, ElementType, TensorError, TensorMeta, dtype_name};
use crate::text::{append_decimal, decimal, size_list, size_list_text};
use crate::turbo_quant::{BLOCK_TURBO4_BYTES, GROUP};
use vstd::prelude::*;
use vstd::string::*;

verus! {

/// Conservative cap on the context that the fused decode kernel can address: its buffer of logits,
/// one for each token, then fits the shared memory of every CUDA architecture.
pub const MAX_FUSED_DECODE_CONTEXT_TOKENS: usize = 8192;

/// Groups of a head that the fused decode kernel can hold.
pub const MAX_GROUPS_PER_HEAD: usize = 4;

/// A kernel.
#[derive(Clone, Copy, Debug, PartialEq, Eq, Structural)]
pub enum Op {
    GatherTurbo4Cache,
    GatherPlainKvCache,
    PagedAttentionTurbo4,
}

/// A side of a cache.
#[derive(Clone, Copy, Debug, PartialEq, Eq, Structural)]
pub enum Side {
    Key,
    Value,
}

/// The part that a tensor plays in a kernel call.
#[derive(Clone, Copy, Debug, PartialEq, Eq, Structural)]
pub enum Role {
    Cache,
    Out,
    BlockTable,
    CuSeqLens,
    Query,
    KeyCache,
    ValueCache,
    ContextLens,
}

/// Why a kernel refuses its arguments.
#[derive(Clone, Copy, Debug, PartialEq, Eq, Structural)]
pub enum Refusal {
    OutDType { op: Op, dtype: ElementType },
    IoDType { op: Op, dtype: ElementType },
    TableDType { op: Op, role: Role, dtype: ElementType },
    PackedDType { dtype: ElementType },
    BlockBytes { got: usize },
    NoInitialOffset,
    TooManyTokens,
    TooManySeqs,
    NotCuda { role: Role },
    TableSlice { dtype: ElementType },
    HeadSize { head_size: usize },
    TooManyGroups { head_size: usize, groups_per_head: usize },
    SideDType { side: Side, dtype: ElementType, io_dtype: ElementType },
    SideHeadSize { side: Side, got: usize, head_size: usize },
    BlockSizes { key: usize, value: usize },
    KvHeads { key: usize, value: usize },
    Heads { num_heads: usize, num_kv_heads: usize },
    BlockTableRows { rows: usize, num_seqs: usize },
    Capacity { capacity: usize },
    ContextLensLen,
}

/// What is wrong with the dimensions of a tensor.
#[derive(Clone, Copy, Debug, PartialEq, Eq, Structural)]
pub enum DimsFault {
    Rank { expected: usize },
    PackedSide { side: Side, groups_per_head: usize },
}

/// Why a kernel refuses its arguments.
#[derive(Clone, Debug)]
pub enum KernelError {
    Refused(Refusal),
    Dims { fault: DimsFault, dims: Vec<usize> },
}

/// What a [`KernelError`] says.
#[verifier::ext_equal]
pub enum KernelErrorView {
    Refused(Refusal),
    Dims { fault: DimsFault, dims: Seq<usize> },
}

impl View for KernelError {
    type V = KernelErrorView;

    open spec fn view(&self) -> KernelErrorView {
        match *self {
            KernelError::Refused(r) => KernelErrorView::Refused(r),
            KernelError::Dims { fault, dims } => KernelErrorView::Dims { fault, dims: dims@ },
        }
    }
}

/// Why a kernel call could not be prepared.
#[derive(Debug)]
pub enum CallError {
    Kernel(KernelError),
    Tensor(TensorError),
}

/// Whether a result is the expected one.
pub open spec fn agrees<T>(r: Result<T, KernelError>, want: Result<T, KernelErrorView>) -> bool {
    match r {
        Ok(v) => want == Ok::<T, KernelErrorView>(v),
        Err(e) => want == Err::<T, KernelErrorView>(e@),
    }
}

/// The error that refuses with the given reason.
pub open spec fn refused<T>(r: Refusal) -> Result<T, KernelErrorView> {
    Err(KernelErrorView::Refused(r))
}

/// The error that says a tensor does not have the expected number of dimensions.
pub open spec fn wrong_rank<T>(expected: usize, dims: Seq<usize>) -> Result<T, KernelErrorView> {
    Err(KernelErrorView::Dims { fault: DimsFault::Rank { expected }, dims })
}

/// The error that says a tensor does not have the expected number of dimensions.
pub fn rank_error(expected: usize, t: &TensorMeta) -> (r: KernelError)
    ensures
        r@ == (KernelErrorView::Dims { fault: DimsFault::Rank { expected }, dims: t.dims@ }),
{
    KernelError::Dims { fault: DimsFault::Rank { expected }, dims: copy_dims(&t.dims) }
}

/// A copy of a list of dimensions.
pub fn copy_dims(dims: &Vec<usize>) -> (r: Vec<usize>)
    ensures
        r@ == dims@,
{
    let mut r: Vec<usize> = Vec::new();
    let mut i: usize = 0;
    while i < dims.len()
        invariant
            i <= dims@.len(),
            r@ == dims@.take(i as int),
        decreases dims@.len() - i,
    {
        r.push(dims[i]);
        assert(r@ =~= dims@.take(i + 1));
        i += 1;
    }
    assert(r@ =~= dims@);
    r
}

impl Op {
    /// The name of the kernel.
    pub open spec fn text(self) -> Seq<char> {
        match self {
            Op::GatherTurbo4Cache => "gather_turbo4_cache"@,
            Op::GatherPlainKvCache => "gather_plain_kv_cache"@,
            Op::PagedAttentionTurbo4 => "paged_attention_turbo4"@,
        }
    }

    /// The name of the kernel.
    pub fn name(self) -> (r: &'static str)
        ensures
            r@ == self.text(),
    {
        match self {
            Op::GatherTurbo4Cache => "gather_turbo4_cache",
            Op::GatherPlainKvCache => "gather_plain_kv_cache",
            Op::PagedAttentionTurbo4 => "paged_attention_turbo4",
        }
    }
}

impl Side {
    /// The name of the side.
    pub open spec fn text(self) -> Seq<char> {
        match self {
            Side::Key => "key"@,
            Side::Value => "value"@,
        }
    }

    /// The name of the side.
    pub fn name(self) -> (r: &'static str)
        ensures
            r@ == self.text(),
    {
        match self {
            Side::Key => "key",
            Side::Value => "value",
        }
    }
}

impl Role {
    /// What the tensor is called.
    pub open spec fn text(self) -> Seq<char> {
        match self {
            Role::Cache => "cache"@,
            Role::Out => "out"@,
            Role::BlockTable => "block_table"@,
            Role::CuSeqLens => "cu_seq_lens"@,
            Role::Query => "query"@,
            Role::KeyCache => "key cache"@,
            Role::ValueCache => "value cache"@,
            Role::ContextLens => "context_lens"@,
        }
    }

    /// What the tensor is called.
    pub fn name(self) -> (r: &'static str)
        ensures
            r@ == self.text(),
    {
        match self {
            Role::Cache => "cache",
            Role::Out => "out",
            Role::BlockTable => "block_table",
            Role::CuSeqLens => "cu_seq_lens",
            Role::Query => "query",
            Role::KeyCache => "key cache",
            Role::ValueCache => "value cache",
            Role::ContextLens => "context_lens",
        }
    }
}

impl Refusal {
    /// The message that goes with the refusal.
    pub open spec fn text(self) -> Seq<char> {
        match self {
            Refusal::OutDType { op, dtype } => op.text()
                + " only supports f16, bf16, f32 output (got "@ + dtype_name(dtype) + ")"@,
            Refusal::IoDType { op, dtype } => op.text() + " only supports f16, bf16, f32 (got "@
                + dtype_name(dtype) + ")"@,
            Refusal::TableDType { op, role, dtype } => op.text() + " expects i32/u32 "@
                + role.text() + " (got "@ + dtype_name(dtype) + ")"@,
            Refusal::PackedDType { dtype } =>
                "gather_turbo4_cache expects a u8 packed cache, got "@ + dtype_name(dtype),
            Refusal::BlockBytes { got } => "gather_turbo4_cache expects last dim "@ + decimal(
                BLOCK_TURBO4_BYTES as nat,
            ) + ", got "@ + decimal(got as nat),
            Refusal::NoInitialOffset => "cu_seq_lens must contain an initial offset"@,
            Refusal::TooManyTokens => "num_tokens exceeds the kernel i32 limit"@,
            Refusal::TooManySeqs => "num_seqs exceeds the kernel i32 limit"@,
            Refusal::NotCuda { role } => role.text() + " must be a cuda tensor"@,
            Refusal::TableSlice { dtype } => "unexpected dtype, expected: U32, got: "@ + dtype_name(
                dtype,
            ),
            Refusal::HeadSize { head_size } => "paged_attention_turbo4 requires head_size ("@
                + decimal(head_size as nat) + ") to be a multiple of "@ + decimal(GROUP as nat),
            Refusal::TooManyGroups { head_size, groups_per_head } =>
                "paged_attention_turbo4: head_size "@ + decimal(head_size as nat)
                    + " implies groups_per_head "@ + decimal(groups_per_head as nat)
                    + " > 4, unsupported"@,
            Refusal::SideDType { side, dtype, io_dtype } => "paged_attention_turbo4: "@
                + side.text() + " plain cache dtype "@ + dtype_name(dtype)
                + " does not match query dtype "@ + dtype_name(io_dtype),
            Refusal::SideHeadSize { side, got, head_size } => "paged_attention_turbo4: "@
                + side.text() + " plain cache head_size "@ + decimal(got as nat)
                + " does not match query head_size "@ + decimal(head_size as nat),
            Refusal::BlockSizes { key, value } =>
                "paged_attention_turbo4: key/value block_size mismatch ("@ + decimal(key as nat)
                    + " vs "@ + decimal(value as nat) + ")"@,
            Refusal::KvHeads { key, value } =>
                "paged_attention_turbo4: key/value kv_heads mismatch ("@ + decimal(key as nat)
                    + " vs "@ + decimal(value as nat) + ")"@,
            Refusal::Heads { num_heads, num_kv_heads } => "paged_attention_turbo4: num_heads ("@
                + decimal(num_heads as nat) + ") is not a multiple of num_kv_heads ("@ + decimal(
                num_kv_heads as nat,
            ) + ")"@,
            Refusal::BlockTableRows { rows, num_seqs } =>
                "paged_attention_turbo4: block_table rows ("@ + decimal(rows as nat)
                    + ") do not match num_seqs ("@ + decimal(num_seqs as nat) + ")"@,
            Refusal::Capacity { capacity } => "paged_attention_turbo4: capacity "@ + decimal(
                capacity as nat,
            ) + " exceeds MAX_FUSED_DECODE_CONTEXT_TOKENS ("@ + decimal(
                MAX_FUSED_DECODE_CONTEXT_TOKENS as nat,
            ) + "); caller should fall back to the gather+Sdpa path"@,
            Refusal::ContextLensLen =>
                "paged_attention_turbo4: context_lens length does not match num_seqs"@,
        }
    }

    /// The message that goes with the refusal.
    pub fn message(self) -> (r: String)
        ensures
            r@ == self.text(),
    {
        match self {
            Refusal::OutDType { op, dtype } => {
                let mut s = op.name().to_owned();
                s.append(" only supports f16, bf16, f32 output (got ");
                s.append(dtype.name());
                s.append(")");
                s
            },
            Refusal::IoDType { op, dtype } => {
                let mut s = op.name().to_owned();
                s.append(" only supports f16, bf16, f32 (got ");
                s.append(dtype.name());
                s.append(")");
                s
            },
            Refusal::TableDType { op, role, dtype } => {
                let mut s = op.name().to_owned();
                s.append(" expects i32/u32 ");
                s.append(role.name());
                s.append(" (got ");
                s.append(dtype.name());
                s.append(")");
                s
            },
            Refusal::PackedDType { dtype } => {
                let mut s = "gather_turbo4_cache expects a u8 packed cache, got ".to_owned();
                s.append(dtype.name());
                s
            },
            Refusal::BlockBytes { got } => {
                let mut s = "gather_turbo4_cache expects last dim ".to_owned();
                append_decimal(&mut s, BLOCK_TURBO4_BYTES);
                s.append(", got ");
                append_decimal(&mut s, got);
                s
            },
            Refusal::NoInitialOffset => "cu_seq_lens must contain an initial offset".to_owned(),
            Refusal::TooManyTokens => "num_tokens exceeds the kernel i32 limit".to_owned(),
            Refusal::TooManySeqs => "num_seqs exceeds the kernel i32 limit".to_owned(),
            Refusal::NotCuda { role } => {
                let mut s = role.name().to_owned();
                s.append(" must be a cuda tensor");
                s
            },
            Refusal::TableSlice { dtype } => {
                let mut s = "unexpected dtype, expected: U32, got: ".to_owned();
                s.append(dtype.name());
                s
            },
            Refusal::HeadSize { head_size } => {
                let mut s = "paged_attention_turbo4 requires head_size (".to_owned();
                append_decimal(&mut s, head_size);
                s.append(") to be a multiple of ");
                append_decimal(&mut s, GROUP);
                s
            },
            Refusal::TooManyGroups { head_size, groups_per_head } => {
                let mut s = "paged_attention_turbo4: head_size ".to_owned();
                append_decimal(&mut s, head_size);
                s.append(" implies groups_per_head ");
                append_decimal(&mut s, groups_per_head);
                s.append(" > 4, unsupported");
                s
            },
            Refusal::SideDType { side, dtype, io_dtype } => {
                let mut s = "paged_attention_turbo4: ".to_owned();
                s.append(side.name());
                s.append(" plain cache dtype ");
                s.append(dtype.name());
                s.append(" does not match query dtype ");
                s.append(io_dtype.name());
                s
            },
            Refusal::SideHeadSize { side, got, head_size } => {
                let mut s = "paged_attention_turbo4: ".to_owned();
                s.append(side.name());
                s.append(" plain cache head_size ");
                append_decimal(&mut s, got);
                s.append(" does not match query head_size ");
                append_decimal(&mut s, head_size);
                s
            },
            Refusal::BlockSizes { key, value } => {
                let mut s = "paged_attention_turbo4: key/value block_size mismatch (".to_owned();
                append_decimal(&mut s, key);
                s.append(" vs ");
                append_decimal(&mut s, value);
                s.append(")");
                s
            },
            Refusal::KvHeads { key, value } => {
                let mut s = "paged_attention_turbo4: key/value kv_heads mismatch (".to_owned();
                append_decimal(&mut s, key);
                s.append(" vs ");
                append_decimal(&mut s, value);
                s.append(")");
                s
            },
            Refusal::Heads { num_heads, num_kv_heads } => {
                let mut s = "paged_attention_turbo4: num_heads (".to_owned();
                append_decimal(&mut s, num_heads);
                s.append(") is not a multiple of num_kv_heads (");
                append_decimal(&mut s, num_kv_heads);
                s.append(")");
                s
            },
            Refusal::BlockTableRows { rows, num_seqs } => {
                let mut s = "paged_attention_turbo4: block_table rows (".to_owned();
                append_decimal(&mut s, rows);
                s.append(") do not match num_seqs (");
                append_decimal(&mut s, num_seqs);
                s.append(")");
                s
            },
            Refusal::Capacity { capacity } => {
                let mut s = "paged_attention_turbo4: capacity ".to_owned();
                append_decimal(&mut s, capacity);
                s.append(" exceeds MAX_FUSED_DECODE_CONTEXT_TOKENS (");
                append_decimal(&mut s, MAX_FUSED_DECODE_CONTEXT_TOKENS);
                s.append("); caller should fall back to the gather+Sdpa path");
                s
            },
            Refusal::ContextLensLen => {
                "paged_attention_turbo4: context_lens length does not match num_seqs".to_owned()
            },
        }
    }
}

impl KernelErrorView {
    /// The message that goes with the error.
    pub open spec fn text(self) -> Seq<char> {
        match self {
            KernelErrorView::Refused(r) => r.text(),
            KernelErrorView::Dims { fault, dims } => match fault {
                DimsFault::Rank { expected } => "unexpected rank, expected: "@ + decimal(
                    expected as nat,
                ) + ", got: "@ + decimal(dims.len()) + " ("@ + size_list(dims) + ")"@,
                DimsFault::PackedSide { side, groups_per_head } => "paged_attention_turbo4: "@
                    + side.text() + " turbo cache shape "@ + size_list(dims)
                    + " does not match groups_per_head="@ + decimal(groups_per_head as nat),
            },
        }
    }
}

impl KernelError {
    /// The message that goes with the error.
    pub fn message(&self) -> (r: String)
        ensures
            r@ == self@.text(),
    {
        match self {
            KernelError::Refused(r) => r.message(),
            KernelError::Dims { fault, dims } => match fault {
                DimsFault::Rank { expected } => {
                    let mut s = "unexpected rank, expected: ".to_owned();
                    append_decimal(&mut s, *expected);
                    s.append(", got: ");
                    append_decimal(&mut s, dims.len());
                    s.append(" (");
                    let list = size_list_text(dims);
                    s.append(list.as_str());
                    s.append(")");
                    s
                },
                DimsFault::PackedSide { side, groups_per_head } => {
                    let mut s = "paged_attention_turbo4: ".to_owned();
                    s.append(side.name());
                    s.append(" turbo cache shape ");
                    let list = size_list_text(dims);
                    s.append(list.as_str());
                    s.append(" does not match groups_per_head=");
                    append_decimal(&mut s, *groups_per_head);
                    s
                },
            },
        }
    }
}

/// The number by which a kernel knows an element type that it computes with.
pub open spec fn dtype_code(dtype: ElementType) -> Option<u32> {
    match dtype {
        ElementType::F16 => Some(0),
        ElementType::BF16 => Some(1),
        ElementType::F32 => Some(2),
        _ => None,
    }
}

/// Whether a kernel can read a table of this element type.
pub open spec fn is_table_dtype(dtype: ElementType) -> bool {
    dtype is I32 || dtype is U32
}

/// The number of an element type that a gather kernel writes.
pub open spec fn out_code(dtype: ElementType, op: Op) -> Result<u32, KernelErrorView> {
    match dtype_code(dtype) {
        Some(code) => Ok(code),
        None => refused(Refusal::OutDType { op, dtype }),
    }
}

/// The number of an element type that a kernel reads and writes.
pub open spec fn io_code(dtype: ElementType, op: Op) -> Result<u32, KernelErrorView> {
    match dtype_code(dtype) {
        Some(code) => Ok(code),
        None => refused(Refusal::IoDType { op, dtype }),
    }
}

/// The number of an element type that a gather kernel writes.
pub fn out_dtype_code(dtype: ElementType, op: Op) -> (r: Result<u32, KernelError>)
    ensures
        agrees(r, out_code(dtype, op)),
{
    match dtype {
        ElementType::F16 => Ok(0),
        ElementType::BF16 => Ok(1),
        ElementType::F32 => Ok(2),
        other => Err(KernelError::Refused(Refusal::OutDType { op, dtype: other })),
    }
}

/// The number of an element type that a kernel reads and writes.
pub fn io_dtype_code(dtype: ElementType, op: Op) -> (r: Result<u32, KernelError>)
    ensures
        agrees(r, io_code(dtype, op)),
{
    match dtype {
        ElementType::F16 => Ok(0),
        ElementType::BF16 => Ok(1),
        ElementType::F32 => Ok(2),
        other => Err(KernelError::Refused(Refusal::IoDType { op, dtype: other })),
    }
}

/// Whether a kernel can read a table of this element type.
pub fn reads_table(dtype: ElementType) -> (r: bool)
    ensures
        r == is_table_dtype(dtype),
{
    dtype == ElementType::I32 || dtype == ElementType::U32
}

/// A tensor that a kernel is handed by its address.
#[derive(Clone, Copy, Debug, PartialEq, Eq, Structural)]
pub struct Operand {
    pub role: Role,
    pub kind: DeviceKind,
    /// The element type of a table that the kernel takes for unsigned integers. Other tensors are
    /// read by their own element type.
    pub unsigned_table: Option<ElementType>,
}

impl Operand {
    /// Why the kernel cannot be handed this tensor.
    pub open spec fn refusal(self) -> Option<Refusal> {
        if !(self.kind is Cuda) {
            Some(Refusal::NotCuda { role: self.role })
        } else {
            match self.unsigned_table {
                Some(dtype) => if dtype is U32 {
                    None
                } else {
                    Some(Refusal::TableSlice { dtype })
                },
                None => None,
            }
        }
    }
}

/// Refuses the first of the given tensors that the kernel cannot be handed.
pub open spec fn first_refused(operands: Seq<Operand>) -> Option<Refusal>
    decreases operands.len(),
{
    if operands.len() == 0 {
        None
    } else {
        match operands[0].refusal() {
            Some(r) => Some(r),
            None => first_refused(operands.skip(1)),
        }
    }
}

/// Refuses the first of the given tensors that does not live on a CUDA device, or that is a table
/// of signed integers where the kernel takes unsigned ones.
pub fn check_operands(operands: &Vec<Operand>) -> (r: Option<Refusal>)
    ensures
        r == first_refused(operands@),
{
    let mut i: usize = 0;
    assert(operands@.skip(0) =~= operands@);
    while i < operands.len()
        invariant
            i <= operands@.len(),
            first_refused(operands@) == first_refused(operands@.skip(i as int)),
        decreases operands@.len() - i,
    {
        let operand = operands[i];
        if operand.kind != DeviceKind::Cuda {
            return Some(Refusal::NotCuda { role: operand.role });
        }
        match operand.unsigned_table {
            Some(dtype) => if dtype != ElementType::U32 {
                return Some(Refusal::TableSlice { dtype });
            },
            None => {},
        }
        assert(operands@.skip(i as int).skip(1) =~= operands@.skip(i + 1));
        i += 1;
    }
    None
}

/// Why a call cannot be prepared, whatever the drivers do.
#[verifier::ext_equal]
pub enum Failure {
    Kernel(KernelErrorView),
    /// A size leaves the address space.
    TooLarge,
}

/// Whether a call could not be prepared for the given reason.
pub open spec fn fails_with(e: CallError, f: Failure) -> bool {
    match e {
        CallError::Kernel(k) => f == Failure::Kernel(k@),
        CallError::Tensor(TensorError::TooLarge) => f is TooLarge,
        CallError::Tensor(TensorError::Candle(_)) => false,
    }
}

/// Whether a call could not be prepared because candle could not make a tensor.
pub open spec fn candle_failed<T>(r: Result<T, CallError>) -> bool {
    r is Err && r->Err_0 is Tensor && r->Err_0->Tensor_0 is Candle
}

} // verus!
