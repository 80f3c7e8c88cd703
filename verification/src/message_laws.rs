//! What the messages say: which words stand in them, and which numbers, in which places.
use crate::cache_type::CacheTypeError;
use crate::kernels::{DimsFault, KernelErrorView, Op, Refusal, Role, Side};
use crate::tensor::{dtype_name, ElementType};
use crate::text::{decimal, size_list};
use vstd::prelude::*;
use vstd::string::*;

verus! {

/// The constants that messages name, in decimal notation.
proof fn lemma_written_constants()
    ensures
        decimal(128) == "128"@,
        decimal(66) == "66"@,
        decimal(8192) == "8192"@,
{
    reveal_with_fuel(decimal, 5);
    reveal_strlit("128");
    reveal_strlit("66");
    reveal_strlit("8192");
    assert(decimal(128) =~= "128"@);
    assert(decimal(66) =~= "66"@);
    assert(decimal(8192) =~= "8192"@);
}

/// An element type goes by its own name, and no two share one.
pub proof fn lemma_type_names(a: ElementType, b: ElementType)
    ensures
        dtype_name(a) == (match a {
            ElementType::U8 => "U8"@,
            ElementType::U32 => "U32"@,
            ElementType::I16 => "I16"@,
            ElementType::I32 => "I32"@,
            ElementType::I64 => "I64"@,
            ElementType::BF16 => "BF16"@,
            ElementType::F16 => "F16"@,
            ElementType::F32 => "F32"@,
            ElementType::F64 => "F64"@,
            ElementType::F8E4M3 => "F8E4M3"@,
            ElementType::F6E2M3 => "F6E2M3"@,
            ElementType::F6E3M2 => "F6E3M2"@,
            ElementType::F4 => "F4"@,
            ElementType::F8E8M0 => "F8E8M0"@,
        }),
        dtype_name(a) == dtype_name(b) ==> a == b,
{
    reveal_strlit("U8");
    reveal_strlit("U32");
    reveal_strlit("I16");
    reveal_strlit("I32");
    reveal_strlit("I64");
    reveal_strlit("BF16");
    reveal_strlit("F16");
    reveal_strlit("F32");
    reveal_strlit("F64");
    reveal_strlit("F8E4M3");
    reveal_strlit("F6E2M3");
    reveal_strlit("F6E3M2");
    reveal_strlit("F4");
    reveal_strlit("F8E8M0");
    let m = dtype_name(a);
    let n = dtype_name(b);
    assert(m == n ==> m.len() == n.len() && m[0] == n[0] && m[1] == n[1] && m[2] == n[2] && m[3]
        == n[3] && m[5] == n[5]);
}

/// Kernels, sides and tensors go by their own names.
pub proof fn lemma_names(op: Op, side: Side, role: Role)
    ensures
        op.text() == (match op {
            Op::GatherTurbo4Cache => "gather_turbo4_cache"@,
            Op::GatherPlainKvCache => "gather_plain_kv_cache"@,
            Op::PagedAttentionTurbo4 => "paged_attention_turbo4"@,
        }),
        side.text() == (match side {
            Side::Key => "key"@,
            Side::Value => "value"@,
        }),
        role.text() == (match role {
            Role::Cache => "cache"@,
            Role::Out => "out"@,
            Role::BlockTable => "block_table"@,
            Role::CuSeqLens => "cu_seq_lens"@,
            Role::Query => "query"@,
            Role::KeyCache => "key cache"@,
            Role::ValueCache => "value cache"@,
            Role::ContextLens => "context_lens"@,
        }),
{
}

/// A model that no Turbo4 cache suits is told which layer is at fault, and its head dimensions beside
/// the 128 elements that they must be multiples of.
pub proof fn lemma_turbo4_messages(layer: usize, k_head_dim: usize, v_head_dim: usize)
    ensures
        (CacheTypeError::Turbo4Mla { layer }).text()
            == "Turbo4 KV cache does not support the Mla layout (layer "@ + decimal(layer as nat)
            + ")"@,
        (CacheTypeError::Turbo4HeadDim { layer, k_head_dim, v_head_dim }).text()
            == "Turbo4 KV cache requires head_dim (got k="@ + decimal(k_head_dim as nat) + ", v="@
            + decimal(v_head_dim as nat) + " on layer "@ + decimal(layer as nat)
            + ") to be a multiple of the "@ + "128"@ + "-element rotation group"@,
{
    lemma_written_constants();
}

/// A model that no FP8 cache suits is told what it lacks, and which layer or element type is at
/// fault.
pub proof fn lemma_fp8_messages(layer: usize, dtype: ElementType)
    ensures
        (CacheTypeError::Fp8Activations { dtype }).text()
            == "FP8 KV cache requires f16, bf16, or f32 activations, got "@ + dtype_name(dtype),
        (CacheTypeError::Fp8Mla { layer }).text()
            == "FP8 KV cache is not supported for MLA layer "@ + decimal(layer as nat),
        CacheTypeError::Fp8ComputeCapability.text()
            == "FP8 KV cache requires CUDA compute capability 8.0 or newer and a matching CUDA build"@,
        CacheTypeError::Fp8NeedsCuda.text()
            == "FP8 KV cache requires the CUDA paged-attention backend"@,
        CacheTypeError::Fp8NeedsMetal.text()
            == "FP8 KV cache requires the Metal paged-attention backend"@,
        (CacheTypeError::Fp8Device { layer }).text()
            == "FP8 KV cache is only supported on CUDA or Metal, got Cpu for layer "@ + decimal(
            layer as nat,
        ),
{
}

/// Element types that a kernel does not take are named, beside the kernel and the tensor.
pub proof fn lemma_element_type_messages(op: Op, role: Role, dtype: ElementType)
    ensures
        (Refusal::OutDType { op, dtype }).text() == op.text()
            + " only supports f16, bf16, f32 output (got "@ + dtype_name(dtype) + ")"@,
        (Refusal::IoDType { op, dtype }).text() == op.text()
            + " only supports f16, bf16, f32 (got "@ + dtype_name(dtype) + ")"@,
        (Refusal::TableDType { op, role, dtype }).text() == op.text() + " expects i32/u32 "@
            + role.text() + " (got "@ + dtype_name(dtype) + ")"@,
        (Refusal::PackedDType { dtype }).text()
            == "gather_turbo4_cache expects a u8 packed cache, got "@ + dtype_name(dtype),
        (Refusal::TableSlice { dtype }).text() == "unexpected dtype, expected: U32, got: "@
            + dtype_name(dtype),
        (Refusal::NotCuda { role }).text() == role.text() + " must be a cuda tensor"@,
{
}

/// Sizes that a gather does not take are named.
pub proof fn lemma_gather_messages(got: usize)
    ensures
        (Refusal::BlockBytes { got }).text() == "gather_turbo4_cache expects last dim "@ + "66"@
            + ", got "@ + decimal(got as nat),
        Refusal::NoInitialOffset.text() == "cu_seq_lens must contain an initial offset"@,
        Refusal::TooManyTokens.text() == "num_tokens exceeds the kernel i32 limit"@,
        Refusal::TooManySeqs.text() == "num_seqs exceeds the kernel i32 limit"@,
{
    lemma_written_constants();
}

/// Heads that a decode does not take are named by their sizes and numbers.
pub proof fn lemma_decode_head_messages(head_size: usize, groups_per_head: usize, n: usize, m: usize)
    ensures
        (Refusal::HeadSize { head_size }).text() == "paged_attention_turbo4 requires head_size ("@
            + decimal(head_size as nat) + ") to be a multiple of "@ + "128"@,
        (Refusal::TooManyGroups { head_size, groups_per_head }).text()
            == "paged_attention_turbo4: head_size "@ + decimal(head_size as nat)
            + " implies groups_per_head "@ + decimal(groups_per_head as nat)
            + " > 4, unsupported"@,
        (Refusal::Heads { num_heads: n, num_kv_heads: m }).text()
            == "paged_attention_turbo4: num_heads ("@ + decimal(n as nat)
            + ") is not a multiple of num_kv_heads ("@ + decimal(m as nat) + ")"@,
{
    lemma_written_constants();
}

/// Sides of a cache that a decode does not take are named, with what they have and what they should.
pub proof fn lemma_decode_side_messages(
    side: Side,
    dtype: ElementType,
    io_dtype: ElementType,
    n: usize,
    m: usize,
)
    ensures
        (Refusal::SideDType { side, dtype, io_dtype }).text() == "paged_attention_turbo4: "@
            + side.text() + " plain cache dtype "@ + dtype_name(dtype)
            + " does not match query dtype "@ + dtype_name(io_dtype),
        (Refusal::SideHeadSize { side, got: n, head_size: m }).text()
            == "paged_attention_turbo4: "@ + side.text() + " plain cache head_size "@ + decimal(
            n as nat,
        ) + " does not match query head_size "@ + decimal(m as nat),
        (Refusal::BlockSizes { key: n, value: m }).text()
            == "paged_attention_turbo4: key/value block_size mismatch ("@ + decimal(n as nat)
            + " vs "@ + decimal(m as nat) + ")"@,
        (Refusal::KvHeads { key: n, value: m }).text()
            == "paged_attention_turbo4: key/value kv_heads mismatch ("@ + decimal(n as nat)
            + " vs "@ + decimal(m as nat) + ")"@,
{
}

/// Tables that a decode does not take are named by their sizes.
pub proof fn lemma_decode_table_messages(rows: usize, num_seqs: usize, capacity: usize)
    ensures
        (Refusal::BlockTableRows { rows, num_seqs }).text()
            == "paged_attention_turbo4: block_table rows ("@ + decimal(rows as nat)
            + ") do not match num_seqs ("@ + decimal(num_seqs as nat) + ")"@,
        (Refusal::Capacity { capacity }).text() == "paged_attention_turbo4: capacity "@ + decimal(
            capacity as nat,
        ) + " exceeds MAX_FUSED_DECODE_CONTEXT_TOKENS ("@ + "8192"@
            + "); caller should fall back to the gather+Sdpa path"@,
        Refusal::ContextLensLen.text()
            == "paged_attention_turbo4: context_lens length does not match num_seqs"@,
{
    lemma_written_constants();
}

/// A refusal speaks for itself; dimensions at fault are listed.
pub proof fn lemma_dimension_messages(r: Refusal, side: Side, n: usize, dims: Seq<usize>)
    ensures
        KernelErrorView::Refused(r).text() == r.text(),
        (KernelErrorView::Dims { fault: DimsFault::Rank { expected: n }, dims }).text()
            == "unexpected rank, expected: "@ + decimal(n as nat) + ", got: "@ + decimal(dims.len())
            + " ("@ + size_list(dims) + ")"@,
        (KernelErrorView::Dims { fault: DimsFault::PackedSide { side, groups_per_head: n }, dims }).text()
            == "paged_attention_turbo4: "@ + side.text() + " turbo cache shape "@ + size_list(dims)
            + " does not match groups_per_head="@ + decimal(n as nat),
{
}

} // verus!
