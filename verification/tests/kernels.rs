use candle_core::{DType, Device, Tensor};
use turbo_kv_cache::cache_engine::{CacheConfig, CacheDevice, CacheEngine};
use turbo_kv_cache::cache_type::{Backend, PagedCacheType, Turbo4Settings};
use turbo_kv_cache::gather::{
    gather_launch, gather_plain_kv_cache, gather_turbo4_cache, plan_gather_plain,
    plan_gather_turbo4, validate_block_table_and_cu_seq_lens, GatherLaunch, GatherPlan,
};
use turbo_kv_cache::kernels::{
    check_operands, io_dtype_code, out_dtype_code, reads_table, CallError, KernelError, Op,
    Operand, Refusal, Role, Side, MAX_FUSED_DECODE_CONTEXT_TOKENS,
};
use turbo_kv_cache::model::{KvCacheLayout, ModelConfigMetadata};
use turbo_kv_cache::paged_attention::{
    classify_side, decode_launch, paged_attention_turbo4, plan_decode, DecodeLaunch, SideInfo,
};
use turbo_kv_cache::tensor::{meta, DeviceKind, ElementType, TensorError, TensorMeta};

fn on_cuda(dtype: ElementType, dims: &[usize]) -> TensorMeta {
    TensorMeta {
        dtype,
        dims: dims.to_vec(),
        kind: DeviceKind::Cuda,
    }
}

fn refusal<T>(r: Result<T, KernelError>) -> Refusal {
    match r {
        Err(KernelError::Refused(r)) => r,
        Err(e) => panic!("{}", e.message()),
        Ok(_) => panic!("should have been refused"),
    }
}

fn message<T>(r: Result<T, KernelError>) -> String {
    match r {
        Err(e) => e.message(),
        Ok(_) => panic!("should have been refused"),
    }
}

fn cpu(dims: &[usize], dtype: DType) -> Tensor {
    Tensor::zeros(dims, dtype, &Device::Cpu).unwrap()
}

fn call_message<T>(r: Result<T, CallError>) -> String {
    match r {
        Err(CallError::Kernel(e)) => e.message(),
        Err(CallError::Tensor(_)) => panic!("no tensor should have failed"),
        Ok(_) => panic!("should have been refused"),
    }
}

#[test]
fn element_types_are_numbered() {
    for (dtype, code) in [
        (ElementType::F16, 0),
        (ElementType::BF16, 1),
        (ElementType::F32, 2),
    ] {
        assert_eq!(out_dtype_code(dtype, Op::GatherTurbo4Cache).unwrap(), code);
        assert_eq!(
            io_dtype_code(dtype, Op::PagedAttentionTurbo4).unwrap(),
            code
        );
    }
    assert_eq!(
        message(out_dtype_code(ElementType::F64, Op::GatherPlainKvCache)),
        "gather_plain_kv_cache only supports f16, bf16, f32 output (got F64)"
    );
    assert_eq!(
        message(io_dtype_code(ElementType::U8, Op::PagedAttentionTurbo4)),
        "paged_attention_turbo4 only supports f16, bf16, f32 (got U8)"
    );
    assert!(reads_table(ElementType::I32) && reads_table(ElementType::U32));
    assert!(!reads_table(ElementType::I64));
}

#[test]
fn tables_hold_32_bit_integers() {
    let check = validate_block_table_and_cu_seq_lens;
    assert!(check(ElementType::I32, ElementType::U32, Op::GatherTurbo4Cache).is_ok());
    assert_eq!(
        message(check(
            ElementType::I64,
            ElementType::U8,
            Op::GatherTurbo4Cache
        )),
        "gather_turbo4_cache expects i32/u32 block_table (got I64)"
    );
    assert_eq!(
        message(check(
            ElementType::U32,
            ElementType::U8,
            Op::GatherPlainKvCache
        )),
        "gather_plain_kv_cache expects i32/u32 cu_seq_lens (got U8)"
    );
}

#[test]
fn packed_gather_is_planned() {
    let cache = on_cuda(ElementType::U8, &[7, 32, 4, 2, 66]);
    let lens = on_cuda(ElementType::I32, &[4]);
    let plan = plan_gather_turbo4(&cache, ElementType::U32, &lens, 50, ElementType::BF16).unwrap();
    assert_eq!(
        plan,
        GatherPlan {
            num_tokens: 50,
            num_tokens_i32: 50,
            num_seqs_i32: 3,
            block_size: 32,
            kv_heads: 4,
            head_size: 256,
            head_units: 2,
            out_dtype: ElementType::BF16,
            out_dtype_code: 1,
        }
    );
    let table = on_cuda(ElementType::U32, &[3, 9]);
    assert_eq!(
        gather_launch(plan, DeviceKind::Cuda, DeviceKind::Cuda, &table, DeviceKind::Cuda).unwrap(),
        GatherLaunch {
            num_tokens: 50,
            num_seqs: 3,
            block_size: 32,
            block_table_stride: 9,
            kv_heads: 4,
            head_units: 2,
            out_dtype_code: 1,
        }
    );
}

#[test]
fn plain_gather_is_planned() {
    let cache = on_cuda(ElementType::F32, &[7, 16, 4, 96]);
    let lens = on_cuda(ElementType::U32, &[1]);
    let plan = plan_gather_plain(&cache, ElementType::I32, &lens, 0).unwrap();
    assert_eq!(
        plan,
        GatherPlan {
            num_tokens: 0,
            num_tokens_i32: 0,
            num_seqs_i32: 0,
            block_size: 16,
            kv_heads: 4,
            head_size: 96,
            head_units: 96,
            out_dtype: ElementType::F32,
            out_dtype_code: 2,
        }
    );
}

#[test]
fn packed_gather_is_refused() {
    let cache = on_cuda(ElementType::U8, &[7, 32, 4, 2, 66]);
    let lens = on_cuda(ElementType::I32, &[4]);
    let plan = |cache: &TensorMeta, lens: &TensorMeta, tokens: usize, out: ElementType| {
        plan_gather_turbo4(cache, ElementType::U32, lens, tokens, out)
    };
    assert_eq!(
        message(plan(
            &on_cuda(ElementType::F16, &[1]),
            &lens,
            1,
            ElementType::F16
        )),
        "gather_turbo4_cache expects a u8 packed cache, got F16"
    );
    assert_eq!(
        message(plan(
            &on_cuda(ElementType::U8, &[7, 32, 4, 66]),
            &lens,
            1,
            ElementType::F16
        )),
        "unexpected rank, expected: 5, got: 4 ([7, 32, 4, 66])"
    );
    assert_eq!(
        message(plan(
            &on_cuda(ElementType::U8, &[7, 32, 4, 2, 64]),
            &lens,
            1,
            ElementType::F16
        )),
        "gather_turbo4_cache expects last dim 66, got 64"
    );
    assert_eq!(
        message(plan(
            &cache,
            &on_cuda(ElementType::I32, &[2, 2]),
            1,
            ElementType::F16
        )),
        "unexpected rank, expected: 1, got: 2 ([2, 2])"
    );
    assert_eq!(
        message(plan(
            &cache,
            &on_cuda(ElementType::I32, &[0]),
            1,
            ElementType::F16
        )),
        "cu_seq_lens must contain an initial offset"
    );
    assert_eq!(
        message(plan(&cache, &lens, 1 << 31, ElementType::F16)),
        "num_tokens exceeds the kernel i32 limit"
    );
    assert_eq!(
        message(plan(
            &cache,
            &on_cuda(ElementType::I32, &[(1 << 31) + 1]),
            1,
            ElementType::F16
        )),
        "num_seqs exceeds the kernel i32 limit"
    );
    assert!(plan(
        &cache,
        &on_cuda(ElementType::I32, &[1 << 31]),
        (1 << 31) - 1,
        ElementType::F16
    )
    .is_ok());
    assert_eq!(
        refusal(plan(&cache, &lens, 1, ElementType::U8)),
        Refusal::OutDType {
            op: Op::GatherTurbo4Cache,
            dtype: ElementType::U8
        }
    );
}

#[test]
fn plain_gather_is_refused() {
    let lens = on_cuda(ElementType::I32, &[4]);
    assert_eq!(
        refusal(plan_gather_plain(
            &on_cuda(ElementType::U8, &[1]),
            ElementType::F32,
            &lens,
            1
        )),
        Refusal::OutDType {
            op: Op::GatherPlainKvCache,
            dtype: ElementType::U8
        }
    );
    assert_eq!(
        message(plan_gather_plain(
            &on_cuda(ElementType::F16, &[1, 2, 3, 4, 5]),
            ElementType::U32,
            &lens,
            1
        )),
        "unexpected rank, expected: 4, got: 5 ([1, 2, 3, 4, 5])"
    );
}

#[test]
fn gather_tensors_must_be_on_cuda() {
    let cache = on_cuda(ElementType::U8, &[7, 32, 4, 2, 66]);
    let lens = on_cuda(ElementType::I32, &[4]);
    let plan = plan_gather_turbo4(&cache, ElementType::U32, &lens, 50, ElementType::F16).unwrap();
    let table = |kind: DeviceKind, dtype: ElementType, dims: &[usize]| TensorMeta {
        dtype,
        dims: dims.to_vec(),
        kind,
    };
    let (cuda, other) = (DeviceKind::Cuda, DeviceKind::Metal);
    let good = table(cuda, ElementType::U32, &[3, 9]);
    assert_eq!(
        message(gather_launch(plan, other, other, &good, other)),
        "cache must be a cuda tensor"
    );
    assert_eq!(
        message(gather_launch(plan, cuda, other, &good, other)),
        "out must be a cuda tensor"
    );
    let away = table(other, ElementType::U32, &[3, 9]);
    assert_eq!(
        message(gather_launch(plan, cuda, cuda, &away, other)),
        "block_table must be a cuda tensor"
    );
    let signed = table(cuda, ElementType::I32, &[3, 9]);
    assert_eq!(
        message(gather_launch(plan, cuda, cuda, &signed, other)),
        "unexpected dtype, expected: U32, got: I32"
    );
    assert_eq!(
        message(gather_launch(plan, cuda, cuda, &good, other)),
        "cu_seq_lens must be a cuda tensor"
    );
    let flat = table(cuda, ElementType::U32, &[27]);
    assert_eq!(
        message(gather_launch(plan, cuda, cuda, &flat, cuda)),
        "unexpected rank, expected: 2, got: 1 ([27])"
    );
}

#[test]
fn packed_gather_without_tokens_needs_no_kernel() {
    let cache = cpu(&[2, 32, 4, 2, 66], DType::U8);
    let table = cpu(&[1, 2], DType::U32);
    let lens = cpu(&[2], DType::U32);
    let got = gather_turbo4_cache(&cache, &table, &lens, 0, ElementType::F16).unwrap();
    assert_eq!(got.out.dims(), &[0, 4, 256]);
    assert_eq!(got.out.dtype(), DType::F16);
    assert!(got.call.is_none());
    assert_eq!(
        call_message(gather_turbo4_cache(
            &cache,
            &table,
            &lens,
            5,
            ElementType::F16
        )),
        "cache must be a cuda tensor"
    );
}

#[test]
fn packed_gather_checks_its_tensors() {
    let cache = cpu(&[2, 32, 4, 2, 66], DType::U8);
    let table = cpu(&[1, 2], DType::U32);
    let lens = cpu(&[2], DType::U32);
    assert_eq!(
        call_message(gather_turbo4_cache(
            &lens,
            &table,
            &lens,
            0,
            ElementType::F16
        )),
        "gather_turbo4_cache expects a u8 packed cache, got U32"
    );
    assert_eq!(
        call_message(gather_turbo4_cache(
            &cache,
            &cpu(&[1, 2], DType::I64),
            &lens,
            0,
            ElementType::F16
        )),
        "gather_turbo4_cache expects i32/u32 block_table (got I64)"
    );
    assert_eq!(
        call_message(gather_turbo4_cache(
            &cache,
            &table,
            &lens,
            0,
            ElementType::F64
        )),
        "gather_turbo4_cache only supports f16, bf16, f32 output (got F64)"
    );
    // Heads that no size can count.
    let endless = cpu(&[0], DType::U8)
        .reshape(&[0, 1, 1, usize::MAX / 100, 66])
        .unwrap();
    assert!(matches!(
        gather_turbo4_cache(&endless, &table, &lens, 0, ElementType::F16),
        Err(CallError::Tensor(TensorError::TooLarge))
    ));
}

#[test]
fn plain_gather_checks_its_tensors() {
    let cache = cpu(&[2, 32, 4, 96], DType::BF16);
    // A table that is not in row-major order.
    let table = cpu(&[2, 3], DType::I32).t().unwrap();
    let lens = cpu(&[4], DType::I32);
    let got = gather_plain_kv_cache(&cache, &table, &lens, 0).unwrap();
    assert_eq!(got.out.dims(), &[0, 4, 96]);
    assert_eq!(got.out.dtype(), DType::BF16);
    assert!(got.call.is_none());
    assert_eq!(
        call_message(gather_plain_kv_cache(&cache, &table, &lens, 9)),
        "cache must be a cuda tensor"
    );
    assert_eq!(
        call_message(gather_plain_kv_cache(&lens, &table, &lens, 9)),
        "gather_plain_kv_cache only supports f16, bf16, f32 output (got I32)"
    );
    assert_eq!(
        call_message(gather_plain_kv_cache(&cache, &table, &cache, 9)),
        "gather_plain_kv_cache expects i32/u32 cu_seq_lens (got BF16)"
    );
}

#[test]
fn sides_are_told_apart() {
    let look = |m: &TensorMeta| classify_side(m, 256, 2, ElementType::F16, Side::Key);
    assert_eq!(
        look(&on_cuda(ElementType::U8, &[7, 32, 4, 2, 66])).unwrap(),
        SideInfo {
            is_turbo: true,
            block_size: 32,
            kv_heads: 4
        }
    );
    assert_eq!(
        look(&on_cuda(ElementType::F16, &[7, 16, 8, 256])).unwrap(),
        SideInfo {
            is_turbo: false,
            block_size: 16,
            kv_heads: 8
        }
    );
    assert_eq!(
        message(look(&on_cuda(ElementType::U8, &[7, 32, 4, 66]))),
        "unexpected rank, expected: 5, got: 4 ([7, 32, 4, 66])"
    );
    assert_eq!(
        message(look(&on_cuda(ElementType::U8, &[7, 32, 4, 1, 66]))),
        "paged_attention_turbo4: key turbo cache shape [7, 32, 4, 1, 66] does not match groups_per_head=2"
    );
    assert_eq!(
        message(look(&on_cuda(ElementType::U8, &[7, 32, 4, 2, 65]))),
        "paged_attention_turbo4: key turbo cache shape [7, 32, 4, 2, 65] does not match groups_per_head=2"
    );
    assert_eq!(
        message(look(&on_cuda(ElementType::F32, &[7, 16, 8, 256]))),
        "paged_attention_turbo4: key plain cache dtype F32 does not match query dtype F16"
    );
    assert_eq!(
        message(look(&on_cuda(ElementType::F16, &[7, 16, 8]))),
        "unexpected rank, expected: 4, got: 3 ([7, 16, 8])"
    );
    assert_eq!(
        message(classify_side(
            &on_cuda(ElementType::F16, &[7, 16, 8, 128]),
            256,
            2,
            ElementType::F16,
            Side::Value
        )),
        "paged_attention_turbo4: value plain cache head_size 128 does not match query head_size 256"
    );
}

#[test]
fn decode_is_planned() {
    let query = on_cuda(ElementType::BF16, &[3, 16, 256]);
    let key = on_cuda(ElementType::BF16, &[7, 32, 4, 256]);
    let value = on_cuda(ElementType::U8, &[7, 32, 4, 2, 66]);
    let table = on_cuda(ElementType::U32, &[3, 9]);
    let lens = on_cuda(ElementType::U32, &[3]);
    let plan = plan_decode(&query, &key, &value, &table, &lens).unwrap();
    assert_eq!(plan.max_num_blocks_per_seq, 9);
    assert_eq!(plan.heads.groups_per_head, 2);
    let cuda = DeviceKind::Cuda;
    assert_eq!(
        decode_launch(plan, cuda, cuda, cuda, cuda, &table, &lens).unwrap(),
        DecodeLaunch {
            key_is_turbo: 0,
            value_is_turbo: 1,
            num_seqs: 3,
            num_heads: 16,
            num_kv_heads: 4,
            head_size: 256,
            groups_per_head: 2,
            block_size: 32,
            max_num_blocks_per_seq: 9,
            io_dtype_code: 1,
        }
    );
}

#[test]
fn decode_is_refused() {
    let query = on_cuda(ElementType::F16, &[3, 16, 128]);
    let packed = on_cuda(ElementType::U8, &[7, 32, 4, 1, 66]);
    let table = on_cuda(ElementType::U32, &[3, 9]);
    let lens = on_cuda(ElementType::U32, &[3]);
    let ask = |q: &TensorMeta, k: &TensorMeta, v: &TensorMeta, t: &TensorMeta, l: &TensorMeta| {
        message(plan_decode(q, k, v, t, l))
    };
    assert_eq!(
        ask(&packed, &packed, &packed, &table, &lens),
        "paged_attention_turbo4 only supports f16, bf16, f32 (got U8)"
    );
    let flat = on_cuda(ElementType::F16, &[3, 2048]);
    assert_eq!(
        ask(&flat, &packed, &packed, &table, &lens),
        "unexpected rank, expected: 3, got: 2 ([3, 2048])"
    );
    let odd = on_cuda(ElementType::F16, &[3, 16, 96]);
    assert_eq!(
        ask(&odd, &packed, &packed, &table, &lens),
        "paged_attention_turbo4 requires head_size (96) to be a multiple of 128"
    );
    let long = on_cuda(ElementType::F16, &[3, 16, 640]);
    assert_eq!(
        ask(&long, &packed, &packed, &table, &lens),
        "paged_attention_turbo4: head_size 640 implies groups_per_head 5 > 4, unsupported"
    );
    let other = on_cuda(ElementType::U8, &[7, 16, 4, 1, 66]);
    assert_eq!(
        ask(&query, &packed, &other, &table, &lens),
        "paged_attention_turbo4: key/value block_size mismatch (32 vs 16)"
    );
    let other = on_cuda(ElementType::U8, &[7, 32, 2, 1, 66]);
    assert_eq!(
        ask(&query, &packed, &other, &table, &lens),
        "paged_attention_turbo4: key/value kv_heads mismatch (4 vs 2)"
    );
    let uneven = on_cuda(ElementType::U8, &[7, 32, 5, 1, 66]);
    assert_eq!(
        ask(&query, &uneven, &uneven, &table, &lens),
        "paged_attention_turbo4: num_heads (16) is not a multiple of num_kv_heads (5)"
    );
    let none = on_cuda(ElementType::U8, &[7, 32, 0, 1, 66]);
    assert_eq!(
        ask(&query, &none, &none, &table, &lens),
        "paged_attention_turbo4: num_heads (16) is not a multiple of num_kv_heads (0)"
    );
    let wrong = on_cuda(ElementType::F32, &[3, 9]);
    assert_eq!(
        ask(&query, &packed, &packed, &wrong, &lens),
        "paged_attention_turbo4 expects i32/u32 block_table (got F32)"
    );
    let wrong = on_cuda(ElementType::I32, &[27]);
    assert_eq!(
        ask(&query, &packed, &packed, &wrong, &lens),
        "unexpected rank, expected: 2, got: 1 ([27])"
    );
    let wrong = on_cuda(ElementType::I32, &[2, 9]);
    assert_eq!(
        ask(&query, &packed, &packed, &wrong, &lens),
        "paged_attention_turbo4: block_table rows (2) do not match num_seqs (3)"
    );
    let wrong = on_cuda(ElementType::I32, &[3, 257]);
    assert_eq!(
        ask(&query, &packed, &packed, &wrong, &lens),
        "paged_attention_turbo4: capacity 8224 exceeds MAX_FUSED_DECODE_CONTEXT_TOKENS (8192); caller should fall back to the gather+Sdpa path"
    );
    let most = on_cuda(ElementType::I32, &[3, MAX_FUSED_DECODE_CONTEXT_TOKENS / 32]);
    assert!(plan_decode(&query, &packed, &packed, &most, &lens).is_ok());
    let wrong = on_cuda(ElementType::U8, &[3]);
    assert_eq!(
        ask(&query, &packed, &packed, &table, &wrong),
        "paged_attention_turbo4 expects i32/u32 context_lens (got U8)"
    );
    let wrong = on_cuda(ElementType::I32, &[3, 1]);
    assert_eq!(
        ask(&query, &packed, &packed, &table, &wrong),
        "unexpected rank, expected: 1, got: 2 ([3, 1])"
    );
    let wrong = on_cuda(ElementType::I32, &[4]);
    assert_eq!(
        ask(&query, &packed, &packed, &table, &wrong),
        "paged_attention_turbo4: context_lens length does not match num_seqs"
    );
}

#[test]
fn rank_messages_are_those_of_candle() {
    let t = cpu(&[7, 32, 4, 66], DType::U8);
    let own = message(classify_side(&meta(&t), 128, 1, ElementType::F16, Side::Key));
    assert!(t.dims5().unwrap_err().to_string().starts_with(&own));
}

#[test]
fn operands_are_looked_at_in_order() {
    let operand = |role: Role, kind: DeviceKind, table: Option<ElementType>| Operand {
        role,
        kind,
        unsigned_table: table,
    };
    let cuda = DeviceKind::Cuda;
    let good = vec![
        operand(Role::Query, cuda, None),
        operand(Role::BlockTable, cuda, Some(ElementType::U32)),
    ];
    assert_eq!(check_operands(&good), None);
    assert_eq!(check_operands(&vec![]), None);
    let roles = [
        (Role::Cache, "cache"),
        (Role::Out, "out"),
        (Role::BlockTable, "block_table"),
        (Role::CuSeqLens, "cu_seq_lens"),
        (Role::Query, "query"),
        (Role::KeyCache, "key cache"),
        (Role::ValueCache, "value cache"),
        (Role::ContextLens, "context_lens"),
    ];
    for (role, name) in roles {
        let mut bad = good.clone();
        bad.push(operand(role, DeviceKind::Cpu, Some(ElementType::I32)));
        bad.push(operand(Role::Query, DeviceKind::Metal, None));
        let found = check_operands(&bad).unwrap();
        assert_eq!(found, Refusal::NotCuda { role });
        assert_eq!(found.message(), format!("{name} must be a cuda tensor"));
    }
    let signed = vec![operand(Role::ContextLens, cuda, Some(ElementType::I32))];
    assert_eq!(
        check_operands(&signed),
        Some(Refusal::TableSlice {
            dtype: ElementType::I32
        })
    );
}

#[test]
fn decode_without_sequences_needs_no_kernel() {
    let query = cpu(&[0, 16, 128], DType::F32);
    let key = cpu(&[2, 32, 4, 128], DType::F32);
    let value = cpu(&[2, 32, 4, 1, 66], DType::U8);
    let table = cpu(&[0, 8], DType::I32);
    let lens = cpu(&[0], DType::I32);
    let got = paged_attention_turbo4(&query, &key, &value, &table, &lens).unwrap();
    assert_eq!(got.out.dims(), &[0, 16, 128]);
    assert_eq!(got.out.dtype(), DType::F32);
    assert!(got.call.is_none());
}

#[test]
fn decode_checks_its_tensors() {
    let query = cpu(&[3, 16, 128], DType::F32);
    let key = cpu(&[2, 32, 4, 128], DType::F32);
    let value = cpu(&[2, 32, 4, 1, 66], DType::U8);
    let table = cpu(&[3, 8], DType::I32);
    let lens = cpu(&[3], DType::I32);
    assert_eq!(
        call_message(paged_attention_turbo4(&query, &key, &value, &table, &lens)),
        "query must be a cuda tensor"
    );
    assert_eq!(
        call_message(paged_attention_turbo4(&table, &key, &value, &table, &lens)),
        "paged_attention_turbo4 only supports f16, bf16, f32 (got I32)"
    );
    assert_eq!(
        call_message(paged_attention_turbo4(&query, &key, &key, &lens, &lens)),
        "unexpected rank, expected: 2, got: 1 ([3])"
    );
    assert_eq!(
        call_message(paged_attention_turbo4(&query, &key, &key, &table, &query)),
        "paged_attention_turbo4 expects i32/u32 context_lens (got F32)"
    );
    // Blocks whose tokens no size can count.
    let none = cpu(&[0, 16, 128], DType::F32);
    let endless = cpu(&[0], DType::F32)
        .reshape(&[0, usize::MAX / 1024, 4, 128])
        .unwrap();
    let rows = cpu(&[0, 2048], DType::U32);
    assert!(matches!(
        paged_attention_turbo4(&none, &endless, &endless, &rows, &lens),
        Err(CallError::Tensor(TensorError::TooLarge))
    ));
    let wide = cpu(&[3, 300], DType::U32);
    assert_eq!(
        call_message(paged_attention_turbo4(&query, &key, &value, &wide, &lens)),
        "paged_attention_turbo4: capacity 9600 exceeds MAX_FUSED_DECODE_CONTEXT_TOKENS (8192); caller should fall back to the gather+Sdpa path"
    );
}

#[test]
fn kernels_take_the_caches_of_an_engine() {
    let mut model = ModelConfigMetadata {
        max_seq_len: 4096,
        num_layers: 9,
        hidden_size: 1024,
        num_kv_heads: 4,
        num_attn_heads: 24,
        sliding_window: None,
        k_head_dim: 256,
        v_head_dim: 256,
        kv_cache_layout: KvCacheLayout::FlashInferHnd,
    };
    let config = CacheConfig {
        block_size: 16,
        num_gpu_blocks: 2,
        cache_type: PagedCacheType::Turbo4,
        kv_cache_group_ids: vec![0],
    };
    let backend = Backend {
        cuda: false,
        metal: false,
        use_fp8: false,
    };
    for heads in [16, 24] {
        model.num_attn_heads = heads;
        let engine = CacheEngine::new(
            &model,
            &config,
            ElementType::F16,
            &CacheDevice {
                handle: Device::Cpu,
                compute_major: None,
            },
            (0..9).map(|_| None).collect(),
            backend,
            Turbo4Settings {
                auto_asymmetric_disabled: false,
                adaptive_mode: 2,
            },
        )
        .unwrap();
        let table = cpu(&[3, 8], DType::U32);
        let lens = cpu(&[4], DType::U32);
        for (i, (key, value)) in engine.get_kv_cache().iter().enumerate() {
            // All layers but the first lie at the boundary.
            let packed = [i == 0 && heads == 16, i == 0];
            for (side, packed) in [key, value].into_iter().zip(packed) {
                let out = if packed {
                    gather_turbo4_cache(side, &table, &lens, 0, ElementType::F16)
                } else {
                    gather_plain_kv_cache(side, &table, &lens, 0)
                };
                let out = out.unwrap().out;
                assert_eq!(out.dims(), &[0, 4, 256]);
                assert_eq!(out.dtype(), DType::F16);
            }
            let query = cpu(&[3, heads, 256], DType::F16);
            let seen = plan_decode(
                &meta(&query),
                &meta(key),
                &meta(value),
                &meta(&table),
                &on_cuda(ElementType::U32, &[3]),
            )
            .unwrap();
            assert_eq!([seen.heads.key.is_turbo, seen.heads.value.is_turbo], packed);
            assert_eq!(seen.heads.key.block_size, 16);
            assert_eq!(seen.heads.value.kv_heads, 4);
        }
    }
}
