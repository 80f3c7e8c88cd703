use candle_core::{DType, Device, Tensor};
use turbo_kv_cache::tensor::{
    contiguous, element_type, kind_of, meta, shape, tensor_fits, zeros, zeros_beside, DeviceKind, ElementType,
    TensorError,
};
use turbo_kv_cache::text::{append_decimal, decimal_text, same_text, size_list_text};

const ALL: [(ElementType, DType); 14] = [
    (ElementType::U8, DType::U8),
    (ElementType::U32, DType::U32),
    (ElementType::I16, DType::I16),
    (ElementType::I32, DType::I32),
    (ElementType::I64, DType::I64),
    (ElementType::BF16, DType::BF16),
    (ElementType::F16, DType::F16),
    (ElementType::F32, DType::F32),
    (ElementType::F64, DType::F64),
    (ElementType::F8E4M3, DType::F8E4M3),
    (ElementType::F6E2M3, DType::F6E2M3),
    (ElementType::F6E3M2, DType::F6E3M2),
    (ElementType::F4, DType::F4),
    (ElementType::F8E8M0, DType::F8E8M0),
];

#[test]
fn element_types_are_those_of_candle() {
    let sizes = [1, 4, 2, 4, 8, 2, 2, 4, 8, 1, 0, 0, 0, 1];
    for (i, (own, candle)) in ALL.iter().enumerate() {
        assert_eq!(element_type(*candle), *own);
        assert_eq!(own.name(), format!("{candle:?}"));
        assert_eq!(own.size_in_bytes(), sizes[i]);
        assert_eq!(own.size_in_bytes(), candle.size_in_bytes());
    }
}

#[test]
fn cpu_memory_holds_most_element_types() {
    for (i, (own, candle)) in ALL.iter().enumerate() {
        let made = zeros(&vec![2, 3], *own, &Device::Cpu);
        if i < 10 {
            let t = made.unwrap();
            assert_eq!(t.dtype(), *candle);
            assert_eq!(t.dims(), &[2, 3]);
            assert_eq!(shape(&t).dtype, *own);
            assert_eq!(meta(&t).dtype, *own);
            assert!(contiguous(&t.t().unwrap()).is_ok());
        } else {
            assert!(matches!(made, Err(TensorError::Candle(_))));
        }
    }
}

#[test]
fn tensors_describe_themselves() {
    let t = Tensor::zeros((4, 0, 5), DType::I64, &Device::Cpu).unwrap();
    let m = meta(&t);
    assert_eq!(m.dims, vec![4, 0, 5]);
    assert_eq!(m.dtype, ElementType::I64);
    assert_eq!(m.kind, DeviceKind::Cpu);
    assert_eq!(shape(&t).dims, vec![4, 0, 5]);
    let scalar = Tensor::zeros((), DType::U8, &Device::Cpu).unwrap();
    assert_eq!(meta(&scalar).dims, Vec::<usize>::new());
}

#[test]
fn zeros_are_zero() {
    let t = zeros(&vec![2, 2], ElementType::F32, &Device::Cpu).unwrap();
    assert_eq!(t.to_vec2::<f32>().unwrap(), vec![vec![0.0; 2]; 2]);
    let beside = zeros_beside(&vec![3], ElementType::U32, &t).unwrap();
    assert_eq!(beside.to_vec1::<u32>().unwrap(), vec![0; 3]);
    assert!(beside.device().is_cpu());
    assert!(t.is_contiguous());
    // A tensor of its own, even where it looks the same.
    let twin = zeros_beside(&vec![2, 2], ElementType::F32, &t).unwrap();
    assert!(twin.id() != t.id());
}

#[test]
fn devices_without_a_driver_fail() {
    let cuda = Device::Cuda(candle_core::CudaDevice);
    assert_eq!(kind_of(&cuda), DeviceKind::Cuda);
    assert_eq!(
        kind_of(&Device::Metal(candle_core::MetalDevice)),
        DeviceKind::Metal
    );
    assert_eq!(kind_of(&Device::Cpu), DeviceKind::Cpu);
    assert!(matches!(
        zeros(&vec![1], ElementType::F32, &cuda),
        Err(TensorError::Candle(_))
    ));
}

#[test]
fn contiguous_copies_into_row_major_order() {
    let t = Tensor::new(&[[1u32, 2, 3], [4, 5, 6]], &Device::Cpu).unwrap();
    let flipped = t.t().unwrap();
    assert!(!flipped.is_contiguous());
    let c = contiguous(&flipped).unwrap();
    assert!(c.is_contiguous());
    assert_eq!(c.dims(), &[3, 2]);
    assert_eq!(
        c.to_vec2::<u32>().unwrap(),
        vec![vec![1, 4], vec![2, 5], vec![3, 6]]
    );
    assert!(c.id() != flipped.id());
    // Nothing is copied where the order is right already.
    assert!(contiguous(&t).unwrap().id() == t.id());
}

#[test]
fn tensors_must_fit_into_the_address_space() {
    assert!(tensor_fits(&vec![], ElementType::F64));
    assert!(tensor_fits(&vec![1024, 1024, 1024], ElementType::F32));
    assert!(tensor_fits(&vec![isize::MAX as usize], ElementType::U8));
    assert!(!tensor_fits(&vec![isize::MAX as usize], ElementType::F16));
    assert!(tensor_fits(&vec![usize::MAX], ElementType::F4));
    assert!(!tensor_fits(&vec![usize::MAX, 2], ElementType::F4));
    assert!(!tensor_fits(&vec![usize::MAX, 2, 0], ElementType::U8));
    assert!(!tensor_fits(&vec![0, usize::MAX, 2], ElementType::U8));
    assert!(matches!(
        zeros(&vec![usize::MAX, 2], ElementType::U8, &Device::Cpu),
        Err(TensorError::TooLarge)
    ));
}

#[test]
fn empty_tensors_may_have_large_dimensions() {
    assert!(tensor_fits(&vec![0, usize::MAX], ElementType::F64));
    let t = zeros(&vec![0, usize::MAX], ElementType::U8, &Device::Cpu).unwrap();
    assert_eq!(t.dims(), &[0, usize::MAX]);
    let c = contiguous(&t.t().unwrap()).unwrap();
    assert_eq!(c.dims(), &[usize::MAX, 0]);
    assert!(c.is_contiguous());
}

#[test]
fn numbers_are_written_out() {
    for n in [0, 7, 10, 66, 128, 8192, usize::MAX] {
        assert_eq!(decimal_text(n), n.to_string());
        let mut s = "n=".to_string();
        append_decimal(&mut s, n);
        assert_eq!(s, format!("n={n}"));
    }
    assert_eq!(size_list_text(&vec![]), "[]");
    assert_eq!(size_list_text(&vec![3]), "[3]");
    assert_eq!(size_list_text(&vec![3, 32, 4]), "[3, 32, 4]");
    assert!(same_text("auto", "auto"));
    assert!(!same_text("auto", "autos"));
}
