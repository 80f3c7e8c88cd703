//! Tensors, element types and devices: the plain values that the library reasons about, and the
//! calls that make and read `candle_core` tensors.
use vstd::prelude::*;

verus! {

/// `candle_core::Tensor`.
#[verifier::external_type_specification]
#[verifier::external_body]
pub struct ExTensor(candle_core::Tensor);

/// `candle_core::Device`.
#[verifier::external_type_specification]
#[verifier::external_body]
pub struct ExDevice(candle_core::Device);

/// `candle_core::DType`.
#[verifier::external_type_specification]
#[verifier::external_body]
pub struct ExDType(candle_core::DType);

/// `candle_core::Error`.
#[verifier::external_type_specification]
#[verifier::external_body]
pub struct ExError(candle_core::Error);

/// The element type of a tensor.
#[derive(Clone, Copy, Debug, PartialEq, Eq, Structural)]
pub enum ElementType {
    U8,
    U32,
    I16,
    I32,
    I64,
    BF16,
    F16,
    F32,
    F64,
    F8E4M3,
    F6E2M3,
    F6E3M2,
    F4,
    F8E8M0,
}

/// The family of a compute device.
#[derive(Clone, Copy, Debug, PartialEq, Eq, Structural)]
pub enum DeviceKind {
    Cpu,
    Cuda,
    Metal,
}

/// The element type and the dimensions of a tensor.
#[derive(Clone, Debug)]
pub struct TensorShape {
    pub dtype: ElementType,
    pub dims: Vec<usize>,
}

/// What a [`TensorShape`] says.
#[verifier::ext_equal]
pub struct ShapeView {
    pub dtype: ElementType,
    pub dims: Seq<usize>,
}

impl View for TensorShape {
    type V = ShapeView;

    open spec fn view(&self) -> ShapeView {
        ShapeView { dtype: self.dtype, dims: self.dims@ }
    }
}

/// What the kernels check of a tensor: its element type, its dimensions and where it lives.
#[derive(Clone, Debug)]
pub struct TensorMeta {
    pub dtype: ElementType,
    pub dims: Vec<usize>,
    pub kind: DeviceKind,
}

/// What a [`TensorMeta`] says.
#[verifier::ext_equal]
pub struct MetaView {
    pub dtype: ElementType,
    pub dims: Seq<usize>,
    pub kind: DeviceKind,
}

impl View for TensorMeta {
    type V = MetaView;

    open spec fn view(&self) -> MetaView {
        MetaView { dtype: self.dtype, dims: self.dims@, kind: self.kind }
    }
}

/// Why a tensor could not be made.
#[derive(Debug)]
pub enum TensorError {
    /// The tensor would span more bytes than the address space holds.
    TooLarge,
    /// What candle reported.
    Candle(candle_core::Error),
}

/// The number of bytes of one element. Sub-byte types report zero.
pub open spec fn dtype_size(d: ElementType) -> nat {
    match d {
        ElementType::U8 | ElementType::F8E4M3 | ElementType::F8E8M0 => 1,
        ElementType::I16 | ElementType::BF16 | ElementType::F16 => 2,
        ElementType::U32 | ElementType::I32 | ElementType::F32 => 4,
        ElementType::I64 | ElementType::F64 => 8,
        ElementType::F6E2M3 | ElementType::F6E3M2 | ElementType::F4 => 0,
    }
}

/// Whether CPU memory can hold elements of this type.
pub open spec fn cpu_holds(d: ElementType) -> bool {
    !(d is F6E2M3 || d is F6E3M2 || d is F4 || d is F8E8M0)
}

/// The name of an element type in debug notation.
pub open spec fn dtype_name(d: ElementType) -> Seq<char> {
    match d {
        ElementType::U8 => "U8"@,
        ElementType::U32 => "U32"@,
        ElementType::I16 => "I16"@,
        ElementType::I32 => "I32"@,
        ElementType::I64 => "I64"@,
        ElementType::BF16 => "BF16"@,
        ElementType::F16 => "F16"@,
        ElementType::F32 => "F32"@,
        ElementType::F64 => "F64"@,
        ElementType::F8E4M3 => "F8E4M3"@,
        ElementType::F6E2M3 => "F6E2M3"@,
        ElementType::F6E3M2 => "F6E3M2"@,
        ElementType::F4 => "F4"@,
        ElementType::F8E8M0 => "F8E8M0"@,
    }
}

/// The number of elements in a tensor of the given dimensions.
pub open spec fn elements(dims: Seq<usize>) -> nat
    decreases dims.len(),
{
    if dims.len() == 0 {
        1
    } else {
        elements(dims.drop_last()) * dims.last() as nat
    }
}

/// Whether a tensor with these dimensions fits into the address space: its elements, and on the way
/// to their number and to the strides the products of the leading and of the trailing dimensions.
pub open spec fn fits(dims: Seq<usize>, d: ElementType) -> bool {
    &&& forall|i: int| 0 <= i <= dims.len() ==> #[trigger] elements(dims.take(i)) <= usize::MAX
    &&& forall|i: int| 0 <= i <= dims.len() ==> #[trigger] elements(dims.skip(i)) <= usize::MAX
    &&& elements(dims) * dtype_size(d) <= isize::MAX
}

/// The library's name of a candle element type.
pub uninterp spec fn dtype_of(c: candle_core::DType) -> ElementType;

/// The family that a candle device belongs to.
pub uninterp spec fn device_kind(d: candle_core::Device) -> DeviceKind;

/// The dimensions of a candle tensor.
pub uninterp spec fn tensor_dims(t: candle_core::Tensor) -> Seq<usize>;

/// The element type of a candle tensor.
pub uninterp spec fn tensor_dtype(t: candle_core::Tensor) -> ElementType;

/// The family of the device that a candle tensor lives on.
pub uninterp spec fn tensor_kind(t: candle_core::Tensor) -> DeviceKind;

/// Whether a candle tensor is stored in row-major order.
pub uninterp spec fn tensor_row_major(t: candle_core::Tensor) -> bool;

/// The number of a candle device within its family, as `Device::location` has it.
pub uninterp spec fn device_ordinal(d: candle_core::Device) -> nat;

/// The number within its family of the device that a candle tensor lives on.
pub uninterp spec fn tensor_ordinal(t: candle_core::Tensor) -> nat;

/// Whether a candle tensor came out of `Tensor::zeros`, so that each of its elements was zero when
/// it was made.
pub uninterp spec fn born_zeroed(t: candle_core::Tensor) -> bool;

/// Whether `c` is what `Tensor::contiguous` makes of `t`: `t` itself or a row-major copy of it.
pub uninterp spec fn row_major_form(t: candle_core::Tensor, c: candle_core::Tensor) -> bool;

/// What the kernels check of a candle tensor.
pub open spec fn tensor_meta(t: candle_core::Tensor) -> MetaView {
    MetaView { dtype: tensor_dtype(t), dims: tensor_dims(t), kind: tensor_kind(t) }
}

/// The element type and the dimensions of a candle tensor.
pub open spec fn tensor_shape(t: candle_core::Tensor) -> ShapeView {
    ShapeView { dtype: tensor_dtype(t), dims: tensor_dims(t) }
}

/// Whether a candle tensor can be had in row-major order without asking a driver: it is in that
/// order already, or lies in CPU memory.
pub open spec fn has_row_major(t: candle_core::Tensor) -> bool {
    &&& fits(tensor_dims(t), tensor_dtype(t))
    &&& {
        ||| tensor_row_major(t)
        ||| tensor_kind(t) is Cpu && cpu_holds(tensor_dtype(t))
    }
}

/// Whether a tensor was made zeroed and row-major with the given dimensions and element type on the
/// device of the given family and number.
pub open spec fn is_made(
    t: candle_core::Tensor,
    dims: Seq<usize>,
    dtype: ElementType,
    kind: DeviceKind,
    ordinal: nat,
) -> bool {
    &&& tensor_meta(t) == (MetaView { dtype, dims, kind })
    &&& tensor_ordinal(t) == ordinal
    &&& tensor_row_major(t)
    &&& born_zeroed(t)
}

/// Whether `c` is `t` in row-major order, on the same device: `t` itself where it is in that order
/// already.
pub open spec fn is_row_major_of(c: candle_core::Tensor, t: candle_core::Tensor) -> bool {
    &&& row_major_form(t, c)
    &&& tensor_meta(c) == tensor_meta(t)
    &&& tensor_ordinal(c) == tensor_ordinal(t)
    &&& tensor_row_major(c)
    &&& tensor_row_major(t) ==> c == t
}

/// Whether `t` is neither `beside` nor one of the tensors in `before`.
pub open spec fn is_apart(
    t: candle_core::Tensor,
    beside: Option<&candle_core::Tensor>,
    before: Seq<(candle_core::Tensor, candle_core::Tensor)>,
) -> bool {
    &&& beside matches Some(other) ==> t != *other
    &&& forall|i: int|
        0 <= i < before.len() ==> t != (#[trigger] before[i]).0 && t != before[i].1
}

/// Picks the `candle_core::DType` of the same name.
#[verifier::external_body]
fn to_candle_dtype(d: ElementType) -> (c: candle_core::DType)
    ensures
        dtype_of(c) == d,
{
    match d {
        ElementType::U8 => candle_core::DType::U8, ElementType::U32 => candle_core::DType::U32,
        ElementType::I16 => candle_core::DType::I16,
        ElementType::I32 => candle_core::DType::I32,
        ElementType::I64 => candle_core::DType::I64,
        ElementType::BF16 => candle_core::DType::BF16,
        ElementType::F16 => candle_core::DType::F16,
        ElementType::F32 => candle_core::DType::F32,
        ElementType::F64 => candle_core::DType::F64,
        ElementType::F8E4M3 => candle_core::DType::F8E4M3,
        ElementType::F6E2M3 => candle_core::DType::F6E2M3,
        ElementType::F6E3M2 => candle_core::DType::F6E3M2,
        ElementType::F4 => candle_core::DType::F4,
        ElementType::F8E8M0 => candle_core::DType::F8E8M0,
    }
}

/// Tells the variants of `candle_core::DType` apart. The enum is marked as open to growth, so its
/// last variant stands under the wildcard.
#[verifier::external_body]
fn from_candle_dtype(c: candle_core::DType) -> (d: ElementType)
    ensures
        d == dtype_of(c),
{
    match c {
        candle_core::DType::U8 => ElementType::U8, candle_core::DType::U32 => ElementType::U32,
        candle_core::DType::I16 => ElementType::I16,
        candle_core::DType::I32 => ElementType::I32,
        candle_core::DType::I64 => ElementType::I64,
        candle_core::DType::BF16 => ElementType::BF16,
        candle_core::DType::F16 => ElementType::F16,
        candle_core::DType::F32 => ElementType::F32,
        candle_core::DType::F64 => ElementType::F64,
        candle_core::DType::F8E4M3 => ElementType::F8E4M3,
        candle_core::DType::F6E2M3 => ElementType::F6E2M3,
        candle_core::DType::F6E3M2 => ElementType::F6E3M2,
        candle_core::DType::F4 => ElementType::F4,
        _ => ElementType::F8E8M0,
    }
}

/// `DType::size_in_bytes`: a fixed number for each element type.
#[verifier::external_body]
fn candle_size_in_bytes(c: candle_core::DType) -> (r: usize)
    ensures
        r == dtype_size(dtype_of(c)),
{
    c.size_in_bytes()
}

/// Tells the variants of `candle_core::Device` apart.
#[verifier::external_body]
fn candle_device_kind(d: &candle_core::Device) -> (r: DeviceKind)
    ensures
        r == device_kind(*d),
{
    match d {
        candle_core::Device::Cpu => DeviceKind::Cpu,
        candle_core::Device::Cuda(_) => DeviceKind::Cuda,
        candle_core::Device::Metal(_) => DeviceKind::Metal,
    }
}

/// `Tensor::dims`.
#[verifier::external_body]
fn candle_dims(t: &candle_core::Tensor) -> (r: Vec<usize>)
    ensures
        r@ == tensor_dims(*t),
{
    t.dims().to_vec()
}

/// `Tensor::dtype`.
#[verifier::external_body]
fn candle_dtype(t: &candle_core::Tensor) -> (r: candle_core::DType)
    ensures
        dtype_of(r) == tensor_dtype(*t),
{
    t.dtype()
}

/// `Tensor::device`: the device that the tensor was made on.
#[verifier::external_body]
fn candle_device(t: &candle_core::Tensor) -> (r: candle_core::Device)
    ensures
        device_kind(r) == tensor_kind(*t),
        device_ordinal(r) == tensor_ordinal(*t),
{
    t.device().clone()
}

/// `Tensor::zeros`: a row-major tensor of the given dimensions and element type on the given device.
/// Each call makes a tensor of its own, so the result is none of those that exist already, such as
/// `beside` and those in `before`. CPU memory holds every element type but the four that
/// [`cpu_holds`] leaves out, and there the call succeeds; on another device the driver decides. The
/// elements are zero when the tensor is made, which [`born_zeroed`] says; they can change later
/// behind a shared reference, so nothing is said of what they are then.
#[verifier::external_body]
fn candle_zeros(
    dims: &Vec<usize>,
    dtype: candle_core::DType,
    device: &candle_core::Device,
    beside: Option<&candle_core::Tensor>,
    before: &Vec<(candle_core::Tensor, candle_core::Tensor)>,
) -> (r: Result<candle_core::Tensor, candle_core::Error>)
    requires
        fits(dims@, dtype_of(dtype)),
    ensures
        r matches Ok(t) ==> tensor_dims(t) == dims@ && tensor_dtype(t) == dtype_of(dtype)
            && tensor_kind(t) == device_kind(*device) && tensor_ordinal(t) == device_ordinal(
            *device,
        ) && tensor_row_major(t) && born_zeroed(t),
        r matches Ok(t) ==> is_apart(t, beside, before@),
        device_kind(*device) is Cpu ==> (r is Ok <==> cpu_holds(dtype_of(dtype))),
{
    candle_core::Tensor::zeros(dims.as_slice(), dtype, device)
}

/// `Tensor::contiguous`: the same tensor where it is in row-major order already, which cannot fail,
/// and else a copy of it in that order on the same device. In CPU memory copying succeeds for every
/// element type that such memory holds; on another device the driver decides. That the elements
/// are the same is said by the name [`row_major_form`] alone: they can change behind a shared
/// reference, so they are no function of the tensor.
#[verifier::external_body]
fn candle_contiguous(t: &candle_core::Tensor) -> (r: Result<
    candle_core::Tensor,
    candle_core::Error,
>)
    requires
        fits(tensor_dims(*t), tensor_dtype(*t)),
    ensures
        r matches Ok(c) ==> tensor_meta(c) == tensor_meta(*t) && tensor_ordinal(c)
            == tensor_ordinal(*t) && tensor_row_major(c),
        r matches Ok(c) ==> row_major_form(*t, c) && (tensor_row_major(*t) ==> c == *t),
        tensor_row_major(*t) ==> r is Ok,
        tensor_kind(*t) is Cpu && cpu_holds(tensor_dtype(*t)) ==> r is Ok,
{
    t.contiguous()
}

impl ElementType {
    /// The number of bytes of one element. Sub-byte types report zero.
    pub fn size_in_bytes(self) -> (r: usize)
        ensures
            r == dtype_size(self),
    {
        candle_size_in_bytes(to_candle_dtype(self))
    }

    /// The name of the element type in debug notation.
    pub fn name(self) -> (r: &'static str)
        ensures
            r@ == dtype_name(self),
    {
        match self {
            ElementType::U8 => "U8",
            ElementType::U32 => "U32",
            ElementType::I16 => "I16",
            ElementType::I32 => "I32",
            ElementType::I64 => "I64",
            ElementType::BF16 => "BF16",
            ElementType::F16 => "F16",
            ElementType::F32 => "F32",
            ElementType::F64 => "F64",
            ElementType::F8E4M3 => "F8E4M3",
            ElementType::F6E2M3 => "F6E2M3",
            ElementType::F6E3M2 => "F6E3M2",
            ElementType::F4 => "F4",
            ElementType::F8E8M0 => "F8E8M0",
        }
    }
}

/// The number of elements, counted from the first dimension.
pub proof fn lemma_elements_front(dims: Seq<usize>)
    requires
        dims.len() > 0,
    ensures
        elements(dims) == dims[0] * elements(dims.skip(1)),
    decreases dims.len(),
{
    let rest = dims.skip(1);
    if dims.len() == 1 {
        assert(dims.drop_last() =~= Seq::<usize>::empty());
        assert(rest =~= Seq::<usize>::empty());
        assert(elements(Seq::<usize>::empty()) == 1);
        assert(elements(dims) == 1 * dims.last() as nat);
    } else {
        let front = dims.drop_last();
        lemma_elements_front(front);
        assert(front.skip(1) =~= rest.drop_last());
        assert(rest.last() == dims.last());
        assert(elements(dims) == elements(front) * dims.last() as nat);
        assert(elements(rest) == elements(rest.drop_last()) * rest.last() as nat);
        let (a, b, c) = (dims[0] as int, elements(rest.drop_last()) as int, dims.last() as int);
        assert((a * b) * c == a * (b * c)) by (nonlinear_arith);
    }
}

/// Whether a tensor with these dimensions fits into the address space.
pub fn tensor_fits(dims: &Vec<usize>, d: ElementType) -> (r: bool)
    ensures
        r == fits(dims@, d),
{
    let mut leading: usize = 1;
    let mut i: usize = 0;
    while i < dims.len()
        invariant
            i <= dims@.len(),
            leading == elements(dims@.take(i as int)),
            forall|j: int|
                0 <= j <= i ==> #[trigger] elements(dims@.take(j)) <= usize::MAX,
        decreases dims@.len() - i,
    {
        assert(dims@.take(i + 1).drop_last() =~= dims@.take(i as int));
        assert(elements(dims@.take(i + 1)) == leading * dims@[i as int]);
        leading = match leading.checked_mul(dims[i]) {
            Some(n) => n,
            None => {
                return false;
            },
        };
        i += 1;
    }
    assert(dims@.take(dims@.len() as int) =~= dims@);
    let mut trailing: usize = 1;
    assert(dims@.skip(i as int) =~= Seq::<usize>::empty());
    while i > 0
        invariant
            i <= dims@.len(),
            trailing == elements(dims@.skip(i as int)),
            forall|j: int|
                i <= j <= dims@.len() ==> #[trigger] elements(dims@.skip(j)) <= usize::MAX,
        decreases i,
    {
        proof {
            let from = dims@.skip(i - 1);
            lemma_elements_front(from);
            assert(from.skip(1) =~= dims@.skip(i as int));
            assert(elements(from) == dims@[i - 1] * trailing);
        }
        trailing = match dims[i - 1].checked_mul(trailing) {
            Some(n) => n,
            None => {
                return false;
            },
        };
        i -= 1;
    }
    match leading.checked_mul(d.size_in_bytes()) {
        Some(bytes) => bytes <= isize::MAX as usize,
        None => false,
    }
}

/// What the kernels check of a tensor.
pub fn meta(t: &candle_core::Tensor) -> (r: TensorMeta)
    ensures
        r@ == tensor_meta(*t),
{
    let device = candle_device(t);
    TensorMeta {
        dtype: from_candle_dtype(candle_dtype(t)),
        dims: candle_dims(t),
        kind: candle_device_kind(&device),
    }
}

/// The element type and the dimensions of a tensor.
pub fn shape(t: &candle_core::Tensor) -> (r: TensorShape)
    ensures
        r@ == tensor_shape(*t),
{
    TensorShape { dtype: from_candle_dtype(candle_dtype(t)), dims: candle_dims(t) }
}

/// The library's name of a candle element type.
pub fn element_type(dtype: candle_core::DType) -> (r: ElementType)
    ensures
        r == dtype_of(dtype),
{
    from_candle_dtype(dtype)
}

/// The family that a device belongs to.
pub fn kind_of(d: &candle_core::Device) -> (r: DeviceKind)
    ensures
        r == device_kind(*d),
{
    candle_device_kind(d)
}

/// Makes a zeroed tensor that is neither `beside` nor one of those in `before`.
pub fn zeros_apart(
    dims: &Vec<usize>,
    dtype: ElementType,
    device: &candle_core::Device,
    beside: Option<&candle_core::Tensor>,
    before: &Vec<(candle_core::Tensor, candle_core::Tensor)>,
) -> (r: Result<candle_core::Tensor, TensorError>)
    ensures
        !fits(dims@, dtype) <==> (r matches Err(e) && e is TooLarge),
        r matches Ok(t) ==> is_made(t, dims@, dtype, device_kind(*device), device_ordinal(*device)),
        r matches Ok(t) ==> is_apart(t, beside, before@),
        fits(dims@, dtype) && device_kind(*device) is Cpu ==> (r is Ok <==> cpu_holds(dtype)),
{
    if !tensor_fits(dims, dtype) {
        return Err(TensorError::TooLarge);
    }
    match candle_zeros(dims, to_candle_dtype(dtype), device, beside, before) {
        Ok(t) => Ok(t),
        Err(e) => Err(TensorError::Candle(e)),
    }
}

/// Makes a zeroed tensor.
pub fn zeros(dims: &Vec<usize>, dtype: ElementType, device: &candle_core::Device) -> (r: Result<
    candle_core::Tensor,
    TensorError,
>)
    ensures
        !fits(dims@, dtype) <==> (r matches Err(e) && e is TooLarge),
        r matches Ok(t) ==> is_made(t, dims@, dtype, device_kind(*device), device_ordinal(*device)),
        fits(dims@, dtype) && device_kind(*device) is Cpu ==> (r is Ok <==> cpu_holds(dtype)),
{
    zeros_apart(dims, dtype, device, None, &Vec::new())
}

/// Makes another zeroed tensor on the device of a tensor.
pub fn zeros_beside(dims: &Vec<usize>, dtype: ElementType, other: &candle_core::Tensor) -> (r: Result<
    candle_core::Tensor,
    TensorError,
>)
    ensures
        !fits(dims@, dtype) <==> (r matches Err(e) && e is TooLarge),
        r matches Ok(t) ==> is_made(t, dims@, dtype, tensor_kind(*other), tensor_ordinal(*other)),
        r matches Ok(t) ==> t != *other,
        fits(dims@, dtype) && tensor_kind(*other) is Cpu ==> (r is Ok <==> cpu_holds(dtype)),
{
    let device = candle_device(other);
    zeros_apart(dims, dtype, &device, Some(other), &Vec::new())
}

/// The given tensor in row-major order.
pub fn contiguous(t: &candle_core::Tensor) -> (r: Result<candle_core::Tensor, TensorError>)
    ensures
        !fits(tensor_dims(*t), tensor_dtype(*t)) <==> (r matches Err(e) && e is TooLarge),
        r matches Ok(c) ==> is_row_major_of(c, *t),
        has_row_major(*t) ==> r is Ok,
{
    let m = shape(t);
    if !tensor_fits(&m.dims, m.dtype) {
        return Err(TensorError::TooLarge);
    }
    match candle_contiguous(t) {
        Ok(c) => Ok(c),
        Err(e) => Err(TensorError::Candle(e)),
    }
}

} // verus!
