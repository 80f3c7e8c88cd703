//! The paged key/value cache of a model: how the tensors of each layer are laid out, and the
//! engine that makes and holds them.
use crate::cache_type::{
    Backend, CacheTypeError, DeviceInfo, PagedCacheType, Turbo4LayerPlan, Turbo4Settings,
    is_multiple_of, layer_device, layer_plan, multiple_of, turbo4_layer_plan,
};
use crate::model::{KvCacheLayout, LayerConfig, ModelConfigLike};
use crate::tensor::{
    DeviceKind, ElementType, ShapeView, TensorError, TensorShape, cpu_holds, device_kind,
    device_ordinal, dtype_size, fits, is_made, kind_of, shape, tensor_shape, zeros_apart,
};
use crate::turbo_quant::{BLOCK_TURBO4_BYTES, GROUP};
use vstd::prelude::*;

verus! {

/// How large a cache is, and what it holds.
#[derive(Clone, Debug)]
pub struct CacheConfig {
    pub block_size: usize,
    pub num_gpu_blocks: usize,
    pub cache_type: PagedCacheType,
    pub kv_cache_group_ids: Vec<u32>,
}

/// The key blocks and the value blocks of a layer.
pub type KVCache = (candle_core::Tensor, candle_core::Tensor);

/// A device that tensors are made on.
#[derive(Debug)]
pub struct CacheDevice {
    pub handle: candle_core::Device,
    /// The major compute capability that the CUDA driver reports, where it reports one.
    pub compute_major: Option<i32>,
}

/// The shapes of the key blocks and the value blocks of a layer.
#[derive(Clone, Debug)]
pub struct LayerShapes {
    pub key: TensorShape,
    pub value: TensorShape,
}

/// What a [`LayerShapes`] says.
#[verifier::ext_equal]
pub struct LayerShapesView {
    pub key: ShapeView,
    pub value: ShapeView,
}

impl View for LayerShapes {
    type V = LayerShapesView;

    open spec fn view(&self) -> LayerShapesView {
        LayerShapesView { key: self.key@, value: self.value@ }
    }
}

/// Why a cache could not be made.
#[derive(Debug)]
pub enum CacheError {
    /// The cache format does not suit the model. The message says why.
    Invalid(String),
    /// The standard layout splits keys into whole elements, and the elements are smaller than a
    /// byte.
    SubByteElements,
    /// A tensor could not be made.
    Tensor(TensorError),
}

/// What the prefill kernel is asked about a layer.
#[derive(Clone, Copy, Debug, PartialEq, Eq, Structural)]
pub struct Fa3PrefillProbe {
    pub q_heads: usize,
    pub kv_heads: usize,
    pub head_dim: usize,
    pub block_size: usize,
}

/// The head dimension that the prefill kernel handles.
pub const FA3_HEAD_DIM: usize = 256;

/// The tensors of the model, one pair for each layer.
pub struct CacheEngine {
    fa3_prefill_num_sm_by_layer: Vec<Option<usize>>,
    gpu_cache: Vec<KVCache>,
}

impl CacheDevice {
    /// What the choice of a cache format asks of the device: its family and its capability. Which
    /// device of the family it is plays no part there.
    pub open spec fn described(self) -> DeviceInfo {
        DeviceInfo { kind: device_kind(self.handle), compute_major: self.compute_major }
    }

    /// What the choice of a cache format asks of the device.
    pub fn info(&self) -> (r: DeviceInfo)
        ensures
            r == self.described(),
    {
        DeviceInfo { kind: kind_of(&self.handle), compute_major: self.compute_major }
    }
}

/// What is known of the devices that layers have of their own.
pub open spec fn described_all(devices: Seq<Option<CacheDevice>>) -> Seq<Option<DeviceInfo>> {
    devices.map_values(
        |d: Option<CacheDevice>|
            match d {
                Some(d) => Some(d.described()),
                None => None,
            },
    )
}

/// The layout that a layer gets on a device. The FlashInfer layout is for CUDA only.
pub open spec fn effective_layout(layer: LayerConfig, kind: DeviceKind) -> KvCacheLayout {
    if layer.kv_cache_layout is FlashInferHnd && !(kind is Cuda) {
        KvCacheLayout::Standard
    } else {
        layer.kv_cache_layout
    }
}

/// Whether a layer keeps its keys split into 16-byte runs of elements.
pub open spec fn splits_keys(layer: LayerConfig, kind: DeviceKind) -> bool {
    effective_layout(layer, kind) is Standard || effective_layout(
        layer,
        kind,
    ) is StandardNoFlashInfer
}

/// Elements of a 16-byte run.
pub open spec fn run_length(dtype: ElementType) -> int {
    16int / dtype_size(dtype) as int
}

/// The number of blocks that a layer gets. A layer without a paged cache gets none, so that the
/// layers keep their places.
pub open spec fn layer_blocks(layer: LayerConfig, config: CacheConfig) -> usize {
    if layer.has_paged_kv_cache {
        config.num_gpu_blocks
    } else {
        0
    }
}

/// The shape of one side of a Turbo4 cache: bytes of packed blocks, or elements of the compute
/// type.
pub open spec fn turbo4_side(
    packed: bool,
    blocks: usize,
    block_size: usize,
    kv_heads: usize,
    head_dim: usize,
    act_dtype: ElementType,
) -> ShapeView {
    if packed {
        ShapeView {
            dtype: ElementType::U8,
            dims: seq![
                blocks,
                block_size,
                kv_heads,
                (head_dim / GROUP) as usize,
                BLOCK_TURBO4_BYTES,
            ],
        }
    } else {
        ShapeView { dtype: act_dtype, dims: seq![blocks, block_size, kv_heads, head_dim] }
    }
}

/// The shapes of a layer with a Turbo4 cache.
pub open spec fn turbo4_shapes(
    layer: LayerConfig,
    plan: Turbo4LayerPlan,
    config: CacheConfig,
    act_dtype: ElementType,
) -> LayerShapesView {
    let blocks = layer_blocks(layer, config);
    LayerShapesView {
        key: turbo4_side(
            plan.k_is_turbo,
            blocks,
            config.block_size,
            layer.num_kv_heads,
            layer.k_head_dim,
            act_dtype,
        ),
        value: turbo4_side(
            plan.v_is_turbo,
            blocks,
            config.block_size,
            layer.num_kv_heads,
            layer.v_head_dim,
            act_dtype,
        ),
    }
}

/// The shapes of a layer with an elementwise cache.
pub open spec fn plain_shapes(
    layer: LayerConfig,
    config: CacheConfig,
    dtype: ElementType,
    kind: DeviceKind,
) -> LayerShapesView {
    let blocks = layer_blocks(layer, config);
    match effective_layout(layer, kind) {
        KvCacheLayout::Standard | KvCacheLayout::StandardNoFlashInfer => LayerShapesView {
            key: ShapeView {
                dtype,
                dims: seq![
                    blocks,
                    layer.num_kv_heads,
                    (layer.k_head_dim as int / run_length(dtype)) as usize,
                    config.block_size,
                    run_length(dtype) as usize,
                ],
            },
            value: ShapeView {
                dtype,
                dims: seq![blocks, layer.num_kv_heads, layer.v_head_dim, config.block_size],
            },
        },
        KvCacheLayout::FlashInferHnd => {
            let side = ShapeView {
                dtype,
                dims: seq![blocks, layer.num_kv_heads, config.block_size, layer.k_head_dim],
            };
            LayerShapesView { key: side, value: side }
        },
        KvCacheLayout::Mla { kv_lora_rank, kpe_head_dim } => LayerShapesView {
            key: ShapeView { dtype, dims: seq![blocks, config.block_size, kv_lora_rank] },
            value: ShapeView { dtype, dims: seq![blocks, config.block_size, kpe_head_dim] },
        },
    }
}

/// The shapes of layer `layer_idx`.
pub open spec fn layer_shapes<M: ModelConfigLike>(
    model_config: M,
    config: CacheConfig,
    dtype: ElementType,
    act_dtype: ElementType,
    kind: DeviceKind,
    settings: Turbo4Settings,
    layer_idx: usize,
) -> LayerShapesView {
    let layer = model_config.layer(layer_idx);
    if config.cache_type is Turbo4 {
        turbo4_shapes(layer, layer_plan(model_config, layer_idx, settings), config, act_dtype)
    } else {
        plain_shapes(layer, config, dtype, kind)
    }
}

/// Whether both tensors of a layer fit into the address space.
pub open spec fn shapes_fit(s: LayerShapesView) -> bool {
    fits(s.key.dims, s.key.dtype) && fits(s.value.dims, s.value.dtype)
}

/// Whether CPU memory can hold both tensors of a layer.
pub open spec fn cpu_holds_shapes(s: LayerShapesView) -> bool {
    cpu_holds(s.key.dtype) && cpu_holds(s.value.dtype)
}

/// The shapes of the two tensors of a layer.
pub open spec fn cache_shapes(c: KVCache) -> LayerShapesView {
    LayerShapesView { key: tensor_shape(c.0), value: tensor_shape(c.1) }
}

/// The device of a layer: its own, or else the model's.
pub open spec fn layer_handle(
    device: CacheDevice,
    layer_devices: Seq<Option<CacheDevice>>,
    layer_idx: int,
) -> CacheDevice {
    if layer_idx < layer_devices.len() && layer_devices[layer_idx] is Some {
        layer_devices[layer_idx]->0
    } else {
        device
    }
}

/// Whether no tensor stands twice in a cache.
pub open spec fn none_shared(gpu_cache: Seq<KVCache>) -> bool {
    &&& forall|i: int|
        0 <= i < gpu_cache.len() ==> (#[trigger] gpu_cache[i]).0 != gpu_cache[i].1
    &&& forall|i: int, j: int|
        0 <= i < j < gpu_cache.len() ==> {
            &&& (#[trigger] gpu_cache[j]).0 != (#[trigger] gpu_cache[i]).0
            &&& gpu_cache[j].0 != gpu_cache[i].1
            &&& gpu_cache[j].1 != gpu_cache[i].0
            &&& gpu_cache[j].1 != gpu_cache[i].1
        }
}

/// A cache to be made: for which model, of which size and format, on which devices.
pub struct CacheRequest<M> {
    pub model_config: M,
    pub config: CacheConfig,
    pub act_dtype: ElementType,
    pub device: CacheDevice,
    pub layer_devices: Seq<Option<CacheDevice>>,
    pub settings: Turbo4Settings,
}

impl<M: ModelConfigLike> CacheRequest<M> {
    /// The number of layers that get tensors: those that the list of devices reaches.
    pub open spec fn layers(self) -> nat {
        if self.layer_devices.len() < self.model_config.layer_count() {
            self.layer_devices.len()
        } else {
            self.model_config.layer_count() as nat
        }
    }

    /// The element type of the cache.
    pub open spec fn dtype(self) -> ElementType {
        self.config.cache_type.dtype(self.act_dtype)
    }

    /// The device of layer `i`.
    pub open spec fn place(self, i: int) -> candle_core::Device {
        layer_handle(self.device, self.layer_devices, i).handle
    }

    /// The family of the device of layer `i`.
    pub open spec fn kind(self, i: int) -> DeviceKind {
        device_kind(self.place(i))
    }

    /// The shapes of layer `i`.
    pub open spec fn shapes(self, i: int) -> LayerShapesView {
        layer_shapes(
            self.model_config,
            self.config,
            self.dtype(),
            self.act_dtype,
            self.kind(i),
            self.settings,
            i as usize,
        )
    }

    /// Whether some layer would have to split keys whose elements are smaller than a byte.
    pub open spec fn splits_sub_byte(self) -> bool {
        &&& !(self.config.cache_type is Turbo4)
        &&& dtype_size(self.dtype()) == 0
        &&& exists|i: int|
            0 <= i < self.layers() && splits_keys(
                self.model_config.layer(i as usize),
                #[trigger] self.kind(i),
            )
    }

    /// Whether the tensors of every layer fit into the address space.
    pub open spec fn fits(self) -> bool {
        forall|i: int| 0 <= i < self.layers() ==> shapes_fit(#[trigger] self.shapes(i))
    }

    /// Whether every layer runs on the CPU.
    pub open spec fn on_cpu(self) -> bool {
        forall|i: int| 0 <= i < self.layers() ==> #[trigger] self.kind(i) is Cpu
    }

    /// Whether CPU memory can hold the elements of every layer.
    pub open spec fn cpu_can_hold(self) -> bool {
        forall|i: int| 0 <= i < self.layers() ==> cpu_holds_shapes(#[trigger] self.shapes(i))
    }

    /// Whether candle may fail to make a tensor of layer `i`: the layers before it fit into the
    /// address space, and so do its own keys, but the layer does not lie in CPU memory, or that
    /// cannot hold its elements.
    pub open spec fn may_fail_at(self, i: int) -> bool {
        &&& forall|j: int| 0 <= j < i ==> shapes_fit(#[trigger] self.shapes(j))
        &&& fits(self.shapes(i).key.dims, self.shapes(i).key.dtype)
        &&& !(self.kind(i) is Cpu && cpu_holds_shapes(self.shapes(i)))
    }

    /// Whether a pair of tensors is what layer `i` asks for: of its shapes and on its device.
    pub open spec fn is_layer(self, i: int, c: KVCache) -> bool {
        let shapes = self.shapes(i);
        let kind = self.kind(i);
        let ordinal = device_ordinal(self.place(i));
        &&& is_made(c.0, shapes.key.dims, shapes.key.dtype, kind, ordinal)
        &&& is_made(c.1, shapes.value.dims, shapes.value.dtype, kind, ordinal)
    }

    /// Whether tensors are what is asked for: one pair for each layer in order, of its shapes and
    /// on its device, and no tensor twice.
    pub open spec fn is_met_by(self, gpu_cache: Seq<KVCache>) -> bool {
        &&& gpu_cache.len() == self.layers()
        &&& forall|i: int|
            0 <= i < gpu_cache.len() ==> self.is_layer(i, #[trigger] gpu_cache[i])
        &&& none_shared(gpu_cache)
    }

    /// What keeps the model from running with the cache.
    pub open spec fn validation(self, backend: Backend) -> Option<CacheTypeError> {
        self.config.cache_type.validation(
            self.act_dtype,
            self.model_config,
            self.device.described(),
            described_all(self.layer_devices),
            backend,
        )
    }
}

/// The cache that is asked for with these devices.
pub open spec fn cache_request<M: ModelConfigLike>(
    model_config: M,
    config: CacheConfig,
    act_dtype: ElementType,
    device: CacheDevice,
    layer_devices: Seq<Option<CacheDevice>>,
    settings: Turbo4Settings,
) -> CacheRequest<M> {
    CacheRequest {
        model_config,
        config,
        act_dtype,
        device,
        layer_devices,
        settings,
    }
}

impl CacheEngine {
    /// The shape of a key block in the standard layout: heads, runs, slots and elements of a run.
    pub fn calculate_key_block_shape<M: ModelConfigLike>(
        model_config: &M,
        dtype: ElementType,
        block_size: usize,
        layer_idx: usize,
    ) -> (r: (usize, usize, usize, usize))
        requires
            dtype_size(dtype) > 0,
        ensures
            r.0 == model_config.layer(layer_idx).num_kv_heads,
            r.1 == model_config.layer(layer_idx).k_head_dim as int / run_length(dtype),
            r.2 == block_size,
            r.3 == run_length(dtype),
    {
        let element_size: usize = dtype.size_in_bytes();
        let x: usize = 16 / element_size;
        (
            model_config.num_kv_heads_for_layer(layer_idx),
            model_config.k_head_dim_for_layer(layer_idx) / x,
            block_size,
            x,
        )
    }

    /// The shape of a value block in the standard layout: heads, head dimension and slots.
    pub fn calculate_value_block_shape<M: ModelConfigLike>(
        model_config: &M,
        block_size: usize,
        layer_idx: usize,
    ) -> (r: (usize, usize, usize))
        ensures
            r == (
                model_config.layer(layer_idx).num_kv_heads,
                model_config.layer(layer_idx).v_head_dim,
                block_size,
            ),
    {
        (
            model_config.num_kv_heads_for_layer(layer_idx),
            model_config.v_head_dim_for_layer(layer_idx),
            block_size,
        )
    }

    /// The shape of a block in the FlashInfer layout: heads, slots and head dimension.
    pub fn calculate_flashinfer_block_shape<M: ModelConfigLike>(
        model_config: &M,
        block_size: usize,
        layer_idx: usize,
    ) -> (r: (usize, usize, usize))
        ensures
            r == (
                model_config.layer(layer_idx).num_kv_heads,
                block_size,
                model_config.layer(layer_idx).k_head_dim,
            ),
    {
        (
            model_config.num_kv_heads_for_layer(layer_idx),
            block_size,
            model_config.k_head_dim_for_layer(layer_idx),
        )
    }
}

/// One side of a Turbo4 cache.
fn turbo4_side_shape(
    packed: bool,
    blocks: usize,
    block_size: usize,
    kv_heads: usize,
    head_dim: usize,
    act_dtype: ElementType,
) -> (r: TensorShape)
    ensures
        r@ == turbo4_side(packed, blocks, block_size, kv_heads, head_dim, act_dtype),
{
    if packed {
        let dims = vec![blocks, block_size, kv_heads, head_dim / GROUP, BLOCK_TURBO4_BYTES];
        let r = TensorShape { dtype: ElementType::U8, dims };
        assert(r@ =~= turbo4_side(packed, blocks, block_size, kv_heads, head_dim, act_dtype));
        r
    } else {
        let dims = vec![blocks, block_size, kv_heads, head_dim];
        let r = TensorShape { dtype: act_dtype, dims };
        assert(r@ =~= turbo4_side(packed, blocks, block_size, kv_heads, head_dim, act_dtype));
        r
    }
}

/// The shapes of one layer of a cache.
pub fn layer_cache_shapes<M: ModelConfigLike>(
    model_config: &M,
    cache_config: &CacheConfig,
    dtype: ElementType,
    act_dtype: ElementType,
    kind: DeviceKind,
    settings: Turbo4Settings,
    layer_idx: usize,
) -> (r: LayerShapes)
    requires
        cache_config.cache_type is Turbo4 || dtype_size(dtype) > 0 || !splits_keys(
            model_config.layer(layer_idx),
            kind,
        ),
    ensures
        r@ == layer_shapes(
            *model_config,
            *cache_config,
            dtype,
            act_dtype,
            kind,
            settings,
            layer_idx,
        ),
{
    let ghost want = layer_shapes(
        *model_config,
        *cache_config,
        dtype,
        act_dtype,
        kind,
        settings,
        layer_idx,
    );
    let num_gpu_blocks: usize = if model_config.layer_has_paged_kv_cache(layer_idx) {
        cache_config.num_gpu_blocks
    } else {
        0
    };
    let block_size: usize = cache_config.block_size;
    if cache_config.cache_type == PagedCacheType::Turbo4 {
        let num_kv_heads: usize = model_config.num_kv_heads_for_layer(layer_idx);
        let plan = turbo4_layer_plan(model_config, layer_idx, settings);
        let key = turbo4_side_shape(
            plan.k_is_turbo,
            num_gpu_blocks,
            block_size,
            num_kv_heads,
            model_config.k_head_dim_for_layer(layer_idx),
            act_dtype,
        );
        let value = turbo4_side_shape(
            plan.v_is_turbo,
            num_gpu_blocks,
            block_size,
            num_kv_heads,
            model_config.v_head_dim_for_layer(layer_idx),
            act_dtype,
        );
        return LayerShapes { key, value };
    }
    let requested = model_config.kv_cache_layout_for_layer(layer_idx);
    let layout = if requested == KvCacheLayout::FlashInferHnd && kind != DeviceKind::Cuda {
        KvCacheLayout::Standard
    } else {
        requested
    };
    match layout {
        KvCacheLayout::Standard | KvCacheLayout::StandardNoFlashInfer => {
            let k = CacheEngine::calculate_key_block_shape(model_config, dtype, block_size, layer_idx);
            let v = CacheEngine::calculate_value_block_shape(model_config, block_size, layer_idx);
            let key = TensorShape { dtype, dims: vec![num_gpu_blocks, k.0, k.1, k.2, k.3] };
            let value = TensorShape { dtype, dims: vec![num_gpu_blocks, v.0, v.1, v.2] };
            let r = LayerShapes { key, value };
            assert(r@ =~= want);
            r
        },
        KvCacheLayout::FlashInferHnd => {
            let b = CacheEngine::calculate_flashinfer_block_shape(model_config, block_size, layer_idx);
            let key = TensorShape { dtype, dims: vec![num_gpu_blocks, b.0, b.1, b.2] };
            let value = TensorShape { dtype, dims: vec![num_gpu_blocks, b.0, b.1, b.2] };
            let r = LayerShapes { key, value };
            assert(r@ =~= want);
            r
        },
        KvCacheLayout::Mla { kv_lora_rank, kpe_head_dim } => {
            let key = TensorShape { dtype, dims: vec![num_gpu_blocks, block_size, kv_lora_rank] };
            let value = TensorShape {
                dtype,
                dims: vec![num_gpu_blocks, block_size, kpe_head_dim],
            };
            let r = LayerShapes { key, value };
            assert(r@ =~= want);
            r
        },
    }
}

/// The device of a layer: its own, or else the model's.
fn device_for<'a>(
    device: &'a CacheDevice,
    layer_devices: &'a Vec<Option<CacheDevice>>,
    layer_idx: usize,
) -> (r: &'a CacheDevice)
    ensures
        *r == layer_handle(*device, layer_devices@, layer_idx as int),
{
    if layer_idx < layer_devices.len() {
        match &layer_devices[layer_idx] {
            Some(d) => d,
            None => device,
        }
    } else {
        device
    }
}

/// What is known of the devices that layers have of their own.
fn describe_all(layer_devices: &Vec<Option<CacheDevice>>) -> (r: Vec<Option<DeviceInfo>>)
    ensures
        r@ == described_all(layer_devices@),
{
    let mut r: Vec<Option<DeviceInfo>> = Vec::new();
    let mut i: usize = 0;
    while i < layer_devices.len()
        invariant
            i <= layer_devices@.len(),
            r@ == described_all(layer_devices@).take(i as int),
        decreases layer_devices@.len() - i,
    {
        let info: Option<DeviceInfo> = match &layer_devices[i] {
            Some(d) => Some(d.info()),
            None => None,
        };
        r.push(info);
        assert(r@ =~= described_all(layer_devices@).take(i + 1));
        i += 1;
    }
    assert(r@ =~= described_all(layer_devices@));
    r
}

/// A layer is checked against the device that its tensors are made on.
pub proof fn lemma_layers_are_checked_where_they_lie(
    device: CacheDevice,
    layer_devices: Seq<Option<CacheDevice>>,
    layer_idx: int,
)
    requires
        0 <= layer_idx,
    ensures
        layer_device(device.described(), described_all(layer_devices), layer_idx) == layer_handle(
            device,
            layer_devices,
            layer_idx,
        ).described(),
{
}

/// Whether some layer would have to split keys whose elements are smaller than a byte.
fn has_sub_byte_split<M: ModelConfigLike>(
    model_config: &M,
    cache_config: &CacheConfig,
    dtype: ElementType,
    device: &CacheDevice,
    layer_devices: &Vec<Option<CacheDevice>>,
    request: Ghost<CacheRequest<M>>,
) -> (r: bool)
    requires
        request@.model_config == *model_config,
        request@.config == *cache_config,
        request@.device == *device,
        request@.layer_devices == layer_devices@,
        dtype == request@.dtype(),
    ensures
        r == request@.splits_sub_byte(),
{
    if cache_config.cache_type == PagedCacheType::Turbo4 || dtype.size_in_bytes() > 0 {
        return false;
    }
    let n: usize = model_config.num_layers();
    let mut i: usize = 0;
    while i < layer_devices.len() && i < n
        invariant
            n == model_config.layer_count(),
            request@.model_config == *model_config,
            request@.config == *cache_config,
            request@.device == *device,
            request@.layer_devices == layer_devices@,
            i <= layer_devices@.len(),
            i <= n,
            !(cache_config.cache_type is Turbo4),
            dtype_size(request@.dtype()) == 0,
            forall|j: int|
                0 <= j < i ==> !splits_keys(
                    model_config.layer(j as usize),
                    #[trigger] request@.kind(j),
                ),
        decreases layer_devices@.len() - i,
    {
        let kind = kind_of(&device_for(device, layer_devices, i).handle);
        let layout = model_config.kv_cache_layout_for_layer(i);
        let splits = match layout {
            KvCacheLayout::Standard | KvCacheLayout::StandardNoFlashInfer => true,
            KvCacheLayout::FlashInferHnd => kind != DeviceKind::Cuda,
            KvCacheLayout::Mla { .. } => false,
        };
        assert(request@.kind(i as int) == kind);
        if splits {
            return true;
        }
        i += 1;
    }
    false
}

impl CacheEngine {
    /// Makes the tensors of every layer.
    fn allocate_gpu_cache<M: ModelConfigLike>(
        model_config: &M,
        cache_config: &CacheConfig,
        dtype: ElementType,
        act_dtype: ElementType,
        device: &CacheDevice,
        layer_devices: &Vec<Option<CacheDevice>>,
        settings: Turbo4Settings,
    ) -> (r: Result<Vec<KVCache>, TensorError>)
        requires
            dtype == cache_config.cache_type.dtype(act_dtype),
            !cache_request(
                *model_config,
                *cache_config,
                act_dtype,
                *device,
                layer_devices@,
                settings,
            ).splits_sub_byte(),
        ensures
            ({
                let request = cache_request(
                    *model_config,
                    *cache_config,
                    act_dtype,
                    *device,
                    layer_devices@,
                    settings,
                );
                &&& r matches Ok(v) ==> request.is_met_by(v@) && request.fits()
                &&& (r matches Err(e) && e is TooLarge) ==> !request.fits()
                &&& (r matches Err(e) && e is Candle) ==> exists|i: int|
                    0 <= i < request.layers() && #[trigger] request.may_fail_at(i)
                &&& request.on_cpu() ==> (r is Ok <==> request.fits() && request.cpu_can_hold())
            }),
    {
        let ghost request = cache_request(
            *model_config,
            *cache_config,
            act_dtype,
            *device,
            layer_devices@,
            settings,
        );
        let mut gpu_cache: Vec<KVCache> = Vec::new();
        let n: usize = model_config.num_layers();
        let mut layer_idx: usize = 0;
        while layer_idx < layer_devices.len() && layer_idx < n
            invariant
                n == model_config.layer_count(),
                request == cache_request(
                    *model_config,
                    *cache_config,
                    act_dtype,
                    *device,
                    layer_devices@,
                    settings,
                ),
                request.layer_devices.len() == layer_devices@.len(),
                layer_idx <= layer_devices@.len(),
                layer_idx <= n,
                dtype == cache_config.cache_type.dtype(act_dtype),
                !request.splits_sub_byte(),
                gpu_cache@.len() == layer_idx,
                forall|i: int|
                    0 <= i < layer_idx ==> request.is_layer(i, #[trigger] gpu_cache@[i]),
                none_shared(gpu_cache@),
                forall|i: int| 0 <= i < layer_idx ==> shapes_fit(#[trigger] request.shapes(i)),
                forall|i: int|
                    0 <= i < layer_idx && request.kind(i) is Cpu ==> cpu_holds_shapes(
                        #[trigger] request.shapes(i),
                    ),
            decreases layer_devices@.len() - layer_idx,
        {
            let own = device_for(device, layer_devices, layer_idx);
            let kind = kind_of(&own.handle);
            let ghost i = layer_idx as int;
            assert(request.kind(i) == kind);
            let shapes = layer_cache_shapes(
                model_config,
                cache_config,
                dtype,
                act_dtype,
                kind,
                settings,
                layer_idx,
            );
            assert(shapes@ == request.shapes(i));
            let key_blocks = match zeros_apart(
                &shapes.key.dims,
                shapes.key.dtype,
                &own.handle,
                None,
                &gpu_cache,
            ) {
                Ok(t) => t,
                Err(e) => {
                    assert(e is Candle ==> request.may_fail_at(i));
                    return Err(e);
                },
            };
            let value_blocks = match zeros_apart(
                &shapes.value.dims,
                shapes.value.dtype,
                &own.handle,
                Some(&key_blocks),
                &gpu_cache,
            ) {
                Ok(t) => t,
                Err(e) => {
                    assert(e is Candle ==> request.may_fail_at(i));
                    return Err(e);
                },
            };
            gpu_cache.push((key_blocks, value_blocks));
            assert(request.is_layer(i, gpu_cache@[i]));
            layer_idx += 1;
        }
        Ok(gpu_cache)
    }

    /// The tensors of the engine, one pair for each layer.
    pub closed spec fn kv_cache(self) -> Seq<KVCache> {
        self.gpu_cache@
    }

    /// For each layer the number of multiprocessors that the prefill kernel uses on it, where the
    /// kernel covers it.
    pub closed spec fn fa3_prefill(self) -> Seq<Option<usize>> {
        self.fa3_prefill_num_sm_by_layer@
    }

    /// Checks that a model can run with a cache, and makes its tensors. No layer is covered by the
    /// prefill kernel until [`CacheEngine::cover_fa3_prefill`] says so.
    pub fn new<M: ModelConfigLike>(
        model_config: &M,
        cache_config: &CacheConfig,
        dtype: ElementType,
        device: &CacheDevice,
        layer_devices: Vec<Option<CacheDevice>>,
        backend: Backend,
        settings: Turbo4Settings,
    ) -> (r: Result<CacheEngine, CacheError>)
        ensures
            ({
                let request = cache_request(
                    *model_config,
                    *cache_config,
                    dtype,
                    *device,
                    layer_devices@,
                    settings,
                );
                let refused = request.validation(backend);
                &&& r matches Ok(engine) ==> {
                    &&& request.is_met_by(engine.kv_cache())
                    &&& engine.fa3_prefill() == Seq::new(
                        model_config.layer_count() as nat,
                        |i: int| None::<usize>,
                    )
                    &&& request.fits()
                }
                &&& refused is Some <==> (r matches Err(e) && e is Invalid)
                &&& r matches Err(CacheError::Invalid(s)) ==> s@ == refused->0.text()
                &&& refused is None && request.splits_sub_byte() <==> (r matches Err(e)
                    && e is SubByteElements)
                &&& (r matches Err(CacheError::Tensor(e)) && e is TooLarge) ==> !request.fits()
                &&& (r matches Err(CacheError::Tensor(e)) && e is Candle) ==> exists|i: int|
                    0 <= i < request.layers() && #[trigger] request.may_fail_at(i)
                &&& refused is None && !request.splits_sub_byte() && request.on_cpu() ==> (
                r is Ok <==> request.fits() && request.cpu_can_hold())
            }),
    {
        let ghost request = cache_request(
            *model_config,
            *cache_config,
            dtype,
            *device,
            layer_devices@,
            settings,
        );
        let info = device.info();
        let layer_infos = describe_all(&layer_devices);
        match cache_config.cache_type.validate(
            dtype,
            model_config,
            info,
            layer_infos.as_slice(),
            backend,
        ) {
            Ok(_) => {},
            Err(s) => {
                return Err(CacheError::Invalid(s));
            },
        }
        let act_dtype = dtype;
        let dtype = cache_config.cache_type.to_dtype(act_dtype);
        if has_sub_byte_split(
            model_config,
            cache_config,
            dtype,
            device,
            &layer_devices,
            Ghost(request),
        ) {
            return Err(CacheError::SubByteElements);
        }
        let gpu_cache = match CacheEngine::allocate_gpu_cache(
            model_config,
            cache_config,
            dtype,
            act_dtype,
            device,
            &layer_devices,
            settings,
        ) {
            Ok(v) => v,
            Err(e) => {
                return Err(CacheError::Tensor(e));
            },
        };
        let fa3_prefill_num_sm_by_layer = uncovered(model_config.num_layers());
        Ok(CacheEngine { fa3_prefill_num_sm_by_layer, gpu_cache })
    }

    /// For each layer the number of multiprocessors that the prefill kernel uses on it, where the
    /// kernel covers it.
    pub fn fa3_prefill_num_sm_by_layer(&self) -> (r: &[Option<usize>])
        ensures
            r@ == self.fa3_prefill(),
    {
        self.fa3_prefill_num_sm_by_layer.as_slice()
    }

    /// The tensors of the engine, one pair for each layer.
    pub fn get_kv_cache(&self) -> (r: &Vec<KVCache>)
        ensures
            r@ == self.kv_cache(),
    {
        &self.gpu_cache
    }

    /// What to ask the prefill kernel about a layer, where its cache is one that the kernel could
    /// handle.
    pub fn fa3_prefill_probe<M: ModelConfigLike>(
        &self,
        model_config: &M,
        cache_config: &CacheConfig,
        use_fa3_fp8_paged: bool,
        layer_idx: usize,
    ) -> (r: Option<Fa3PrefillProbe>)
        ensures
            r == fa3_asked(
                *model_config,
                *cache_config,
                use_fa3_fp8_paged,
                self.kv_cache().map_values(|c: KVCache| cache_shapes(c)),
                layer_idx as int,
            ),
    {
        if use_fa3_fp8_paged && cache_config.num_gpu_blocks != 0 && layer_idx
            < self.gpu_cache.len() {
            let shapes = shapes_of(&self.gpu_cache[layer_idx]);
            fa3_probe_for_shapes(model_config, cache_config, layer_idx, &shapes)
        } else {
            None
        }
    }

    /// Takes the replies of the prefill kernel in: `replies[i]` is what it said of layer `i`, and
    /// counts only where [`CacheEngine::fa3_prefill_probe`] has something to ask. The first failed
    /// reply that counts is returned, and the engine is left as it was.
    pub fn cover_fa3_prefill<M: ModelConfigLike>(
        &mut self,
        model_config: &M,
        cache_config: &CacheConfig,
        use_fa3_fp8_paged: bool,
        replies: &Vec<Result<Option<usize>, String>>,
    ) -> (r: Result<(), String>)
        requires
            replies@.len() == model_config.layer_count(),
        ensures
            final(self).kv_cache() == old(self).kv_cache(),
            ({
                let answers = fa3_answers(
                    *model_config,
                    *cache_config,
                    use_fa3_fp8_paged,
                    old(self).kv_cache().map_values(|c: KVCache| cache_shapes(c)),
                    replies@,
                );
                match r {
                    Ok(_) => all_ok(answers, final(self).fa3_prefill()),
                    Err(e) => first_failure(answers, e) && final(self).fa3_prefill() == old(
                        self,
                    ).fa3_prefill(),
                }
            }),
    {
        let mut shapes: Vec<LayerShapes> = Vec::new();
        let ghost want = self.gpu_cache@.map_values(|c: KVCache| cache_shapes(c));
        let mut i: usize = 0;
        while i < self.gpu_cache.len()
            invariant
                i <= self.gpu_cache@.len(),
                shapes@.len() == i,
                want == self.gpu_cache@.map_values(|c: KVCache| cache_shapes(c)),
                forall|j: int| 0 <= j < i ==> (#[trigger] shapes@[j])@ == want[j],
            decreases self.gpu_cache@.len() - i,
        {
            shapes.push(shapes_of(&self.gpu_cache[i]));
            i += 1;
        }
        assert(shapes@.map_values(|s: LayerShapes| s@) =~= want);
        match fa3_prefill_cache_coverage(
            model_config,
            cache_config,
            use_fa3_fp8_paged,
            &shapes,
            replies,
        ) {
            Ok(v) => {
                self.fa3_prefill_num_sm_by_layer = v;
                Ok(())
            },
            Err(e) => Err(e),
        }
    }
}

/// Layers that the prefill kernel does not cover.
fn uncovered(n: usize) -> (r: Vec<Option<usize>>)
    ensures
        r@ == Seq::new(n as nat, |i: int| None::<usize>),
{
    let mut r: Vec<Option<usize>> = Vec::new();
    let mut i: usize = 0;
    while i < n
        invariant
            i <= n,
            r@ == Seq::new(i as nat, |j: int| None::<usize>),
        decreases n - i,
    {
        r.push(None);
        assert(r@ =~= Seq::new((i + 1) as nat, |j: int| None::<usize>));
        i += 1;
    }
    r
}

/// The shapes of the two tensors of a layer.
fn shapes_of(c: &KVCache) -> (r: LayerShapes)
    ensures
        r@ == cache_shapes(*c),
{
    LayerShapes { key: shape(&c.0), value: shape(&c.1) }
}

/// What to ask the prefill kernel about a layer: nothing, unless the layer keeps an FP8 cache in
/// the FlashInfer layout whose heads the kernel handles.
pub open spec fn fa3_probe(layer: LayerConfig, config: CacheConfig, shapes: LayerShapesView) -> Option<
    Fa3PrefillProbe,
> {
    let expected = ShapeView {
        dtype: ElementType::F8E4M3,
        dims: seq![
            config.num_gpu_blocks,
            layer.num_kv_heads,
            config.block_size,
            layer.k_head_dim,
        ],
    };
    if layer.has_paged_kv_cache && layer.kv_cache_layout is FlashInferHnd && layer.num_kv_heads != 0
        && layer.num_attn_heads != 0 && multiple_of(
        layer.num_attn_heads as nat,
        layer.num_kv_heads as nat,
    ) && layer.k_head_dim == FA3_HEAD_DIM && layer.v_head_dim == FA3_HEAD_DIM && shapes.key
        == expected && shapes.value == expected {
        Some(
            Fa3PrefillProbe {
                q_heads: layer.num_attn_heads,
                kv_heads: layer.num_kv_heads,
                head_dim: layer.k_head_dim,
                block_size: config.block_size,
            },
        )
    } else {
        None
    }
}

/// What to ask the prefill kernel about layer `i` of a cache: nothing where the kernel does not
/// handle paged FP8 caches, or the cache has no blocks at all.
pub open spec fn fa3_asked<M: ModelConfigLike>(
    model_config: M,
    config: CacheConfig,
    use_fa3_fp8_paged: bool,
    shapes: Seq<LayerShapesView>,
    i: int,
) -> Option<Fa3PrefillProbe> {
    if use_fa3_fp8_paged && config.num_gpu_blocks != 0 && i < shapes.len() {
        fa3_probe(model_config.layer(i as usize), config, shapes[i])
    } else {
        None
    }
}

/// What becomes of each layer: the reply of the prefill kernel where there was something to ask.
pub open spec fn fa3_answers<M: ModelConfigLike>(
    model_config: M,
    config: CacheConfig,
    use_fa3_fp8_paged: bool,
    shapes: Seq<LayerShapesView>,
    replies: Seq<Result<Option<usize>, String>>,
) -> Seq<Result<Option<usize>, String>> {
    Seq::new(
        model_config.layer_count() as nat,
        |i: int|
            if fa3_asked(model_config, config, use_fa3_fp8_paged, shapes, i) is Some {
                replies[i]
            } else {
                Ok(None)
            },
    )
}

/// Whether every answer is good, and `values` are what they hold.
pub open spec fn all_ok(
    answers: Seq<Result<Option<usize>, String>>,
    values: Seq<Option<usize>>,
) -> bool {
    &&& values.len() == answers.len()
    &&& forall|i: int|
        0 <= i < answers.len() ==> #[trigger] answers[i] == Ok::<Option<usize>, String>(values[i])
}

/// Whether some answer failed, and the first that did says `e`.
pub open spec fn first_failure(answers: Seq<Result<Option<usize>, String>>, e: String) -> bool {
    exists|i: int|
        0 <= i < answers.len() && (#[trigger] answers[i] matches Err(f) && f@ == e@) && (forall|
            j: int,
        |
            0 <= j < i ==> #[trigger] answers[j] is Ok)
}

/// Whether a tensor has the given element type and four dimensions.
fn has_shape4(s: &TensorShape, dtype: ElementType, d0: usize, d1: usize, d2: usize, d3: usize) -> (r:
    bool)
    ensures
        r == (s@ == (ShapeView { dtype, dims: seq![d0, d1, d2, d3] })),
{
    let r = s.dtype == dtype && s.dims.len() == 4 && s.dims[0] == d0 && s.dims[1] == d1 && s.dims[2]
        == d2 && s.dims[3] == d3;
    proof {
        let want = seq![d0, d1, d2, d3];
        if r {
            assert(s.dims@ =~= want);
        } else if s.dims@ == want {
            assert(want.len() == 4 && want[0] == d0 && want[1] == d1 && want[2] == d2 && want[3]
                == d3);
        }
    }
    r
}

/// What to ask the prefill kernel about a layer whose tensors have the given shapes.
pub fn fa3_probe_for_shapes<M: ModelConfigLike>(
    model_config: &M,
    cache_config: &CacheConfig,
    layer_idx: usize,
    shapes: &LayerShapes,
) -> (r: Option<Fa3PrefillProbe>)
    ensures
        r == fa3_probe(model_config.layer(layer_idx), *cache_config, shapes@),
{
    if !model_config.layer_has_paged_kv_cache(layer_idx) {
        return None;
    }
    let kv_heads: usize = model_config.num_kv_heads_for_layer(layer_idx);
    let q_heads: usize = model_config.num_attn_heads_for_layer(layer_idx);
    let k_head_dim: usize = model_config.k_head_dim_for_layer(layer_idx);
    let v_head_dim: usize = model_config.v_head_dim_for_layer(layer_idx);
    let blocks: usize = cache_config.num_gpu_blocks;
    let block_size: usize = cache_config.block_size;
    if model_config.kv_cache_layout_for_layer(layer_idx) != KvCacheLayout::FlashInferHnd || kv_heads
        == 0 || q_heads == 0 || !is_multiple_of(q_heads, kv_heads) || k_head_dim != FA3_HEAD_DIM
        || v_head_dim != k_head_dim || !has_shape4(
        &shapes.key,
        ElementType::F8E4M3,
        blocks,
        kv_heads,
        block_size,
        k_head_dim,
    ) || !has_shape4(
        &shapes.value,
        ElementType::F8E4M3,
        blocks,
        kv_heads,
        block_size,
        k_head_dim,
    ) {
        return None;
    }
    Some(Fa3PrefillProbe { q_heads, kv_heads, head_dim: k_head_dim, block_size })
}

/// For each layer what the prefill kernel said of it, where there was something to ask and the
/// model has blocks at all. The first failed reply that counts is returned.
pub fn fa3_prefill_cache_coverage<M: ModelConfigLike>(
    model_config: &M,
    cache_config: &CacheConfig,
    use_fa3_fp8_paged: bool,
    gpu_cache: &Vec<LayerShapes>,
    replies: &Vec<Result<Option<usize>, String>>,
) -> (r: Result<Vec<Option<usize>>, String>)
    requires
        replies@.len() == model_config.layer_count(),
    ensures
        ({
            let answers = fa3_answers(
                *model_config,
                *cache_config,
                use_fa3_fp8_paged,
                gpu_cache@.map_values(|s: LayerShapes| s@),
                replies@,
            );
            match r {
                Ok(v) => all_ok(answers, v@),
                Err(e) => first_failure(answers, e),
            }
        }),
{
    let ghost shapes = gpu_cache@.map_values(|s: LayerShapes| s@);
    let ghost answers = fa3_answers(
        *model_config,
        *cache_config,
        use_fa3_fp8_paged,
        shapes,
        replies@,
    );
    let n: usize = model_config.num_layers();
    if !use_fa3_fp8_paged || cache_config.num_gpu_blocks == 0 {
        return Ok(uncovered(n));
    }
    let mut r: Vec<Option<usize>> = Vec::new();
    let mut i: usize = 0;
    while i < n
        invariant
            i <= n,
            n == model_config.layer_count(),
            use_fa3_fp8_paged,
            cache_config.num_gpu_blocks != 0,
            replies@.len() == n,
            shapes == gpu_cache@.map_values(|s: LayerShapes| s@),
            answers == fa3_answers(
                *model_config,
                *cache_config,
                use_fa3_fp8_paged,
                shapes,
                replies@,
            ),
            r@.len() == i,
            forall|j: int|
                0 <= j < i ==> #[trigger] answers[j] == Ok::<Option<usize>, String>(r@[j]),
        decreases n - i,
    {
        let asked = if i < gpu_cache.len() {
            fa3_probe_for_shapes(model_config, cache_config, i, &gpu_cache[i])
        } else {
            None
        };
        match asked {
            None => {
                assert(answers[i as int] == Ok::<Option<usize>, String>(None));
                r.push(None);
            },
            Some(_) => {
                assert(answers[i as int] == replies@[i as int]);
                match &replies[i] {
                    Ok(num_sm) => {
                        r.push(*num_sm);
                    },
                    Err(e) => {
                        return Err(e.clone());
                    },
                }
            },
        }
        i += 1;
    }
    Ok(r)
}

} // verus!
