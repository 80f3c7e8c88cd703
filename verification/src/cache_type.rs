//! The element formats of a paged key/value cache, and which of them a model and its devices can
//! run with.
use crate::model::{KvCacheLayout, LayerConfig, ModelConfigLike};
use crate::tensor::{DeviceKind, ElementType, dtype_name};
use crate::text::{append_decimal, decimal, same_text};
use crate::turbo_quant::GROUP;
use vstd::prelude::*;
use vstd::string::*;

verus! {

/// The element format of a paged key/value cache.
#[derive(Clone, Copy, Debug, PartialEq, Eq, Structural)]
pub enum PagedCacheType {
    /// The activations' own element type.
    Auto,
    F8E4M3,
    /// Rotated groups quantized to four bits a coefficient. See `turbo_quant`.
    Turbo4,
}

/// What is known of the device that a layer runs on.
#[derive(Clone, Copy, Debug, PartialEq, Eq, Structural)]
pub struct DeviceInfo {
    pub kind: DeviceKind,
    /// The major compute capability that the CUDA driver reports, where it reports one.
    pub compute_major: Option<i32>,
}

/// What the paged-attention kernels were built with.
#[derive(Clone, Copy, Debug, PartialEq, Eq, Structural)]
pub struct Backend {
    pub cuda: bool,
    pub metal: bool,
    /// Whether the CUDA kernels handle FP8 elements.
    pub use_fp8: bool,
}

/// Why a cache format does not suit a model.
#[derive(Clone, Copy, Debug, PartialEq, Eq, Structural)]
pub enum CacheTypeError {
    Turbo4Mla { layer: usize },
    Turbo4HeadDim { layer: usize, k_head_dim: usize, v_head_dim: usize },
    Fp8Activations { dtype: ElementType },
    Fp8Mla { layer: usize },
    Fp8ComputeCapability,
    Fp8NeedsCuda,
    Fp8NeedsMetal,
    Fp8Device { layer: usize },
}

/// Whether the two sides of a layer's Turbo4 cache hold packed blocks. A side that does not is a
/// plain cache in the model's compute type.
///
/// Two mitigations turn a side plain. The error of quantized keys is amplified by every query head
/// that shares them, so keys stay plain where many query heads share a key head. Layers at the
/// boundary of the model are more sensitive to noise, so both sides may stay plain there.
#[derive(Clone, Copy, Debug, PartialEq, Eq, Structural)]
pub struct Turbo4LayerPlan {
    pub k_is_turbo: bool,
    pub v_is_turbo: bool,
}

/// How the mitigations of a Turbo4 cache are tuned.
#[derive(Clone, Copy, Debug, PartialEq, Eq, Structural)]
pub struct Turbo4Settings {
    /// Keep keys packed, however many query heads share them.
    pub auto_asymmetric_disabled: bool,
    /// 1: both sides are plain on the first and the last four layers. 2: on the last eight.
    /// Anything else: on none.
    pub adaptive_mode: i32,
}

/// What a user should hear of keys that stay plain.
#[derive(Clone, Copy, Debug, PartialEq, Eq, Structural)]
pub struct PlainKeysNotice {
    pub gqa_ratio: usize,
    pub num_attn_heads: usize,
    pub num_kv_heads: usize,
}

/// Query heads for each key head from which on keys stay plain.
pub const AUTO_ASYMMETRIC_GQA_THRESHOLD: usize = 6;

/// The remainder-free division test, under which zero divides only zero.
pub open spec fn multiple_of(a: nat, b: nat) -> bool {
    if b == 0 {
        a == 0
    } else {
        a % b == 0
    }
}

/// Whether `a` is a multiple of `b`.
pub fn is_multiple_of(a: usize, b: usize) -> (r: bool)
    ensures
        r == multiple_of(a as nat, b as nat),
{
    if b == 0 {
        a == 0
    } else {
        a % b == 0
    }
}

impl CacheTypeError {
    /// The message that goes with the error.
    pub open spec fn text(self) -> Seq<char> {
        match self {
            CacheTypeError::Turbo4Mla { layer } => "Turbo4 KV cache does not support the Mla layout (layer "@
                + decimal(layer as nat) + ")"@,
            CacheTypeError::Turbo4HeadDim { layer, k_head_dim, v_head_dim } =>
                "Turbo4 KV cache requires head_dim (got k="@ + decimal(k_head_dim as nat) + ", v="@
                    + decimal(v_head_dim as nat) + " on layer "@ + decimal(layer as nat)
                    + ") to be a multiple of the "@ + decimal(GROUP as nat)
                    + "-element rotation group"@,
            CacheTypeError::Fp8Activations { dtype } =>
                "FP8 KV cache requires f16, bf16, or f32 activations, got "@ + dtype_name(dtype),
            CacheTypeError::Fp8Mla { layer } => "FP8 KV cache is not supported for MLA layer "@
                + decimal(layer as nat),
            CacheTypeError::Fp8ComputeCapability =>
                "FP8 KV cache requires CUDA compute capability 8.0 or newer and a matching CUDA build"@,
            CacheTypeError::Fp8NeedsCuda =>
                "FP8 KV cache requires the CUDA paged-attention backend"@,
            CacheTypeError::Fp8NeedsMetal =>
                "FP8 KV cache requires the Metal paged-attention backend"@,
            CacheTypeError::Fp8Device { layer } =>
                "FP8 KV cache is only supported on CUDA or Metal, got Cpu for layer "@ + decimal(
                    layer as nat,
                ),
        }
    }

    /// The message that goes with the error.
    pub fn message(self) -> (r: String)
        ensures
            r@ == self.text(),
    {
        match self {
            CacheTypeError::Turbo4Mla { layer } => {
                let mut s = "Turbo4 KV cache does not support the Mla layout (layer ".to_owned();
                append_decimal(&mut s, layer);
                s.append(")");
                s
            },
            CacheTypeError::Turbo4HeadDim { layer, k_head_dim, v_head_dim } => {
                let mut s = "Turbo4 KV cache requires head_dim (got k=".to_owned();
                append_decimal(&mut s, k_head_dim);
                s.append(", v=");
                append_decimal(&mut s, v_head_dim);
                s.append(" on layer ");
                append_decimal(&mut s, layer);
                s.append(") to be a multiple of the ");
                append_decimal(&mut s, GROUP);
                s.append("-element rotation group");
                s
            },
            CacheTypeError::Fp8Activations { dtype } => {
                let mut s =
                    "FP8 KV cache requires f16, bf16, or f32 activations, got ".to_owned();
                s.append(dtype.name());
                s
            },
            CacheTypeError::Fp8Mla { layer } => {
                let mut s = "FP8 KV cache is not supported for MLA layer ".to_owned();
                append_decimal(&mut s, layer);
                s
            },
            CacheTypeError::Fp8ComputeCapability => {
                "FP8 KV cache requires CUDA compute capability 8.0 or newer and a matching CUDA build".to_owned()
            },
            CacheTypeError::Fp8NeedsCuda => {
                "FP8 KV cache requires the CUDA paged-attention backend".to_owned()
            },
            CacheTypeError::Fp8NeedsMetal => {
                "FP8 KV cache requires the Metal paged-attention backend".to_owned()
            },
            CacheTypeError::Fp8Device { layer } => {
                let mut s =
                    "FP8 KV cache is only supported on CUDA or Metal, got Cpu for layer ".to_owned();
                append_decimal(&mut s, layer);
                s
            },
        }
    }
}

/// The device of a layer: its own, or else the model's.
pub open spec fn layer_device(
    device: DeviceInfo,
    layer_devices: Seq<Option<DeviceInfo>>,
    layer_idx: int,
) -> DeviceInfo {
    if layer_idx < layer_devices.len() && layer_devices[layer_idx] is Some {
        layer_devices[layer_idx]->0
    } else {
        device
    }
}

/// Whether FP8 elements can be computed with on a device.
pub open spec fn fp8_capable(device: DeviceInfo, backend: Backend) -> bool {
    &&& backend.use_fp8
    &&& device.kind is Cuda
    &&& device.compute_major is Some
    &&& device.compute_major->0 >= 8
}

/// What keeps a layer from running with a Turbo4 cache.
pub open spec fn turbo4_layer_error(layer: LayerConfig, layer_idx: usize) -> Option<
    CacheTypeError,
> {
    if !layer.has_paged_kv_cache {
        None
    } else if layer.kv_cache_layout is Mla {
        Some(CacheTypeError::Turbo4Mla { layer: layer_idx })
    } else if layer.k_head_dim % GROUP != 0 || layer.v_head_dim % GROUP != 0 {
        Some(
            CacheTypeError::Turbo4HeadDim {
                layer: layer_idx,
                k_head_dim: layer.k_head_dim,
                v_head_dim: layer.v_head_dim,
            },
        )
    } else {
        None
    }
}

/// What keeps a layer from running with an FP8 cache on a device.
pub open spec fn fp8_layer_error(
    layer: LayerConfig,
    layer_idx: usize,
    device: DeviceInfo,
    backend: Backend,
) -> Option<CacheTypeError> {
    if !layer.has_paged_kv_cache {
        None
    } else if layer.kv_cache_layout is Mla {
        Some(CacheTypeError::Fp8Mla { layer: layer_idx })
    } else {
        match device.kind {
            DeviceKind::Cuda => if !backend.cuda {
                Some(CacheTypeError::Fp8NeedsCuda)
            } else if !fp8_capable(device, backend) {
                Some(CacheTypeError::Fp8ComputeCapability)
            } else {
                None
            },
            DeviceKind::Metal => if !backend.metal {
                Some(CacheTypeError::Fp8NeedsMetal)
            } else {
                None
            },
            DeviceKind::Cpu => Some(CacheTypeError::Fp8Device { layer: layer_idx }),
        }
    }
}

/// The first error among those that `errors` gives for the indices from `from` up to `n`.
pub open spec fn first_error(
    errors: spec_fn(usize) -> Option<CacheTypeError>,
    from: int,
    n: usize,
) -> Option<CacheTypeError>
    decreases n - from,
{
    if from >= n {
        None
    } else if errors(from as usize) is Some {
        errors(from as usize)
    } else {
        first_error(errors, from + 1, n)
    }
}

/// Whether FP8 elements can be computed with on a device.
pub fn cuda_supports_fp8(device: DeviceInfo, backend: Backend) -> (r: bool)
    ensures
        r == fp8_capable(device, backend),
{
    if !backend.use_fp8 {
        return false;
    }
    if device.kind != DeviceKind::Cuda {
        return false;
    }
    match device.compute_major {
        Some(major) => major >= 8,
        None => false,
    }
}

impl DeviceInfo {
    /// The CPU.
    pub fn cpu() -> (r: DeviceInfo)
        ensures
            r == (DeviceInfo { kind: DeviceKind::Cpu, compute_major: None }),
    {
        DeviceInfo { kind: DeviceKind::Cpu, compute_major: None }
    }
}

impl Default for PagedCacheType {
    fn default() -> (r: PagedCacheType)
        ensures
            r is Auto,
    {
        PagedCacheType::Auto
    }
}

impl PagedCacheType {
    /// The element type of a cache of this format.
    pub open spec fn dtype(self, act_dtype: ElementType) -> ElementType {
        match self {
            PagedCacheType::F8E4M3 => ElementType::F8E4M3,
            PagedCacheType::Turbo4 => ElementType::U8,
            PagedCacheType::Auto => act_dtype,
        }
    }

    /// The format that a name stands for.
    pub open spec fn named(s: Seq<char>) -> Option<PagedCacheType> {
        if s == "auto"@ {
            Some(PagedCacheType::Auto)
        } else if s == "f8e4m3"@ {
            Some(PagedCacheType::F8E4M3)
        } else if s == "turbo4"@ {
            Some(PagedCacheType::Turbo4)
        } else {
            None
        }
    }

    /// What keeps a model from running with a cache of this format.
    pub open spec fn validation<M: ModelConfigLike>(
        self,
        act_dtype: ElementType,
        model_config: M,
        device: DeviceInfo,
        layer_devices: Seq<Option<DeviceInfo>>,
        backend: Backend,
    ) -> Option<CacheTypeError> {
        match self {
            PagedCacheType::Auto => None,
            PagedCacheType::Turbo4 => first_error(
                |i: usize| turbo4_layer_error(model_config.layer(i), i),
                0,
                model_config.layer_count(),
            ),
            PagedCacheType::F8E4M3 => if !(act_dtype is F16 || act_dtype is BF16
                || act_dtype is F32) {
                Some(CacheTypeError::Fp8Activations { dtype: act_dtype })
            } else {
                first_error(
                    |i: usize|
                        fp8_layer_error(
                            model_config.layer(i),
                            i,
                            layer_device(device, layer_devices, i as int),
                            backend,
                        ),
                    0,
                    model_config.layer_count(),
                )
            },
        }
    }

    /// The element type of a cache of this format. Packed blocks are plain bytes.
    pub fn to_dtype(&self, act_dtype: ElementType) -> (r: ElementType)
        ensures
            r == self.dtype(act_dtype),
    {
        match self {
            PagedCacheType::F8E4M3 => ElementType::F8E4M3,
            PagedCacheType::Turbo4 => ElementType::U8,
            PagedCacheType::Auto => act_dtype,
        }
    }

    /// Finds what keeps a model from running with a cache of this format: the first layer that
    /// does not suit it.
    pub fn check<M: ModelConfigLike>(
        &self,
        act_dtype: ElementType,
        model_config: &M,
        device: DeviceInfo,
        layer_devices: &[Option<DeviceInfo>],
        backend: Backend,
    ) -> (r: Result<(), CacheTypeError>)
        ensures
            r == (match self.validation(
                act_dtype,
                *model_config,
                device,
                layer_devices@,
                backend,
            ) {
                None => Ok(()),
                Some(e) => Err(e),
            }),
    {
        match self {
            PagedCacheType::Auto => Ok(()),
            PagedCacheType::Turbo4 => check_turbo4(model_config),
            PagedCacheType::F8E4M3 => {
                if act_dtype != ElementType::F16 && act_dtype != ElementType::BF16 && act_dtype
                    != ElementType::F32 {
                    return Err(CacheTypeError::Fp8Activations { dtype: act_dtype });
                }
                check_fp8(model_config, device, layer_devices, backend)
            },
        }
    }

    /// Refuses a format that a model cannot run with, and says why.
    pub fn validate<M: ModelConfigLike>(
        &self,
        act_dtype: ElementType,
        model_config: &M,
        device: DeviceInfo,
        layer_devices: &[Option<DeviceInfo>],
        backend: Backend,
    ) -> (r: Result<(), String>)
        ensures
            r is Ok <==> self.validation(
                act_dtype,
                *model_config,
                device,
                layer_devices@,
                backend,
            ) is None,
            r matches Err(s) ==> s@ == self.validation(
                act_dtype,
                *model_config,
                device,
                layer_devices@,
                backend,
            )->0.text(),
    {
        match self.check(act_dtype, model_config, device, layer_devices, backend) {
            Ok(_) => Ok(()),
            Err(e) => Err(e.message()),
        }
    }

    /// The format that a name stands for.
    pub fn from_str(s: &str) -> (r: Result<PagedCacheType, String>)
        ensures
            r is Ok <==> PagedCacheType::named(s@) is Some,
            r matches Ok(t) ==> PagedCacheType::named(s@) == Some(t),
            r matches Err(e) ==> e@ == "Unexpected `PagedCacheType`, got `"@ + s@
                + "` but expected `auto`, `f8e4m3`, and `turbo4`."@,
    {
        if same_text(s, "auto") {
            Ok(PagedCacheType::Auto)
        } else if same_text(s, "f8e4m3") {
            Ok(PagedCacheType::F8E4M3)
        } else if same_text(s, "turbo4") {
            Ok(PagedCacheType::Turbo4)
        } else {
            let mut e = "Unexpected `PagedCacheType`, got `".to_owned();
            e.append(s);
            e.append("` but expected `auto`, `f8e4m3`, and `turbo4`.");
            Err(e)
        }
    }
}

impl std::str::FromStr for PagedCacheType {
    type Err = String;

    fn from_str(s: &str) -> (r: Result<Self, String>)
        ensures
            r is Ok <==> PagedCacheType::named(s@) is Some,
            r matches Ok(t) ==> PagedCacheType::named(s@) == Some(t),
            r matches Err(e) ==> e@ == "Unexpected `PagedCacheType`, got `"@ + s@
                + "` but expected `auto`, `f8e4m3`, and `turbo4`."@,
    {
        PagedCacheType::from_str(s)
    }
}

fn check_turbo4<M: ModelConfigLike>(model_config: &M) -> (r: Result<(), CacheTypeError>)
    ensures
        r == (match first_error(
            |i: usize| turbo4_layer_error(model_config.layer(i), i),
            0,
            model_config.layer_count(),
        ) {
            None => Ok(()),
            Some(e) => Err(e),
        }),
{
    let ghost errors = |i: usize| turbo4_layer_error(model_config.layer(i), i);
    let n: usize = model_config.num_layers();
    let mut layer_idx: usize = 0;
    while layer_idx < n
        invariant
            layer_idx <= n,
            n == model_config.layer_count(),
            errors == (|i: usize| turbo4_layer_error(model_config.layer(i), i)),
            first_error(errors, 0, n) == first_error(errors, layer_idx as int, n),
        decreases n - layer_idx,
    {
        assert(errors(layer_idx) == turbo4_layer_error(model_config.layer(layer_idx), layer_idx));
        if model_config.layer_has_paged_kv_cache(layer_idx) {
            // A packed cache has a shape of its own, whichever layout the model would otherwise
            // prefer. Only MLA does not fit: it caches no vector per head that could be rotated.
            if let KvCacheLayout::Mla { .. } = model_config.kv_cache_layout_for_layer(layer_idx) {
                return Err(CacheTypeError::Turbo4Mla { layer: layer_idx });
            }
            let k_head_dim: usize = model_config.k_head_dim_for_layer(layer_idx);
            let v_head_dim: usize = model_config.v_head_dim_for_layer(layer_idx);
            if !is_multiple_of(k_head_dim, GROUP) || !is_multiple_of(v_head_dim, GROUP) {
                return Err(
                    CacheTypeError::Turbo4HeadDim { layer: layer_idx, k_head_dim, v_head_dim },
                );
            }
        }
        layer_idx += 1;
    }
    Ok(())
}

fn check_fp8<M: ModelConfigLike>(
    model_config: &M,
    device: DeviceInfo,
    layer_devices: &[Option<DeviceInfo>],
    backend: Backend,
) -> (r: Result<(), CacheTypeError>)
    ensures
        r == (match first_error(
            |i: usize|
                fp8_layer_error(
                    model_config.layer(i),
                    i,
                    layer_device(device, layer_devices@, i as int),
                    backend,
                ),
            0,
            model_config.layer_count(),
        ) {
            None => Ok(()),
            Some(e) => Err(e),
        }),
{
    let ghost errors = |i: usize|
        fp8_layer_error(
            model_config.layer(i),
            i,
            layer_device(device, layer_devices@, i as int),
            backend,
        );
    let n: usize = model_config.num_layers();
    let mut layer_idx: usize = 0;
    while layer_idx < n
        invariant
            layer_idx <= n,
            n == model_config.layer_count(),
            errors == (|i: usize|
                fp8_layer_error(
                    model_config.layer(i),
                    i,
                    layer_device(device, layer_devices@, i as int),
                    backend,
                )),
            first_error(errors, 0, n) == first_error(errors, layer_idx as int, n),
        decreases n - layer_idx,
    {
        assert(errors(layer_idx) == fp8_layer_error(
            model_config.layer(layer_idx),
            layer_idx,
            layer_device(device, layer_devices@, layer_idx as int),
            backend,
        ));
        if model_config.layer_has_paged_kv_cache(layer_idx) {
            if let KvCacheLayout::Mla { .. } = model_config.kv_cache_layout_for_layer(layer_idx) {
                return Err(CacheTypeError::Fp8Mla { layer: layer_idx });
            }
            let own: Option<DeviceInfo> = if layer_idx < layer_devices.len() {
                layer_devices[layer_idx]
            } else {
                None
            };
            let place: DeviceInfo = match own {
                Some(d) => d,
                None => device,
            };
            match place.kind {
                DeviceKind::Cuda => {
                    if !backend.cuda {
                        return Err(CacheTypeError::Fp8NeedsCuda);
                    }
                    if !cuda_supports_fp8(place, backend) {
                        return Err(CacheTypeError::Fp8ComputeCapability);
                    }
                },
                DeviceKind::Metal => {
                    if !backend.metal {
                        return Err(CacheTypeError::Fp8NeedsMetal);
                    }
                },
                DeviceKind::Cpu => {
                    return Err(CacheTypeError::Fp8Device { layer: layer_idx });
                },
            }
        }
        layer_idx += 1;
    }
    Ok(())
}

/// Query heads for each key head of a layer.
pub open spec fn gqa_ratio(layer: LayerConfig) -> int {
    if layer.num_kv_heads > 0 {
        layer.num_attn_heads as int / layer.num_kv_heads as int
    } else {
        1
    }
}

/// Whether a layer lies at the boundary of the model, in the sense of an adaptive mode.
pub open spec fn is_boundary(adaptive_mode: i32, layer_idx: int, n_layer: int) -> bool {
    &&& n_layer >= 8
    &&& {
        ||| adaptive_mode == 1 && (layer_idx < 4 || layer_idx >= n_layer - 4)
        ||| adaptive_mode == 2 && layer_idx >= n_layer - 8
    }
}

/// The sides of a layer that hold packed blocks.
pub open spec fn layer_plan<M: ModelConfigLike>(
    model_config: M,
    layer_idx: usize,
    settings: Turbo4Settings,
) -> Turbo4LayerPlan {
    let boundary = is_boundary(
        settings.adaptive_mode,
        layer_idx as int,
        model_config.layer_count() as int,
    );
    Turbo4LayerPlan {
        k_is_turbo: !boundary && (settings.auto_asymmetric_disabled || gqa_ratio(
            model_config.layer(layer_idx),
        ) < AUTO_ASYMMETRIC_GQA_THRESHOLD),
        v_is_turbo: !boundary,
    }
}

/// Whether keys stay plain because many query heads share them.
pub fn auto_asymmetric_upgrades_k(gqa_ratio: usize, disabled: bool) -> (r: bool)
    ensures
        r == (!disabled && gqa_ratio >= AUTO_ASYMMETRIC_GQA_THRESHOLD),
{
    !disabled && gqa_ratio >= AUTO_ASYMMETRIC_GQA_THRESHOLD
}

/// Whether a layer lies at the boundary of the model. Mode 1 takes the first and the last four
/// layers, mode 2 the last eight, any other mode none; a model of fewer than eight layers has no
/// boundary.
pub fn layer_is_boundary(adaptive_mode: i32, layer_idx: usize, n_layer: usize) -> (r: bool)
    ensures
        r == is_boundary(adaptive_mode, layer_idx as int, n_layer as int),
{
    if n_layer < 8 {
        return false;
    }
    if adaptive_mode == 1 {
        layer_idx < 4 || layer_idx >= n_layer - 4
    } else if adaptive_mode == 2 {
        layer_idx >= n_layer - 8
    } else {
        false
    }
}

/// Which sides of a layer hold packed blocks.
pub fn turbo4_layer_plan<M: ModelConfigLike>(
    model_config: &M,
    layer_idx: usize,
    settings: Turbo4Settings,
) -> (r: Turbo4LayerPlan)
    ensures
        r == layer_plan(*model_config, layer_idx, settings),
{
    let num_attn_heads: usize = model_config.num_attn_heads_for_layer(layer_idx);
    let num_kv_heads: usize = model_config.num_kv_heads_for_layer(layer_idx);
    let gqa_ratio: usize = if num_kv_heads > 0 {
        num_attn_heads / num_kv_heads
    } else {
        1
    };
    let mut k_is_turbo = !auto_asymmetric_upgrades_k(gqa_ratio, settings.auto_asymmetric_disabled);
    let mut v_is_turbo = true;
    if layer_is_boundary(settings.adaptive_mode, layer_idx, model_config.num_layers()) {
        k_is_turbo = false;
        v_is_turbo = false;
    }
    Turbo4LayerPlan { k_is_turbo, v_is_turbo }
}

/// The first layer from `from` on that keeps a paged cache.
pub open spec fn first_paged_layer<M: ModelConfigLike>(model_config: M, from: int) -> Option<usize>
    decreases model_config.layer_count() - from,
{
    if from >= model_config.layer_count() {
        None
    } else if model_config.layer(from as usize).has_paged_kv_cache {
        Some(from as usize)
    } else {
        first_paged_layer(model_config, from + 1)
    }
}

/// What a user should hear of the keys of a model, going by its first layer with a paged cache.
pub open spec fn plain_keys<M: ModelConfigLike>(model_config: M, settings: Turbo4Settings) -> Option<
    PlainKeysNotice,
> {
    match first_paged_layer(model_config, 0) {
        None => None,
        Some(i) => {
            let layer = model_config.layer(i);
            if layer_plan(model_config, i, settings).k_is_turbo {
                None
            } else {
                Some(
                    PlainKeysNotice {
                        gqa_ratio: if layer.num_kv_heads > 0 {
                            layer.num_attn_heads / layer.num_kv_heads
                        } else {
                            0
                        },
                        num_attn_heads: layer.num_attn_heads,
                        num_kv_heads: layer.num_kv_heads,
                    },
                )
            }
        },
    }
}

/// What a user who picks a Turbo4 cache should hear of keys that stay plain. The first layer with
/// a paged cache stands for the model.
pub fn plain_keys_notice<M: ModelConfigLike>(model_config: &M, settings: Turbo4Settings) -> (r:
    Option<PlainKeysNotice>)
    ensures
        r == plain_keys(*model_config, settings),
{
    let n: usize = model_config.num_layers();
    let mut layer_idx: usize = 0;
    while layer_idx < n
        invariant
            layer_idx <= n,
            n == model_config.layer_count(),
            first_paged_layer(*model_config, 0) == first_paged_layer(
                *model_config,
                layer_idx as int,
            ),
        decreases n - layer_idx,
    {
        if model_config.layer_has_paged_kv_cache(layer_idx) {
            let plan = turbo4_layer_plan(model_config, layer_idx, settings);
            if plan.k_is_turbo {
                return None;
            }
            let num_attn_heads: usize = model_config.num_attn_heads_for_layer(layer_idx);
            let num_kv_heads: usize = model_config.num_kv_heads_for_layer(layer_idx);
            let gqa_ratio: usize = if num_kv_heads > 0 {
                num_attn_heads / num_kv_heads
            } else {
                0
            };
            return Some(PlainKeysNotice { gqa_ratio, num_attn_heads, num_kv_heads });
        }
        layer_idx += 1;
    }
    None
}

/// Whether a character is a decimal digit.
pub open spec fn is_digit(c: char) -> bool {
    '0' <= c && c <= '9'
}

/// The value of a row of decimal digits.
pub open spec fn digits_value(s: Seq<char>) -> int
    decreases s.len(),
{
    if s.len() == 0 {
        0
    } else {
        10 * digits_value(s.drop_last()) + (s.last() as int - '0' as int)
    }
}

/// The 32-bit number that a text denotes: an optional sign and at least one decimal digit.
pub open spec fn number_i32(s: Seq<char>) -> Option<i32> {
    let signed = s.len() > 0 && (s[0] == '-' || s[0] == '+');
    let digits = if signed {
        s.skip(1)
    } else {
        s
    };
    let value = if signed && s[0] == '-' {
        -digits_value(digits)
    } else {
        digits_value(digits)
    };
    if digits.len() > 0 && (forall|i: int| 0 <= i < digits.len() ==> is_digit(#[trigger] digits[i]))
        && i32::MIN <= value <= i32::MAX {
        Some(value as i32)
    } else {
        None
    }
}

/// `str::parse` at `i32`: an optional sign followed by decimal digits only, within the range of
/// the type.
#[verifier::external_body]
fn parse_i32(s: &str) -> (r: Option<i32>)
    ensures
        r == number_i32(s@),
{
    s.parse::<i32>().ok()
}

impl Default for Turbo4Settings {
    fn default() -> (r: Turbo4Settings)
        ensures
            r == (Turbo4Settings { auto_asymmetric_disabled: false, adaptive_mode: 0 }),
    {
        Turbo4Settings { auto_asymmetric_disabled: false, adaptive_mode: 0 }
    }
}

impl Turbo4Settings {
    /// The settings that texts ask for.
    pub open spec fn asked_for(
        auto_asymmetric: Option<Seq<char>>,
        layer_adaptive: Option<Seq<char>>,
    ) -> Turbo4Settings {
        Turbo4Settings {
            auto_asymmetric_disabled: auto_asymmetric == Some("0"@),
            adaptive_mode: match layer_adaptive {
                Some(s) => match number_i32(s) {
                    Some(mode) => mode,
                    None => 0,
                },
                None => 0,
            },
        }
    }

    /// The settings that the environment asks for. `auto_asymmetric` is the value of
    /// `MISTRALRS_TURBO4_AUTO_ASYMMETRIC`, which keeps keys packed where it is `0`.
    /// `layer_adaptive` is that of `MISTRALRS_TURBO4_LAYER_ADAPTIVE`, the adaptive mode, where it
    /// is a number.
    pub fn from_env(auto_asymmetric: &Option<String>, layer_adaptive: &Option<String>) -> (r:
        Turbo4Settings)
        ensures
            r == Turbo4Settings::asked_for(
                match auto_asymmetric {
                    Some(s) => Some(s@),
                    None => None,
                },
                match layer_adaptive {
                    Some(s) => Some(s@),
                    None => None,
                },
            ),
            r.auto_asymmetric_disabled == (auto_asymmetric matches Some(s) && s@ == "0"@),
            r.adaptive_mode == (match layer_adaptive {
                Some(s) => match number_i32(s@) {
                    Some(mode) => mode,
                    None => 0i32,
                },
                None => 0i32,
            }),
    {
        let auto_asymmetric_disabled = match auto_asymmetric {
            Some(s) => same_text(s.as_str(), "0"),
            None => false,
        };
        let adaptive_mode: i32 = match layer_adaptive {
            Some(s) => match parse_i32(s.as_str()) {
                Some(mode) => mode,
                None => 0,
            },
            None => 0,
        };
        Turbo4Settings { auto_asymmetric_disabled, adaptive_mode }
    }
}

} // verus!
