//! What the cache asks of a model: how many layers it has and how each of them attends.
use vstd::prelude::*;

verus! {

/// How a layer lays its key/value cache out.
#[derive(Clone, Copy, Debug, PartialEq, Eq, Structural)]
pub enum KvCacheLayout {
    Standard,
    StandardNoFlashInfer,
    FlashInferHnd,
    Mla { kv_lora_rank: usize, kpe_head_dim: usize },
}

/// One attention layer.
#[derive(Clone, Copy, Debug, PartialEq, Eq, Structural)]
pub struct LayerConfig {
    /// Hybrid models keep no paged cache on linear or recurrent layers.
    pub has_paged_kv_cache: bool,
    pub kv_cache_layout: KvCacheLayout,
    pub num_attn_heads: usize,
    pub num_kv_heads: usize,
    pub k_head_dim: usize,
    pub v_head_dim: usize,
}

/// A model, layer by layer.
pub trait ModelConfigLike {
    /// The number of layers.
    spec fn layer_count(&self) -> usize;

    /// The layer with this index.
    spec fn layer(&self, layer_idx: usize) -> LayerConfig;

    fn num_layers(&self) -> (r: usize)
        ensures
            r == self.layer_count(),
    ;

    fn layer_has_paged_kv_cache(&self, layer_idx: usize) -> (r: bool)
        ensures
            r == self.layer(layer_idx).has_paged_kv_cache,
    ;

    fn kv_cache_layout_for_layer(&self, layer_idx: usize) -> (r: KvCacheLayout)
        ensures
            r == self.layer(layer_idx).kv_cache_layout,
    ;

    fn num_attn_heads_for_layer(&self, layer_idx: usize) -> (r: usize)
        ensures
            r == self.layer(layer_idx).num_attn_heads,
    ;

    fn num_kv_heads_for_layer(&self, layer_idx: usize) -> (r: usize)
        ensures
            r == self.layer(layer_idx).num_kv_heads,
    ;

    fn k_head_dim_for_layer(&self, layer_idx: usize) -> (r: usize)
        ensures
            r == self.layer(layer_idx).k_head_dim,
    ;

    fn v_head_dim_for_layer(&self, layer_idx: usize) -> (r: usize)
        ensures
            r == self.layer(layer_idx).v_head_dim,
    ;
}

/// A model whose layers are all alike.
#[derive(Clone, Debug)]
pub struct ModelConfigMetadata {
    pub max_seq_len: usize,
    pub num_layers: usize,
    pub hidden_size: usize,
    pub num_kv_heads: usize,
    pub num_attn_heads: usize,
    pub sliding_window: Option<usize>,
    pub k_head_dim: usize,
    pub v_head_dim: usize,
    pub kv_cache_layout: KvCacheLayout,
}

impl ModelConfigLike for ModelConfigMetadata {
    open spec fn layer_count(&self) -> usize {
        self.num_layers
    }

    open spec fn layer(&self, layer_idx: usize) -> LayerConfig {
        LayerConfig {
            has_paged_kv_cache: true,
            kv_cache_layout: self.kv_cache_layout,
            num_attn_heads: self.num_attn_heads,
            num_kv_heads: self.num_kv_heads,
            k_head_dim: self.k_head_dim,
            v_head_dim: self.v_head_dim,
        }
    }

    fn num_layers(&self) -> usize {
        self.num_layers
    }

    fn layer_has_paged_kv_cache(&self, layer_idx: usize) -> bool {
        true
    }

    fn kv_cache_layout_for_layer(&self, layer_idx: usize) -> KvCacheLayout {
        self.kv_cache_layout
    }

    fn num_attn_heads_for_layer(&self, layer_idx: usize) -> usize {
        self.num_attn_heads
    }

    fn num_kv_heads_for_layer(&self, layer_idx: usize) -> usize {
        self.num_kv_heads
    }

    fn k_head_dim_for_layer(&self, layer_idx: usize) -> usize {
        self.k_head_dim
    }

    fn v_head_dim_for_layer(&self, layer_idx: usize) -> usize {
        self.v_head_dim
    }
}

} // verus!
