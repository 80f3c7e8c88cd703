//! Paged key/value caches, among them the Turbo4 format: head vectors rotated by a fixed signed
//! Walsh-Hadamard transform and quantized to four bits a coefficient.
//!
//! - [`model`] is what the cache asks of a model, [`cache_type`] the formats and which models they
//!   suit, [`cache_engine`] the tensors of a model.
//! - [`turbo_quant`] is the block format, [`rotation`] the steps of its rotation.
//! - [`gather`] and [`paged_attention`] prepare the calls of the kernels that read a cache;
//!   [`kernels`] is what they share.
//! - [`tensor`] is the boundary to the tensor library, [`text`] writes numbers into messages.
//! - [`laws`] is what holds across these parts. [`plan_laws`] states which formats suit which models
//!   and layers, [`cache_laws`] what tensors a model is given and how they are read back,
//!   [`kernel_laws`] when the kernels are called and with what, and [`message_laws`] what the
//!   messages say.
pub mod cache_engine;
pub mod cache_laws;
pub mod cache_type;
pub mod gather;
pub mod kernel_laws;
pub mod kernels;
pub mod laws;
pub mod message_laws;
pub mod model;
pub mod paged_attention;
pub mod plan_laws;
pub mod rotation;
pub mod tensor;
pub mod text;
pub mod turbo_quant;
