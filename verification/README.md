# turbo_kv_cache

Paged key/value caches for attention, with contracts that Verus proves.

A cache holds plain elements, FP8 elements, or Turbo4 blocks: head vectors that are rotated by a
fixed signed Walsh-Hadamard transform and quantized to four bits a coefficient, 66 bytes for 128
coefficients.

- `src/` is the verified library. It decides which models a format suits, lays out and makes the
  tensors of a model, fixes the block format, and prepares the calls of the kernels that read a
  cache. `src/laws.rs` and the public lemmas of `src/rotation.rs` and `src/turbo_quant.rs` state
  what holds across these parts.
- `app/` is the ordinary Rust around it: environment variables, the log, locks, floating-point
  arithmetic, and the trait that a device build implements with its kernels.
- `tests/` runs the library against `candle-core` on the CPU.

Tensors belong to `candle-core`. The library reads their dimensions, element types and device
families and makes zeroed or row-major ones; the contracts of those calls in `src/tensor.rs` are
taken on trust, as is that of `str::parse` at `i32` in `src/cache_type.rs`.
