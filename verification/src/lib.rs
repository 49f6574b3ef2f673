//! A fixed-capacity numeric compute kernel: three equally sized buffers of
//! IEEE 754 binary64 values, held as their bit patterns, together with the
//! aggregate and elementwise operations a host drives over them.

pub mod arith;
pub mod kernel;

pub use kernel::BufferPool;
