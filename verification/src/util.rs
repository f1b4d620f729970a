pub mod atomic;
pub mod float_bits;
