pub mod int_traits;
pub mod bits;
