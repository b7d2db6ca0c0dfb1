pub mod value;
pub mod list;
pub mod fib;
pub mod laws;
pub mod one_bit;
pub mod boxed;
