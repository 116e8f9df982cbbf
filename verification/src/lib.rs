//! Fallible arithmetic, ownership and trait polymorphism in small, each function with a
//! contract that pins down its result.

pub mod animals;
pub mod custom_error;
pub mod decimal;
pub mod division;
pub mod outcome;
pub mod ownership;
pub mod propagation;
pub mod vehicles;
