//! Tree walks over a function body and the types found in it.
pub mod generics;
pub mod fnerr;
