//! Structs whose last field may be dynamically sized, and references to
//! them that carry the element count of that last field.

pub mod containers;
pub mod fat_ref;

pub use containers::{ignore, MaybeUnsizedStruct, MaybeUnsizedStruct2, Trailing};
pub use fat_ref::FatRef;
