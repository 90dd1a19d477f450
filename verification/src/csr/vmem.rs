//! The words of the translation schemes, for those who look for them next to
//! the registers.
//!
//! These are no registers but words in memory; their layouts live in
//! [`crate::vmem`].
pub use crate::vmem::{
    PAddr32, PAddr39, PAddr48, PAddr57, Pte32, Pte39, Pte48, Pte57, VAddr32, VAddr39, VAddr48,
    VAddr57,
};
