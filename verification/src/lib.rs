//! Vectors whose storage is fixed when they are built: a `NoResizableVec`
//! never grows past the capacity it was created with.

pub mod no_resizable_vec;
pub mod laws;
