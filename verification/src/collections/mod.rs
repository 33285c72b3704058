//! Collections the runtime keeps its wakers in.

pub mod box_ptr_set;
pub mod hash_set;
