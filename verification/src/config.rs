//! Tunable constants of the runtime.

use vstd::prelude::*;

verus! {

/// Number of bytes asked of a source in one read.
pub const READ_BUF_SIZE: usize = 4;

/// Size of the write buffer from which a write also flushes.
pub const MAX_WRITE_BUF_SIZE: usize = 16;

/// Deadline of one operation, in milliseconds, where none was configured.
pub const DEFAULT_CONN_TIMEOUT: u64 = 60000;

} // verus!
