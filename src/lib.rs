//! Host side of a system-call interface for sandboxed guest programs: a
//! bounds-checked view of guest linear memory, typed guest pointers, a
//! capability-rights checked descriptor table and the calls that the guest
//! imports.

pub mod error;
pub mod memory;
pub mod ptr;
pub mod rights;
pub mod fd;
pub mod buffers;
pub mod state;
pub mod syscalls;
pub mod laws;
