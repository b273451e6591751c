//! Compile-time configuration of the kernel: addresses, sizes and limits.
use vstd::prelude::*;

verus! {

/// Physical address at which the kernel image is linked.
pub const BASE_ADDRESS: usize = 0x4020_0000;

/// Frequency of the `mtime` counter, in ticks per second.
pub const MTIME_FREQUENCY: usize = 4_000_000;

/// Size of each user stack, in bytes.
pub const USER_STACK_SIZE: usize = 8192;

/// Size of each kernel stack, in bytes.
pub const KERNEL_STACK_SIZE: usize = 8192;

/// Number of task slots the kernel manages.
pub const MAX_APP_NUM: usize = 16;

/// Address of the region that application 0 is loaded to.
pub const APP_BASE_ADDRESS: usize = 0x4040_0000;

/// Size of the region reserved for each application image.
pub const APP_SIZE_LIMIT: usize = 0x20_0000;

/// Name of the lowest log level that is printed.
pub const LOG_LEVEL_NAME: &'static str = "debug";

} // verus!
