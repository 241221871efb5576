use vstd::prelude::*;

verus! {

/// Number of application slots the kernel manages.
pub const MAX_APP_NUM: usize = 16;

/// Physical address at which the first application slot starts.
pub const APP_BASE_ADDRESS: usize = 0x8040_0000;

/// Size in bytes of one application slot.
pub const APP_SIZE_LIMIT: usize = 0x20_000;

/// Size in bytes of each kernel stack.
pub const KERNEL_STACK_SIZE: usize = 8192;

/// Size in bytes of each user stack.
pub const USER_STACK_SIZE: usize = 8192;

} // verus!
