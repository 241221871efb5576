pub mod batch;
pub mod config;
pub mod ecall;
pub mod loader;
pub mod sbi;
pub mod sync;
pub mod syscall;
pub mod task;
pub mod trap;
pub mod user;
