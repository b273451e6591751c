//! A small RISC-V teaching kernel and its user library, with the kernel's
//! scheduling, loading, trap and system-call decisions stated and proved.
pub mod config;
pub mod app_loader;
pub mod trap;
pub mod task;
pub mod log;
pub mod sys_call;
pub mod time;
pub mod usr;
pub mod batch;
pub mod stack_trace;
