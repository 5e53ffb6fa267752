//! Lifecycle of a software-emulated display adapter: which entry points the
//! driver exposes, which monitor indices this process has handed out, and the
//! decisions that bring a device up with one default monitor.

pub mod binding;
pub mod manager;
pub mod registry;
