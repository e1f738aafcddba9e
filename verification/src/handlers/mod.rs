//! What each intercepted syscall means, is recorded as, and returns.
//!
//! A trapped syscall stops at its entry. [`entry::handle_entry`] looks at its registers
//! and, step by step, at the tracee's memory and the file it is about, until it is
//! decided what becomes of it ([`action::Disposition`]): it passes through, it runs and
//! its result is changed afterwards, or it is skipped and its result made up. What is to
//! be done at the exit stop ([`action::ExitAction`]) is carried out by
//! [`exit::apply_exit_action`].
//!
//! - [`registry`]: which syscalls are intercepted, and by which family of handlers.
//! - [`plan`]: what the registers of a syscall ask for.
//! - [`entry`] and [`exit`]: the two stops of a syscall.
//! - [`overlay`]: how faked fields are laid over a real stat result.
//! - [`outcome`]: the whole of a syscall's entry, as one function of the world it sees.
//! - [`syscalls`] and [`attributes`]: what each syscall does, from its registers on.
//! - [`laws`]: what holds across syscalls.

pub mod action;
pub mod attributes;
pub mod entry;
pub mod exit;
pub mod laws;
pub mod outcome;
pub mod overlay;
pub mod plan;
pub mod registry;
pub mod syscalls;
