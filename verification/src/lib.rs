//! Kernel object model of a minimal multi-process platform that sits on top
//! of a bare-metal kernel: composite identifiers and the handles made of
//! them, the lifecycle of each process and how it follows the scheduler
//! underneath, mailboxes that carry bitmaps of signals, channels of shared
//! memory with one writer and one reader, and the dispatcher that maps
//! numbered commands onto all of these.
//!
//! Every operation runs to its end at once and answers with a value; none
//! panics on what an application hands in. What the platform has to do as a
//! consequence (stop a process, deliver a notification) is recorded in the
//! kernel's state, for the platform to carry out.
#![allow(non_camel_case_types)]
#![allow(non_snake_case)]
#![allow(non_upper_case_globals)]

pub mod mloi;
pub mod process;
pub mod mailbox;
pub mod ipc;
pub mod registry;
pub mod vppkernel;
pub mod driver;
pub mod loader;
pub mod console;
pub mod vff;
pub mod mgt_service;
pub mod laws;
