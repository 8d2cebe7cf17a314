//! Verified decision logic of a Windows utility that keeps the IME mode
//! unchanged while text is selected with Shift+Click.
//!
//! The low-level keyboard and mouse hooks, the service control manager
//! plumbing and the command line are driven by the program in `app/`; every
//! decision they take is a function of this crate with a contract.

pub mod win32;
pub mod text;
pub mod hook;
pub mod service;
pub mod cli;
