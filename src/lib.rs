//! Resolution and installation of the CSpell language server binary.
//!
//! The library decides, step by step, where the language server comes from
//! (the search path, a cached install, or a fresh download) and what must be
//! done to make it runnable. The host performs each requested action and
//! reports back the outcome.

pub mod cleanup;
pub mod locator;
pub mod naming;
pub mod release;
