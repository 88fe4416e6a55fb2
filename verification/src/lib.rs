//! Verified core of a prompt manager.
//!
//! A prompt manager is a titled entry that may activate one action (such as
//! comparing prompts) and carries a set of tags. The crate holds the rules
//! that keep a manager, its single action extension row and its tag
//! associations consistent, and the versioning rules of comparing-prompt
//! settings. Storage itself stays outside: every repository operation is a
//! plan that names the next statement to run and decides on the reply. A
//! reference storage engine in memory gives the statements their meaning, and
//! the plans are proved against it.

pub mod common;
pub mod domain;
pub mod infra;
pub mod usecase;
