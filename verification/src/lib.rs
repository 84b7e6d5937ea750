//! Post-build patch step for a prebuilt static library: plans the fixed
//! sequence of external-tool invocations that copies the installed library,
//! renames its conflicting entry-point symbol, and re-archives the patched
//! object, together with the fail-fast rules that tie the steps together.
//!
//! The crate holds the decisions: which command to run next, with exactly
//! which arguments, what a nonzero exit status means, and what the failure
//! handler must clean up. The caller performs the filesystem work and child
//! processes and reports each exit status back.

pub mod command;
pub mod dispatch;
pub mod perms;
pub mod pipeline;
