//! `srun` runs tasks in a sandbox: a task lists stages, and each stage is a
//! script that runs in a container built for it.
//!
//! This library holds what such a runner decides, and proves it:
//!
//! - [`task`] plans a task: the stages in order, with what each leaves open
//!   filled in from the defaults.
//! - [`asset`] tells where an asset comes from.
//! - [`permission`] and [`path`] decide which host paths a task may read
//!   and write, and whether it may use the network.
//! - [`sandbox`] writes the containerfile and the stage script, reads the
//!   build output, chooses the binds and limits of a container, forwards
//!   its log and reads its exit code.
//! - [`reporter`] is what the output of a stage is reported to.
//! - [`runner`] keeps the status of a task and drives a task through its
//!   stages.
//! - [`error`] and [`text`] hold the errors and the text helpers that the
//!   others share.
//!
//! The library talks to no container engine and touches no file: its caller
//! does the work that it asks for and tells it how the work went.

pub mod asset;
pub mod error;
pub mod path;
pub mod permission;
pub mod reporter;
pub mod runner;
pub mod sandbox;
pub mod task;
pub mod text;

pub use error::Error;
pub use path::HostPath;
pub use permission::{Permissions, PermissionsOptions};
pub use reporter::Reporter;
pub use runner::Runner;
pub use task::Task;
