//! Supervision of one backend server process on behalf of a desktop shell.
//!
//! The crate decides; the host acts. It resolves where the backend executable
//! and its data root live, lays out the command to spawn, sequences the steps
//! of a launch, and owns the slot through which the running child is taken
//! exactly once at shutdown. Touching the disk and the process table is left
//! to the host, which reports each outcome back.

pub mod error;
pub mod launcher;
pub mod lifecycle;
pub mod paths;
pub mod plan;
pub mod slot;

pub use error::LaunchError;
pub use error::LogTarget;
pub use launcher::launch;
pub use launcher::HostRequest;
pub use launcher::LaunchRun;
pub use launcher::LaunchStep;
pub use launcher::Launched;
pub use lifecycle::react;
pub use lifecycle::ShellAction;
pub use lifecycle::ShellEvent;
pub use paths::backend_binary_path;
pub use paths::resolve_data_root;
pub use paths::BuildMode;
pub use paths::HostDirs;
pub use plan::port_text;
pub use plan::LaunchSpec;
pub use plan::BACKEND_PORT;
pub use slot::BackendSlot;
pub use slot::ShutdownAction;
