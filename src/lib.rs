//! Runs a headless Electrum wallet daemon for integration tests.
//!
//! The library holds the decisions: where the executable comes from, where the
//! working directory is rooted, the paths, arguments and configuration text of
//! one daemon instance, and the state machines that bring the daemon up and
//! take it down. The caller performs the actions that those machines ask for
//! and reports how each went.

pub mod conf;
pub mod error;
pub mod exe;
pub mod lifecycle;
pub mod params;
pub mod password;
pub mod plan;
pub mod reachability;
pub mod status;
pub mod teardown;
pub mod text;
pub mod versions;

pub use conf::{Conf, TempRoot};
pub use error::Error;
pub use exe::{downloaded_exe_path, select_exe_path};
pub use lifecycle::{Action, Event, Phase, Startup};
pub use params::{ConnectParams, SocketAddrV4};
pub use password::rand_string;
pub use plan::StartupPlan;
pub use teardown::{Teardown, TeardownKind};
