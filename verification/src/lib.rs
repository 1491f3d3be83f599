//! Utility to run a regtest LND process, useful in integration testing environments.
//!
//! The crate decides; it never touches the outside world. [`Lnd::with_conf`] starts a
//! [`Launch`], which says at each point what has to be done next ([`Launch::action`]) and takes
//! what came of it ([`Launch::step`]), until there is a running [`Lnd`] or a failure.

pub mod args;
pub mod conf;
pub mod error;
pub mod exe;
pub mod launch;
pub mod laws;
pub mod node;
pub mod paths;
pub mod protocol;
pub mod results;
pub mod rpc;
pub mod text;
pub mod zmq;

pub use conf::Conf;
pub use error::Error;
pub use exe::downloaded_exe_path;
pub use exe::exe_path;
pub use exe::exe_variables;
pub use exe::EnvVar;
pub use exe::ExeLookup;
pub use launch::Action;
pub use launch::Event;
pub use launch::Failure;
pub use launch::Launch;
pub use node::DataDir;
pub use node::Lnd;
pub use zmq::setup_bitcoind;
