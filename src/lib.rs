//! Supervision core for a fixed set of externally launched child processes.
//!
//! The library holds the state of every supervised process, decides what a
//! start/stop request or an incoming event does to it, and decides what each
//! background listener forwards. Launching processes, draining pipes and
//! delivering events over a channel is left to the embedding program, which
//! hands the outcomes back as plain values.
use vstd::prelude::*;

pub mod definition;
pub mod error;
pub mod event;
pub mod home;
pub mod hosted_process;
pub mod laws;
pub mod listener;
pub mod settings;
pub mod status;

pub use definition::ProcessDefinition;
pub use error::MultiHostError;
pub use event::{Event, RunTag};
pub use home::{HomeScreen, StartStop};
pub use hosted_process::HostedProcess;
pub use listener::ListenerStep;
pub use settings::{SettingsMessage, SettingsScreen};
pub use status::ProcessStatus;
