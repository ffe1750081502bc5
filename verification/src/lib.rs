//! Sans-I/O core of a Bluetooth device panel.
//!
//! The crate holds the decisions of the panel and none of its I/O. A
//! caller performs the transport calls that the gateway asks for and feeds
//! the replies back; it runs the jobs that the coordinator hands out and
//! reports their ends.
//!
//! - [`config`]: the settings record and its defaults.
//! - [`device`]: device records, built from what the transport answers.
//! - [`text`] and [`ordering`]: the display order of device records.
//! - [`command`] and [`error`]: the commands and the conditions that the
//!   service tells apart.
//! - [`gateway`]: gateway operations as conversations with the transport;
//!   [`conversation`] holds what is true of every such conversation.
//! - [`coordinator`]: the single owner of the gateway and keeper of the
//!   shown device list; [`schedule`] holds what is true of every course of
//!   events at the coordinator.
//! - [`panel`]: what the panel shows, as plain values.

pub mod command;
pub mod config;
pub mod conversation;
pub mod coordinator;
pub mod device;
pub mod error;
pub mod gateway;
pub mod ordering;
pub mod panel;
pub mod schedule;
pub mod text;

pub use command::{Command, CommandKind};
pub use config::Config;
pub use coordinator::Coordinator;
pub use device::{BluetoothDevice, DeviceProbe};
pub use error::ServiceError;
pub use gateway::BluetoothService;
pub use ordering::OrderingPolicy;
pub use panel::DeviceRow;
