//! Hosting and administration of operating-system managed background services.
//!
//! The crate holds the decisions of a service host: how control signals become
//! events, which status is reported when, and how administrative requests are
//! carried out step by step against a service manager.

pub mod android;
pub mod control;
pub mod dispatch;
pub mod error;
pub mod event;
pub mod level;
pub mod linux;
pub mod status;
pub mod text;
pub mod windows;

pub use event::{ServiceEvent, Session};
pub use level::LogLevel;
