//! A small single-page application core: page and layout state keyed into a
//! host key/value storage, a severity-filtered log bridge over a channel, and
//! a bounded ring buffer of recent log lines.
//!
//! The rendering, the host storage itself and the process-wide logger
//! installation live outside this crate; everything here is verified logic
//! over plain values.

pub mod app;
pub mod channel;
pub mod logger;
pub mod ring;

pub use app::MyApp;
pub use logger::{Logger, Transmitted as LogType};
