//! A bridge that drives a line-oriented Tcl/Tk interpreter running as a child
//! process, with the decisions of its command/response protocol verified, and
//! the command lines of the window-manager operations built on it.

pub mod commands;
pub mod error;
pub mod protocol;
pub mod window_manager;

pub use error::InterpreterError;
pub use window_manager::{TkOption, WMAspectRatio, X11WMAttrType};
