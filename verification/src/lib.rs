//! The verified core of a status bar for the niri compositor: the model of
//! the compositor's windows and workspaces, how that model follows the
//! compositor's event stream, the requests the bar sends over niri's IPC
//! socket, and the decisions the bar's widgets make when the focus moves.
//!
//! Everything that touches the socket, the filesystem or GTK lives in `app/`,
//! which hands plain values to the functions here and performs the actions
//! they return.

pub mod types;
pub mod state;
pub mod socket;
pub mod ui;
pub mod tasks;
