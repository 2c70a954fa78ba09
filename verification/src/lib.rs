//! Model of a minimal desktop shell that hosts a web application in a
//! native window.
//!
//! The shell's observable behavior has two parts, each a module here:
//!
//! * [`menu`] — the static, four-branch native application menu that the
//!   shell installs at startup, built from platform-predefined items;
//! * [`window`] — the window-lifecycle state machine: a startup hook that
//!   shows the main window after a fixed delay, and a hide-on-close policy
//!   under which a close request hides the window instead of terminating
//!   the process.
//!
//! The host GUI toolkit performs the actual windowing and menu system
//! calls; the logic here decides what those calls should be and what state
//! the shell is in afterwards.

pub mod menu;
pub mod window;
