//! Read single keys from a terminal in raw mode.
//!
//! The library holds the decisions: which local-mode bits raw and cooked
//! mode clear or set in a terminal's attributes, and which byte a one-byte
//! read yields. Fetching and applying the attributes, and the read itself,
//! are left to the caller's operating-system layer.

pub mod key;
pub mod termios;

pub use key::key_from_read;
pub use termios::{Termios, ECHO, ICANON, MODE_BITS, TCSAFLUSH};
