//! A keyboard macro engine: a table between key names and hardware
//! scancodes, the encoding of synthetic key events, the replay plan of a
//! macro, and the decision taken on each intercepted key event, with the
//! `enabled` and `busy` flags that guard it.

pub mod config;
pub mod dispatch;
pub mod executor;
pub mod input;
pub mod scancode;
pub mod search;
