//! A status line for the root window of an X display.
//!
//! A [`status_bar::StatusBar`] owns an ordered list of data sources. Each cycle
//! it refreshes them, renders them into one line of bracketed fragments and
//! states the property change that publishes the line as the root window's
//! name. Talking to the display server is left to the caller: the bar is given
//! what a connection found and hands back the requests to send.

pub mod components;
pub mod lemmas;
pub mod status_bar;
