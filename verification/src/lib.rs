//! A reminder for streamers: at an interval, or when asked, it sends a toast
//! to every overlay that is connected, and it serves the sounds that the
//! toasts play.
//!
//! The library holds the rules. [`timer`] decides when a toast is due and
//! what it shows, [`websocket`] gives the toast its form on the wire and
//! fans it out, [`audio_manager`] names the cached sound files,
//! [`http_server`] decides the answer to each HTTP request, [`config`]
//! holds the settings and checks them, [`reminder`] ties these together,
//! and [`panel`] says what the control panel shows. Listening on sockets and
//! touching files is left to the program around the library.

pub mod audio_manager;
pub mod config;
pub mod http_server;
pub mod panel;
pub mod reminder;
pub mod text;
pub mod timer;
pub mod websocket;
