//! The interactive terminal session's state and decision logic. The
//! terminal itself — raw mode, drawing, the event thread — is driven by
//! the binary around this library; everything that decides lives here.

pub mod app;
pub mod ui;
pub mod update;
