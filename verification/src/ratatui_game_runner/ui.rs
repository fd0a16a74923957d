//! What the renderer computes. The widget trees themselves are built by
//! the binary; the layout arithmetic and text helpers they share are
//! verified here.

pub mod game_complete;
pub mod shared;
