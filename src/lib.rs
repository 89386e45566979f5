//! Capture-to-display video pipeline: capture configuration, packet and frame
//! handoff, decoder loop decisions, frame post-processing and the CRT shader
//! render graph plan.

pub mod filter_type;
pub mod filters;
pub mod types;
pub mod handoff;
pub mod pipeline;
pub mod frame;
pub mod codec;
pub mod render_graph;
pub mod text;
pub mod listing;
pub mod usb;
pub mod selection;
