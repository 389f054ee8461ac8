//! Verified core of the WideBoi stereo widener: the parts of the plug-in that
//! are plain logic rather than floating-point signal processing.
//!
//! - `ring`: fixed-length sliding windows (correlation windows, scope trace).
//! - `decimator`: "one event in every N" counters (scope capture, packet pacing).
//! - `scope`: the goniometer trace built from the two above, and its flattening.
//! - `param_id`: the parameters' text ids and the editor's choice texts.
//! - `typed`: reading a number typed into a control.
//! - `ipc`: what each message from the editor's web view asks for.
//! - `geometry`: the editor's size and its bounds.
//! - `token`: the sign-in token in the shared token file.
//! - `bridge`: the address, scripts and poll replies sent to the web view.
//! - `text`: character-level helpers the others share.

pub mod bridge;
pub mod decimator;
pub mod geometry;
pub mod ipc;
pub mod param_id;
pub mod ring;
pub mod scope;
pub mod text;
pub mod token;
pub mod typed;
