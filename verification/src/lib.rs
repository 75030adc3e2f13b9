//! Decision logic of a hotkey-driven capture-and-translate tool: request
//! signing, the capture pipeline's state machine, settings defaults and
//! hotkey dispatch, all stated over mathematical models and proved.

pub mod hotkey;
pub mod pipeline;
pub mod pipeline_laws;
pub mod settings;
pub mod signing;
pub mod text;
pub mod tray;
