//! Verified core of the kugou-dsp tool: preset tables, command-line and
//! registry text handling, APO install/restore decisions and the block
//! planning of the offline WAV pipeline.
pub mod text;
pub mod presets;
pub mod apo;
pub mod cli;
pub mod offline;
pub mod wav;
pub mod ffi;
