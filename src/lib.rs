//! Typed building blocks for driving a SANE scanner library: protocol codes,
//! status handling, option values, Latin-1 strings, scan sequencing and the
//! frame decoder that assembles raw frames into images.

pub mod auth;
pub mod device;
pub mod error;
pub mod fixed;
pub mod string;
pub mod sys;
pub mod value;
pub mod version;
pub mod options;
pub mod scan;
pub mod frame_decoder;
