//! Types and constants for values defined by ISO/IEC 14496 part 3 (Audio).
//!
//! The crate centres on [`AudioObjectType`], the validated form of the
//! _audio object type_ indicator that MPEG-4 audio stream headers carry.

pub mod laws;
pub mod names;
pub mod object_type;
pub mod render;

pub use object_type::{AudioObjectType, AudioObjectTypeError, AOT_ESCAPE_VALUE};
