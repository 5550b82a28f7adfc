//! A property editor for rotations stored as unit quaternions: the value is shown and
//! edited as three Euler angles in degrees, through a three-number editor widget.
//!
//! The scalar type is a parameter. The angle conversions themselves are numeric work on
//! that scalar and are handed in by the caller as functions; everything else (the typed
//! cast, the widget that is built, the messages that are sent and the ones that are
//! turned into change records) is decided here.
pub mod algebra;
pub mod inspector;
pub mod message;
pub mod quat;
pub mod ui;
