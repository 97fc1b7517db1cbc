//! Host-side logic of a bridge between a macro keypad with a raw HID
//! interface and the desktop's audio and media controls.
//!
//! The crate performs no input or output. A driver enumerates the HID
//! interfaces, runs the collaborating programs and moves reports over the
//! device handle; every decision in between is made here and proved against
//! the spec functions that the contracts mention.

pub mod codec;
pub mod dispatch;
pub mod event_loop;
pub mod failure;
pub mod locator;
pub mod text;
