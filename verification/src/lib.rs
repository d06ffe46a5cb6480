//! Safe, typed access to one decoded subtitle rectangle.
//!
//! A subtitle rectangle is a flat record with a payload tag, a flags bitmask,
//! bitmap geometry and planes, and two string fields. [`Rect`] and [`RectMut`]
//! classify a record by its tag once and expose only the accessors that make
//! sense for that payload.
//!
//! - [`handle`]: the record and its mathematical model.
//! - [`rect`]: read-only views, any number at a time.
//! - [`rect_mut`]: exclusive views that also write.
//! - [`native`]: strings as the native library stores them.
//! - [`decode`]: reading a string field as text.
//! - [`convert`]: narrowing to and widening from the 32-bit fields.
//! - [`flag`]: the flags bitmask.
//! - [`laws`]: what is written reads back.

pub mod convert;
pub mod decode;
pub mod flag;
pub mod handle;
pub mod laws;
pub mod native;
pub mod rect;
pub mod rect_mut;

pub use decode::DecodeError;
pub use flag::Flags;
pub use handle::{plane_len, RectModel, SubtitleRect, Type, PLANES};
pub use native::{NativeString, NulError};
pub use rect::{Ass, Bitmap, Rect, Text};
pub use rect_mut::{AssMut, BitmapMut, RectMut, TextMut};
