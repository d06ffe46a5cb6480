//! Exclusive views of a subtitle rectangle.
//!
//! A mutable view is made from the one exclusive borrow of a rectangle, so no
//! other view of the same rectangle, read-only or mutable, can be alive beside
//! it. Each mutable view embeds its read-only counterpart and reads through
//! it; only the setters are its own.
//!
//! Contracts speak of a mutable view `v` through two spec functions. `v@` is
//! the rectangle as it stands now. `v.handle()` is the exclusive borrow itself,
//! and `*final(v.handle())` is what the borrowed rectangle holds once the
//! borrow has ended. Every method that takes `&mut self` leaves that final
//! value alone: it writes through the borrow and never swaps it for another.
//! `release` ends a view and ties the two together.

use crate::convert::{c_int_from, u32_from, u32_to_c_int, usize_from, usize_to_c_int};
use crate::decode::{decoded, DecodeError};
use crate::flag::Flags;
use crate::handle::{RectModel, SubtitleRect, Type};
use crate::native::{has_nul, is_first_nul, NativeString, NulError};
use crate::rect::{Access, Ass, Bitmap, Text};
use std::ops::Deref;
use vstd::prelude::*;
use vstd::string::StringSliceAdditionalSpecFns;
use vstd::utf8::{encode_utf8_decode_utf8, encode_utf8_valid_utf8};

verus! {

/// An exclusive view of a rectangle that carries a bitmap.
pub struct BitmapMut<'a> {
    immutable: Bitmap<'a>,
}

impl<'a> BitmapMut<'a> {
    #[verifier::type_invariant]
    spec fn holds_exclusive(self) -> bool {
        self.immutable.access is Exclusive
    }

    /// The exclusive borrow that the view writes through.
    pub closed spec fn handle(&self) -> &'a mut SubtitleRect {
        self.immutable.access.slot()
    }

    /// The rectangle as it stands now.
    pub open spec fn view(&self) -> RectModel {
        (*self.handle())@
    }

    /// Views `rect` as a bitmap rectangle, for reading and writing. Nothing
    /// is written yet.
    pub fn wrap(rect: &'a mut SubtitleRect) -> (out: BitmapMut<'a>)
        ensures
            out@ == old(rect)@,
            *out.handle() == *old(rect),
            *final(out.handle()) == *final(rect),
    {
        BitmapMut { immutable: Bitmap { access: Access::Exclusive(rect) } }
    }

    /// The rectangle behind the view, for writing.
    pub fn as_mut_ptr(&mut self) -> (out: &mut SubtitleRect)
        ensures
            *out == *old(self).handle(),
            *final(self).handle() == *final(out),
            *final(final(self).handle()) == *final(old(self).handle()),
    {
        proof {
            use_type_invariant(&*self);
        }
        self.immutable.access.get_mut()
    }

    /// Ends the view. The borrowed rectangle is left as the view last showed
    /// it.
    pub fn release(self)
        ensures
            *final(self.handle()) == *self.handle(),
    {
        proof {
            use_type_invariant(&self);
        }
    }

    /// Sets the left edge, keeping the low 32 bits of `value`. A value that
    /// fits in the non-negative half of the field reads back as it was set.
    pub fn set_x(&mut self, value: usize)
        ensures
            final(self)@ == old(self)@.with_x(c_int_from(value as int)),
            value <= 0x7fff_ffff ==> usize_from(final(self)@.x) == value,
            *final(final(self).handle()) == *final(old(self).handle()),
    {
        self.as_mut_ptr().x = usize_to_c_int(value);
    }

    /// Sets the top edge, keeping the low 32 bits of `value`. A value that
    /// fits in the non-negative half of the field reads back as it was set.
    pub fn set_y(&mut self, value: usize)
        ensures
            final(self)@ == old(self)@.with_y(c_int_from(value as int)),
            value <= 0x7fff_ffff ==> usize_from(final(self)@.y) == value,
            *final(final(self).handle()) == *final(old(self).handle()),
    {
        self.as_mut_ptr().y = usize_to_c_int(value);
    }

    /// Sets the width. Every `u32` reads back as it was set.
    pub fn set_width(&mut self, value: u32)
        ensures
            final(self)@ == old(self)@.with_w(c_int_from(value as int)),
            u32_from(final(self)@.w) == value,
            *final(final(self).handle()) == *final(old(self).handle()),
    {
        self.as_mut_ptr().w = u32_to_c_int(value);
    }

    /// Sets the height. Every `u32` reads back as it was set.
    pub fn set_height(&mut self, value: u32)
        ensures
            final(self)@ == old(self)@.with_h(c_int_from(value as int)),
            u32_from(final(self)@.h) == value,
            *final(final(self).handle()) == *final(old(self).handle()),
    {
        self.as_mut_ptr().h = u32_to_c_int(value);
    }

    /// Sets the number of palette entries, keeping the low 32 bits of `value`.
    /// A value that fits in the non-negative half of the field reads back as
    /// it was set.
    pub fn set_colors(&mut self, value: usize)
        ensures
            final(self)@ == old(self)@.with_nb_colors(c_int_from(value as int)),
            value <= 0x7fff_ffff ==> usize_from(final(self)@.nb_colors) == value,
            *final(final(self).handle()) == *final(old(self).handle()),
    {
        self.as_mut_ptr().nb_colors = usize_to_c_int(value);
    }
}

impl<'a> Deref for BitmapMut<'a> {
    type Target = Bitmap<'a>;

    /// The embedded read-only view. Every read of a mutable view goes through
    /// it.
    fn deref(&self) -> (out: &Bitmap<'a>)
        ensures
            out@ == self@,
    {
        proof {
            use_type_invariant(self);
        }
        &self.immutable
    }
}

/// An exclusive view of a rectangle that carries plain text.
pub struct TextMut<'a> {
    immutable: Text<'a>,
}

impl<'a> TextMut<'a> {
    #[verifier::type_invariant]
    spec fn holds_exclusive(self) -> bool {
        self.immutable.access is Exclusive
    }

    /// The exclusive borrow that the view writes through.
    pub closed spec fn handle(&self) -> &'a mut SubtitleRect {
        self.immutable.access.slot()
    }

    /// The rectangle as it stands now.
    pub open spec fn view(&self) -> RectModel {
        (*self.handle())@
    }

    /// Views `rect` as a text rectangle, for reading and writing. Nothing is
    /// written yet.
    pub fn wrap(rect: &'a mut SubtitleRect) -> (out: TextMut<'a>)
        ensures
            out@ == old(rect)@,
            *out.handle() == *old(rect),
            *final(out.handle()) == *final(rect),
    {
        TextMut { immutable: Text { access: Access::Exclusive(rect) } }
    }

    /// The rectangle behind the view, for writing.
    pub fn as_mut_ptr(&mut self) -> (out: &mut SubtitleRect)
        ensures
            *out == *old(self).handle(),
            *final(self).handle() == *final(out),
            *final(final(self).handle()) == *final(old(self).handle()),
    {
        proof {
            use_type_invariant(&*self);
        }
        self.immutable.access.get_mut()
    }

    /// Ends the view. The borrowed rectangle is left as the view last showed
    /// it.
    pub fn release(self)
        ensures
            *final(self.handle()) == *self.handle(),
    {
        proof {
            use_type_invariant(&self);
        }
    }

    /// Replaces the whole string with a native copy of `value`.
    ///
    /// A `value` with a zero byte in it is refused, and the rectangle is left
    /// as it was. Otherwise the `text` field holds the bytes of `value`, and
    /// reading it back gives `value`; no other field changes. The string that
    /// the field held before is dropped.
    pub fn set(&mut self, value: &str) -> (out: Result<(), NulError>)
        ensures
            match out {
                Ok(_) => {
                    &&& !has_nul(value.spec_bytes())
                    &&& final(self)@ == old(self)@.with_text(value.spec_bytes())
                    &&& decoded(final(self)@.text) == Ok::<Seq<char>, DecodeError>(value@)
                },
                Err(e) => {
                    &&& is_first_nul(value.spec_bytes(), e@)
                    &&& *final(self).handle() == *old(self).handle()
                    &&& final(self)@ == old(self)@
                },
            },
            *final(final(self).handle()) == *final(old(self).handle()),
    {
        match NativeString::duplicate(value.as_bytes()) {
            Ok(copy) => {
                self.as_mut_ptr().text = Some(copy);
                proof {
                    encode_utf8_valid_utf8(value@);
                    encode_utf8_decode_utf8(value@);
                }
                Ok(())
            },
            Err(e) => Err(e),
        }
    }
}

impl<'a> Deref for TextMut<'a> {
    type Target = Text<'a>;

    /// The embedded read-only view. Every read of a mutable view goes through
    /// it.
    fn deref(&self) -> (out: &Text<'a>)
        ensures
            out@ == self@,
    {
        proof {
            use_type_invariant(self);
        }
        &self.immutable
    }
}

/// An exclusive view of a rectangle that carries a line of subtitle markup.
pub struct AssMut<'a> {
    immutable: Ass<'a>,
}

impl<'a> AssMut<'a> {
    #[verifier::type_invariant]
    spec fn holds_exclusive(self) -> bool {
        self.immutable.access is Exclusive
    }

    /// The exclusive borrow that the view writes through.
    pub closed spec fn handle(&self) -> &'a mut SubtitleRect {
        self.immutable.access.slot()
    }

    /// The rectangle as it stands now.
    pub open spec fn view(&self) -> RectModel {
        (*self.handle())@
    }

    /// Views `rect` as a markup rectangle, for reading and writing. Nothing is
    /// written yet.
    pub fn wrap(rect: &'a mut SubtitleRect) -> (out: AssMut<'a>)
        ensures
            out@ == old(rect)@,
            *out.handle() == *old(rect),
            *final(out.handle()) == *final(rect),
    {
        AssMut { immutable: Ass { access: Access::Exclusive(rect) } }
    }

    /// The rectangle behind the view, for writing.
    pub fn as_mut_ptr(&mut self) -> (out: &mut SubtitleRect)
        ensures
            *out == *old(self).handle(),
            *final(self).handle() == *final(out),
            *final(final(self).handle()) == *final(old(self).handle()),
    {
        proof {
            use_type_invariant(&*self);
        }
        self.immutable.access.get_mut()
    }

    /// Ends the view. The borrowed rectangle is left as the view last showed
    /// it.
    pub fn release(self)
        ensures
            *final(self.handle()) == *self.handle(),
    {
        proof {
            use_type_invariant(&self);
        }
    }

    /// Replaces the whole string with a native copy of `value`.
    ///
    /// A `value` with a zero byte in it is refused, and the rectangle is left
    /// as it was. Otherwise the `ass` field holds the bytes of `value`, and
    /// reading it back gives `value`; no other field changes. The string that
    /// the field held before is dropped.
    pub fn set(&mut self, value: &str) -> (out: Result<(), NulError>)
        ensures
            match out {
                Ok(_) => {
                    &&& !has_nul(value.spec_bytes())
                    &&& final(self)@ == old(self)@.with_ass(value.spec_bytes())
                    &&& decoded(final(self)@.ass) == Ok::<Seq<char>, DecodeError>(value@)
                },
                Err(e) => {
                    &&& is_first_nul(value.spec_bytes(), e@)
                    &&& *final(self).handle() == *old(self).handle()
                    &&& final(self)@ == old(self)@
                },
            },
            *final(final(self).handle()) == *final(old(self).handle()),
    {
        match NativeString::duplicate(value.as_bytes()) {
            Ok(copy) => {
                self.as_mut_ptr().ass = Some(copy);
                proof {
                    encode_utf8_valid_utf8(value@);
                    encode_utf8_decode_utf8(value@);
                }
                Ok(())
            },
            Err(e) => Err(e),
        }
    }
}

impl<'a> Deref for AssMut<'a> {
    type Target = Ass<'a>;

    /// The embedded read-only view. Every read of a mutable view goes through
    /// it.
    fn deref(&self) -> (out: &Ass<'a>)
        ensures
            out@ == self@,
    {
        proof {
            use_type_invariant(self);
        }
        &self.immutable
    }
}

/// An exclusive view of a rectangle, classified by its payload kind.
///
/// The kind is read once, when the view is made. No operation turns a view of
/// one kind into a view of another.
pub enum RectMut<'a> {
    Empty(&'a mut SubtitleRect),
    Bitmap(BitmapMut<'a>),
    Text(TextMut<'a>),
    Ass(AssMut<'a>),
}

impl<'a> RectMut<'a> {
    /// The exclusive borrow that the view writes through.
    pub open spec fn handle(&self) -> &'a mut SubtitleRect {
        match self {
            RectMut::Empty(rect) => *rect,
            RectMut::Bitmap(bitmap) => bitmap.handle(),
            RectMut::Text(text) => text.handle(),
            RectMut::Ass(ass) => ass.handle(),
        }
    }

    /// The rectangle as it stands now.
    pub open spec fn view(&self) -> RectModel {
        (*self.handle())@
    }

    /// The payload kind that the view was classified as.
    pub open spec fn kind(&self) -> Type {
        match self {
            RectMut::Empty(_) => Type::Empty,
            RectMut::Bitmap(_) => Type::Bitmap,
            RectMut::Text(_) => Type::Text,
            RectMut::Ass(_) => Type::Ass,
        }
    }

    /// The flags of the rectangle, whatever its kind.
    pub open spec fn spec_flags(&self) -> Flags {
        Flags::from_bits(self@.flags)
    }

    /// Classifies `rect` by its tag, once, and wraps it in the matching view.
    ///
    /// Whatever the tag and the flags, the view is of the kind that the tag
    /// names, and its flags are the flags field as stored. Nothing is written
    /// yet.
    pub fn wrap(rect: &'a mut SubtitleRect) -> (out: RectMut<'a>)
        ensures
            out.kind() == old(rect).type_,
            out.flags().bits() == old(rect).flags,
            out@ == old(rect)@,
            *out.handle() == *old(rect),
            *final(out.handle()) == *final(rect),
    {
        match rect.type_ {
            Type::Empty => RectMut::Empty(rect),
            Type::Bitmap => RectMut::Bitmap(BitmapMut::wrap(rect)),
            Type::Text => RectMut::Text(TextMut::wrap(rect)),
            Type::Ass => RectMut::Ass(AssMut::wrap(rect)),
        }
    }

    /// The rectangle behind the view, for reading.
    pub fn as_ptr(&self) -> (out: &SubtitleRect)
        ensures
            out@ == self@,
    {
        match self {
            RectMut::Empty(rect) => rect,
            RectMut::Bitmap(bitmap) => bitmap.as_ptr(),
            RectMut::Text(text) => text.as_ptr(),
            RectMut::Ass(ass) => ass.as_ptr(),
        }
    }

    /// The rectangle behind the view, for writing. The view stays of the kind
    /// it was classified as, whatever is written.
    pub fn as_mut_ptr(&mut self) -> (out: &mut SubtitleRect)
        ensures
            final(self).kind() == old(self).kind(),
            *out == *old(self).handle(),
            *final(self).handle() == *final(out),
            *final(final(self).handle()) == *final(old(self).handle()),
    {
        match self {
            RectMut::Empty(rect) => &mut **rect,
            RectMut::Bitmap(bitmap) => bitmap.as_mut_ptr(),
            RectMut::Text(text) => text.as_mut_ptr(),
            RectMut::Ass(ass) => ass.as_mut_ptr(),
        }
    }

    /// The flags of the rectangle, whatever its kind.
    #[verifier::when_used_as_spec(spec_flags)]
    pub fn flags(&self) -> (out: Flags)
        ensures
            out == self.spec_flags(),
            out.bits() == self@.flags,
    {
        Flags::from_bits(
            match self {
                RectMut::Empty(rect) => rect.flags,
                RectMut::Bitmap(bitmap) => bitmap.as_ptr().flags,
                RectMut::Text(text) => text.as_ptr().flags,
                RectMut::Ass(ass) => ass.as_ptr().flags,
            },
        )
    }

    /// Ends the view. The borrowed rectangle is left as the view last showed
    /// it.
    pub fn release(self)
        ensures
            *final(self.handle()) == *self.handle(),
    {
        match self {
            RectMut::Empty(_) => {},
            RectMut::Bitmap(bitmap) => bitmap.release(),
            RectMut::Text(text) => text.release(),
            RectMut::Ass(ass) => ass.release(),
        }
    }
}

} // verus!
