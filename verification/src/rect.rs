//! Read-only views of a subtitle rectangle.
//!
//! A view borrows its rectangle and never writes it. Any number of read-only
//! views of one rectangle can be alive together.

use crate::convert::{c_int_to_u32, c_int_to_usize, u32_from, usize_from};
use crate::decode::{decode, decoded, DecodeError};
use crate::flag::Flags;
use crate::handle::{RectModel, SubtitleRect, Type, PLANES};
use libc::c_int;
use vstd::prelude::*;

verus! {

/// How a view reaches its rectangle: through a shared borrow, or through the
/// one exclusive borrow that a mutable view was made from.
pub(crate) enum Access<'a> {
    Shared(&'a SubtitleRect),
    Exclusive(&'a mut SubtitleRect),
}

impl<'a> Access<'a> {
    /// The rectangle that the borrow shows now.
    pub(crate) open spec fn view(&self) -> RectModel {
        match self {
            Access::Shared(rect) => rect@,
            Access::Exclusive(rect) => rect@,
        }
    }

    /// The exclusive borrow, where there is one.
    pub(crate) open spec fn slot(&self) -> &'a mut SubtitleRect
        recommends
            self is Exclusive,
    {
        self->Exclusive_0
    }

    /// The rectangle, for reading.
    pub(crate) fn get(&self) -> (out: &SubtitleRect)
        ensures
            out@ == self@,
    {
        match self {
            Access::Shared(rect) => rect,
            Access::Exclusive(rect) => rect,
        }
    }

    /// The rectangle, for writing. Only exclusive access can give it.
    pub(crate) fn get_mut(&mut self) -> (out: &mut SubtitleRect)
        requires
            *old(self) is Exclusive,
        ensures
            *final(self) is Exclusive,
            *out == *old(self).slot(),
            *final(self).slot() == *final(out),
            *final(final(self).slot()) == *final(old(self).slot()),
        no_unwind
    {
        match self {
            Access::Exclusive(rect) => &mut **rect,
            Access::Shared(_) => vstd::pervasive::unreached(),
        }
    }
}

/// A rectangle that carries a bitmap.
pub struct Bitmap<'a> {
    pub(crate) access: Access<'a>,
}

impl<'a> Bitmap<'a> {
    /// The rectangle this view shows.
    pub open(crate) spec fn view(&self) -> RectModel {
        self.access@
    }

    /// Views `rect` as a bitmap rectangle.
    pub fn wrap(rect: &'a SubtitleRect) -> (out: Bitmap<'a>)
        ensures
            out@ == rect@,
    {
        Bitmap { access: Access::Shared(rect) }
    }

    /// The rectangle behind the view.
    pub fn as_ptr(&self) -> (out: &SubtitleRect)
        ensures
            out@ == self@,
    {
        self.access.get()
    }

    /// Left edge.
    pub fn x(&self) -> (out: usize)
        ensures
            out == usize_from(self@.x),
    {
        c_int_to_usize(self.as_ptr().x)
    }

    /// Top edge.
    pub fn y(&self) -> (out: usize)
        ensures
            out == usize_from(self@.y),
    {
        c_int_to_usize(self.as_ptr().y)
    }

    /// Width.
    pub fn width(&self) -> (out: u32)
        ensures
            out == u32_from(self@.w),
    {
        c_int_to_u32(self.as_ptr().w)
    }

    /// Height.
    pub fn height(&self) -> (out: u32)
        ensures
            out == u32_from(self@.h),
    {
        c_int_to_u32(self.as_ptr().h)
    }

    /// Number of palette entries.
    pub fn colors(&self) -> (out: usize)
        ensures
            out == usize_from(self@.nb_colors),
    {
        c_int_to_usize(self.as_ptr().nb_colors)
    }

    /// The bytes of one plane, or `None` where there is no such plane.
    pub fn plane(&self, index: usize) -> (out: Option<&[u8]>)
        ensures
            match out {
                Some(bytes) => index < PLANES && bytes@ == self@.data[index as int],
                None => index >= PLANES,
            },
    {
        if index < PLANES {
            Some(self.as_ptr().data[index].as_slice())
        } else {
            None
        }
    }

    /// Bytes per row of one plane, or `None` where there is no such plane.
    pub fn stride(&self, index: usize) -> (out: Option<c_int>)
        ensures
            match out {
                Some(linesize) => index < PLANES && linesize == self@.linesize[index as int],
                None => index >= PLANES,
            },
    {
        if index < PLANES {
            Some(self.as_ptr().linesize[index])
        } else {
            None
        }
    }
}

/// A rectangle that carries plain text.
pub struct Text<'a> {
    pub(crate) access: Access<'a>,
}

impl<'a> Text<'a> {
    /// The rectangle this view shows.
    pub open(crate) spec fn view(&self) -> RectModel {
        self.access@
    }

    /// Views `rect` as a text rectangle.
    pub fn wrap(rect: &'a SubtitleRect) -> (out: Text<'a>)
        ensures
            out@ == rect@,
    {
        Text { access: Access::Shared(rect) }
    }

    /// The rectangle behind the view.
    pub fn as_ptr(&self) -> (out: &SubtitleRect)
        ensures
            out@ == self@,
    {
        self.access.get()
    }

    /// The text, decoded strictly: bytes that are not UTF-8 are an error, never
    /// replaced.
    pub fn get(&self) -> (out: Result<&str, DecodeError>)
        ensures
            match out {
                Ok(s) => decoded(self@.text) == Ok::<Seq<char>, DecodeError>(s@),
                Err(e) => decoded(self@.text) == Err::<Seq<char>, DecodeError>(e),
            },
    {
        decode(&self.as_ptr().text)
    }
}

/// A rectangle that carries a line of subtitle markup.
pub struct Ass<'a> {
    pub(crate) access: Access<'a>,
}

impl<'a> Ass<'a> {
    /// The rectangle this view shows.
    pub open(crate) spec fn view(&self) -> RectModel {
        self.access@
    }

    /// Views `rect` as a markup rectangle.
    pub fn wrap(rect: &'a SubtitleRect) -> (out: Ass<'a>)
        ensures
            out@ == rect@,
    {
        Ass { access: Access::Shared(rect) }
    }

    /// The rectangle behind the view.
    pub fn as_ptr(&self) -> (out: &SubtitleRect)
        ensures
            out@ == self@,
    {
        self.access.get()
    }

    /// The markup, decoded strictly: bytes that are not UTF-8 are an error,
    /// never replaced.
    pub fn get(&self) -> (out: Result<&str, DecodeError>)
        ensures
            match out {
                Ok(s) => decoded(self@.ass) == Ok::<Seq<char>, DecodeError>(s@),
                Err(e) => decoded(self@.ass) == Err::<Seq<char>, DecodeError>(e),
            },
    {
        decode(&self.as_ptr().ass)
    }
}

/// A read-only view of a rectangle, classified by its payload kind.
pub enum Rect<'a> {
    Empty(&'a SubtitleRect),
    Bitmap(Bitmap<'a>),
    Text(Text<'a>),
    Ass(Ass<'a>),
}

impl<'a> Rect<'a> {
    /// The rectangle this view shows.
    pub open spec fn view(&self) -> RectModel {
        match self {
            Rect::Empty(rect) => rect@,
            Rect::Bitmap(bitmap) => bitmap@,
            Rect::Text(text) => text@,
            Rect::Ass(ass) => ass@,
        }
    }

    /// The payload kind that the view was classified as.
    pub open spec fn kind(&self) -> Type {
        match self {
            Rect::Empty(_) => Type::Empty,
            Rect::Bitmap(_) => Type::Bitmap,
            Rect::Text(_) => Type::Text,
            Rect::Ass(_) => Type::Ass,
        }
    }

    /// The flags of the rectangle, whatever its kind.
    pub open spec fn spec_flags(&self) -> Flags {
        Flags::from_bits(self@.flags)
    }

    /// Classifies `rect` by its tag, once, and wraps it in the matching view.
    ///
    /// Whatever the tag and the flags, the view is of the kind that the tag
    /// names, and its flags are the flags field as stored.
    pub fn wrap(rect: &'a SubtitleRect) -> (out: Rect<'a>)
        ensures
            out.kind() == rect.type_,
            out.flags().bits() == rect.flags,
            out@ == rect@,
    {
        match rect.type_ {
            Type::Empty => Rect::Empty(rect),
            Type::Bitmap => Rect::Bitmap(Bitmap::wrap(rect)),
            Type::Text => Rect::Text(Text::wrap(rect)),
            Type::Ass => Rect::Ass(Ass::wrap(rect)),
        }
    }

    /// The rectangle behind the view.
    pub fn as_ptr(&self) -> (out: &SubtitleRect)
        ensures
            out@ == self@,
    {
        match self {
            Rect::Empty(rect) => rect,
            Rect::Bitmap(bitmap) => bitmap.as_ptr(),
            Rect::Text(text) => text.as_ptr(),
            Rect::Ass(ass) => ass.as_ptr(),
        }
    }

    /// The flags of the rectangle, whatever its kind.
    #[verifier::when_used_as_spec(spec_flags)]
    pub fn flags(&self) -> (out: Flags)
        ensures
            out == self.spec_flags(),
            out.bits() == self@.flags,
    {
        Flags::from_bits(
            match self {
                Rect::Empty(rect) => rect.flags,
                Rect::Bitmap(bitmap) => bitmap.as_ptr().flags,
                Rect::Text(text) => text.as_ptr().flags,
                Rect::Ass(ass) => ass.as_ptr().flags,
            },
        )
    }
}

} // verus!
