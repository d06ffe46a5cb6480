//! The subtitle rectangle record and its mathematical model.

use crate::native::NativeString;
use libc::c_int;
use vstd::prelude::*;

verus! {

/// Number of data planes of a rectangle.
pub const PLANES: usize = 4;

/// Payload kind of a rectangle, fixed by whoever produced it.
#[derive(Clone, Copy, Debug, PartialEq, Eq, Structural)]
pub enum Type {
    /// No payload; only the flags mean anything.
    Empty,
    /// A palette-indexed raster with explicit geometry.
    Bitmap,
    /// Plain text.
    Text,
    /// A line of subtitle markup.
    Ass,
}

impl Type {
    /// The number the native library uses for this kind.
    pub open spec fn tag(self) -> int {
        match self {
            Type::Empty => 0,
            Type::Bitmap => 1,
            Type::Text => 2,
            Type::Ass => 3,
        }
    }

    /// The kind with the given native number, if it is one of the four.
    pub fn from_raw(tag: c_int) -> (out: Option<Type>)
        ensures
            match out {
                Some(kind) => kind.tag() == tag,
                None => !(0 <= tag <= 3),
            },
    {
        if tag == 0 {
            Some(Type::Empty)
        } else if tag == 1 {
            Some(Type::Bitmap)
        } else if tag == 2 {
            Some(Type::Text)
        } else if tag == 3 {
            Some(Type::Ass)
        } else {
            None
        }
    }

    /// The native number of this kind.
    pub fn to_raw(self) -> (out: c_int)
        ensures
            out == self.tag(),
    {
        match self {
            Type::Empty => 0,
            Type::Bitmap => 1,
            Type::Text => 2,
            Type::Ass => 3,
        }
    }
}

/// Number of bytes in a plane of `rows` rows at `linesize` bytes per row. A
/// plane with no rows, or with rows of no bytes, is empty.
pub open spec fn plane_bytes(linesize: c_int, rows: c_int) -> int {
    if linesize > 0 && rows > 0 {
        linesize * rows
    } else {
        0
    }
}

/// Number of bytes in a plane of `rows` rows at `linesize` bytes per row, or
/// `None` where that number does not fit in `usize`.
pub fn plane_len(linesize: c_int, rows: c_int) -> (out: Option<usize>)
    ensures
        match out {
            Some(len) => len == plane_bytes(linesize, rows),
            None => plane_bytes(linesize, rows) > usize::MAX,
        },
{
    if linesize > 0 && rows > 0 {
        assert(0 < linesize * rows <= 0x7fff_ffff * 0x7fff_ffff) by (nonlinear_arith)
            requires
                0 < linesize <= 0x7fff_ffff,
                0 < rows <= 0x7fff_ffff,
        ;
        let len: u64 = (linesize as u64) * (rows as u64);
        if len <= usize::MAX as u64 {
            Some(len as usize)
        } else {
            None
        }
    } else {
        Some(0)
    }
}

/// One decoded subtitle rectangle, field for field as the native library lays
/// it out. All fields exist whatever the kind; `type_` says which of them carry
/// the payload.
///
/// A view never changes `type_`. Code that writes the record directly must
/// leave it alone as well: views classify once and do not look again.
#[derive(Debug)]
pub struct SubtitleRect {
    /// Payload kind.
    pub type_: Type,
    /// Flags bitmask.
    pub flags: c_int,
    /// Left edge of the bitmap.
    pub x: c_int,
    /// Top edge of the bitmap.
    pub y: c_int,
    /// Width of the bitmap.
    pub w: c_int,
    /// Height of the bitmap.
    pub h: c_int,
    /// Number of palette entries.
    pub nb_colors: c_int,
    /// Plane buffers: pixel indices first, then the palette.
    pub data: [Vec<u8>; PLANES],
    /// Bytes per row of each plane.
    pub linesize: [c_int; PLANES],
    /// Plain-text payload.
    pub text: Option<NativeString>,
    /// Markup payload.
    pub ass: Option<NativeString>,
}

/// What a rectangle holds, as plain mathematical values. Contracts speak of
/// rectangles through this model.
pub struct RectModel {
    /// Payload kind.
    pub kind: Type,
    /// Flags bitmask.
    pub flags: c_int,
    /// Left edge of the bitmap.
    pub x: c_int,
    /// Top edge of the bitmap.
    pub y: c_int,
    /// Width of the bitmap.
    pub w: c_int,
    /// Height of the bitmap.
    pub h: c_int,
    /// Number of palette entries.
    pub nb_colors: c_int,
    /// The bytes of each plane.
    pub data: Seq<Seq<u8>>,
    /// Bytes per row of each plane.
    pub linesize: Seq<c_int>,
    /// The bytes of the plain-text payload, where there is one.
    pub text: Option<Seq<u8>>,
    /// The bytes of the markup payload, where there is one.
    pub ass: Option<Seq<u8>>,
}

/// The bytes of an optional native string.
pub open spec fn field_bytes(field: Option<NativeString>) -> Option<Seq<u8>> {
    match field {
        Some(s) => Some(s@),
        None => None,
    }
}

impl View for SubtitleRect {
    type V = RectModel;

    open spec fn view(&self) -> RectModel {
        RectModel {
            kind: self.type_,
            flags: self.flags,
            x: self.x,
            y: self.y,
            w: self.w,
            h: self.h,
            nb_colors: self.nb_colors,
            data: Seq::new(PLANES as nat, |i: int| self.data[i]@),
            linesize: self.linesize@,
            text: field_bytes(self.text),
            ass: field_bytes(self.ass),
        }
    }
}

impl RectModel {
    /// A rectangle of the given kind with every other field zero or absent.
    pub open spec fn blank(kind: Type) -> RectModel {
        RectModel {
            kind,
            flags: 0,
            x: 0,
            y: 0,
            w: 0,
            h: 0,
            nb_colors: 0,
            data: Seq::new(PLANES as nat, |i: int| Seq::<u8>::empty()),
            linesize: Seq::new(PLANES as nat, |i: int| 0),
            text: None,
            ass: None,
        }
    }

    /// The same rectangle with another left edge.
    pub open spec fn with_x(self, x: c_int) -> RectModel {
        RectModel { x, ..self }
    }

    /// The same rectangle with another top edge.
    pub open spec fn with_y(self, y: c_int) -> RectModel {
        RectModel { y, ..self }
    }

    /// The same rectangle with another width.
    pub open spec fn with_w(self, w: c_int) -> RectModel {
        RectModel { w, ..self }
    }

    /// The same rectangle with another height.
    pub open spec fn with_h(self, h: c_int) -> RectModel {
        RectModel { h, ..self }
    }

    /// The same rectangle with another number of palette entries.
    pub open spec fn with_nb_colors(self, nb_colors: c_int) -> RectModel {
        RectModel { nb_colors, ..self }
    }

    /// The same rectangle with `bytes` as its plain-text payload.
    pub open spec fn with_text(self, bytes: Seq<u8>) -> RectModel {
        RectModel { text: Some(bytes), ..self }
    }

    /// The same rectangle with `bytes` as its markup payload.
    pub open spec fn with_ass(self, bytes: Seq<u8>) -> RectModel {
        RectModel { ass: Some(bytes), ..self }
    }
}

impl SubtitleRect {
    /// A rectangle of the given kind with every other field zero or absent.
    pub fn new(type_: Type) -> (out: SubtitleRect)
        ensures
            out@ == RectModel::blank(type_),
    {
        let out = SubtitleRect {
            type_,
            flags: 0,
            x: 0,
            y: 0,
            w: 0,
            h: 0,
            nb_colors: 0,
            data: [Vec::new(), Vec::new(), Vec::new(), Vec::new()],
            linesize: [0, 0, 0, 0],
            text: None,
            ass: None,
        };
        assert(out@.data =~= RectModel::blank(type_).data);
        assert(out@.linesize =~= RectModel::blank(type_).linesize);
        out
    }
}

} // verus!
