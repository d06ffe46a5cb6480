//! Laws that tie what a mutable view writes to what a view reads back.
//!
//! Each law is stated over the rectangle model: the state that a setter leaves
//! behind, read with the function that the matching accessor computes.

use crate::convert::{c_int_from, u32_from, usize_from};
use crate::decode::{decoded, DecodeError};
use crate::handle::RectModel;
use crate::native::has_nul;
use vstd::prelude::*;
use vstd::utf8::{encode_utf8, encode_utf8_decode_utf8, encode_utf8_valid_utf8};

verus! {

/// A width that was set reads back as it was set, for every `u32`: zero, one,
/// the largest, and all between.
pub proof fn law_width_round_trip(rect: RectModel, value: u32)
    ensures
        u32_from(rect.with_w(c_int_from(value as int)).w) == value,
{
}

/// A height that was set reads back as it was set, for every `u32`.
pub proof fn law_height_round_trip(rect: RectModel, value: u32)
    ensures
        u32_from(rect.with_h(c_int_from(value as int)).h) == value,
{
}

/// A left edge, top edge or colour count that fits in the non-negative half of
/// a field reads back as it was set.
pub proof fn law_position_round_trip(rect: RectModel, value: usize)
    requires
        value <= 0x7fff_ffff,
    ensures
        usize_from(rect.with_x(c_int_from(value as int)).x) == value,
        usize_from(rect.with_y(c_int_from(value as int)).y) == value,
        usize_from(rect.with_nb_colors(c_int_from(value as int)).nb_colors) == value,
{
}

/// Text that was set reads back exactly, one-byte and multi-byte characters
/// alike.
pub proof fn law_text_round_trip(rect: RectModel, text: Seq<char>)
    requires
        !has_nul(encode_utf8(text)),
    ensures
        decoded(rect.with_text(encode_utf8(text)).text) == Ok::<Seq<char>, DecodeError>(text),
{
    encode_utf8_valid_utf8(text);
    encode_utf8_decode_utf8(text);
}

/// Markup that was set reads back exactly, one-byte and multi-byte characters
/// alike.
pub proof fn law_ass_round_trip(rect: RectModel, markup: Seq<char>)
    requires
        !has_nul(encode_utf8(markup)),
    ensures
        decoded(rect.with_ass(encode_utf8(markup)).ass) == Ok::<Seq<char>, DecodeError>(markup),
{
    encode_utf8_valid_utf8(markup);
    encode_utf8_decode_utf8(markup);
}

/// Text and markup do not touch each other: setting one leaves the other
/// field, and what it reads as, unchanged, and the two can be set in either
/// order.
pub proof fn law_text_and_ass_independent(rect: RectModel, text: Seq<u8>, markup: Seq<u8>)
    ensures
        rect.with_text(text).ass == rect.ass,
        rect.with_ass(markup).text == rect.text,
        decoded(rect.with_text(text).ass) == decoded(rect.ass),
        decoded(rect.with_ass(markup).text) == decoded(rect.text),
        rect.with_text(text).with_ass(markup) == rect.with_ass(markup).with_text(text),
{
}

/// No setter changes the tag or the flags of a rectangle.
pub proof fn law_setters_keep_tag_and_flags(rect: RectModel, field: libc::c_int, bytes: Seq<u8>)
    ensures
        rect.with_x(field).kind == rect.kind && rect.with_x(field).flags == rect.flags,
        rect.with_y(field).kind == rect.kind && rect.with_y(field).flags == rect.flags,
        rect.with_w(field).kind == rect.kind && rect.with_w(field).flags == rect.flags,
        rect.with_h(field).kind == rect.kind && rect.with_h(field).flags == rect.flags,
        rect.with_nb_colors(field).kind == rect.kind && rect.with_nb_colors(field).flags
            == rect.flags,
        rect.with_text(bytes).kind == rect.kind && rect.with_text(bytes).flags == rect.flags,
        rect.with_ass(bytes).kind == rect.kind && rect.with_ass(bytes).flags == rect.flags,
{
}

} // verus!
