//! The fixed text layout `YYYY-MM-DDThh:mm:ss`.
//!
//! The layout is a matter of positions alone: the year is read from bytes 0
//! to 4, the month from 5 to 7, the day from 8 to 10, the hour from 11 to
//! 13, the minute from 14 to 16 and the second from 17 to 19. What stands
//! between the fields, and after the second, is not looked at.
use vstd::prelude::*;
use vstd::string::StringSliceAdditionalSpecFns;
use vstd::utf8::{
    encode_utf8_valid_utf8, is_char_boundary, is_char_boundary_iff_not_is_continuation_byte,
    is_char_boundary_start_end_of_seq, valid_utf8_split,
};

verus! {

/// The number of bytes that the layout takes.
pub const WIDTH: usize = 19;

/// Whether the six fields can be cut out of `text`: `text` has at least 19
/// bytes, and every field begins and ends between two characters.
pub open spec fn has_layout(text: Seq<u8>) -> bool {
    &&& text.len() >= 19
    &&& is_char_boundary(text, 4)
    &&& is_char_boundary(text, 5)
    &&& is_char_boundary(text, 7)
    &&& is_char_boundary(text, 8)
    &&& is_char_boundary(text, 10)
    &&& is_char_boundary(text, 11)
    &&& is_char_boundary(text, 13)
    &&& is_char_boundary(text, 14)
    &&& is_char_boundary(text, 16)
    &&& is_char_boundary(text, 17)
    &&& is_char_boundary(text, 19)
}

/// The bytes of the year.
pub open spec fn year_field(text: Seq<u8>) -> Seq<u8> {
    text.subrange(0, 4)
}

/// The bytes of the month.
pub open spec fn month_field(text: Seq<u8>) -> Seq<u8> {
    text.subrange(5, 7)
}

/// The bytes of the day.
pub open spec fn day_field(text: Seq<u8>) -> Seq<u8> {
    text.subrange(8, 10)
}

/// The bytes of the hour.
pub open spec fn hour_field(text: Seq<u8>) -> Seq<u8> {
    text.subrange(11, 13)
}

/// The bytes of the minute.
pub open spec fn minute_field(text: Seq<u8>) -> Seq<u8> {
    text.subrange(14, 16)
}

/// The bytes of the second.
pub open spec fn second_field(text: Seq<u8>) -> Seq<u8> {
    text.subrange(17, 19)
}

/// Whether the byte at `at` belongs to one of the six fields.
pub open spec fn in_field(at: int) -> bool {
    0 <= at < 4 || 5 <= at < 7 || 8 <= at < 10 || 11 <= at < 13 || 14 <= at < 16 || 17 <= at < 19
}

/// Whether the byte at `at` is the first of one of the six fields.
pub open spec fn starts_field(at: int) -> bool {
    at == 0 || at == 5 || at == 8 || at == 11 || at == 14 || at == 17
}

/// Tests whether the six fields can be cut out of `text`.
pub fn fits_layout(text: &str) -> (fits: bool)
    ensures
        fits == has_layout(text.spec_bytes()),
{
    text.as_bytes().len() >= WIDTH && text.is_char_boundary(4) && text.is_char_boundary(5)
        && text.is_char_boundary(7) && text.is_char_boundary(8) && text.is_char_boundary(10)
        && text.is_char_boundary(11) && text.is_char_boundary(13) && text.is_char_boundary(14)
        && text.is_char_boundary(16) && text.is_char_boundary(17) && text.is_char_boundary(19)
}

/// The part of `text` from byte `from` up to byte `to`, both of them
/// between two characters.
pub(crate) fn cut(text: &str, from: usize, to: usize) -> (part: &str)
    requires
        from <= to <= text.spec_bytes().len(),
        from == 0 || is_char_boundary(text.spec_bytes(), from as int),
        is_char_boundary(text.spec_bytes(), to as int),
    ensures
        part.spec_bytes() == text.spec_bytes().subrange(from as int, to as int),
{
    proof {
        let bytes = text.spec_bytes();
        let head = bytes.subrange(0, to as int);
        encode_utf8_valid_utf8(text@);
        valid_utf8_split(bytes, to as int);
        if 0 < from && from < to {
            is_char_boundary_iff_not_is_continuation_byte(bytes, from as int);
            is_char_boundary_iff_not_is_continuation_byte(head, from as int);
        } else {
            is_char_boundary_start_end_of_seq(head);
        }
    }
    let (head, _) = text.split_at(to);
    let (_, part) = head.split_at(from);
    assert(head.spec_bytes().subrange(from as int, to as int) == text.spec_bytes().subrange(
        from as int,
        to as int,
    ));
    part
}

} // verus!
