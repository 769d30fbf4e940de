//! Bit fields inside a sixteen-bit register word.

use vstd::prelude::*;

verus! {

/// The word `word` with the field of mask `mask` at bit `shift` replaced by
/// `code`.
pub open spec fn with_field(word: u16, mask: u16, shift: u16, code: u16) -> u16 {
    (word & !(mask << shift)) | (code << shift)
}

/// The content of the field of mask `mask` at bit `shift` of `word`.
pub open spec fn field(word: u16, mask: u16, shift: u16) -> u16 {
    (word >> shift) & mask
}

/// `after` differs from `before` in the field of mask `mask` at bit `shift`
/// at most, and holds `code` there.
pub open spec fn replaces_field(before: u16, after: u16, mask: u16, shift: u16, code: u16) -> bool {
    &&& field(after, mask, shift) == code
    &&& after & !(mask << shift) == before & !(mask << shift)
}

/// Number of bits of a field mask; the fields of the sensor's registers are one
/// to four bits wide.
pub open spec fn mask_width(mask: u16) -> int {
    if mask == 0b1 {
        1
    } else if mask == 0b11 {
        2
    } else if mask == 0b111 {
        3
    } else {
        4
    }
}

/// `mask` at bit `shift` is a field of one to four bits that lies inside the
/// word.
pub open spec fn is_field(mask: u16, shift: u16) -> bool {
    &&& mask == 0b1 || mask == 0b11 || mask == 0b111 || mask == 0b1111
    &&& shift + mask_width(mask) <= 16
}

/// Writing a code that fits into a field sets that field and nothing else.
pub proof fn lemma_with_field_replaces(word: u16, mask: u16, shift: u16, code: u16)
    requires
        is_field(mask, shift),
        code <= mask,
    ensures
        replaces_field(word, with_field(word, mask, shift, code), mask, shift, code),
{
    assert(replaces_field(word, with_field(word, mask, shift, code), mask, shift, code))
        by (bit_vector)
        requires
            mask == 0b1 && shift <= 15 || mask == 0b11 && shift <= 14 || mask == 0b111 && shift
                <= 13 || mask == 0b1111 && shift <= 12,
            code <= mask,
    ;
}

/// The last write to a field wins.
pub proof fn lemma_with_field_overwrites(word: u16, mask: u16, shift: u16, first: u16, second: u16)
    requires
        is_field(mask, shift),
        first <= mask,
    ensures
        with_field(with_field(word, mask, shift, first), mask, shift, second) == with_field(
            word,
            mask,
            shift,
            second,
        ),
{
    assert(with_field(with_field(word, mask, shift, first), mask, shift, second) == with_field(
        word,
        mask,
        shift,
        second,
    )) by (bit_vector)
        requires
            mask == 0b1 && shift <= 15 || mask == 0b11 && shift <= 14 || mask == 0b111 && shift
                <= 13 || mask == 0b1111 && shift <= 12,
            first <= mask,
    ;
}

/// A write to one field leaves every field that does not overlap it as it was.
pub proof fn lemma_with_field_keeps_others(
    word: u16,
    mask: u16,
    shift: u16,
    code: u16,
    other_mask: u16,
    other_shift: u16,
)
    requires
        is_field(mask, shift),
        is_field(other_mask, other_shift),
        code <= mask,
        shift + mask_width(mask) <= other_shift || other_shift + mask_width(other_mask) <= shift,
    ensures
        field(with_field(word, mask, shift, code), other_mask, other_shift) == field(
            word,
            other_mask,
            other_shift,
        ),
{
    let w: u16 = mask_width(mask) as u16;
    let ow: u16 = mask_width(other_mask) as u16;
    assert(field(with_field(word, mask, shift, code), other_mask, other_shift) == field(
        word,
        other_mask,
        other_shift,
    )) by (bit_vector)
        requires
            mask == 0b1 && w == 1 || mask == 0b11 && w == 2 || mask == 0b111 && w == 3 || mask
                == 0b1111 && w == 4,
            other_mask == 0b1 && ow == 1 || other_mask == 0b11 && ow == 2 || other_mask == 0b111
                && ow == 3 || other_mask == 0b1111 && ow == 4,
            shift + w <= 16,
            other_shift + ow <= 16,
            code <= mask,
            shift + w <= other_shift || other_shift + ow <= shift,
    ;
}

/// Writes to two fields that do not overlap give the same word in either
/// order.
pub proof fn lemma_with_field_commutes(
    word: u16,
    mask: u16,
    shift: u16,
    code: u16,
    other_mask: u16,
    other_shift: u16,
    other_code: u16,
)
    requires
        is_field(mask, shift),
        is_field(other_mask, other_shift),
        code <= mask,
        other_code <= other_mask,
        shift + mask_width(mask) <= other_shift || other_shift + mask_width(other_mask) <= shift,
    ensures
        with_field(with_field(word, mask, shift, code), other_mask, other_shift, other_code)
            == with_field(with_field(word, other_mask, other_shift, other_code), mask, shift, code),
{
    let w: u16 = mask_width(mask) as u16;
    let ow: u16 = mask_width(other_mask) as u16;
    assert(with_field(with_field(word, mask, shift, code), other_mask, other_shift, other_code)
        == with_field(with_field(word, other_mask, other_shift, other_code), mask, shift, code))
        by (bit_vector)
        requires
            mask == 0b1 && w == 1 || mask == 0b11 && w == 2 || mask == 0b111 && w == 3 || mask
                == 0b1111 && w == 4,
            other_mask == 0b1 && ow == 1 || other_mask == 0b11 && ow == 2 || other_mask == 0b111
                && ow == 3 || other_mask == 0b1111 && ow == 4,
            shift + w <= 16,
            other_shift + ow <= 16,
            code <= mask,
            other_code <= other_mask,
            shift + w <= other_shift || other_shift + ow <= shift,
    ;
}

/// The code of a one-bit field: 1 for an enabled feature, 0 for a disabled one.
pub open spec fn flag(enabled: bool) -> u16 {
    if enabled {
        1
    } else {
        0
    }
}

/// Returns the code of a one-bit field.
pub fn flag_code(enabled: bool) -> (c: u16)
    ensures
        c == flag(enabled),
{
    if enabled {
        1
    } else {
        0
    }
}

/// Replaces the field of mask `mask` at bit `shift` of `word` by `code`.
pub fn put_field(word: u16, mask: u16, shift: u16, code: u16) -> (r: u16)
    requires
        is_field(mask, shift),
        code <= mask,
    ensures
        r == with_field(word, mask, shift, code),
        replaces_field(word, r, mask, shift, code),
{
    proof {
        lemma_with_field_replaces(word, mask, shift, code);
    }
    (word & !(mask << shift)) | (code << shift)
}

} // verus!
