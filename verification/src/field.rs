//! The value of one header field, as the bytes that came over the wire.

use vstd::prelude::*;
use vstd::slice::slice_subrange;

verus! {

/// Whether `byte` may stand in a value that is read as text: the printable
/// ASCII characters, the space among them, and the tab.
pub open spec fn is_visible(byte: u8) -> bool {
    32 <= byte < 127 || byte == 9
}

/// Whether `value` can be read as text: every byte of it is visible.
pub open spec fn is_text(value: Seq<u8>) -> bool {
    forall|i: int| 0 <= i < value.len() ==> is_visible(#[trigger] value[i])
}

/// Whether `byte` is white space that text can hold: a space or a tab.
pub open spec fn is_blank(byte: u8) -> bool {
    byte == 0x20 || byte == 0x09
}

/// `value` without the blanks that lead it.
pub open spec fn trim_start(value: Seq<u8>) -> Seq<u8>
    decreases value.len(),
{
    if value.len() > 0 && is_blank(value[0]) {
        trim_start(value.skip(1))
    } else {
        value
    }
}

/// `value` without the blanks that end it.
pub open spec fn trim_end(value: Seq<u8>) -> Seq<u8>
    decreases value.len(),
{
    if value.len() > 0 && is_blank(value.last()) {
        trim_end(value.drop_last())
    } else {
        value
    }
}

/// `value` without the blanks around it.
pub open spec fn trimmed(value: Seq<u8>) -> Seq<u8> {
    trim_end(trim_start(value))
}

/// The range unit `bytes`, in ASCII: `b`, `y`, `t`, `e`, `s`.
pub open spec fn bytes_unit() -> Seq<u8> {
    seq![0x62u8, 0x79u8, 0x74u8, 0x65u8, 0x73u8]
}

/// Whether `value` is text that names the range unit `bytes` and nothing
/// else, blanks around it aside.
pub open spec fn names_bytes_unit(value: Seq<u8>) -> bool {
    is_text(value) && trimmed(value) == bytes_unit()
}

/// Where the leading blanks of `value` stop: `trim_start` cuts off the
/// stretch of blanks before the first byte that is none, and no more.
pub proof fn lemma_trim_start_cuts_blanks(value: Seq<u8>) -> (cut: int)
    ensures
        0 <= cut <= value.len(),
        trim_start(value) == value.skip(cut),
        forall|i: int| 0 <= i < cut ==> is_blank(#[trigger] value[i]),
        cut < value.len() ==> !is_blank(value[cut]),
    decreases value.len(),
{
    if value.len() > 0 && is_blank(value[0]) {
        let rest = value.skip(1);
        let inner = lemma_trim_start_cuts_blanks(rest);
        assert forall|i: int| 0 <= i < inner + 1 implies is_blank(#[trigger] value[i]) by {
            if i > 0 {
                assert(value[i] == rest[i - 1]);
            }
        }
        inner + 1
    } else {
        0
    }
}

/// Where the trailing blanks of `value` start: `trim_end` cuts off the
/// stretch of blanks behind the last byte that is none, and no more.
pub proof fn lemma_trim_end_cuts_blanks(value: Seq<u8>) -> (cut: int)
    ensures
        0 <= cut <= value.len(),
        trim_end(value) == value.take(cut),
        forall|i: int| cut <= i < value.len() ==> is_blank(#[trigger] value[i]),
        0 < cut ==> !is_blank(value[cut - 1]),
    decreases value.len(),
{
    if value.len() > 0 && is_blank(value.last()) {
        let rest = value.drop_last();
        let inner = lemma_trim_end_cuts_blanks(rest);
        assert forall|i: int| inner <= i < value.len() implies is_blank(#[trigger] value[i]) by {
            if i < value.len() - 1 {
                assert(value[i] == rest[i]);
            }
        }
        inner
    } else {
        value.len() as int
    }
}

/// What trimming leaves is the stretch of `value` from its first byte that
/// is no blank to its last: all before it and all behind it is blank, and it
/// neither starts nor ends with a blank. Of a value that is all blanks,
/// nothing is left.
pub proof fn lemma_trimmed_is_the_core(value: Seq<u8>) -> (ends: (int, int))
    ensures
        0 <= ends.0 <= ends.1 <= value.len(),
        trimmed(value) == value.subrange(ends.0, ends.1),
        forall|i: int| 0 <= i < ends.0 ==> is_blank(#[trigger] value[i]),
        forall|i: int| ends.1 <= i < value.len() ==> is_blank(#[trigger] value[i]),
        ends.0 < ends.1 ==> !is_blank(value[ends.0]) && !is_blank(value[ends.1 - 1]),
{
    let lo = lemma_trim_start_cuts_blanks(value);
    let rest = value.skip(lo);
    let len = lemma_trim_end_cuts_blanks(rest);
    assert forall|i: int| lo + len <= i < value.len() implies is_blank(#[trigger] value[i]) by {
        assert(value[i] == rest[i - lo]);
    }
    (lo, lo + len)
}

/// A value that names the unit `bytes` once trimmed is text: the demand that
/// it be text refuses nothing that trimming and comparing would take.
pub proof fn lemma_unit_with_blanks_is_text(value: Seq<u8>)
    requires
        trimmed(value) == bytes_unit(),
    ensures
        names_bytes_unit(value),
{
    let ends = lemma_trimmed_is_the_core(value);
    let unit = bytes_unit();
    assert forall|i: int| 0 <= i < value.len() implies is_visible(#[trigger] value[i]) by {
        if ends.0 <= i < ends.1 {
            assert(is_text(unit));
        }
    }
}

/// Says whether a value can be read as text.
pub fn check_text(value: &[u8]) -> (text: bool)
    ensures
        text == is_text(value@),
{
    let mut at: usize = 0;
    while at < value.len()
        invariant
            at <= value.len(),
            is_text(value@.take(at as int)),
        decreases value.len() - at,
    {
        let byte: u8 = value[at];
        if !(byte >= 32 && byte < 127 || byte == 9) {
            return false;
        }
        at = at + 1;
    }
    assert(value@.take(at as int) =~= value@);
    true
}

/// Cuts the blanks off both ends of a value.
pub fn trim(value: &[u8]) -> (inner: &[u8])
    ensures
        inner@ == trimmed(value@),
{
    let mut lo: usize = 0;
    assert(value@.skip(0) =~= value@);
    while lo < value.len() && (value[lo] == 0x20 || value[lo] == 0x09)
        invariant
            lo <= value.len(),
            trim_start(value@) == trim_start(value@.skip(lo as int)),
        decreases value.len() - lo,
    {
        assert(value@.skip(lo as int).skip(1) =~= value@.skip(lo + 1));
        lo = lo + 1;
    }
    let mut hi: usize = value.len();
    while hi > lo && (value[hi - 1] == 0x20 || value[hi - 1] == 0x09)
        invariant
            lo <= hi <= value.len(),
            trimmed(value@) == trim_end(value@.subrange(lo as int, hi as int)),
        decreases hi - lo,
    {
        assert(value@.subrange(lo as int, hi as int).drop_last() =~= value@.subrange(
            lo as int,
            hi - 1,
        ));
        hi = hi - 1;
    }
    slice_subrange(value, lo, hi)
}

/// Says whether a value names the range unit `bytes`.
pub fn is_bytes_unit(value: &[u8]) -> (named: bool)
    ensures
        named == names_bytes_unit(value@),
{
    if !check_text(value) {
        return false;
    }
    let inner = trim(value);
    let named = inner.len() == 5 && inner[0] == 0x62 && inner[1] == 0x79 && inner[2] == 0x74
        && inner[3] == 0x65 && inner[4] == 0x73;
    assert(named ==> inner@ =~= bytes_unit());
    named
}

} // verus!
