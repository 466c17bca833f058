//! Searching a text for a marker.
//!
//! The search runs over the UTF-8 bytes of the text; its contract is stated
//! over the characters. For a marker made of ASCII characters the two agree,
//! which is proved here.

use vstd::prelude::*;
use vstd::utf8::*;

verus! {

/// Whether `needle` stands in `hay` at position `at`.
pub open spec fn occurs_at<T>(needle: Seq<T>, hay: Seq<T>, at: int) -> bool {
    &&& 0 <= at
    &&& at + needle.len() <= hay.len()
    &&& hay.subrange(at, at + needle.len()) == needle
}

/// Whether `needle` stands somewhere in `hay` as a contiguous run.
pub open spec fn occurs_in<T>(needle: Seq<T>, hay: Seq<T>) -> bool {
    exists|at: int| occurs_at(needle, hay, at)
}

fn matches_at(hay: &[u8], needle: &[u8], at: usize) -> (r: bool)
    requires
        at + needle.len() <= hay.len(),
    ensures
        r == occurs_at(needle@, hay@, at as int),
{
    let mut k: usize = 0;
    while k < needle.len()
        invariant
            k <= needle.len(),
            at + needle.len() <= hay.len(),
            forall|i: int| 0 <= i < k ==> hay@[at + i] == needle@[i],
        decreases needle.len() - k,
    {
        if hay[at + k] != needle[k] {
            proof {
                let window = hay@.subrange(at as int, at + needle@.len());
                assert(window[k as int] == hay@[at + k]);
            }
            return false;
        }
        k += 1;
    }
    assert(hay@.subrange(at as int, at + needle@.len()) =~= needle@);
    true
}

/// Whether the bytes of `needle` stand somewhere in `hay`.
pub fn contains_bytes(hay: &[u8], needle: &[u8]) -> (r: bool)
    ensures
        r == occurs_in(needle@, hay@),
{
    if needle.len() > hay.len() {
        return false;
    }
    let last: usize = hay.len() - needle.len();
    let mut at: usize = 0;
    while at < last
        invariant
            last == hay.len() - needle.len(),
            at <= last,
            forall|i: int| 0 <= i < at ==> !occurs_at(needle@, hay@, i),
        decreases last - at,
    {
        if matches_at(hay, needle, at) {
            return true;
        }
        at += 1;
    }
    matches_at(hay, needle, last)
}

proof fn lemma_multibyte_scalar(scalar: u32)
    requires
        is_scalar(scalar),
        !has_width_1_encoding(scalar),
    ensures
        2 <= encode_scalar(scalar).len() <= 4,
        forall|i: int| 0 <= i < encode_scalar(scalar).len() ==> encode_scalar(scalar)[i] >= 0x80,
{
    assert(leading_byte_width_2(scalar) >= 0x80) by (bit_vector);
    assert(leading_byte_width_3(scalar) >= 0x80) by (bit_vector);
    assert(leading_byte_width_4(scalar) >= 0x80) by (bit_vector);
    assert(last_continuation_byte(scalar) >= 0x80) by (bit_vector);
    assert(second_last_continuation_byte(scalar) >= 0x80) by (bit_vector);
    assert(third_last_continuation_byte(scalar) >= 0x80) by (bit_vector);
}

proof fn lemma_single_byte_scalar(scalar: u32)
    requires
        has_width_1_encoding(scalar),
    ensures
        encode_scalar(scalar) == seq![scalar as u8],
        (scalar as u8) < 0x80,
        ((scalar as u8) as u32) == scalar,
{
    assert(leading_byte_width_1(scalar) == scalar as u8 && (scalar as u8) < 0x80 && ((scalar as u8)
        as u32) == scalar) by (bit_vector)
        requires
            0 <= scalar <= 0x7F,
    ;
}

/// An ASCII marker stands at the start of a text exactly when its bytes
/// stand at the start of the text's encoding.
proof fn lemma_ascii_prefix(marker: Seq<char>, text: Seq<char>)
    requires
        is_ascii_chars(marker),
    ensures
        occurs_at(encode_utf8(marker), encode_utf8(text), 0) <==> occurs_at(marker, text, 0),
    decreases marker.len(),
{
    is_ascii_chars_encode_utf8(marker);
    let m = encode_utf8(marker);
    let t = encode_utf8(text);
    if marker.len() == 0 {
        assert(t.subrange(0, 0) =~= m);
        assert(text.subrange(0, 0) =~= marker);
    } else if text.len() == 0 {
    } else {
        let head = text[0];
        let rest = text.drop_first();
        let marker_rest = marker.drop_first();
        char_is_scalar(head);
        char_is_scalar(marker[0]);
        lemma_single_byte_scalar(marker[0] as u32);
        assert(is_ascii_chars(marker_rest)) by {
            assert forall|i: int| 0 <= i < marker_rest.len() implies '\0' <= #[trigger] marker_rest[i]
                <= '\u{7f}' by {
                assert(marker_rest[i] == marker[i + 1]);
            }
        }
        lemma_ascii_prefix(marker_rest, rest);
        is_ascii_chars_encode_utf8(marker_rest);
        let mr = encode_utf8(marker_rest);
        let tr = encode_utf8(rest);
        assert(m =~= seq![marker[0] as u8] + mr);
        if occurs_at(m, t, 0) {
            assert(t.subrange(0, m.len() as int)[0] == m[0]);
            assert(t[0] == encode_scalar(head as u32)[0]);
            if !has_width_1_encoding(head as u32) {
                lemma_multibyte_scalar(head as u32);
                assert(false);
            }
            lemma_single_byte_scalar(head as u32);
            assert(head as u32 == marker[0] as u32);
            char_u32_cast(head, head as u32);
            char_u32_cast(marker[0], marker[0] as u32);
            assert(head == marker[0]);
            assert(t =~= seq![head as u8] + tr);
            assert(tr.subrange(0, mr.len() as int) =~= mr) by {
                assert forall|i: int| 0 <= i < mr.len() implies tr.subrange(0, mr.len() as int)[i]
                    == mr[i] by {
                    assert(t.subrange(0, m.len() as int)[i + 1] == m[i + 1]);
                }
            }
            assert(occurs_at(mr, tr, 0));
            assert(occurs_at(marker_rest, rest, 0));
            assert(text.subrange(0, marker.len() as int) =~= marker) by {
                assert forall|i: int| 0 <= i < marker.len() implies text.subrange(
                    0,
                    marker.len() as int,
                )[i] == marker[i] by {
                    if i > 0 {
                        assert(rest.subrange(0, marker_rest.len() as int)[i - 1] == marker_rest[i
                            - 1]);
                    }
                }
            }
        }
        if occurs_at(marker, text, 0) {
            assert(text.subrange(0, marker.len() as int)[0] == marker[0]);
            assert(head == marker[0]);
            lemma_single_byte_scalar(head as u32);
            assert(t =~= seq![head as u8] + tr);
            assert(rest.subrange(0, marker_rest.len() as int) =~= marker_rest) by {
                assert forall|i: int| 0 <= i < marker_rest.len() implies rest.subrange(
                    0,
                    marker_rest.len() as int,
                )[i] == marker_rest[i] by {
                    assert(text.subrange(0, marker.len() as int)[i + 1] == marker[i + 1]);
                }
            }
            assert(occurs_at(marker_rest, rest, 0));
            assert(occurs_at(mr, tr, 0));
            assert(t.subrange(0, m.len() as int) =~= m) by {
                assert forall|i: int| 0 <= i < m.len() implies t.subrange(0, m.len() as int)[i]
                    == m[i] by {
                    if i > 0 {
                        assert(tr.subrange(0, mr.len() as int)[i - 1] == mr[i - 1]);
                    }
                }
            }
        }
    }
}

/// An ASCII marker stands in a text exactly when its bytes stand in the
/// text's UTF-8 encoding.
pub proof fn lemma_ascii_marker_in_encoding(marker: Seq<char>, text: Seq<char>)
    requires
        is_ascii_chars(marker),
    ensures
        occurs_in(encode_utf8(marker), encode_utf8(text)) <==> occurs_in(marker, text),
    decreases text.len(),
{
    is_ascii_chars_encode_utf8(marker);
    let m = encode_utf8(marker);
    let t = encode_utf8(text);
    lemma_ascii_prefix(marker, text);
    if marker.len() == 0 {
        assert(occurs_at(m, t, 0)) by {
            assert(t.subrange(0, 0) =~= m);
        }
        assert(occurs_at(marker, text, 0)) by {
            assert(text.subrange(0, 0) =~= marker);
        }
    } else if text.len() == 0 {
        assert(t.len() == 0);
    } else {
        let head = text[0];
        let rest = text.drop_first();
        let tr = encode_utf8(rest);
        let width = encode_scalar(head as u32).len() as int;
        char_is_scalar(head);
        char_is_scalar(marker[0]);
        lemma_single_byte_scalar(marker[0] as u32);
        if has_width_1_encoding(head as u32) {
            lemma_single_byte_scalar(head as u32);
        } else {
            lemma_multibyte_scalar(head as u32);
        }
        assert(t =~= encode_scalar(head as u32) + tr);
        lemma_ascii_marker_in_encoding(marker, rest);
        if occurs_in(m, t) {
            let at = choose|at: int| occurs_at(m, t, at);
            if at == 0 {
                assert(occurs_at(marker, text, 0));
            } else {
                if at < width {
                    assert(t.subrange(at, at + m.len())[0] == m[0]);
                    assert(t[at] == encode_scalar(head as u32)[at]);
                    assert(false);
                }
                assert(tr.subrange(at - width, at - width + m.len()) =~= t.subrange(
                    at,
                    at + m.len(),
                ));
                assert(occurs_at(m, tr, at - width));
                let inner = choose|inner: int| occurs_at(marker, rest, inner);
                assert(text.subrange(inner + 1, inner + 1 + marker.len()) =~= rest.subrange(
                    inner,
                    inner + marker.len(),
                ));
                assert(occurs_at(marker, text, inner + 1));
            }
        }
        if occurs_in(marker, text) {
            let at = choose|at: int| occurs_at(marker, text, at);
            if at == 0 {
                assert(occurs_at(m, t, 0));
            } else {
                assert(rest.subrange(at - 1, at - 1 + marker.len()) =~= text.subrange(
                    at,
                    at + marker.len(),
                ));
                assert(occurs_at(marker, rest, at - 1));
                let inner = choose|inner: int| occurs_at(m, tr, inner);
                assert(t.subrange(inner + width, inner + width + m.len()) =~= tr.subrange(
                    inner,
                    inner + m.len(),
                ));
                assert(occurs_at(m, t, inner + width));
            }
        }
    }
}

/// Whether `marker` stands somewhere in `text`. The marker is made of ASCII
/// characters; the text is any string.
pub(crate) fn mentions(text: &str, marker: &str) -> (r: bool)
    requires
        is_ascii_chars(marker@),
    ensures
        r == occurs_in(marker@, text@),
{
    proof {
        lemma_ascii_marker_in_encoding(marker@, text@);
    }
    contains_bytes(text.as_bytes(), marker.as_bytes())
}

} // verus!
