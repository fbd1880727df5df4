use vstd::prelude::*;

verus! {

/// Every character's code point lies below the Unicode limit.
pub proof fn lemma_char_code_point(c: char)
    ensures
        (c as u32) < 0x110000,
{
}

/// An ASCII character other than nul.
pub open spec fn is_narrow_char(c: char) -> bool {
    1 <= (c as u32) && (c as u32) < 128
}

/// Holds when every character of `s` is ASCII and none is the nul
/// character, so that `s` survives a narrow, nul-terminated encoding
/// unchanged.
pub open spec fn ascii_no_nul(s: Seq<char>) -> bool {
    forall|i: int| 0 <= i < s.len() ==> is_narrow_char(#[trigger] s[i])
}

/// Holds when no character of `s` is the nul character, so that a
/// nul-terminated encoding of `s` has its terminator only at the end.
pub open spec fn no_nul(s: Seq<char>) -> bool {
    forall|i: int| 0 <= i < s.len() ==> ((#[trigger] s[i]) as u32) != 0
}

/// The narrow, nul-terminated encoding of an ASCII string: each
/// character as one byte, followed by a single terminating zero.
pub open spec fn nt_bytes_of(s: Seq<char>) -> Seq<u8> {
    s.map(|_i: int, c: char| ((c as u32) as u8)).push(0u8)
}

/// The wide, nul-terminated encoding of a string: each character as
/// one code point, followed by a single terminating zero.
pub open spec fn wide_of(s: Seq<char>) -> Seq<u32> {
    s.map(|_i: int, c: char| c as u32).push(0u32)
}

/// The UTF-16 code units of one code point: the point itself when it
/// lies in the basic plane, a surrogate pair otherwise.
pub open spec fn utf16_units_of(v: u32) -> Seq<u16> {
    if v < 0x10000 {
        seq![v as u16]
    } else {
        seq![
            (0xD800 + ((v - 0x10000) / 0x400)) as u16,
            (0xDC00 + ((v - 0x10000) % 0x400)) as u16,
        ]
    }
}

/// The UTF-16 re-encoding of a wide code-point buffer, left to right.
pub open spec fn utf16_of(points: Seq<u32>) -> Seq<u16>
    decreases points.len(),
{
    if points.len() == 0 {
        Seq::empty()
    } else {
        utf16_of(points.drop_last()) + utf16_units_of(points.last())
    }
}

/// Every element of the buffer is a code point, as the wide encoding
/// guarantees of its output.
pub open spec fn all_code_points(points: Seq<u32>) -> bool {
    forall|i: int| 0 <= i < points.len() ==> (#[trigger] points[i]) < 0x110000
}

/// Re-encodes a wide code-point buffer into UTF-16 code units, for
/// the OS family whose native wide text uses them. A terminating zero
/// in the buffer stays a single terminating zero unit.
pub fn wide_to_utf16(points: &Vec<u32>) -> (r: Vec<u16>)
    requires
        all_code_points(points@),
    ensures
        r@ == utf16_of(points@),
        (points@.len() >= 1 && points@.last() == 0u32 && (forall|i: int|
            0 <= i < points@.len() - 1 ==> points@[i] != 0u32)) ==> (r@.len() >= 1 && r@.last()
            == 0u16 && (forall|i: int| 0 <= i < r@.len() - 1 ==> r@[i] != 0u16)),
{
    proof {
        if points@.len() >= 1 && points@.last() == 0u32 && (forall|i: int|
            0 <= i < points@.len() - 1 ==> points@[i] != 0u32) {
            lemma_utf16_keeps_termination(points@);
        }
    }
    let len = points.len();
    let mut out: Vec<u16> = Vec::new();
    let mut i: usize = 0;
    while i < len
        invariant
            all_code_points(points@),
            0 <= i <= len,
            len == points@.len(),
            out@ == utf16_of(points@.subrange(0, i as int)),
        decreases len - i,
    {
        let v = points[i];
        if v < 0x10000 {
            out.push(v as u16);
        } else {
            let offset = v - 0x10000;
            out.push((0xD800 + offset / 0x400) as u16);
            out.push((0xDC00 + offset % 0x400) as u16);
        }
        i = i + 1;
        proof {
            let sub = points@.subrange(0, i as int);
            assert(sub.drop_last() =~= points@.subrange(0, (i - 1) as int));
            assert(out@ =~= utf16_of(sub));
        }
    }
    proof {
        assert(points@.subrange(0, len as int) =~= points@);
    }
    out
}

/// The wide encoding of any string holds only code points.
pub proof fn lemma_wide_all_code_points(s: Seq<char>)
    ensures
        all_code_points(wide_of(s)),
{
    let m = s.map(|_i: int, c: char| c as u32);
    assert forall|i: int| 0 <= i < wide_of(s).len() implies (#[trigger] wide_of(s)[i])
        < 0x110000 by {
        if i < s.len() {
            assert(wide_of(s)[i] == m[i]);
            lemma_char_code_point(s[i]);
        } else {
            assert(wide_of(s)[i] == 0u32);
        }
    }
}

/// The UTF-16 re-encoding of a nul-terminated wide buffer is again
/// non-empty, ends in a single terminating zero unit, and holds no
/// interior zero unit: no code unit of a non-nul code point is zero.
pub proof fn lemma_utf16_keeps_termination(points: Seq<u32>)
    requires
        points.len() >= 1,
        points.last() == 0u32,
        forall|i: int| 0 <= i < points.len() - 1 ==> points[i] != 0u32,
        all_code_points(points),
    ensures
        utf16_of(points).len() >= 1,
        utf16_of(points).last() == 0u16,
        forall|i: int| 0 <= i < utf16_of(points).len() - 1 ==> utf16_of(points)[i] != 0u16,
{
    lemma_utf16_no_zero_units(points.drop_last());
    assert(utf16_of(points) =~= utf16_of(points.drop_last()) + seq![0u16]);
}

/// The UTF-16 units of a buffer of non-nul code points are all
/// non-zero: a basic-plane point maps to itself, and surrogates lie
/// far above zero.
pub proof fn lemma_utf16_no_zero_units(points: Seq<u32>)
    requires
        forall|i: int| 0 <= i < points.len() ==> points[i] != 0u32,
        all_code_points(points),
    ensures
        forall|i: int| 0 <= i < utf16_of(points).len() ==> utf16_of(points)[i] != 0u16,
    decreases points.len(),
{
    if points.len() > 0 {
        lemma_utf16_no_zero_units(points.drop_last());
        let v = points.last();
        assert(points[points.len() - 1] != 0u32);
        assert forall|i: int| 0 <= i < utf16_of(points).len() implies utf16_of(points)[i]
            != 0u16 by {
            if i < utf16_of(points.drop_last()).len() {
                assert(utf16_of(points)[i] == utf16_of(points.drop_last())[i]);
            } else {
                assert(utf16_of(points)[i] == utf16_units_of(v)[i - utf16_of(
                    points.drop_last(),
                ).len()]);
            }
        }
    }
}

/// Encodes an ASCII string as a narrow, nul-terminated byte buffer.
pub fn encode_nt_ascii(s: &str) -> (r: Vec<u8>)
    requires
        ascii_no_nul(s@),
    ensures
        r@ == nt_bytes_of(s@),
{
    let len = s.unicode_len();
    let mut out: Vec<u8> = Vec::new();
    let mut i: usize = 0;
    while i < len
        invariant
            ascii_no_nul(s@),
            0 <= i <= len,
            len == s@.len(),
            out@ == s@.subrange(0, i as int).map(|_k: int, c: char| ((c as u32) as u8)),
        decreases len - i,
    {
        let c = s.get_char(i);
        out.push((c as u32) as u8);
        i = i + 1;
        proof {
            assert(s@.subrange(0, i as int).map(|_k: int, c: char| ((c as u32) as u8))
                =~= s@.subrange(0, (i - 1) as int).map(|_k: int, c: char| ((c as u32) as u8)).push(
                (s@[i - 1] as u32) as u8,
            ));
        }
    }
    out.push(0u8);
    proof {
        assert(s@.subrange(0, len as int) =~= s@);
        assert(out@ =~= nt_bytes_of(s@));
    }
    out
}

/// Encodes a string as a wide, nul-terminated code-point buffer.
pub fn encode_wide(s: &str) -> (r: Vec<u32>)
    requires
        no_nul(s@),
    ensures
        r@ == wide_of(s@),
{
    let len = s.unicode_len();
    let mut out: Vec<u32> = Vec::new();
    let mut i: usize = 0;
    while i < len
        invariant
            0 <= i <= len,
            len == s@.len(),
            out@ == s@.subrange(0, i as int).map(|_k: int, c: char| c as u32),
        decreases len - i,
    {
        let c = s.get_char(i);
        out.push(c as u32);
        i = i + 1;
        proof {
            assert(s@.subrange(0, i as int).map(|_k: int, c: char| c as u32)
                =~= s@.subrange(0, (i - 1) as int).map(|_k: int, c: char| c as u32).push(
                s@[i - 1] as u32,
            ));
        }
    }
    out.push(0u32);
    proof {
        assert(s@.subrange(0, len as int) =~= s@);
        assert(out@ =~= wide_of(s@));
    }
    out
}

} // verus!
