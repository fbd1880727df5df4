use vstd::prelude::*;

use crate::encode::{ascii_no_nul, is_narrow_char};

verus! {

/// Number of bytes in an application identity.
pub const PROJECT_ID_LEN: usize = 16;

/// The lower-case hexadecimal digit for a value below sixteen.
pub open spec fn hex_char(n: int) -> char {
    if n == 0 {
        '0'
    } else if n == 1 {
        '1'
    } else if n == 2 {
        '2'
    } else if n == 3 {
        '3'
    } else if n == 4 {
        '4'
    } else if n == 5 {
        '5'
    } else if n == 6 {
        '6'
    } else if n == 7 {
        '7'
    } else if n == 8 {
        '8'
    } else if n == 9 {
        '9'
    } else if n == 10 {
        'a'
    } else if n == 11 {
        'b'
    } else if n == 12 {
        'c'
    } else if n == 13 {
        'd'
    } else if n == 14 {
        'e'
    } else {
        'f'
    }
}

/// The two lower-case hexadecimal digits of one byte, high nibble first.
pub open spec fn byte_hex(b: u8) -> Seq<char> {
    seq![hex_char(b as int / 16), hex_char(b as int % 16)]
}

/// The hexadecimal rendering of a byte sequence, left to right.
pub open spec fn hex_of(bytes: Seq<u8>) -> Seq<char>
    decreases bytes.len(),
{
    if bytes.len() == 0 {
        Seq::empty()
    } else {
        hex_of(bytes.drop_last()) + byte_hex(bytes.last())
    }
}

/// The canonical, hyphenated rendering of a sixteen-byte identity:
/// five lower-case hexadecimal groups of 8, 4, 4, 4 and 12 digits.
pub open spec fn canonical_of(b: Seq<u8>) -> Seq<char> {
    hex_of(b.subrange(0, 4)) + seq!['-'] + hex_of(b.subrange(4, 6)) + seq!['-'] + hex_of(
        b.subrange(6, 8),
    ) + seq!['-'] + hex_of(b.subrange(8, 10)) + seq!['-'] + hex_of(b.subrange(10, 16))
}

/// A stable, globally unique identity chosen by the embedding
/// application, held as its sixteen raw bytes.
#[derive(Clone)]
pub struct ProjectId {
    bytes: Vec<u8>,
}

impl View for ProjectId {
    type V = Seq<u8>;

    closed spec fn view(&self) -> Seq<u8> {
        self.bytes@
    }
}

impl ProjectId {
    /// A well-formed identity holds exactly sixteen bytes.
    pub open spec fn wf(&self) -> bool {
        self@.len() == PROJECT_ID_LEN
    }

    /// Builds an identity from raw bytes; refuses any count other
    /// than sixteen.
    pub fn from_bytes(bytes: Vec<u8>) -> (r: Option<ProjectId>)
        ensures
            r is Some <==> bytes@.len() == PROJECT_ID_LEN,
            r matches Some(id) ==> id@ == bytes@ && id.wf(),
    {
        if bytes.len() == PROJECT_ID_LEN {
            Some(ProjectId { bytes })
        } else {
            None
        }
    }

    /// Renders the identity in its canonical hyphenated form: thirty-six
    /// characters, thirty-two hexadecimal digits in five groups.
    pub fn to_canonical_string(&self) -> (s: String)
        requires
            self.wf(),
        ensures
            s@ == canonical_of(self@),
            s@.len() == 36,
    {
        proof {
            lemma_hex_ascii(self@.subrange(0, 4));
            lemma_hex_ascii(self@.subrange(4, 6));
            lemma_hex_ascii(self@.subrange(6, 8));
            lemma_hex_ascii(self@.subrange(8, 10));
            lemma_hex_ascii(self@.subrange(10, 16));
        }
        let mut s = String::new();
        append_hex_range(&mut s, &self.bytes, 0, 4);
        s.append("-");
        append_hex_range(&mut s, &self.bytes, 4, 6);
        s.append("-");
        append_hex_range(&mut s, &self.bytes, 6, 8);
        s.append("-");
        append_hex_range(&mut s, &self.bytes, 8, 10);
        s.append("-");
        append_hex_range(&mut s, &self.bytes, 10, 16);
        proof {
            reveal_strlit("-");
            assert("-"@ =~= seq!['-']);
            assert(s@ =~= canonical_of(self@));
        }
        s
    }
}

/// The single-character string for one hexadecimal digit.
fn hex_digit_str(n: u8) -> (r: &'static str)
    requires
        n < 16,
    ensures
        r@ =~= seq![hex_char(n as int)],
{
    proof {
        reveal_strlit("0");
        reveal_strlit("1");
        reveal_strlit("2");
        reveal_strlit("3");
        reveal_strlit("4");
        reveal_strlit("5");
        reveal_strlit("6");
        reveal_strlit("7");
        reveal_strlit("8");
        reveal_strlit("9");
        reveal_strlit("a");
        reveal_strlit("b");
        reveal_strlit("c");
        reveal_strlit("d");
        reveal_strlit("e");
        reveal_strlit("f");
    }
    match n {
        0 => "0",
        1 => "1",
        2 => "2",
        3 => "3",
        4 => "4",
        5 => "5",
        6 => "6",
        7 => "7",
        8 => "8",
        9 => "9",
        10 => "a",
        11 => "b",
        12 => "c",
        13 => "d",
        14 => "e",
        _ => "f",
    }
}

/// Appends the hexadecimal rendering of `bytes[from..to]` to `s`.
fn append_hex_range(s: &mut String, bytes: &Vec<u8>, from: usize, to: usize)
    requires
        from <= to <= bytes@.len(),
    ensures
        final(s)@ == old(s)@ + hex_of(bytes@.subrange(from as int, to as int)),
{
    let mut i: usize = from;
    while i < to
        invariant
            from <= i <= to <= bytes@.len(),
            s@ == old(s)@ + hex_of(bytes@.subrange(from as int, i as int)),
        decreases to - i,
    {
        let b = bytes[i];
        s.append(hex_digit_str(b / 16));
        s.append(hex_digit_str(b % 16));
        i = i + 1;
        proof {
            let sub = bytes@.subrange(from as int, i as int);
            assert(sub.drop_last() =~= bytes@.subrange(from as int, i - 1 as int));
            assert(sub.last() == bytes@[i - 1]);
            assert(s@ =~= old(s)@ + hex_of(sub));
        }
    }
    proof {
        assert(s@ =~= old(s)@ + hex_of(bytes@.subrange(from as int, to as int)));
    }
}

/// Every character of a canonical identity rendering is a printable
/// ASCII character, so the rendering survives the narrow encoding.
pub proof fn lemma_canonical_ascii(b: Seq<u8>)
    ensures
        ascii_no_nul(canonical_of(b)),
{
    lemma_hex_ascii(b.subrange(0, 4));
    lemma_hex_ascii(b.subrange(4, 6));
    lemma_hex_ascii(b.subrange(6, 8));
    lemma_hex_ascii(b.subrange(8, 10));
    lemma_hex_ascii(b.subrange(10, 16));
    assert forall|i: int| 0 <= i < canonical_of(b).len() implies is_narrow_char(
        #[trigger] canonical_of(b)[i],
    ) by {
        assert(is_narrow_char('-'));
    }
}

/// Every character of a hexadecimal rendering is a digit or a
/// lower-case letter, hence printable ASCII.
pub proof fn lemma_hex_ascii(bytes: Seq<u8>)
    ensures
        ascii_no_nul(hex_of(bytes)),
        hex_of(bytes).len() == 2 * bytes.len(),
    decreases bytes.len(),
{
    if bytes.len() > 0 {
        lemma_hex_ascii(bytes.drop_last());
        let b = bytes.last();
        assert(is_narrow_char(hex_char(b as int / 16)));
        assert(is_narrow_char(hex_char(b as int % 16)));
        assert forall|i: int| 0 <= i < hex_of(bytes).len() implies is_narrow_char(
            #[trigger] hex_of(bytes)[i],
        ) by {
            if i < hex_of(bytes.drop_last()).len() {
                assert(hex_of(bytes)[i] == hex_of(bytes.drop_last())[i]);
            }
        }
    }
}

} // verus!
