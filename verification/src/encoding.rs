//! Percent-encoding of URL path segments.
use vstd::prelude::*;
use crate::text::char_from_ascii_code;
use vstd::string::StringSliceAdditionalSpecFns;

verus! {

/// Bytes that stay as they are in a path segment: ASCII letters and digits and `-._~`.
pub open spec fn unreserved(b: u8) -> bool {
    (97 <= b && b <= 122) || (65 <= b && b <= 90) || (48 <= b && b <= 57) || b == 45 || b == 46
        || b == 95 || b == 126
}

/// Upper-case hexadecimal digit for `n < 16`.
pub open spec fn hex_digit(n: u8) -> char {
    if n < 10 {
        (48 + n) as char
    } else {
        (55 + n) as char
    }
}

/// One byte encoded: itself when unreserved, else `%` and two upper-case hex digits.
pub open spec fn encode_byte(b: u8) -> Seq<char> {
    if unreserved(b) {
        seq![b as char]
    } else {
        seq!['%', hex_digit(b / 16), hex_digit(b % 16)]
    }
}

/// Every byte encoded in turn.
pub open spec fn encode_segment_spec(bs: Seq<u8>) -> Seq<char>
    decreases bs.len(),
{
    if bs.len() == 0 {
        seq![]
    } else {
        encode_byte(bs[0]) + encode_segment_spec(bs.drop_first())
    }
}

/// Every byte encoded in turn, except that `/` stays a separator.
pub open spec fn encode_path_spec(bs: Seq<u8>) -> Seq<char>
    decreases bs.len(),
{
    if bs.len() == 0 {
        seq![]
    } else {
        (if bs[0] == 47 {
            seq!['/']
        } else {
            encode_byte(bs[0])
        }) + encode_path_spec(bs.drop_first())
    }
}

/// Value of a hexadecimal digit (either case).
pub open spec fn hex_value(c: char) -> u8 {
    if '0' <= c && c <= '9' {
        ((c as u32) - 48) as u8
    } else if 'A' <= c && c <= 'F' {
        ((c as u32) - 55) as u8
    } else {
        ((c as u32) - 87) as u8
    }
}

/// Percent-decoding: `%XY` becomes the byte with hex value `XY`; any other
/// character becomes its code as a byte.
pub open spec fn percent_decode(cs: Seq<char>) -> Seq<u8>
    decreases cs.len(),
{
    if cs.len() == 0 {
        seq![]
    } else if cs[0] == '%' && cs.len() >= 3 {
        seq![(hex_value(cs[1]) * 16 + hex_value(cs[2])) as u8] + percent_decode(cs.skip(3))
    } else {
        seq![cs[0] as u8] + percent_decode(cs.drop_first())
    }
}

proof fn lemma_encode_segment_push(a: Seq<u8>, x: u8)
    ensures
        encode_segment_spec(a.push(x)) == encode_segment_spec(a) + encode_byte(x),
    decreases a.len(),
{
    if a.len() == 0 {
        assert(a.push(x).drop_first() =~= Seq::<u8>::empty());
        assert(encode_segment_spec(Seq::<u8>::empty()) == Seq::<char>::empty());
        assert(encode_byte(x) + Seq::<char>::empty() =~= encode_byte(x));
        assert(Seq::<char>::empty() + encode_byte(x) =~= encode_byte(x));
    } else {
        assert(a.push(x).drop_first() =~= a.drop_first().push(x));
        lemma_encode_segment_push(a.drop_first(), x);
        assert(encode_byte(a[0]) + (encode_segment_spec(a.drop_first()) + encode_byte(x))
            =~= (encode_byte(a[0]) + encode_segment_spec(a.drop_first())) + encode_byte(x));
    }
}

proof fn lemma_encode_path_push(a: Seq<u8>, x: u8)
    ensures
        encode_path_spec(a.push(x)) == encode_path_spec(a) + (if x == 47 {
            seq!['/']
        } else {
            encode_byte(x)
        }),
    decreases a.len(),
{
    let ex = if x == 47 {
        seq!['/']
    } else {
        encode_byte(x)
    };
    if a.len() == 0 {
        assert(a.push(x).drop_first() =~= Seq::<u8>::empty());
        assert(encode_path_spec(Seq::<u8>::empty()) == Seq::<char>::empty());
        assert(ex + Seq::<char>::empty() =~= ex);
        assert(Seq::<char>::empty() + ex =~= ex);
    } else {
        let e0 = if a[0] == 47 {
            seq!['/']
        } else {
            encode_byte(a[0])
        };
        assert(a.push(x).drop_first() =~= a.drop_first().push(x));
        lemma_encode_path_push(a.drop_first(), x);
        assert(e0 + (encode_path_spec(a.drop_first()) + ex) =~= (e0 + encode_path_spec(
            a.drop_first(),
        )) + ex);
    }
}

/// The hexadecimal digit for `n < 16`.
fn hex_char(n: u8) -> (c: char)
    requires
        n < 16,
    ensures
        c == hex_digit(n),
{
    if n < 10 {
        char_from_ascii_code(48 + n)
    } else {
        char_from_ascii_code(55 + n)
    }
}

/// Percent-encodes one path segment: ASCII letters, digits and `-._~` stay,
/// every other byte of the UTF-8 encoding becomes `%XX`.
pub fn encode_path_segment(value: &str) -> (r: String)
    ensures
        r@ == encode_segment_spec(value.spec_bytes()),
{
    let bytes = value.as_bytes();
    let mut out = String::new();
    let mut i: usize = 0;
    while i < bytes.len()
        invariant
            i <= bytes@.len(),
            bytes@ == value.spec_bytes(),
            out@ == encode_segment_spec(bytes@.subrange(0, i as int)),
        decreases bytes@.len() - i,
    {
        let b = bytes[i];
        proof {
            lemma_encode_segment_push(bytes@.subrange(0, i as int), b);
            assert(bytes@.subrange(0, i as int).push(b) =~= bytes@.subrange(0, i + 1));
        }
        if (97 <= b && b <= 122) || (65 <= b && b <= 90) || (48 <= b && b <= 57) || b == 45 || b
            == 46 || b == 95 || b == 126 {
            out.push(char_from_ascii_code(b));
            proof {
                assert(out@ =~= encode_segment_spec(bytes@.subrange(0, i + 1)));
            }
        } else {
            out.push('%');
            out.push(hex_char(b / 16));
            out.push(hex_char(b % 16));
            proof {
                assert(out@ =~= encode_segment_spec(bytes@.subrange(0, i + 1)));
            }
        }
        i = i + 1;
    }
    assert(bytes@.subrange(0, bytes@.len() as int) =~= bytes@);
    out
}

/// Percent-encodes every `/`-separated segment of `value` and keeps the
/// separators, so empty segments survive (`a//b` stays `a//b`).
pub fn encode_path(value: &str) -> (r: String)
    ensures
        r@ == encode_path_spec(value.spec_bytes()),
{
    let bytes = value.as_bytes();
    let mut out = String::new();
    let mut i: usize = 0;
    while i < bytes.len()
        invariant
            i <= bytes@.len(),
            bytes@ == value.spec_bytes(),
            out@ == encode_path_spec(bytes@.subrange(0, i as int)),
        decreases bytes@.len() - i,
    {
        let b = bytes[i];
        proof {
            lemma_encode_path_push(bytes@.subrange(0, i as int), b);
            assert(bytes@.subrange(0, i as int).push(b) =~= bytes@.subrange(0, i + 1));
        }
        if b == 47 {
            out.push('/');
        } else if (97 <= b && b <= 122) || (65 <= b && b <= 90) || (48 <= b && b <= 57) || b == 45
            || b == 46 || b == 95 || b == 126 {
            out.push(char_from_ascii_code(b));
        } else {
            out.push('%');
            out.push(hex_char(b / 16));
            out.push(hex_char(b % 16));
        }
        proof {
            assert(out@ =~= encode_path_spec(bytes@.subrange(0, i + 1)));
        }
        i = i + 1;
    }
    assert(bytes@.subrange(0, bytes@.len() as int) =~= bytes@);
    out
}

proof fn lemma_hex_round_trip(b: u8)
    ensures
        (hex_value(hex_digit(b / 16)) * 16 + hex_value(hex_digit(b % 16))) as u8 == b,
{
}

/// Decoding an encoded segment gives back the original bytes.
pub proof fn law_segment_decodes_to_input(bs: Seq<u8>)
    ensures
        percent_decode(encode_segment_spec(bs)) == bs,
    decreases bs.len(),
{
    if bs.len() > 0 {
        let rest = encode_segment_spec(bs.drop_first());
        law_segment_decodes_to_input(bs.drop_first());
        let e = encode_byte(bs[0]);
        let all = e + rest;
        if unreserved(bs[0]) {
            assert(all[0] == bs[0] as char);
            assert(all[0] != '%');
            assert(all.drop_first() =~= rest);
            assert(all[0] as u8 == bs[0]);
        } else {
            assert(all[0] == '%');
            assert(all.skip(3) =~= rest);
            assert(all[1] == hex_digit(bs[0] / 16));
            assert(all[2] == hex_digit(bs[0] % 16));
            lemma_hex_round_trip(bs[0]);
        }
        assert(seq![bs[0]] + bs.drop_first() =~= bs);
    }
}

/// An encoded segment holds no `/`, so it never splits a path.
pub proof fn law_segment_has_no_slash(bs: Seq<u8>)
    ensures
        forall|i: int| 0 <= i < encode_segment_spec(bs).len() ==> encode_segment_spec(bs)[i]
            != '/',
    decreases bs.len(),
{
    if bs.len() > 0 {
        law_segment_has_no_slash(bs.drop_first());
        let e = encode_byte(bs[0]);
        let rest = encode_segment_spec(bs.drop_first());
        assert forall|i: int| 0 <= i < (e + rest).len() implies (e + rest)[i] != '/' by {
            if i >= e.len() {
                assert((e + rest)[i] == rest[i - e.len()]);
            }
        }
    }
}

/// Encoding a path is encoding its parts around each `/`, which stays as it is.
pub proof fn law_encode_path_keeps_slashes(a: Seq<u8>, b: Seq<u8>)
    ensures
        encode_path_spec(a + seq![47u8] + b) == encode_path_spec(a) + seq!['/'] + encode_path_spec(
            b,
        ),
    decreases a.len(),
{
    if a.len() == 0 {
        assert((a + seq![47u8] + b).drop_first() =~= b);
        assert(encode_path_spec(a) == Seq::<char>::empty());
        assert(Seq::<char>::empty() + seq!['/'] =~= seq!['/']);
    } else {
        assert((a + seq![47u8] + b).drop_first() =~= a.drop_first() + seq![47u8] + b);
        law_encode_path_keeps_slashes(a.drop_first(), b);
        let e0 = if a[0] == 47 {
            seq!['/']
        } else {
            encode_byte(a[0])
        };
        assert((a + seq![47u8] + b)[0] == a[0]);
        assert(e0 + (encode_path_spec(a.drop_first()) + seq!['/'] + encode_path_spec(b)) =~= (e0
            + encode_path_spec(a.drop_first())) + seq!['/'] + encode_path_spec(b));
    }
}


/// Number of times `x` occurs in `s`.
pub open spec fn occurrences<T>(s: Seq<T>, x: T) -> nat
    decreases s.len(),
{
    if s.len() == 0 {
        0
    } else {
        (if s[0] == x {
            1nat
        } else {
            0nat
        }) + occurrences(s.drop_first(), x)
    }
}

proof fn lemma_occurrences_concat<T>(a: Seq<T>, b: Seq<T>, x: T)
    ensures
        occurrences(a + b, x) == occurrences(a, x) + occurrences(b, x),
    decreases a.len(),
{
    if a.len() == 0 {
        assert(a + b =~= b);
    } else {
        assert((a + b).drop_first() =~= a.drop_first() + b);
        assert((a + b)[0] == a[0]);
        lemma_occurrences_concat(a.drop_first(), b, x);
    }
}

/// A path with no `/` byte is encoded exactly as a single segment.
pub proof fn law_path_without_slash_is_segment(bs: Seq<u8>)
    requires
        forall|i: int| 0 <= i < bs.len() ==> bs[i] != 47,
    ensures
        encode_path_spec(bs) == encode_segment_spec(bs),
    decreases bs.len(),
{
    if bs.len() > 0 {
        assert(bs[0] != 47);
        assert forall|i: int| 0 <= i < bs.drop_first().len() implies bs.drop_first()[i] != 47 by {
            assert(bs.drop_first()[i] == bs[i + 1]);
        }
        law_path_without_slash_is_segment(bs.drop_first());
    }
}

/// Encoding a path keeps its slashes: the encoded text holds exactly as many
/// `/` as the path has `/` bytes, none added and none escaped.
pub proof fn law_encode_path_slash_count(bs: Seq<u8>)
    ensures
        occurrences(encode_path_spec(bs), '/') == occurrences(bs, 47u8),
    decreases bs.len(),
{
    if bs.len() > 0 {
        let e0 = if bs[0] == 47 {
            seq!['/']
        } else {
            encode_byte(bs[0])
        };
        law_encode_path_slash_count(bs.drop_first());
        lemma_occurrences_concat(e0, encode_path_spec(bs.drop_first()), '/');
        if bs[0] == 47 {
            let one = seq!['/'];
            assert(one[0] == '/');
            assert(one.drop_first() =~= Seq::<char>::empty());
            assert(occurrences(one.drop_first(), '/') == 0);
        } else {
            let b = seq![bs[0]];
            law_segment_has_no_slash(b);
            assert(b[0] == bs[0]);
            assert(b.drop_first() =~= Seq::<u8>::empty());
            assert(encode_segment_spec(b.drop_first()) == Seq::<char>::empty());
            assert(encode_segment_spec(b) =~= e0);
            lemma_no_occurrence(e0, '/');
        }
    }
}

proof fn lemma_no_occurrence<T>(s: Seq<T>, x: T)
    requires
        forall|i: int| 0 <= i < s.len() ==> s[i] != x,
    ensures
        occurrences(s, x) == 0,
    decreases s.len(),
{
    if s.len() > 0 {
        assert forall|i: int| 0 <= i < s.drop_first().len() implies s.drop_first()[i] != x by {
            assert(s.drop_first()[i] == s[i + 1]);
        }
        lemma_no_occurrence(s.drop_first(), x);
    }
}

} // verus!
