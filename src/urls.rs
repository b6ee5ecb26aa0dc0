use vstd::prelude::*;
use vstd::utf8::encode_utf8;

verus! {

/// Bytes that stand for themselves in a URL path segment: ASCII letters,
/// digits and `-`, `.`, `_`, `~`.
pub open spec fn unreserved_byte(b: u8) -> bool {
    (0x41 <= b <= 0x5A) || (0x61 <= b <= 0x7A) || (0x30 <= b <= 0x39) || b == 0x2D || b == 0x2E
        || b == 0x5F || b == 0x7E
}

/// The upper-case hexadecimal digit of a value below 16.
pub open spec fn hex_digit(n: u8) -> char {
    if n < 10 {
        ((0x30 + n) as u8) as char
    } else {
        ((0x37 + n) as u8) as char
    }
}

/// One byte, percent-encoded.
pub open spec fn encode_byte(b: u8) -> Seq<char> {
    if unreserved_byte(b) {
        seq![b as char]
    } else {
        seq!['%', hex_digit(b / 16), hex_digit(b % 16)]
    }
}

/// Every byte in turn, percent-encoded.
pub open spec fn percent_encode(bytes: Seq<u8>) -> Seq<char>
    decreases bytes.len(),
{
    if bytes.len() == 0 {
        Seq::empty()
    } else {
        percent_encode(bytes.drop_last()) + encode_byte(bytes.last())
    }
}

fn unreserved_text(b: u8) -> (r: Option<&'static str>)
    ensures
        unreserved_byte(b) ==> (r matches Some(t) && t@ == seq![b as char]),
        !unreserved_byte(b) ==> r is None,
{
    proof {
        reveal_strlit("A");
        reveal_strlit("B");
        reveal_strlit("C");
        reveal_strlit("D");
        reveal_strlit("E");
        reveal_strlit("F");
        reveal_strlit("G");
        reveal_strlit("H");
        reveal_strlit("I");
        reveal_strlit("J");
        reveal_strlit("K");
        reveal_strlit("L");
        reveal_strlit("M");
        reveal_strlit("N");
        reveal_strlit("O");
        reveal_strlit("P");
        reveal_strlit("Q");
        reveal_strlit("R");
        reveal_strlit("S");
        reveal_strlit("T");
        reveal_strlit("U");
        reveal_strlit("V");
        reveal_strlit("W");
        reveal_strlit("X");
        reveal_strlit("Y");
        reveal_strlit("Z");
        reveal_strlit("a");
        reveal_strlit("b");
        reveal_strlit("c");
        reveal_strlit("d");
        reveal_strlit("e");
        reveal_strlit("f");
        reveal_strlit("g");
        reveal_strlit("h");
        reveal_strlit("i");
        reveal_strlit("j");
        reveal_strlit("k");
        reveal_strlit("l");
        reveal_strlit("m");
        reveal_strlit("n");
        reveal_strlit("o");
        reveal_strlit("p");
        reveal_strlit("q");
        reveal_strlit("r");
        reveal_strlit("s");
        reveal_strlit("t");
        reveal_strlit("u");
        reveal_strlit("v");
        reveal_strlit("w");
        reveal_strlit("x");
        reveal_strlit("y");
        reveal_strlit("z");
        reveal_strlit("0");
        reveal_strlit("1");
        reveal_strlit("2");
        reveal_strlit("3");
        reveal_strlit("4");
        reveal_strlit("5");
        reveal_strlit("6");
        reveal_strlit("7");
        reveal_strlit("8");
        reveal_strlit("9");
        reveal_strlit("-");
        reveal_strlit(".");
        reveal_strlit("_");
        reveal_strlit("~");
    }
    match b {
        65u8 => Some("A"),
        66u8 => Some("B"),
        67u8 => Some("C"),
        68u8 => Some("D"),
        69u8 => Some("E"),
        70u8 => Some("F"),
        71u8 => Some("G"),
        72u8 => Some("H"),
        73u8 => Some("I"),
        74u8 => Some("J"),
        75u8 => Some("K"),
        76u8 => Some("L"),
        77u8 => Some("M"),
        78u8 => Some("N"),
        79u8 => Some("O"),
        80u8 => Some("P"),
        81u8 => Some("Q"),
        82u8 => Some("R"),
        83u8 => Some("S"),
        84u8 => Some("T"),
        85u8 => Some("U"),
        86u8 => Some("V"),
        87u8 => Some("W"),
        88u8 => Some("X"),
        89u8 => Some("Y"),
        90u8 => Some("Z"),
        97u8 => Some("a"),
        98u8 => Some("b"),
        99u8 => Some("c"),
        100u8 => Some("d"),
        101u8 => Some("e"),
        102u8 => Some("f"),
        103u8 => Some("g"),
        104u8 => Some("h"),
        105u8 => Some("i"),
        106u8 => Some("j"),
        107u8 => Some("k"),
        108u8 => Some("l"),
        109u8 => Some("m"),
        110u8 => Some("n"),
        111u8 => Some("o"),
        112u8 => Some("p"),
        113u8 => Some("q"),
        114u8 => Some("r"),
        115u8 => Some("s"),
        116u8 => Some("t"),
        117u8 => Some("u"),
        118u8 => Some("v"),
        119u8 => Some("w"),
        120u8 => Some("x"),
        121u8 => Some("y"),
        122u8 => Some("z"),
        48u8 => Some("0"),
        49u8 => Some("1"),
        50u8 => Some("2"),
        51u8 => Some("3"),
        52u8 => Some("4"),
        53u8 => Some("5"),
        54u8 => Some("6"),
        55u8 => Some("7"),
        56u8 => Some("8"),
        57u8 => Some("9"),
        45u8 => Some("-"),
        46u8 => Some("."),
        95u8 => Some("_"),
        126u8 => Some("~"),
        _ => None,
    }
}

fn hex_text(n: u8) -> (r: &'static str)
    requires
        n < 16,
    ensures
        r@ == seq![hex_digit(n)],
{
    proof {
        reveal_strlit("0");
        reveal_strlit("1");
        reveal_strlit("2");
        reveal_strlit("3");
        reveal_strlit("4");
        reveal_strlit("5");
        reveal_strlit("6");
        reveal_strlit("7");
        reveal_strlit("8");
        reveal_strlit("9");
        reveal_strlit("A");
        reveal_strlit("B");
        reveal_strlit("C");
        reveal_strlit("D");
        reveal_strlit("E");
        reveal_strlit("F");
    }
    match n {
        0u8 => "0",
        1u8 => "1",
        2u8 => "2",
        3u8 => "3",
        4u8 => "4",
        5u8 => "5",
        6u8 => "6",
        7u8 => "7",
        8u8 => "8",
        9u8 => "9",
        10u8 => "A",
        11u8 => "B",
        12u8 => "C",
        13u8 => "D",
        14u8 => "E",
        15u8 => "F",
        _ => "F",
    }
}

/// Percent-encodes a value for use as one segment of a URL path: each byte
/// of its UTF-8 encoding that is not a letter, a digit or one of `-._~`
/// becomes `%` and two upper-case hexadecimal digits.
pub fn urlencode(s: &str) -> (r: String)
    ensures
        r@ == percent_encode(encode_utf8(s@)),
{
    let bytes = s.as_bytes();
    let ghost all = encode_utf8(s@);
    let mut out = String::new();
    let mut i: usize = 0;
    while i < bytes.len()
        invariant
            bytes@ == all,
            i <= all.len(),
            out@ == percent_encode(all.take(i as int)),
        decreases all.len() - i,
    {
        let b = bytes[i];
        match unreserved_text(b) {
            Some(t) => out.append(t),
            None => {
                proof {
                    reveal_strlit("%");
                }
                out.append("%");
                out.append(hex_text(b / 16));
                out.append(hex_text(b % 16));
            },
        }
        proof {
            let t = all.take(i + 1);
            assert(t.drop_last() =~= all.take(i as int));
            assert(t.last() == b);
        }
        assert(out@ =~= percent_encode(all.take(i + 1)));
        i = i + 1;
    }
    assert(all.take(all.len() as int) =~= all);
    out
}

/// A path made of fixed parts with an identifier between each two of them:
/// `parts[0] + id[0] + parts[1] + ... + parts[n]`, each identifier
/// percent-encoded.
pub open spec fn interpolated(parts: Seq<Seq<char>>, ids: Seq<Seq<char>>) -> Seq<char>
    decreases ids.len(),
{
    if ids.len() == 0 || parts.len() == 0 {
        if parts.len() == 0 { Seq::empty() } else { parts[0] }
    } else {
        interpolated(parts.drop_last(), ids.drop_last()) + percent_encode(encode_utf8(ids.last()))
            + parts.last()
    }
}

/// Builds a request path from its fixed parts and the identifiers that go
/// between them, percent-encoding each identifier.
pub fn interpolate_path(parts: &[&str], ids: &[&str]) -> (r: String)
    requires
        parts@.len() == ids@.len() + 1,
    ensures
        r@ == interpolated(
            Seq::new(parts@.len(), |i: int| parts@[i]@),
            Seq::new(ids@.len(), |i: int| ids@[i]@),
        ),
{
    let ghost ps = Seq::new(parts@.len(), |i: int| parts@[i]@);
    let ghost is = Seq::new(ids@.len(), |i: int| ids@[i]@);
    let mut path = String::from_str(parts[0]);
    let mut k: usize = 0;
    while k < ids.len()
        invariant
            parts@.len() == ids@.len() + 1,
            k <= ids@.len(),
            ps == Seq::new(parts@.len(), |i: int| parts@[i]@),
            is == Seq::new(ids@.len(), |i: int| ids@[i]@),
            path@ == interpolated(ps.take(k + 1), is.take(k as int)),
        decreases ids@.len() - k,
    {
        let encoded = urlencode(ids[k]);
        path.append(encoded.as_str());
        path.append(parts[k + 1]);
        proof {
            let p2 = ps.take(k + 2);
            let i2 = is.take(k + 1);
            assert(p2.drop_last() =~= ps.take(k + 1));
            assert(i2.drop_last() =~= is.take(k as int));
            assert(p2.last() == parts@[k + 1]@);
            assert(i2.last() == ids@[k as int]@);
        }
        assert(path@ =~= interpolated(ps.take(k + 2), is.take(k + 1)));
        k = k + 1;
    }
    assert(ps.take(k + 1) =~= ps);
    assert(is.take(k as int) =~= is);
    path
}

} // verus!
