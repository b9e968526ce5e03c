//! Text helpers: comparing string slices and writing numbers and bytes
//! as decimal and hexadecimal digits.

use vstd::prelude::*;
use vstd::utf8::{decode_utf8, encode_utf8, encode_utf8_decode_utf8, valid_utf8};

verus! {

/// The digit that stands for `d` in base sixteen, lower case; `'0'` for
/// anything outside `0..16`.
pub open spec fn digit_char(d: int) -> char {
    if d == 1 {
        '1'
    } else if d == 2 {
        '2'
    } else if d == 3 {
        '3'
    } else if d == 4 {
        '4'
    } else if d == 5 {
        '5'
    } else if d == 6 {
        '6'
    } else if d == 7 {
        '7'
    } else if d == 8 {
        '8'
    } else if d == 9 {
        '9'
    } else if d == 10 {
        'a'
    } else if d == 11 {
        'b'
    } else if d == 12 {
        'c'
    } else if d == 13 {
        'd'
    } else if d == 14 {
        'e'
    } else if d == 15 {
        'f'
    } else {
        '0'
    }
}

/// The decimal digits of `n`, most significant first, without leading zeros.
pub open spec fn decimal(n: nat) -> Seq<char>
    decreases n,
{
    if n < 10 {
        seq![digit_char(n as int)]
    } else {
        decimal(n / 10).push(digit_char((n % 10) as int))
    }
}

/// A byte as two lower-case hexadecimal digits.
pub open spec fn hex_byte(b: u8) -> Seq<char> {
    seq![digit_char(b as int / 16), digit_char(b as int % 16)]
}

/// Each byte as two hexadecimal digits followed by a space.
pub open spec fn hex_row(bytes: Seq<u8>) -> Seq<char>
    decreases bytes.len(),
{
    if bytes.len() == 0 {
        Seq::empty()
    } else {
        hex_row(bytes.drop_last()) + hex_byte(bytes.last()) + seq![' ']
    }
}

/// The bytes of the first row of a packet dump: the length of an envelope header.
pub const DUMP_ROW: usize = 14;

/// A packet as hexadecimal digits: the first fourteen bytes on one row and
/// whatever follows them on a second.
pub open spec fn dump_text(bytes: Seq<u8>) -> Seq<char> {
    if bytes.len() <= DUMP_ROW {
        hex_row(bytes)
    } else {
        hex_row(bytes.subrange(0, DUMP_ROW as int)) + "\n"@ + hex_row(
            bytes.subrange(DUMP_ROW as int, bytes.len() as int),
        )
    }
}

/// An address as four decimal numbers with dots between them.
pub open spec fn ipv4_text(address: [u8; 4]) -> Seq<char> {
    decimal(address[0] as nat) + "."@ + decimal(address[1] as nat) + "."@ + decimal(
        address[2] as nat,
    ) + "."@ + decimal(address[3] as nat)
}

/// The text that a lossy reading of `bytes` as UTF-8 gives.
pub uninterp spec fn utf8_lossy(bytes: Seq<u8>) -> Seq<char>;

/// Reads bytes as UTF-8 with `String::from_utf8_lossy`, which puts a
/// replacement character wherever the bytes are no UTF-8. The result
/// depends on the bytes alone, and is their plain decoding where they are
/// valid UTF-8; nothing more is claimed of it.
#[verifier::external_body]
pub(crate) fn text_from_utf8_lossy(bytes: &[u8]) -> (s: String)
    ensures
        s@ == utf8_lossy(bytes@),
        valid_utf8(bytes@) ==> s@ == decode_utf8(bytes@),
{
    String::from_utf8_lossy(bytes).into_owned()
}

/// Whether two string slices hold the same characters.
pub fn same_text(a: &str, b: &str) -> (r: bool)
    ensures
        r == (a@ == b@),
{
    let x = a.as_bytes();
    let y = b.as_bytes();
    proof {
        encode_utf8_decode_utf8(a@);
        encode_utf8_decode_utf8(b@);
    }
    if x.len() != y.len() {
        return false;
    }
    let mut i: usize = 0;
    while i < x.len()
        invariant
            i <= x.len(),
            x.len() == y.len(),
            x@ == encode_utf8(a@),
            y@ == encode_utf8(b@),
            forall|j: int| 0 <= j < i ==> x@[j] == y@[j],
        decreases x.len() - i,
    {
        if x[i] != y[i] {
            return false;
        }
        i += 1;
    }
    assert(x@ =~= y@);
    true
}

/// The one-character text of a digit.
pub fn digit_text(d: u8) -> (s: &'static str)
    ensures
        s@ == seq![digit_char(d as int)],
{
    proof {
        reveal_strlit("0");
        reveal_strlit("1");
        reveal_strlit("2");
        reveal_strlit("3");
        reveal_strlit("4");
        reveal_strlit("5");
        reveal_strlit("6");
        reveal_strlit("7");
        reveal_strlit("8");
        reveal_strlit("9");
        reveal_strlit("a");
        reveal_strlit("b");
        reveal_strlit("c");
        reveal_strlit("d");
        reveal_strlit("e");
        reveal_strlit("f");
    }
    let s = if d == 1 {
        "1"
    } else if d == 2 {
        "2"
    } else if d == 3 {
        "3"
    } else if d == 4 {
        "4"
    } else if d == 5 {
        "5"
    } else if d == 6 {
        "6"
    } else if d == 7 {
        "7"
    } else if d == 8 {
        "8"
    } else if d == 9 {
        "9"
    } else if d == 10 {
        "a"
    } else if d == 11 {
        "b"
    } else if d == 12 {
        "c"
    } else if d == 13 {
        "d"
    } else if d == 14 {
        "e"
    } else if d == 15 {
        "f"
    } else {
        "0"
    };
    assert(s@ =~= seq![digit_char(d as int)]);
    s
}

/// Appends the decimal digits of `n` to `out`.
pub fn push_decimal(out: &mut String, n: u64)
    ensures
        final(out)@ == old(out)@ + decimal(n as nat),
    decreases n,
{
    if n < 10 {
        out.append(digit_text(n as u8));
    } else {
        push_decimal(out, n / 10);
        out.append(digit_text((n % 10) as u8));
        assert(old(out)@ + decimal(n as nat) =~= (old(out)@ + decimal((n / 10) as nat)) + seq![
            digit_char((n % 10) as int),
        ]);
    }
}

/// The decimal digits of `n` as a string.
pub fn format_decimal(n: u64) -> (s: String)
    ensures
        s@ == decimal(n as nat),
{
    let mut s = String::new();
    push_decimal(&mut s, n);
    assert(Seq::<char>::empty() + decimal(n as nat) =~= decimal(n as nat));
    s
}

/// Appends a byte as two hexadecimal digits.
pub fn push_hex_byte(out: &mut String, b: u8)
    ensures
        final(out)@ == old(out)@ + hex_byte(b),
{
    out.append(digit_text(b / 16));
    out.append(digit_text(b % 16));
    assert(out@ =~= old(out)@ + hex_byte(b));
}

/// Appends every byte of `bytes[from..to]` as two hexadecimal digits and a space.
fn push_hex_row(out: &mut String, bytes: &[u8], from: usize, to: usize)
    requires
        from <= to <= bytes@.len(),
    ensures
        final(out)@ == old(out)@ + hex_row(bytes@.subrange(from as int, to as int)),
{
    let mut i: usize = from;
    assert(bytes@.subrange(from as int, from as int) =~= Seq::<u8>::empty());
    assert(out@ =~= old(out)@ + hex_row(bytes@.subrange(from as int, from as int)));
    while i < to
        invariant
            from <= i <= to <= bytes@.len(),
            out@ == old(out)@ + hex_row(bytes@.subrange(from as int, i as int)),
        decreases to - i,
    {
        let ghost before = out@;
        push_hex_byte(out, bytes[i]);
        out.append(" ");
        proof {
            reveal_strlit(" ");
            assert(" "@ =~= seq![' ']);
            let next = bytes@.subrange(from as int, i as int + 1);
            assert(next.drop_last() =~= bytes@.subrange(from as int, i as int));
            assert(next.last() == bytes@[i as int]);
            assert(out@ =~= old(out)@ + hex_row(next));
        }
        i += 1;
    }
}

/// Appends a packet as hexadecimal digits.
pub fn push_packet_dump(out: &mut String, bytes: &[u8])
    ensures
        final(out)@ == old(out)@ + dump_text(bytes@),
{
    if bytes.len() <= DUMP_ROW {
        assert(bytes@.subrange(0, bytes@.len() as int) =~= bytes@);
        push_hex_row(out, bytes, 0, bytes.len());
    } else {
        push_hex_row(out, bytes, 0, DUMP_ROW);
        out.append("\n");
        push_hex_row(out, bytes, DUMP_ROW, bytes.len());
        assert(out@ =~= old(out)@ + dump_text(bytes@));
    }
}

/// A packet as hexadecimal digits.
pub fn packet_dump(bytes: &[u8]) -> (s: String)
    ensures
        s@ == dump_text(bytes@),
{
    let mut s = String::new();
    push_packet_dump(&mut s, bytes);
    assert(Seq::<char>::empty() + dump_text(bytes@) =~= dump_text(bytes@));
    s
}

/// Appends an address as four decimal numbers with dots between them.
pub fn push_ipv4(out: &mut String, address: &[u8; 4])
    ensures
        final(out)@ == old(out)@ + ipv4_text(*address),
{
    push_decimal(out, address[0] as u64);
    out.append(".");
    push_decimal(out, address[1] as u64);
    out.append(".");
    push_decimal(out, address[2] as u64);
    out.append(".");
    push_decimal(out, address[3] as u64);
    assert(out@ =~= old(out)@ + ipv4_text(*address));
}

} // verus!
