//! Hexadecimal rendering of the bytes, words and addresses the monitor
//! displays. Every formatter is specified down to the exact characters it
//! produces.

use vstd::prelude::*;

verus! {

/// The lower-case hex digit for a value below sixteen.
pub open spec fn hex_digit_seq(d: int) -> Seq<char> {
    if d == 0 {
        "0"@
    } else if d == 1 {
        "1"@
    } else if d == 2 {
        "2"@
    } else if d == 3 {
        "3"@
    } else if d == 4 {
        "4"@
    } else if d == 5 {
        "5"@
    } else if d == 6 {
        "6"@
    } else if d == 7 {
        "7"@
    } else if d == 8 {
        "8"@
    } else if d == 9 {
        "9"@
    } else if d == 10 {
        "a"@
    } else if d == 11 {
        "b"@
    } else if d == 12 {
        "c"@
    } else if d == 13 {
        "d"@
    } else if d == 14 {
        "e"@
    } else {
        "f"@
    }
}

/// A byte as exactly two hex digits, zero-padded.
pub open spec fn spec_hex2(v: u8) -> Seq<char> {
    hex_digit_seq(v as int / 16) + hex_digit_seq(v as int % 16)
}

/// A word as exactly four hex digits, zero-padded.
pub open spec fn spec_hex4(v: u16) -> Seq<char> {
    hex_digit_seq(v as int / 4096) + hex_digit_seq((v as int / 256) % 16)
        + hex_digit_seq((v as int / 16) % 16) + hex_digit_seq(v as int % 16)
}

/// One hex digit.
pub fn hex_digit_str(d: u8) -> (s: &'static str)
    requires
        d < 16,
    ensures
        s@ == hex_digit_seq(d as int),
{
    if d == 0 {
        "0"
    } else if d == 1 {
        "1"
    } else if d == 2 {
        "2"
    } else if d == 3 {
        "3"
    } else if d == 4 {
        "4"
    } else if d == 5 {
        "5"
    } else if d == 6 {
        "6"
    } else if d == 7 {
        "7"
    } else if d == 8 {
        "8"
    } else if d == 9 {
        "9"
    } else if d == 10 {
        "a"
    } else if d == 11 {
        "b"
    } else if d == 12 {
        "c"
    } else if d == 13 {
        "d"
    } else if d == 14 {
        "e"
    } else {
        "f"
    }
}

/// A byte as two zero-padded hex digits, as a register or memory cell
/// shows it.
pub fn hex_byte_str(v: u8) -> (s: String)
    ensures
        s@ == spec_hex2(v),
{
    let mut s = String::from_str(hex_digit_str(v / 16));
    s.append(hex_digit_str(v % 16));
    s
}

/// A word as four zero-padded hex digits, as a 16-bit register or an
/// address shows it.
pub fn hex_word_str(v: u16) -> (s: String)
    ensures
        s@ == spec_hex4(v),
{
    let mut s = String::from_str(hex_digit_str((v / 4096) as u8));
    s.append(hex_digit_str(((v / 256) % 16) as u8));
    s.append(hex_digit_str(((v / 16) % 16) as u8));
    s.append(hex_digit_str((v % 16) as u8));
    s
}

/// A byte in its shortest hex form: one digit below sixteen, two above.
pub open spec fn spec_min_hex(v: u8) -> Seq<char> {
    if v < 16 {
        hex_digit_seq(v as int)
    } else {
        spec_hex2(v)
    }
}

/// The comma-separated items of a hex dump, most recent byte last.
pub open spec fn spec_dump_items(bytes: Seq<u8>) -> Seq<char>
    decreases bytes.len(),
{
    if bytes.len() == 0 {
        Seq::empty()
    } else if bytes.len() == 1 {
        spec_min_hex(bytes[0])
    } else {
        spec_dump_items(bytes.drop_last()) + ", "@ + spec_min_hex(bytes.last())
    }
}

/// A whole byte buffer as a bracketed hex dump.
pub open spec fn spec_hex_dump(bytes: Seq<u8>) -> Seq<char> {
    "["@ + spec_dump_items(bytes) + "]"@
}

/// A byte in its shortest hex form.
pub fn min_hex_str(v: u8) -> (s: String)
    ensures
        s@ == spec_min_hex(v),
{
    if v < 16 {
        String::from_str(hex_digit_str(v))
    } else {
        hex_byte_str(v)
    }
}

/// Render a byte buffer as a bracketed, comma-separated hex dump: the
/// fallback display for captured output that is not valid text.
pub fn hex_dump(bytes: &Vec<u8>) -> (s: String)
    ensures
        s@ == spec_hex_dump(bytes@),
{
    let mut s = String::from_str("[");
    let mut i: usize = 0;
    while i < bytes.len()
        invariant
            i <= bytes.len(),
            s@ == "["@ + spec_dump_items(bytes@.take(i as int)),
        decreases bytes.len() - i,
    {
        if i > 0 {
            s.append(", ");
        }
        let item = min_hex_str(bytes[i]);
        s.append(item.as_str());
        proof {
            let taken = bytes@.take(i + 1 as int);
            assert(taken.drop_last() =~= bytes@.take(i as int));
            assert(taken.last() == bytes@[i as int]);
        }
        i = i + 1;
    }
    proof {
        assert(bytes@.take(bytes@.len() as int) =~= bytes@);
    }
    s.append("]");
    s
}

} // verus!
