//! Percent-encoding of the city query parameter.
//!
//! The upstream URL carries the city name as a query parameter; a space
//! or a reserved character must not appear there raw. The city is
//! percent-encoded over its UTF-8 bytes: unreserved characters (letters,
//! digits, `-`, `.`, `_`, `~`) pass through, every other byte becomes
//! `%` and two uppercase hex digits.

use vstd::prelude::*;
use vstd::string::StringSliceAdditionalSpecFns;
use vstd::string::StrSliceExecFns;

verus! {

/// Is `b` an unreserved URL byte: an ASCII letter or digit, `-`, `.`,
/// `_` or `~`?
pub open spec fn is_unreserved(b: u8) -> bool {
    (65 <= b <= 90) || (97 <= b <= 122) || (48 <= b <= 57) || b == 45 || b == 46 || b == 95
        || b == 126
}

/// The uppercase hex digit for a value below sixteen.
pub open spec fn hex_char(d: nat) -> char
    recommends
        d < 16,
{
    if d == 0 {
        '0'
    } else if d == 1 {
        '1'
    } else if d == 2 {
        '2'
    } else if d == 3 {
        '3'
    } else if d == 4 {
        '4'
    } else if d == 5 {
        '5'
    } else if d == 6 {
        '6'
    } else if d == 7 {
        '7'
    } else if d == 8 {
        '8'
    } else if d == 9 {
        '9'
    } else if d == 10 {
        'A'
    } else if d == 11 {
        'B'
    } else if d == 12 {
        'C'
    } else if d == 13 {
        'D'
    } else if d == 14 {
        'E'
    } else {
        'F'
    }
}

/// What one byte encodes to: itself when unreserved, else `%` and two
/// uppercase hex digits.
pub open spec fn spec_encode_byte(b: u8) -> Seq<char> {
    if is_unreserved(b) {
        seq![b as char]
    } else {
        seq!['%', hex_char(b as nat / 16), hex_char(b as nat % 16)]
    }
}

/// What a byte string percent-encodes to.
pub open spec fn spec_percent_encode(bytes: Seq<u8>) -> Seq<char>
    decreases bytes.len(),
{
    if bytes.len() == 0 {
        Seq::<char>::empty()
    } else {
        spec_percent_encode(bytes.drop_last()) + spec_encode_byte(bytes.last())
    }
}

/// The one-character text of an unreserved byte.
fn unreserved_str(b: u8) -> (r: &'static str)
    requires
        is_unreserved(b),
    ensures
        r@ =~= seq![b as char],
{
    proof {
        reveal_strlit("A");
        reveal_strlit("B");
        reveal_strlit("C");
        reveal_strlit("D");
        reveal_strlit("E");
        reveal_strlit("F");
        reveal_strlit("G");
        reveal_strlit("H");
        reveal_strlit("I");
        reveal_strlit("J");
        reveal_strlit("K");
        reveal_strlit("L");
        reveal_strlit("M");
        reveal_strlit("N");
        reveal_strlit("O");
        reveal_strlit("P");
        reveal_strlit("Q");
        reveal_strlit("R");
        reveal_strlit("S");
        reveal_strlit("T");
        reveal_strlit("U");
        reveal_strlit("V");
        reveal_strlit("W");
        reveal_strlit("X");
        reveal_strlit("Y");
        reveal_strlit("Z");
        reveal_strlit("a");
        reveal_strlit("b");
        reveal_strlit("c");
        reveal_strlit("d");
        reveal_strlit("e");
        reveal_strlit("f");
        reveal_strlit("g");
        reveal_strlit("h");
        reveal_strlit("i");
        reveal_strlit("j");
        reveal_strlit("k");
        reveal_strlit("l");
        reveal_strlit("m");
        reveal_strlit("n");
        reveal_strlit("o");
        reveal_strlit("p");
        reveal_strlit("q");
        reveal_strlit("r");
        reveal_strlit("s");
        reveal_strlit("t");
        reveal_strlit("u");
        reveal_strlit("v");
        reveal_strlit("w");
        reveal_strlit("x");
        reveal_strlit("y");
        reveal_strlit("z");
        reveal_strlit("0");
        reveal_strlit("1");
        reveal_strlit("2");
        reveal_strlit("3");
        reveal_strlit("4");
        reveal_strlit("5");
        reveal_strlit("6");
        reveal_strlit("7");
        reveal_strlit("8");
        reveal_strlit("9");
        reveal_strlit("-");
        reveal_strlit(".");
        reveal_strlit("_");
        reveal_strlit("~");
    }
    if b == 65 {
        "A"
    } else if b == 66 {
        "B"
    } else if b == 67 {
        "C"
    } else if b == 68 {
        "D"
    } else if b == 69 {
        "E"
    } else if b == 70 {
        "F"
    } else if b == 71 {
        "G"
    } else if b == 72 {
        "H"
    } else if b == 73 {
        "I"
    } else if b == 74 {
        "J"
    } else if b == 75 {
        "K"
    } else if b == 76 {
        "L"
    } else if b == 77 {
        "M"
    } else if b == 78 {
        "N"
    } else if b == 79 {
        "O"
    } else if b == 80 {
        "P"
    } else if b == 81 {
        "Q"
    } else if b == 82 {
        "R"
    } else if b == 83 {
        "S"
    } else if b == 84 {
        "T"
    } else if b == 85 {
        "U"
    } else if b == 86 {
        "V"
    } else if b == 87 {
        "W"
    } else if b == 88 {
        "X"
    } else if b == 89 {
        "Y"
    } else if b == 90 {
        "Z"
    } else if b == 97 {
        "a"
    } else if b == 98 {
        "b"
    } else if b == 99 {
        "c"
    } else if b == 100 {
        "d"
    } else if b == 101 {
        "e"
    } else if b == 102 {
        "f"
    } else if b == 103 {
        "g"
    } else if b == 104 {
        "h"
    } else if b == 105 {
        "i"
    } else if b == 106 {
        "j"
    } else if b == 107 {
        "k"
    } else if b == 108 {
        "l"
    } else if b == 109 {
        "m"
    } else if b == 110 {
        "n"
    } else if b == 111 {
        "o"
    } else if b == 112 {
        "p"
    } else if b == 113 {
        "q"
    } else if b == 114 {
        "r"
    } else if b == 115 {
        "s"
    } else if b == 116 {
        "t"
    } else if b == 117 {
        "u"
    } else if b == 118 {
        "v"
    } else if b == 119 {
        "w"
    } else if b == 120 {
        "x"
    } else if b == 121 {
        "y"
    } else if b == 122 {
        "z"
    } else if b == 48 {
        "0"
    } else if b == 49 {
        "1"
    } else if b == 50 {
        "2"
    } else if b == 51 {
        "3"
    } else if b == 52 {
        "4"
    } else if b == 53 {
        "5"
    } else if b == 54 {
        "6"
    } else if b == 55 {
        "7"
    } else if b == 56 {
        "8"
    } else if b == 57 {
        "9"
    } else if b == 45 {
        "-"
    } else if b == 46 {
        "."
    } else if b == 95 {
        "_"
    } else if b == 126 {
        "~"
    } else {
        ""
    }
}

/// The one-character text of an uppercase hex digit.
fn hex_str(d: u8) -> (r: &'static str)
    requires
        d < 16,
    ensures
        r@ =~= seq![hex_char(d as nat)],
{
    proof {
        reveal_strlit("0");
        reveal_strlit("1");
        reveal_strlit("2");
        reveal_strlit("3");
        reveal_strlit("4");
        reveal_strlit("5");
        reveal_strlit("6");
        reveal_strlit("7");
        reveal_strlit("8");
        reveal_strlit("9");
        reveal_strlit("A");
        reveal_strlit("B");
        reveal_strlit("C");
        reveal_strlit("D");
        reveal_strlit("E");
        reveal_strlit("F");
    }
    if d == 0 {
        "0"
    } else if d == 1 {
        "1"
    } else if d == 2 {
        "2"
    } else if d == 3 {
        "3"
    } else if d == 4 {
        "4"
    } else if d == 5 {
        "5"
    } else if d == 6 {
        "6"
    } else if d == 7 {
        "7"
    } else if d == 8 {
        "8"
    } else if d == 9 {
        "9"
    } else if d == 10 {
        "A"
    } else if d == 11 {
        "B"
    } else if d == 12 {
        "C"
    } else if d == 13 {
        "D"
    } else if d == 14 {
        "E"
    } else {
        "F"
    }
}

/// Percent-encode a string over its UTF-8 bytes.
pub fn percent_encode(s: &str) -> (r: String)
    ensures
        r@ == spec_percent_encode(s.spec_bytes()),
{
    let bytes = s.as_bytes_vec();
    let n = bytes.len();
    let mut out = String::new();
    let mut i: usize = 0;
    proof {
        assert(bytes@.take(0).len() == 0);
    }
    while i < n
        invariant
            n == bytes@.len(),
            bytes@ == s.spec_bytes(),
            i <= n,
            out@ == spec_percent_encode(bytes@.take(i as int)),
        decreases n - i,
    {
        let b = bytes[i];
        proof {
            assert(bytes@.take(i as int + 1).drop_last() =~= bytes@.take(i as int));
            assert(bytes@.take(i as int + 1).last() == bytes@[i as int]);
        }
        if (65 <= b && b <= 90) || (97 <= b && b <= 122) || (48 <= b && b <= 57) || b == 45
            || b == 46 || b == 95 || b == 126 {
            out.append(unreserved_str(b));
        } else {
            out.append("%");
            out.append(hex_str(b / 16));
            out.append(hex_str(b % 16));
            proof {
                reveal_strlit("%");
                assert(out@ =~= spec_percent_encode(bytes@.take(i as int + 1)));
            }
        }
        i = i + 1;
    }
    proof {
        assert(bytes@.take(n as int) =~= bytes@);
    }
    out
}

} // verus!
