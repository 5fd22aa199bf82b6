//! Rendering of payload bytes as delimited text: hexadecimal pairs for
//! hardware addresses and fingerprints, decimal numbers for version fields.

use vstd::prelude::*;
use vstd::string::StringExecFns;

verus! {

/// The uppercase hexadecimal digit character of a value below 16.
pub open spec fn hex_digit(value: u8) -> char {
    if value == 0 {
        '0'
    } else if value == 1 {
        '1'
    } else if value == 2 {
        '2'
    } else if value == 3 {
        '3'
    } else if value == 4 {
        '4'
    } else if value == 5 {
        '5'
    } else if value == 6 {
        '6'
    } else if value == 7 {
        '7'
    } else if value == 8 {
        '8'
    } else if value == 9 {
        '9'
    } else if value == 10 {
        'A'
    } else if value == 11 {
        'B'
    } else if value == 12 {
        'C'
    } else if value == 13 {
        'D'
    } else if value == 14 {
        'E'
    } else {
        'F'
    }
}

/// One byte as two uppercase hexadecimal digits.
pub open spec fn hex_of_byte(b: u8) -> Seq<char> {
    seq![hex_digit(b / 16), hex_digit(b % 16)]
}

/// One byte as decimal digits without leading zeroes.
pub open spec fn dec_of_byte(b: u8) -> Seq<char> {
    if b < 10 {
        seq![hex_digit(b % 10)]
    } else if b < 100 {
        seq![hex_digit((b / 10) % 10), hex_digit(b % 10)]
    } else {
        seq![hex_digit(b / 100), hex_digit((b / 10) % 10), hex_digit(b % 10)]
    }
}

/// Each byte as its two hexadecimal digits, in order.
pub open spec fn hex_pieces(s: Seq<u8>) -> Seq<Seq<char>> {
    s.map_values(|b: u8| hex_of_byte(b))
}

/// Each byte as its decimal digits, in order.
pub open spec fn dec_pieces(s: Seq<u8>) -> Seq<Seq<char>> {
    s.map_values(|b: u8| dec_of_byte(b))
}

/// The pieces joined with the delimiter between consecutive ones.
pub open spec fn spec_join(pieces: Seq<Seq<char>>, delimiter: Seq<char>) -> Seq<char>
    decreases pieces.len(),
{
    if pieces.len() == 0 {
        Seq::empty()
    } else if pieces.len() == 1 {
        pieces[0]
    } else {
        spec_join(pieces.drop_last(), delimiter) + delimiter + pieces.last()
    }
}

/// The single-character string of a digit value below 16.
fn digit_str(value: u8) -> (r: &'static str)
    requires
        value < 16,
    ensures
        r@ == seq![hex_digit(value)],
{
    proof {
        reveal_strlit("0");
        reveal_strlit("1");
        reveal_strlit("2");
        reveal_strlit("3");
        reveal_strlit("4");
        reveal_strlit("5");
        reveal_strlit("6");
        reveal_strlit("7");
        reveal_strlit("8");
        reveal_strlit("9");
        reveal_strlit("A");
        reveal_strlit("B");
        reveal_strlit("C");
        reveal_strlit("D");
        reveal_strlit("E");
        reveal_strlit("F");
    }
    let r: &'static str = if value == 0 {
        "0"
    } else if value == 1 {
        "1"
    } else if value == 2 {
        "2"
    } else if value == 3 {
        "3"
    } else if value == 4 {
        "4"
    } else if value == 5 {
        "5"
    } else if value == 6 {
        "6"
    } else if value == 7 {
        "7"
    } else if value == 8 {
        "8"
    } else if value == 9 {
        "9"
    } else if value == 10 {
        "A"
    } else if value == 11 {
        "B"
    } else if value == 12 {
        "C"
    } else if value == 13 {
        "D"
    } else if value == 14 {
        "E"
    } else {
        "F"
    };
    proof {
        assert(r@ =~= seq![hex_digit(value)]);
    }
    r
}

/// Renders the bytes as uppercase hexadecimal pairs joined by the delimiter.
pub fn join_hex(data: &Vec<u8>, delimiter: &str) -> (r: String)
    ensures
        r@ == spec_join(hex_pieces(data@), delimiter@),
{
    let mut result = String::new();
    let mut i: usize = 0;
    while i < data.len()
        invariant
            i <= data@.len(),
            result@ == spec_join(hex_pieces(data@.take(i as int)), delimiter@),
        decreases data@.len() - i,
    {
        let ghost pieces = hex_pieces(data@.take(i as int));
        let ghost pieces_next = hex_pieces(data@.take(i + 1));
        proof {
            assert(pieces_next.drop_last() =~= pieces);
            assert(data@.take(i + 1)[i as int] == data@[i as int]);
            assert(pieces_next.last() == hex_of_byte(data@[i as int]));
        }
        if i > 0 {
            result.append(delimiter);
        }
        let b = data[i];
        result.append(digit_str(b / 16));
        result.append(digit_str(b % 16));
        proof {
            if i == 0 {
                assert(result@ =~= pieces_next[0]);
            } else {
                assert(result@ =~= spec_join(pieces, delimiter@) + delimiter@ + hex_of_byte(
                    data@[i as int],
                ));
            }
        }
        i = i + 1;
    }
    proof {
        assert(data@.take(data@.len() as int) =~= data@);
    }
    result
}

/// Renders the bytes as decimal numbers joined by the delimiter.
pub fn join_str(data: &Vec<u8>, delimiter: &str) -> (r: String)
    ensures
        r@ == spec_join(dec_pieces(data@), delimiter@),
{
    let mut result = String::new();
    let mut i: usize = 0;
    while i < data.len()
        invariant
            i <= data@.len(),
            result@ == spec_join(dec_pieces(data@.take(i as int)), delimiter@),
        decreases data@.len() - i,
    {
        let ghost pieces = dec_pieces(data@.take(i as int));
        let ghost pieces_next = dec_pieces(data@.take(i + 1));
        proof {
            assert(pieces_next.drop_last() =~= pieces);
            assert(data@.take(i + 1)[i as int] == data@[i as int]);
            assert(pieces_next.last() == dec_of_byte(data@[i as int]));
        }
        if i > 0 {
            result.append(delimiter);
        }
        let b = data[i];
        if b >= 100 {
            result.append(digit_str(b / 100));
        }
        if b >= 10 {
            result.append(digit_str((b / 10) % 10));
        }
        result.append(digit_str(b % 10));
        proof {
            assert(result@.subrange(
                result@.len() - dec_of_byte(b).len(),
                result@.len() as int,
            ) =~= dec_of_byte(b));
            if i == 0 {
                assert(result@ =~= pieces_next[0]);
            } else {
                assert(result@ =~= spec_join(pieces, delimiter@) + delimiter@ + dec_of_byte(
                    data@[i as int],
                ));
            }
        }
        i = i + 1;
    }
    proof {
        assert(data@.take(data@.len() as int) =~= data@);
    }
    result
}

} // verus!
