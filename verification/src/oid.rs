//! Document identifiers.
//!
//! The store assigns each book a 12-byte identifier, carried over the wire
//! as its 24-digit hexadecimal rendering. Parsing accepts upper- and
//! lower-case digits; rendering always produces lower case.

use vstd::prelude::*;
use vstd::string::*;

verus! {

/// The value of a hexadecimal digit, or -1 for any other character.
pub open spec fn hex_val(c: char) -> int {
    if c == '0' {
        0
    } else if c == '1' {
        1
    } else if c == '2' {
        2
    } else if c == '3' {
        3
    } else if c == '4' {
        4
    } else if c == '5' {
        5
    } else if c == '6' {
        6
    } else if c == '7' {
        7
    } else if c == '8' {
        8
    } else if c == '9' {
        9
    } else if c == 'a' || c == 'A' {
        10
    } else if c == 'b' || c == 'B' {
        11
    } else if c == 'c' || c == 'C' {
        12
    } else if c == 'd' || c == 'D' {
        13
    } else if c == 'e' || c == 'E' {
        14
    } else if c == 'f' || c == 'F' {
        15
    } else {
        -1
    }
}

pub open spec fn is_hex_digit(c: char) -> bool {
    hex_val(c) >= 0
}

/// The lower-case digit for a value below sixteen.
pub open spec fn hex_digit_char(n: int) -> char {
    if n == 0 {
        '0'
    } else if n == 1 {
        '1'
    } else if n == 2 {
        '2'
    } else if n == 3 {
        '3'
    } else if n == 4 {
        '4'
    } else if n == 5 {
        '5'
    } else if n == 6 {
        '6'
    } else if n == 7 {
        '7'
    } else if n == 8 {
        '8'
    } else if n == 9 {
        '9'
    } else if n == 10 {
        'a'
    } else if n == 11 {
        'b'
    } else if n == 12 {
        'c'
    } else if n == 13 {
        'd'
    } else if n == 14 {
        'e'
    } else {
        'f'
    }
}

/// A well-formed identifier string: exactly 24 hexadecimal digits, either case.
pub open spec fn valid_object_id(s: Seq<char>) -> bool {
    s.len() == 24 && forall|i: int| 0 <= i < s.len() ==> is_hex_digit(#[trigger] s[i])
}

/// The bytes encoded by a digit string, two digits to a byte.
pub open spec fn decoded_id(s: Seq<char>) -> Seq<u8> {
    Seq::new(s.len() / 2, |i: int| (16 * hex_val(s[2 * i]) + hex_val(s[2 * i + 1])) as u8)
}

/// The lower-case hexadecimal rendering of a byte string.
pub open spec fn hex_of(bytes: Seq<u8>) -> Seq<char> {
    Seq::new(
        bytes.len() * 2,
        |i: int|
            if i % 2 == 0 {
                hex_digit_char((bytes[i / 2] as int) / 16)
            } else {
                hex_digit_char((bytes[i / 2] as int) % 16)
            },
    )
}

/// A book's identifier: twelve bytes, assigned by the store.
#[derive(Debug)]
pub struct BookId {
    bytes: Vec<u8>,
}

impl View for BookId {
    type V = Seq<u8>;

    closed spec fn view(&self) -> Seq<u8> {
        self.bytes@
    }
}

impl Clone for BookId {
    fn clone(&self) -> (r: Self)
        ensures
            r@ == self@,
    {
        proof {
            use_type_invariant(self);
        }
        let bytes = self.bytes.clone();
        proof {
            assert(bytes@ =~= self.bytes@);
        }
        BookId { bytes }
    }
}

impl BookId {
    #[verifier::type_invariant]
    pub open spec fn inv(&self) -> bool {
        self@.len() == 12
    }

    /// Parses a 24-digit hexadecimal string, in either case, into an
    /// identifier; any other string is rejected.
    pub fn parse_str(s: &str) -> (r: Option<BookId>)
        ensures
            r is Some <==> valid_object_id(s@),
            match r {
                Some(id) => id@ == decoded_id(s@),
                None => true,
            },
    {
        let n = s.unicode_len();
        if n != 24 {
            return None;
        }
        let mut bytes: Vec<u8> = Vec::new();
        let mut i: usize = 0;
        while i < 12
            invariant
                s@.len() == 24,
                i <= 12,
                bytes@.len() == i as int,
                forall|j: int| 0 <= j < 2 * i ==> is_hex_digit(#[trigger] s@[j]),
                forall|j: int|
                    0 <= j < i ==> bytes@[j] == (16 * hex_val(s@[2 * j]) + hex_val(
                        s@[2 * j + 1],
                    )) as u8,
            decreases 12 - i,
        {
            let c_hi = s.get_char(2 * i);
            let c_lo = s.get_char(2 * i + 1);
            let hi = match hex_digit_value(c_hi) {
                Some(v) => v,
                None => {
                    return None;
                },
            };
            let lo = match hex_digit_value(c_lo) {
                Some(v) => v,
                None => {
                    return None;
                },
            };
            bytes.push(16 * hi + lo);
            i = i + 1;
        }
        proof {
            assert(bytes@ =~= decoded_id(s@));
        }
        Some(BookId { bytes })
    }

    /// Renders the identifier as its canonical 24-digit lower-case form.
    pub fn to_hex(&self) -> (r: String)
        ensures
            r@ == hex_of(self@),
            r@.len() == 24,
    {
        proof {
            use_type_invariant(self);
        }
        let mut out = String::new();
        let mut i: usize = 0;
        while i < 12
            invariant
                self@.len() == 12,
                i <= 12,
                out@ == hex_of(self@).subrange(0, 2 * i as int),
            decreases 12 - i,
        {
            let b = self.bytes[i];
            out.append(hex_digit_str(b / 16));
            out.append(hex_digit_str(b % 16));
            i = i + 1;
            proof {
                assert(out@ =~= hex_of(self@).subrange(0, 2 * i as int));
            }
        }
        proof {
            assert(out@ =~= hex_of(self@));
        }
        out
    }

    /// Wraps twelve raw bytes, as handed back by the store, into an
    /// identifier; any other length is rejected.
    pub fn from_bytes(bytes: Vec<u8>) -> (r: Option<BookId>)
        ensures
            r is Some <==> bytes@.len() == 12,
            match r {
                Some(id) => id@ == bytes@,
                None => true,
            },
    {
        if bytes.len() == 12 {
            Some(BookId { bytes })
        } else {
            None
        }
    }

    /// Whether two identifiers are the same twelve bytes.
    pub fn same_as(&self, other: &BookId) -> (r: bool)
        ensures
            r <==> self@ == other@,
    {
        proof {
            use_type_invariant(self);
            use_type_invariant(other);
        }
        let mut i: usize = 0;
        while i < 12
            invariant
                self@.len() == 12,
                other@.len() == 12,
                i <= 12,
                forall|j: int| 0 <= j < i ==> self@[j] == other@[j],
            decreases 12 - i,
        {
            if self.bytes[i] != other.bytes[i] {
                return false;
            }
            i = i + 1;
        }
        proof {
            assert(self@ =~= other@);
        }
        true
    }

    /// The raw bytes of the identifier.
    pub fn as_bytes(&self) -> (r: &Vec<u8>)
        ensures
            r@ == self@,
            r@.len() == 12,
    {
        proof {
            use_type_invariant(self);
        }
        &self.bytes
    }
}

/// The value of one hexadecimal digit character, in either case.
fn hex_digit_value(c: char) -> (r: Option<u8>)
    ensures
        r is Some <==> is_hex_digit(c),
        match r {
            Some(v) => v == hex_val(c) && v < 16,
            None => true,
        },
{
    if c == '0' {
        Some(0)
    } else if c == '1' {
        Some(1)
    } else if c == '2' {
        Some(2)
    } else if c == '3' {
        Some(3)
    } else if c == '4' {
        Some(4)
    } else if c == '5' {
        Some(5)
    } else if c == '6' {
        Some(6)
    } else if c == '7' {
        Some(7)
    } else if c == '8' {
        Some(8)
    } else if c == '9' {
        Some(9)
    } else if c == 'a' || c == 'A' {
        Some(10)
    } else if c == 'b' || c == 'B' {
        Some(11)
    } else if c == 'c' || c == 'C' {
        Some(12)
    } else if c == 'd' || c == 'D' {
        Some(13)
    } else if c == 'e' || c == 'E' {
        Some(14)
    } else if c == 'f' || c == 'F' {
        Some(15)
    } else {
        None
    }
}

/// The one-character string for a digit value below sixteen.
fn hex_digit_str(n: u8) -> (r: &'static str)
    requires
        n < 16,
    ensures
        r@ == seq![hex_digit_char(n as int)],
{
    if n == 0 {
        proof {
            reveal_strlit("0");
            assert("0"@ =~= seq![hex_digit_char(0)]);
        }
        "0"
    } else if n == 1 {
        proof {
            reveal_strlit("1");
            assert("1"@ =~= seq![hex_digit_char(1)]);
        }
        "1"
    } else if n == 2 {
        proof {
            reveal_strlit("2");
            assert("2"@ =~= seq![hex_digit_char(2)]);
        }
        "2"
    } else if n == 3 {
        proof {
            reveal_strlit("3");
            assert("3"@ =~= seq![hex_digit_char(3)]);
        }
        "3"
    } else if n == 4 {
        proof {
            reveal_strlit("4");
            assert("4"@ =~= seq![hex_digit_char(4)]);
        }
        "4"
    } else if n == 5 {
        proof {
            reveal_strlit("5");
            assert("5"@ =~= seq![hex_digit_char(5)]);
        }
        "5"
    } else if n == 6 {
        proof {
            reveal_strlit("6");
            assert("6"@ =~= seq![hex_digit_char(6)]);
        }
        "6"
    } else if n == 7 {
        proof {
            reveal_strlit("7");
            assert("7"@ =~= seq![hex_digit_char(7)]);
        }
        "7"
    } else if n == 8 {
        proof {
            reveal_strlit("8");
            assert("8"@ =~= seq![hex_digit_char(8)]);
        }
        "8"
    } else if n == 9 {
        proof {
            reveal_strlit("9");
            assert("9"@ =~= seq![hex_digit_char(9)]);
        }
        "9"
    } else if n == 10 {
        proof {
            reveal_strlit("a");
            assert("a"@ =~= seq![hex_digit_char(10)]);
        }
        "a"
    } else if n == 11 {
        proof {
            reveal_strlit("b");
            assert("b"@ =~= seq![hex_digit_char(11)]);
        }
        "b"
    } else if n == 12 {
        proof {
            reveal_strlit("c");
            assert("c"@ =~= seq![hex_digit_char(12)]);
        }
        "c"
    } else if n == 13 {
        proof {
            reveal_strlit("d");
            assert("d"@ =~= seq![hex_digit_char(13)]);
        }
        "d"
    } else if n == 14 {
        proof {
            reveal_strlit("e");
            assert("e"@ =~= seq![hex_digit_char(14)]);
        }
        "e"
    } else {
        proof {
            reveal_strlit("f");
            assert("f"@ =~= seq![hex_digit_char(15)]);
        }
        "f"
    }
}

/// Rendering an identifier and parsing the result gives the identifier back:
/// the canonical form of a stored id always reads as that id.
pub proof fn lemma_hex_round_trip(bytes: Seq<u8>)
    requires
        bytes.len() == 12,
    ensures
        valid_object_id(hex_of(bytes)),
        decoded_id(hex_of(bytes)) == bytes,
{
    let hex = hex_of(bytes);
    assert forall|i: int| 0 <= i < hex.len() implies is_hex_digit(#[trigger] hex[i]) by {
        let b = bytes[i / 2] as int;
        assert(0 <= b < 256);
        assert(0 <= b / 16 < 16);
        assert(0 <= b % 16 < 16);
    }
    assert forall|i: int| 0 <= i < 12 implies decoded_id(hex)[i] == bytes[i] by {
        let b = bytes[i] as int;
        assert(hex[2 * i] == hex_digit_char(b / 16));
        assert(hex[2 * i + 1] == hex_digit_char(b % 16));
        assert(hex_val(hex_digit_char(b / 16)) == b / 16);
        assert(hex_val(hex_digit_char(b % 16)) == b % 16);
        assert(16 * (b / 16) + b % 16 == b);
    }
    assert(decoded_id(hex) =~= bytes);
}

} // verus!
