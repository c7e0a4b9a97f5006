//! Startup configuration: the two mandatory database settings and the
//! optional port override, assembled from raw environment values.

use vstd::prelude::*;
use vstd::string::*;

verus! {

/// The settings the service needs before it can accept traffic.
#[derive(Debug)]
pub struct Config {
    pub mongodb_uri: String,
    pub mongodb_db: String,
}

/// A raw environment value is usable only when it is present and non-empty.
pub open spec fn usable(v: Option<String>) -> bool {
    match v {
        Some(s) => s@.len() > 0,
        None => false,
    }
}

/// The characters of a present environment value.
pub open spec fn value_of(v: Option<String>) -> Seq<char> {
    match v {
        Some(s) => s@,
        None => Seq::empty(),
    }
}

impl Config {
    /// Assembles the configuration from the raw values of `MONGODB_URI` and
    /// `MONGODB_DB`. Both are mandatory: a missing or empty value fails with
    /// an error naming the offending variable, the URI being checked first.
    pub fn from_values(uri: Option<String>, db: Option<String>) -> (r: Result<Config, String>)
        ensures
            r is Ok <==> usable(uri) && usable(db),
            match r {
                Ok(c) => c.mongodb_uri@ == value_of(uri) && c.mongodb_db@ == value_of(db),
                Err(m) => if !usable(uri) {
                    m@ == "MONGODB_URI not set"@
                } else {
                    m@ == "MONGODB_DB not set"@
                },
            },
    {
        let mongodb_uri = match uri {
            Some(u) => {
                if u.as_str().is_empty() {
                    return Err("MONGODB_URI not set".to_owned());
                }
                u
            },
            None => {
                return Err("MONGODB_URI not set".to_owned());
            },
        };
        let mongodb_db = match db {
            Some(d) => {
                if d.as_str().is_empty() {
                    return Err("MONGODB_DB not set".to_owned());
                }
                d
            },
            None => {
                return Err("MONGODB_DB not set".to_owned());
            },
        };
        Ok(Config { mongodb_uri, mongodb_db })
    }
}

/// The value of a decimal digit, or -1 for any other character.
pub open spec fn dec_val(c: char) -> int {
    if c == '0' {
        0
    } else if c == '1' {
        1
    } else if c == '2' {
        2
    } else if c == '3' {
        3
    } else if c == '4' {
        4
    } else if c == '5' {
        5
    } else if c == '6' {
        6
    } else if c == '7' {
        7
    } else if c == '8' {
        8
    } else if c == '9' {
        9
    } else {
        -1
    }
}

pub open spec fn all_digits(s: Seq<char>) -> bool {
    forall|i: int| 0 <= i < s.len() ==> dec_val(#[trigger] s[i]) >= 0
}

/// The number a digit string denotes, most significant digit first.
pub open spec fn dec_value(s: Seq<char>) -> int
    decreases s.len(),
{
    if s.len() == 0 {
        0
    } else {
        dec_value(s.drop_last()) * 10 + dec_val(s.last())
    }
}

/// The digits of a port string, a single leading plus sign allowed.
pub open spec fn port_digits(s: Seq<char>) -> Seq<char> {
    if s.len() > 0 && s[0] == '+' {
        s.subrange(1, s.len() as int)
    } else {
        s
    }
}

/// A string that denotes a port: at least one decimal digit after an
/// optional plus sign, and a value within sixteen bits.
pub open spec fn valid_port_str(s: Seq<char>) -> bool {
    &&& port_digits(s).len() > 0
    &&& all_digits(port_digits(s))
    &&& dec_value(port_digits(s)) <= 65535
}

/// The port a valid string denotes.
pub open spec fn port_value(s: Seq<char>) -> int {
    dec_value(port_digits(s))
}

/// The value of one decimal digit character.
fn dec_digit_value(c: char) -> (r: Option<u8>)
    ensures
        r is Some <==> dec_val(c) >= 0,
        match r {
            Some(v) => v as int == dec_val(c) && v <= 9,
            None => true,
        },
{
    if c == '0' {
        Some(0)
    } else if c == '1' {
        Some(1)
    } else if c == '2' {
        Some(2)
    } else if c == '3' {
        Some(3)
    } else if c == '4' {
        Some(4)
    } else if c == '5' {
        Some(5)
    } else if c == '6' {
        Some(6)
    } else if c == '7' {
        Some(7)
    } else if c == '8' {
        Some(8)
    } else if c == '9' {
        Some(9)
    } else {
        None
    }
}

/// Parses a port number the way the standard decimal parser reads an
/// unsigned sixteen-bit value: an optional plus sign, then at least one
/// digit, denoting at most 65535.
pub fn parse_port(s: &str) -> (r: Option<u16>)
    ensures
        r is Some <==> valid_port_str(s@),
        match r {
            Some(v) => v as int == port_value(s@),
            None => true,
        },
{
    let n = s.unicode_len();
    let start: usize = if n > 0 && s.get_char(0) == '+' {
        1
    } else {
        0
    };
    if n == start {
        return None;
    }
    let mut i: usize = start;
    let mut cap: u32 = 0;
    let ghost mut val: int = 0;
    while i < n
        invariant
            n == s@.len(),
            start <= 1,
            start < n,
            start <= i <= n,
            start == 1 ==> s@[0] == '+',
            start == 0 ==> !(s@.len() > 0 && s@[0] == '+'),
            all_digits(s@.subrange(start as int, i as int)),
            val == dec_value(s@.subrange(start as int, i as int)),
            val >= 0,
            val <= 65535 ==> cap == val,
            val > 65535 ==> cap == 65536,
            cap <= 65536,
        decreases n - i,
    {
        let c = s.get_char(i);
        let dv = match dec_digit_value(c) {
            Some(v) => v,
            None => {
                proof {
                    let d = port_digits(s@);
                    assert(d == s@.subrange(start as int, n as int));
                    assert(d[i - start] == s@[i as int]);
                }
                return None;
            },
        };
        proof {
            let t = s@.subrange(start as int, i as int);
            let t2 = s@.subrange(start as int, i + 1);
            assert(t2.drop_last() =~= t);
            assert(t2.last() == s@[i as int]);
            val = val * 10 + dv as int;
        }
        cap = if cap * 10 + dv as u32 > 65535 {
            65536
        } else {
            cap * 10 + dv as u32
        };
        i = i + 1;
    }
    proof {
        assert(port_digits(s@) == s@.subrange(start as int, n as int));
    }
    if cap > 65535 {
        return None;
    }
    Some(cap as u16)
}

/// The port the service listens on: a valid override wins, anything else
/// falls back to 3000.
pub fn effective_port(v: Option<String>) -> (r: u16)
    ensures
        match v {
            Some(s) => if valid_port_str(s@) {
                r as int == port_value(s@)
            } else {
                r == 3000
            },
            None => r == 3000,
        },
{
    match v {
        Some(s) => match parse_port(s.as_str()) {
            Some(p) => p,
            None => 3000,
        },
        None => 3000,
    }
}

} // verus!
