//! The failure value a validation call ends with: a message and, when one is
//! known, the byte offset at which the problem was detected, plus its
//! rendering as a single diagnostic line.

use vstd::prelude::*;

verus! {

/// A terminal validation failure: a descriptive message, and the byte offset
/// where the problem was detected when one is known.
#[derive(Debug, Clone, PartialEq, Eq)]
pub struct ValidationFailure {
    pub message: String,
    pub offset: Option<u64>,
}

/// The character standing for one hexadecimal digit.
pub open spec fn hex_digit_char(d: int) -> char
    recommends
        0 <= d < 16,
{
    if d == 0 {
        '0'
    } else if d == 1 {
        '1'
    } else if d == 2 {
        '2'
    } else if d == 3 {
        '3'
    } else if d == 4 {
        '4'
    } else if d == 5 {
        '5'
    } else if d == 6 {
        '6'
    } else if d == 7 {
        '7'
    } else if d == 8 {
        '8'
    } else if d == 9 {
        '9'
    } else if d == 10 {
        'a'
    } else if d == 11 {
        'b'
    } else if d == 12 {
        'c'
    } else if d == 13 {
        'd'
    } else if d == 14 {
        'e'
    } else {
        'f'
    }
}

/// The hexadecimal rendering of a number, most significant digit first,
/// without leading zeros (a lone zero renders as "0").
pub open spec fn hex_seq(n: nat) -> Seq<char>
    decreases n,
{
    if n < 16 {
        seq![hex_digit_char(n as int)]
    } else {
        hex_seq(n / 16).push(hex_digit_char((n % 16) as int))
    }
}

fn hex_digit_str(d: u64) -> (r: &'static str)
    requires
        d < 16,
    ensures
        r@ == seq![hex_digit_char(d as int)],
{
    proof {
        reveal_strlit("0");
        reveal_strlit("1");
        reveal_strlit("2");
        reveal_strlit("3");
        reveal_strlit("4");
        reveal_strlit("5");
        reveal_strlit("6");
        reveal_strlit("7");
        reveal_strlit("8");
        reveal_strlit("9");
        reveal_strlit("a");
        reveal_strlit("b");
        reveal_strlit("c");
        reveal_strlit("d");
        reveal_strlit("e");
        reveal_strlit("f");
    }
    let r: &'static str = if d == 0 {
        "0"
    } else if d == 1 {
        "1"
    } else if d == 2 {
        "2"
    } else if d == 3 {
        "3"
    } else if d == 4 {
        "4"
    } else if d == 5 {
        "5"
    } else if d == 6 {
        "6"
    } else if d == 7 {
        "7"
    } else if d == 8 {
        "8"
    } else if d == 9 {
        "9"
    } else if d == 10 {
        "a"
    } else if d == 11 {
        "b"
    } else if d == 12 {
        "c"
    } else if d == 13 {
        "d"
    } else if d == 14 {
        "e"
    } else {
        "f"
    };
    proof {
        assert(r@ =~= seq![hex_digit_char(d as int)]);
    }
    r
}

/// Renders a number in hexadecimal, matching `hex_seq`.
pub fn hex_string(n: u64) -> (r: String)
    ensures
        r@ == hex_seq(n as nat),
    decreases n,
{
    if n < 16 {
        String::from_str(hex_digit_str(n))
    } else {
        let mut s = hex_string(n / 16);
        s.append(hex_digit_str(n % 16));
        proof {
            assert(s@ =~= hex_seq(n as nat));
        }
        s
    }
}

impl ValidationFailure {
    /// The diagnostic line this failure renders as: the message alone, or,
    /// when the offset is known, `<message> (at offset 0x<hex>)`.
    pub open spec fn rendered(self) -> Seq<char> {
        match self.offset {
            Some(o) => self.message@ + " (at offset 0x"@ + hex_seq(o as nat) + ")"@,
            None => self.message@,
        }
    }

    /// Builds the single diagnostic line for this failure.
    pub fn render(&self) -> (r: String)
        ensures
            r@ == self.rendered(),
    {
        match self.offset {
            Some(o) => {
                let mut s = self.message.clone();
                s.append(" (at offset 0x");
                let h = hex_string(o);
                s.append(h.as_str());
                s.append(")");
                s
            },
            None => self.message.clone(),
        }
    }
}

} // verus!
