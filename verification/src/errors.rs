//! Typed outcomes of a failed construction, with human-readable messages.

use vstd::prelude::*;

verus! {

/// Why a construction attempt failed.
///
/// Construction either fully succeeds or fails with one of these; no partial
/// state is left behind either way. A notification that cannot be delivered is
/// not an error of this kind: the foreign calling convention offers no way to
/// refuse a notification, so such an event is dropped and counted instead.
#[derive(Clone, Copy, Debug, PartialEq, Eq, Structural)]
pub enum NanoNetError {
    /// The supplied address text cannot be represented as a foreign-compatible
    /// string because it contains an embedded terminator byte.
    AddressEncodingError,
    /// The foreign core rejected initialization; carries its raw status code.
    InitializationError(i32),
}

/// The character for a single decimal digit.
pub open spec fn digit_char(d: int) -> char
    recommends
        0 <= d < 10,
{
    if d == 0 {
        '0'
    } else if d == 1 {
        '1'
    } else if d == 2 {
        '2'
    } else if d == 3 {
        '3'
    } else if d == 4 {
        '4'
    } else if d == 5 {
        '5'
    } else if d == 6 {
        '6'
    } else if d == 7 {
        '7'
    } else if d == 8 {
        '8'
    } else {
        '9'
    }
}

/// The decimal digits of a non-negative integer, most significant first.
pub open spec fn decimal_digits(n: int) -> Seq<char>
    recommends
        n >= 0,
    decreases n,
{
    if n < 10 {
        seq![digit_char(n)]
    } else {
        decimal_digits(n / 10).push(digit_char(n % 10))
    }
}

/// The decimal rendering of a signed integer: a minus sign, if negative,
/// followed by the digits of its magnitude.
pub open spec fn decimal_signed(n: int) -> Seq<char> {
    if n < 0 {
        seq!['-'] + decimal_digits(-n)
    } else {
        decimal_digits(n)
    }
}

/// The exact message text for each error.
pub open spec fn spec_message(e: NanoNetError) -> Seq<char> {
    match e {
        NanoNetError::AddressEncodingError => "address contains an embedded terminator"@,
        NanoNetError::InitializationError(code) => "Failed to initialize C server core with error code: "@
            + decimal_signed(code as int),
    }
}

/// A one-character string holding a single decimal digit.
fn digit_string(d: u32) -> (s: String)
    requires
        d < 10,
    ensures
        s@ =~= seq![digit_char(d as int)],
{
    proof {
        reveal_strlit("0");
        reveal_strlit("1");
        reveal_strlit("2");
        reveal_strlit("3");
        reveal_strlit("4");
        reveal_strlit("5");
        reveal_strlit("6");
        reveal_strlit("7");
        reveal_strlit("8");
        reveal_strlit("9");
    }
    if d == 0 {
        String::from_str("0")
    } else if d == 1 {
        String::from_str("1")
    } else if d == 2 {
        String::from_str("2")
    } else if d == 3 {
        String::from_str("3")
    } else if d == 4 {
        String::from_str("4")
    } else if d == 5 {
        String::from_str("5")
    } else if d == 6 {
        String::from_str("6")
    } else if d == 7 {
        String::from_str("7")
    } else if d == 8 {
        String::from_str("8")
    } else {
        String::from_str("9")
    }
}

/// Renders a non-negative number in decimal.
fn decimal_string(n: u32) -> (s: String)
    ensures
        s@ == decimal_digits(n as int),
    decreases n,
{
    if n < 10 {
        digit_string(n)
    } else {
        let mut s = decimal_string(n / 10);
        let d = digit_string(n % 10);
        s.append(d.as_str());
        s
    }
}

impl NanoNetError {
    /// A human-readable description of the error, with the foreign status code
    /// rendered in decimal.
    pub fn message(&self) -> (m: String)
        ensures
            m@ == spec_message(*self),
    {
        match self {
            NanoNetError::AddressEncodingError => {
                proof {
                    reveal_strlit("address contains an embedded terminator");
                }
                String::from_str("address contains an embedded terminator")
            },
            NanoNetError::InitializationError(code) => {
                proof {
                    reveal_strlit("Failed to initialize C server core with error code: ");
                    reveal_strlit("-");
                }
                let mut m = String::from_str(
                    "Failed to initialize C server core with error code: ",
                );
                let c: i32 = *code;
                if c < 0 {
                    m.append("-");
                    let magnitude: u32 = (-(c as i64)) as u32;
                    let digits = decimal_string(magnitude);
                    m.append(digits.as_str());
                } else {
                    let digits = decimal_string(c as u32);
                    m.append(digits.as_str());
                }
                m
            },
        }
    }
}

} // verus!
