use crate::time::FileTime;
use vstd::prelude::*;

verus! {

/// The decimal digit for `d`.
pub open spec fn digit_char(d: int) -> char {
    if d == 0 {
        '0'
    } else if d == 1 {
        '1'
    } else if d == 2 {
        '2'
    } else if d == 3 {
        '3'
    } else if d == 4 {
        '4'
    } else if d == 5 {
        '5'
    } else if d == 6 {
        '6'
    } else if d == 7 {
        '7'
    } else if d == 8 {
        '8'
    } else {
        '9'
    }
}

/// The decimal digits of `n`, with no leading zero.
pub open spec fn decimal(n: nat) -> Seq<char>
    decreases n,
{
    if n < 10 {
        seq![digit_char(n as int)]
    } else {
        decimal(n / 10) + seq![digit_char((n % 10) as int)]
    }
}

/// The last `width` decimal digits of `n`, with leading zeros.
pub open spec fn padded(n: nat, width: nat) -> Seq<char>
    decreases width,
{
    if width == 0 {
        Seq::empty()
    } else {
        padded(n / 10, (width - 1) as nat) + seq![digit_char((n % 10) as int)]
    }
}

/// A signed integer in decimal, with a minus sign when it is negative.
pub open spec fn signed_decimal(n: int) -> Seq<char> {
    if n < 0 {
        seq!['-'] + decimal((-n) as nat)
    } else {
        decimal(n as nat)
    }
}

/// The text of a timestamp: its seconds, a point, its nanoseconds as nine
/// digits, and `s`.
pub open spec fn time_text(t: FileTime) -> Seq<char> {
    signed_decimal(t.sec()) + seq!['.'] + padded(t.nsec() as nat, 9) + seq!['s']
}

fn digit(d: u64) -> (c: char)
    requires
        d < 10,
    ensures
        c == digit_char(d as int),
{
    if d == 0 {
        '0'
    } else if d == 1 {
        '1'
    } else if d == 2 {
        '2'
    } else if d == 3 {
        '3'
    } else if d == 4 {
        '4'
    } else if d == 5 {
        '5'
    } else if d == 6 {
        '6'
    } else if d == 7 {
        '7'
    } else if d == 8 {
        '8'
    } else {
        '9'
    }
}

fn push_decimal(n: u64, out: &mut Vec<char>)
    ensures
        final(out)@ == old(out)@ + decimal(n as nat),
    decreases n,
{
    if n >= 10 {
        push_decimal(n / 10, out);
    }
    out.push(digit(n % 10));
    proof {
        if n >= 10 {
            assert(old(out)@ + decimal(n as nat) == old(out)@ + decimal((n / 10) as nat) + seq![
                digit_char((n % 10) as int),
            ]);
        }
    }
}

fn push_padded(n: u64, width: u64, out: &mut Vec<char>)
    ensures
        final(out)@ == old(out)@ + padded(n as nat, width as nat),
    decreases width,
{
    if width > 0 {
        push_padded(n / 10, width - 1, out);
        out.push(digit(n % 10));
        assert(old(out)@ + padded(n as nat, width as nat) == old(out)@ + padded(
            (n / 10) as nat,
            (width - 1) as nat,
        ) + seq![digit_char((n % 10) as int)]);
    } else {
        assert(old(out)@ + padded(n as nat, 0) == old(out)@);
    }
}

/// Relies on `FromIterator<&char>` for `String`: collecting characters
/// gives the string of those characters in order.
#[verifier::external_body]
fn string_of(chars: &Vec<char>) -> (r: String)
    ensures
        r@ == chars@,
{
    String::from_iter(chars)
}

impl FileTime {
    /// The characters of the timestamp's text, such as `10000.000000000s`.
    pub fn render(&self) -> (r: Vec<char>)
        ensures
            r@ == time_text(*self),
    {
        let s = self.seconds();
        let mut out: Vec<char> = Vec::new();
        if s < 0 {
            out.push('-');
            push_decimal((-(s as i128)) as u64, &mut out);
        } else {
            push_decimal(s as u64, &mut out);
        }
        out.push('.');
        push_padded(self.nanoseconds() as u64, 9, &mut out);
        out.push('s');
        assert(out@ == time_text(*self));
        out
    }

    /// The timestamp as text: seconds, a point, nine digits of nanoseconds,
    /// and `s`.
    pub fn to_string(&self) -> (r: String)
        ensures
            r@ == time_text(*self),
    {
        string_of(&self.render())
    }
}

} // verus!
