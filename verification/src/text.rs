//! Small verified text-building utilities used by the name resolver and the
//! wrapper generator: appending a character, rendering a number in decimal,
//! and testing a prefix.

use vstd::prelude::*;

verus! {

/// Relies on String::push: appends one character to the end of the string.
#[verifier::external_body]
pub fn push_char(s: &mut String, c: char)
    ensures
        final(s)@ == old(s)@ + seq![c],
{
    s.push(c)
}

/// The decimal digit character for one digit value.
pub open spec fn spec_digit(d: nat) -> char {
    if d == 0 {
        '0'
    } else if d == 1 {
        '1'
    } else if d == 2 {
        '2'
    } else if d == 3 {
        '3'
    } else if d == 4 {
        '4'
    } else if d == 5 {
        '5'
    } else if d == 6 {
        '6'
    } else if d == 7 {
        '7'
    } else if d == 8 {
        '8'
    } else {
        '9'
    }
}

/// The usual decimal rendering of a number, without sign or padding.
pub open spec fn spec_decimal(n: nat) -> Seq<char>
    decreases n,
{
    if n < 10 {
        seq![spec_digit(n)]
    } else {
        spec_decimal(n / 10).push(spec_digit(n % 10))
    }
}

fn digit_char(d: usize) -> (c: char)
    requires
        d < 10,
    ensures
        c == spec_digit(d as nat),
{
    if d == 0 {
        '0'
    } else if d == 1 {
        '1'
    } else if d == 2 {
        '2'
    } else if d == 3 {
        '3'
    } else if d == 4 {
        '4'
    } else if d == 5 {
        '5'
    } else if d == 6 {
        '6'
    } else if d == 7 {
        '7'
    } else if d == 8 {
        '8'
    } else {
        '9'
    }
}

/// Renders a number in decimal.
pub fn decimal_string(n: usize) -> (r: String)
    ensures
        r@ == spec_decimal(n as nat),
    decreases n,
{
    if n < 10 {
        let mut s = String::new();
        push_char(&mut s, digit_char(n));
        proof {
            assert(s@ =~= spec_decimal(n as nat));
        }
        s
    } else {
        let mut s = decimal_string(n / 10);
        push_char(&mut s, digit_char(n % 10));
        proof {
            assert(s@ =~= spec_decimal(n as nat));
        }
        s
    }
}

/// Whether `p` is a prefix of `s`.
pub open spec fn spec_starts_with(s: Seq<char>, p: Seq<char>) -> bool {
    p.len() <= s.len() && s.subrange(0, p.len() as int) == p
}

/// Tests whether `p` is a prefix of `s`, by characters.
pub fn starts_with(s: &str, p: &str) -> (r: bool)
    ensures
        r == spec_starts_with(s@, p@),
{
    let sl = s.unicode_len();
    let pl = p.unicode_len();
    if pl > sl {
        return false;
    }
    let mut i: usize = 0;
    while i < pl
        invariant
            i <= pl,
            pl == p@.len(),
            pl <= sl == s@.len(),
            forall|j: int| 0 <= j < i ==> s@[j] == p@[j],
        decreases pl - i,
    {
        if s.get_char(i) != p.get_char(i) {
            proof {
                assert(s@.subrange(0, pl as int)[i as int] == s@[i as int]);
            }
            return false;
        }
        i += 1;
    }
    proof {
        assert(s@.subrange(0, pl as int) =~= p@);
    }
    true
}

} // verus!
