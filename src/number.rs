use vstd::prelude::*;

verus! {

/// The decimal digit characters.
pub open spec fn digit_char(d: int) -> char {
    seq!['0', '1', '2', '3', '4', '5', '6', '7', '8', '9'][d]
}

/// The decimal numeral of `n`, without leading zeros.
pub open spec fn decimal(n: nat) -> Seq<char>
    decreases n,
{
    if n < 10 {
        seq![digit_char(n as int)]
    } else {
        decimal(n / 10).push(digit_char((n % 10) as int))
    }
}

/// The shortest decimal text of `q / 4`: a sign where it is negative, the
/// whole part, and `.25`, `.5` or `.75` where there is a fraction.
pub open spec fn quarter_text(q: int) -> Seq<char> {
    let a = if q < 0 {
        -q
    } else {
        q
    };
    let sign = if q < 0 {
        seq!['-']
    } else {
        seq![]
    };
    let frac = if a % 4 == 1 {
        seq!['.', '2', '5']
    } else if a % 4 == 2 {
        seq!['.', '5']
    } else if a % 4 == 3 {
        seq!['.', '7', '5']
    } else {
        seq![]
    };
    sign + decimal((a / 4) as nat) + frac
}

/// Relies on std's `String::push`: appends one character.
#[verifier::external_body]
pub(crate) fn push_char(s: &mut String, c: char)
    ensures
        final(s)@ == old(s)@.push(c),
{
    s.push(c)
}

/// Appends each character of `cs`.
pub(crate) fn push_chars(s: &mut String, cs: &[char])
    ensures
        final(s)@ == old(s)@ + cs@,
{
    let ghost start = s@;
    let mut k: usize = 0;
    while k < cs.len()
        invariant
            k <= cs@.len(),
            s@ == start + cs@.take(k as int),
        decreases cs@.len() - k,
    {
        push_char(s, cs[k]);
        k = k + 1;
        assert(s@ =~= start + cs@.take(k as int));
    }
    assert(cs@.take(k as int) =~= cs@);
}

fn digit(d: u128) -> (c: char)
    requires
        d < 10,
    ensures
        c == digit_char(d as int),
{
    if d == 0 {
        '0'
    } else if d == 1 {
        '1'
    } else if d == 2 {
        '2'
    } else if d == 3 {
        '3'
    } else if d == 4 {
        '4'
    } else if d == 5 {
        '5'
    } else if d == 6 {
        '6'
    } else if d == 7 {
        '7'
    } else if d == 8 {
        '8'
    } else {
        '9'
    }
}

/// Appends the decimal numeral of `n`.
pub fn push_decimal(s: &mut String, n: u128)
    ensures
        final(s)@ == old(s)@ + decimal(n as nat),
    decreases n,
{
    if n >= 10 {
        push_decimal(s, n / 10);
    }
    push_char(s, digit(n % 10));
    assert(final(s)@ =~= old(s)@ + decimal(n as nat)) by {
        if n >= 10 {
            assert(decimal(n as nat) == decimal((n / 10) as nat).push(digit_char((n % 10) as int)));
        }
    }
}

/// Appends the decimal text of `q / 4`.
pub fn push_quarters(s: &mut String, q: i128)
    requires
        q > i128::MIN,
    ensures
        final(s)@ == old(s)@ + quarter_text(q as int),
{
    let ghost start = s@;
    let a: u128 = if q < 0 {
        (-q) as u128
    } else {
        q as u128
    };
    if q < 0 {
        push_char(s, '-');
    }
    let ghost signed = s@;
    push_decimal(s, a / 4);
    let ghost whole = s@;
    if a % 4 == 1 {
        push_chars(s, &['.', '2', '5']);
    } else if a % 4 == 2 {
        push_chars(s, &['.', '5']);
    } else if a % 4 == 3 {
        push_chars(s, &['.', '7', '5']);
    }
    proof {
        let sign = if q < 0 { seq!['-'] } else { seq![] };
        assert(signed =~= start + sign);
        let frac: Seq<char> = if a % 4 == 1 {
            seq!['.', '2', '5']
        } else if a % 4 == 2 {
            seq!['.', '5']
        } else if a % 4 == 3 {
            seq!['.', '7', '5']
        } else {
            seq![]
        };
        assert(s@ =~= whole + frac);
        assert(s@ =~= start + quarter_text(q as int));
    }
}

} // verus!
