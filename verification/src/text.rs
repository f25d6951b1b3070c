use vstd::prelude::*;

verus! {

/// Relies on `String::push`: appends exactly the given character to the end
/// of the string.
pub assume_specification[ std::string::String::push ](s: &mut std::string::String, ch: char)
    ensures
        final(s)@ == old(s)@.push(ch),
;

/// The character for a single decimal digit.
pub open spec fn spec_digit_char(d: int) -> char {
    if d == 0 {
        '0'
    } else if d == 1 {
        '1'
    } else if d == 2 {
        '2'
    } else if d == 3 {
        '3'
    } else if d == 4 {
        '4'
    } else if d == 5 {
        '5'
    } else if d == 6 {
        '6'
    } else if d == 7 {
        '7'
    } else if d == 8 {
        '8'
    } else {
        '9'
    }
}

/// The decimal rendering of a natural number, most significant digit first.
pub open spec fn spec_dec(n: nat) -> Seq<char>
    decreases n,
{
    if n < 10 {
        seq![spec_digit_char(n as int)]
    } else {
        spec_dec(n / 10).push(spec_digit_char((n % 10) as int))
    }
}

/// A sequence of `n` copies of the character `c`.
pub open spec fn spec_repeat(c: char, n: nat) -> Seq<char>
    decreases n,
{
    if n == 0 {
        Seq::<char>::empty()
    } else {
        spec_repeat(c, (n - 1) as nat).push(c)
    }
}

/// The decimal rendering of `n`, left-padded with `pad` to at least `width`
/// characters.
pub open spec fn spec_pad_left(n: nat, width: nat, pad: char) -> Seq<char> {
    if spec_dec(n).len() >= width {
        spec_dec(n)
    } else {
        spec_repeat(pad, (width - spec_dec(n).len()) as nat) + spec_dec(n)
    }
}

/// The decimal rendering of `n` has one digit per decimal order of magnitude.
pub proof fn lemma_dec_len(n: nat)
    ensures
        n < 10 ==> spec_dec(n).len() == 1,
        10 <= n < 100 ==> spec_dec(n).len() == 2,
        100 <= n < 1000 ==> spec_dec(n).len() == 3,
        n >= 1000 ==> spec_dec(n).len() >= 4,
    decreases n,
{
    if n >= 10 {
        lemma_dec_len(n / 10);
    }
}

fn digit_char(d: usize) -> (r: char)
    requires
        d < 10,
    ensures
        r == spec_digit_char(d as int),
{
    if d == 0 {
        '0'
    } else if d == 1 {
        '1'
    } else if d == 2 {
        '2'
    } else if d == 3 {
        '3'
    } else if d == 4 {
        '4'
    } else if d == 5 {
        '5'
    } else if d == 6 {
        '6'
    } else if d == 7 {
        '7'
    } else if d == 8 {
        '8'
    } else {
        '9'
    }
}

/// The decimal rendering of `n` as a string.
pub fn dec_string(n: usize) -> (r: String)
    ensures
        r@ == spec_dec(n as nat),
    decreases n,
{
    if n < 10 {
        let mut r = String::new();
        r.push(digit_char(n));
        r
    } else {
        let mut r = dec_string(n / 10);
        r.push(digit_char(n % 10));
        r
    }
}

/// The decimal rendering of `n`, left-padded with `pad` to at least 4
/// characters.
pub fn pad4(n: usize, pad: char) -> (r: String)
    ensures
        r@ == spec_pad_left(n as nat, 4, pad),
{
    proof {
        lemma_dec_len(n as nat);
    }
    let digits = dec_string(n);
    let mut r = String::new();
    if n < 10 {
        r.push(pad);
        r.push(pad);
        r.push(pad);
    } else if n < 100 {
        r.push(pad);
        r.push(pad);
    } else if n < 1000 {
        r.push(pad);
    }
    let r2 = r.concat(digits.as_str());
    proof {
        assert(r2@ =~= spec_pad_left(n as nat, 4, pad)) by {
            reveal_with_fuel(spec_repeat, 5);
        }
    }
    r2
}

} // verus!
