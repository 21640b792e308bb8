use vstd::prelude::*;

verus! {

/// The decimal digit character for `d` in `0..10`.
pub open spec fn digit_char(d: int) -> char {
    if d == 0 {
        '0'
    } else if d == 1 {
        '1'
    } else if d == 2 {
        '2'
    } else if d == 3 {
        '3'
    } else if d == 4 {
        '4'
    } else if d == 5 {
        '5'
    } else if d == 6 {
        '6'
    } else if d == 7 {
        '7'
    } else if d == 8 {
        '8'
    } else {
        '9'
    }
}

/// The decimal digits of a non-negative number, most significant first,
/// without leading zeros (a lone zero for 0).
pub open spec fn dec_digits(n: int) -> Seq<char>
    decreases n,
{
    if n < 10 {
        seq![digit_char(n)]
    } else {
        dec_digits(n / 10).push(digit_char(n % 10))
    }
}

/// `s` left-padded with zeros to width `w` (returned unchanged when it is
/// already that wide).
pub open spec fn zero_pad(s: Seq<char>, w: int) -> Seq<char> {
    if s.len() >= w {
        s
    } else {
        Seq::new((w - s.len()) as nat, |i: int| '0') + s
    }
}

/// One decimal digit as a string.
fn digit_str(d: u64) -> (r: &'static str)
    requires
        d < 10,
    ensures
        r@ == seq![digit_char(d as int)],
{
    proof {
        reveal_strlit("0");
        reveal_strlit("1");
        reveal_strlit("2");
        reveal_strlit("3");
        reveal_strlit("4");
        reveal_strlit("5");
        reveal_strlit("6");
        reveal_strlit("7");
        reveal_strlit("8");
        reveal_strlit("9");
    }
    let r = if d == 0 {
        "0"
    } else if d == 1 {
        "1"
    } else if d == 2 {
        "2"
    } else if d == 3 {
        "3"
    } else if d == 4 {
        "4"
    } else if d == 5 {
        "5"
    } else if d == 6 {
        "6"
    } else if d == 7 {
        "7"
    } else if d == 8 {
        "8"
    } else {
        "9"
    };
    proof {
        assert(r@ =~= seq![digit_char(d as int)]);
    }
    r
}

/// A number as its decimal digits, as `Display` renders it.
pub fn u64_string(n: u64) -> (s: String)
    ensures
        s@ == dec_digits(n as int),
    decreases n,
{
    if n < 10 {
        digit_str(n).to_owned()
    } else {
        let mut s = u64_string(n / 10);
        s.append(digit_str(n % 10));
        proof {
            assert(s@ =~= dec_digits(n as int));
        }
        s
    }
}

/// A number zero-padded to (at least) two digits, as `%M`, `%S`, `%m`,
/// `%d` and `%H` render calendar fields.
pub fn u64_string_pad2(n: u64) -> (s: String)
    ensures
        s@ == zero_pad(dec_digits(n as int), 2),
{
    if n < 10 {
        let mut s = digit_str(0).to_owned();
        s.append(digit_str(n));
        proof {
            assert(s@ =~= zero_pad(dec_digits(n as int), 2));
        }
        s
    } else {
        let s = u64_string(n);
        proof {
            lemma_dec_digits_len(n as int);
        }
        s
    }
}

/// `dec_digits` of an `n`-digit number is that long: one digit below 10,
/// one more for each factor of 10.
pub proof fn lemma_dec_digits_len(n: int)
    ensures
        dec_digits(n).len() >= 1,
        n >= 10 ==> dec_digits(n).len() >= 2,
        n >= 100 ==> dec_digits(n).len() >= 3,
        n >= 1000 ==> dec_digits(n).len() >= 4,
        n < 10 ==> dec_digits(n).len() <= 1,
        n < 100 ==> dec_digits(n).len() <= 2,
        n < 1000 ==> dec_digits(n).len() <= 3,
        n < 10000 ==> dec_digits(n).len() <= 4,
        n < 100000 ==> dec_digits(n).len() <= 5,
        n < 1000000 ==> dec_digits(n).len() <= 6,
        n < 10000000 ==> dec_digits(n).len() <= 7,
    decreases n,
{
    if n >= 10 {
        lemma_dec_digits_len(n / 10);
    }
}

/// A year zero-padded to (at least) four digits with a leading `-` when
/// negative, as `%Y` renders it.
pub fn year_string(y: i32) -> (s: String)
    requires
        -1000000 <= y <= 1000000,
    ensures
        y >= 0 ==> s@ == zero_pad(dec_digits(y as int), 4),
        y < 0 ==> s@ == seq!['-'] + zero_pad(dec_digits(-(y as int)), 4),
{
    let mag: u64 = if y < 0 {
        (-(y as i64)) as u64
    } else {
        y as u64
    };
    let digits = u64_string(mag);
    let dlen = digits.as_str().unicode_len();
    let mut s = String::new();
    if y < 0 {
        s.append("-");
        proof {
            reveal_strlit("-");
        }
    }
    let mut pad: usize = 0;
    proof {
        lemma_dec_digits_len(mag as int);
    }
    while pad + dlen < 4
        invariant
            dlen == dec_digits(mag as int).len(),
            1 <= dlen <= 7,
            0 <= pad <= 4,
            pad + dlen <= 4 || pad == 0,
            y >= 0 ==> s@ =~= Seq::new(pad as nat, |i: int| '0'),
            y < 0 ==> s@ =~= seq!['-'] + Seq::new(pad as nat, |i: int| '0'),
        decreases 4 - pad - dlen,
    {
        s.append("0");
        proof {
            reveal_strlit("0");
            assert(Seq::new(pad as nat, |i: int| '0').push('0') =~= Seq::new(
                (pad + 1) as nat,
                |i: int| '0',
            ));
        }
        pad = pad + 1;
    }
    s.append(digits.as_str());
    proof {
        if y >= 0 {
            assert(s@ =~= zero_pad(dec_digits(mag as int), 4));
        } else {
            assert(s@ =~= seq!['-'] + zero_pad(dec_digits(mag as int), 4));
        }
    }
    s
}

} // verus!
