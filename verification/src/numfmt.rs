//! Decimal formatting of counts: plain (`{}`), zero-padded (`{:04}`) and with
//! a comma between groups of three digits.
use vstd::prelude::*;
use vstd::string::StringExecFns;
use crate::text::append_chars;

verus! {

/// The character of the decimal digit `d`.
pub open spec fn digit(d: nat) -> char {
    if d == 0 {
        '0'
    } else if d == 1 {
        '1'
    } else if d == 2 {
        '2'
    } else if d == 3 {
        '3'
    } else if d == 4 {
        '4'
    } else if d == 5 {
        '5'
    } else if d == 6 {
        '6'
    } else if d == 7 {
        '7'
    } else if d == 8 {
        '8'
    } else {
        '9'
    }
}

/// The value of a decimal digit character (non-digits count as 0).
pub open spec fn digit_value(c: char) -> nat {
    if c == '1' {
        1
    } else if c == '2' {
        2
    } else if c == '3' {
        3
    } else if c == '4' {
        4
    } else if c == '5' {
        5
    } else if c == '6' {
        6
    } else if c == '7' {
        7
    } else if c == '8' {
        8
    } else if c == '9' {
        9
    } else {
        0
    }
}

pub open spec fn is_digit(c: char) -> bool {
    '0' <= c <= '9'
}

/// The decimal representation of `n`, without leading zeros.
pub open spec fn dec(n: nat) -> Seq<char>
    decreases n,
{
    if n < 10 {
        seq![digit(n)]
    } else {
        dec(n / 10).push(digit(n % 10))
    }
}

/// The number a sequence of decimal digits stands for.
pub open spec fn value(s: Seq<char>) -> nat
    decreases s.len(),
{
    if s.len() == 0 {
        0
    } else {
        value(s.drop_last()) * 10 + digit_value(s.last())
    }
}

/// `s` preceded by as many zeros as make it `width` characters long.
pub open spec fn pad_zeros(s: Seq<char>, width: nat) -> Seq<char> {
    if s.len() < width {
        Seq::new((width - s.len()) as nat, |i: int| '0') + s
    } else {
        s
    }
}

/// The digits of `s` with a comma between each group of three, counted from
/// the right.
pub open spec fn group_thousands(s: Seq<char>) -> Seq<char>
    decreases s.len(),
{
    if s.len() <= 3 {
        s
    } else {
        group_thousands(s.take(s.len() - 3)) + seq![','] + s.skip(s.len() - 3)
    }
}

/// `s` without its commas.
pub open spec fn strip_commas(s: Seq<char>) -> Seq<char>
    decreases s.len(),
{
    if s.len() == 0 {
        s
    } else if s.last() == ',' {
        strip_commas(s.drop_last())
    } else {
        strip_commas(s.drop_last()).push(s.last())
    }
}

/// The character of digit `d`.
pub fn digit_char(d: usize) -> (c: char)
    requires
        d < 10,
    ensures
        c == digit(d as nat),
{
    match d {
        0 => '0',
        1 => '1',
        2 => '2',
        3 => '3',
        4 => '4',
        5 => '5',
        6 => '6',
        7 => '7',
        8 => '8',
        _ => '9',
    }
}

/// The decimal digits of `n`.
pub fn decimal_chars(n: usize) -> (r: Vec<char>)
    ensures
        r@ == dec(n as nat),
    decreases n,
{
    if n < 10 {
        let mut r = Vec::new();
        r.push(digit_char(n));
        r
    } else {
        let mut r = decimal_chars(n / 10);
        r.push(digit_char(n % 10));
        r
    }
}

/// `n` written in decimal (as `format!("{}", n)` does).
pub fn decimal(n: usize) -> (r: String)
    ensures
        r@ == dec(n as nat),
{
    crate::text::string_of(&decimal_chars(n))
}

/// `n` written in decimal with leading zeros up to `width` characters (as
/// `format!("{:0width$}", n)` does).
pub fn zero_padded(n: usize, width: usize) -> (r: String)
    ensures
        r@ == pad_zeros(dec(n as nat), width as nat),
{
    let d = decimal_chars(n);
    let mut r = String::new();
    if d.len() < width {
        let k = width - d.len();
        let mut i: usize = 0;
        while i < k
            invariant
                i <= k,
                r@ == Seq::new(i as nat, |j: int| '0'),
            decreases k - i,
        {
            r.push('0');
            proof {
                assert(r@ =~= Seq::new((i + 1) as nat, |j: int| '0'));
            }
            i = i + 1;
        }
    }
    let ghost zeros = r@;
    let s = crate::text::string_of(&d);
    r.append(s.as_str());
    proof {
        if d.len() >= width {
            assert(zeros =~= Seq::<char>::empty());
            assert(r@ =~= d@);
        }
    }
    r
}

/// Groups the digits of `d` in threes from the right.
pub fn group_digits(d: &Vec<char>) -> (r: Vec<char>)
    ensures
        r@ == group_thousands(d@),
    decreases d.len(),
{
    let n = d.len();
    if n <= 3 {
        d.clone()
    } else {
        let mut head_src: Vec<char> = Vec::new();
        let mut i: usize = 0;
        while i < n - 3
            invariant
                n == d.len(),
                n > 3,
                i <= n - 3,
                head_src@ == d@.take(i as int),
            decreases n - 3 - i,
        {
            head_src.push(d[i]);
            proof {
                assert(d@.take(i + 1) == d@.take(i as int).push(d@[i as int]));
            }
            i = i + 1;
        }
        let mut r = group_digits(&head_src);
        r.push(',');
        let mut tail: Vec<char> = Vec::new();
        tail.push(d[n - 3]);
        tail.push(d[n - 2]);
        tail.push(d[n - 1]);
        proof {
            assert(tail@ =~= d@.skip(n - 3));
        }
        append_chars(&mut r, &tail);
        r
    }
}

/// `n` written in decimal with a comma between groups of three digits, such
/// as `1,234,567`.
pub fn format_count(n: usize) -> (r: String)
    ensures
        r@ == group_thousands(dec(n as nat)),
{
    crate::text::string_of(&group_digits(&decimal_chars(n)))
}

// ---------------------------------------------------------------------------
// Laws
// ---------------------------------------------------------------------------

proof fn lemma_digit_roundtrip(d: nat)
    requires
        d < 10,
    ensures
        digit_value(digit(d)) == d,
        is_digit(digit(d)),
{
}

/// The decimal representation of `n` is made of digits, has no leading zero
/// unless `n` is zero, and reads back as `n`.
pub proof fn lemma_dec_correct(n: nat)
    ensures
        value(dec(n)) == n,
        dec(n).len() >= 1,
        forall|i: int| 0 <= i < dec(n).len() ==> is_digit(#[trigger] dec(n)[i]),
        n > 0 ==> dec(n)[0] != '0',
    decreases n,
{
    if n < 10 {
        lemma_digit_roundtrip(n);
        assert(seq![digit(n)].drop_last() =~= Seq::<char>::empty());
        assert(value(dec(n)) == value(Seq::<char>::empty()) * 10 + digit_value(digit(n)));
    } else {
        lemma_dec_correct(n / 10);
        lemma_digit_roundtrip(n % 10);
        assert(dec(n).drop_last() =~= dec(n / 10));
        assert(dec(n)[0] == dec(n / 10)[0]);
        let q = n / 10;
        let v = value(dec(q));
        assert(v == q);
        assert(value(dec(n)) == v * 10 + digit_value(digit(n % 10)));
        assert(v * 10 == q * 10);
        assert(q * 10 + n % 10 == n) by (nonlinear_arith)
            requires
                q == n / 10,
        ;
    }
}

/// Grouping digits in threes only inserts commas: removing them gives the
/// digits back.
pub proof fn lemma_group_strip(s: Seq<char>)
    requires
        forall|i: int| 0 <= i < s.len() ==> #[trigger] s[i] != ',',
    ensures
        strip_commas(group_thousands(s)) == s,
    decreases s.len(),
{
    lemma_strip_no_commas(s);
    if s.len() > 3 {
        let h = s.take(s.len() - 3);
        let t = s.skip(s.len() - 3);
        lemma_group_strip(h);
        lemma_strip_append(group_thousands(h) + seq![','], t);
        lemma_strip_append(group_thousands(h), seq![',']);
        lemma_strip_no_commas(t);
        assert(strip_commas(seq![',']) =~= Seq::<char>::empty()) by {
            assert(seq![','].drop_last() =~= Seq::<char>::empty());
            reveal_with_fuel(strip_commas, 2);
        }
        assert(h + t =~= s);
    }
}

proof fn lemma_strip_no_commas(s: Seq<char>)
    requires
        forall|i: int| 0 <= i < s.len() ==> #[trigger] s[i] != ',',
    ensures
        strip_commas(s) == s,
    decreases s.len(),
{
    if s.len() > 0 {
        lemma_strip_no_commas(s.drop_last());
        assert(s.drop_last().push(s.last()) =~= s);
    }
}

proof fn lemma_strip_append(a: Seq<char>, b: Seq<char>)
    ensures
        strip_commas(a + b) == strip_commas(a) + strip_commas(b),
    decreases b.len(),
{
    if b.len() == 0 {
        assert(a + b =~= a);
        assert(strip_commas(a) + strip_commas(b) =~= strip_commas(a));
    } else {
        lemma_strip_append(a, b.drop_last());
        assert((a + b).drop_last() =~= a + b.drop_last());
        assert((a + b).last() == b.last());
        if b.last() == ',' {
        } else {
            assert(strip_commas(a) + strip_commas(b.drop_last()).push(b.last()) =~= (strip_commas(
                a,
            ) + strip_commas(b.drop_last())).push(b.last()));
        }
    }
}

/// Every group between two commas in a grouped count has exactly three
/// digits, and the first group has between one and three.
pub proof fn lemma_group_shape(s: Seq<char>)
    ensures
        group_thousands(s).len() == s.len() + (if s.len() == 0 { 0 } else { (s.len() - 1) / 3 }),
    decreases s.len(),
{
    if s.len() > 3 {
        lemma_group_shape(s.take(s.len() - 3));
    }
}

/// A formatted count, stripped of its commas, reads back as the count.
pub proof fn law_format_count_reads_back(n: nat)
    ensures
        value(strip_commas(group_thousands(dec(n)))) == n,
{
    lemma_dec_correct(n);
    assert forall|i: int| 0 <= i < dec(n).len() implies #[trigger] dec(n)[i] != ',' by {
        assert(is_digit(dec(n)[i]));
    }
    lemma_group_strip(dec(n));
}

} // verus!
