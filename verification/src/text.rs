use vstd::prelude::*;

verus! {

/// Whether two texts hold the same characters.
pub fn text_eq(a: &str, b: &str) -> (r: bool)
    ensures
        r == (a@ == b@),
{
    a.to_owned() == b.to_owned()
}

/// The texts of a list of strings.
pub open spec fn texts(v: Seq<String>) -> Seq<Seq<char>> {
    v.map_values(|s: String| s@)
}

/// A copy of a list of strings.
pub fn copy_texts(v: &Vec<String>) -> (r: Vec<String>)
    ensures
        texts(r@) == texts(v@),
{
    let mut out: Vec<String> = Vec::new();
    let mut i: usize = 0;
    while i < v.len()
        invariant
            i <= v.len(),
            out.len() == i,
            forall|j: int| 0 <= j < i ==> (#[trigger] out@[j])@ == v@[j]@,
        decreases v.len() - i,
    {
        out.push(v[i].clone());
        i = i + 1;
    }
    assert(texts(out@) =~= texts(v@));
    out
}

/// The character of decimal digit `d`.
pub open spec fn digit_char(d: nat) -> char {
    (d + 48) as char
}

/// The decimal digits of `n`, most significant first, without leading zeros.
pub open spec fn digits_of(n: nat) -> Seq<char>
    decreases n,
{
    if n < 10 {
        seq![digit_char(n)]
    } else {
        digits_of(n / 10).push(digit_char(n % 10))
    }
}

/// The decimal text of an integer, with a leading `-` when it is negative.
pub open spec fn decimal_text(n: int) -> Seq<char> {
    if n < 0 {
        seq!['-'] + digits_of((-n) as nat)
    } else {
        digits_of(n as nat)
    }
}

fn digit_str(d: u64) -> (r: &'static str)
    requires
        d < 10,
    ensures
        r@ == seq![digit_char(d as nat)],
{
    let table = "0123456789";
    proof {
        reveal_strlit("0123456789");
    }
    assert(table.is_ascii());
    table.substring_ascii(d as usize, (d + 1) as usize)
}

/// The decimal text of `n`, as `Display` prints an integer.
pub fn decimal_string(n: i64) -> (r: String)
    ensures
        r@ == decimal_text(n as int),
{
    let negative = n < 0;
    let magnitude: u64 = if negative {
        (-(n as i128)) as u64
    } else {
        n as u64
    };
    let ghost total = magnitude as nat;
    let mut rest: u64 = magnitude / 10;
    let mut acc = String::from_str(digit_str(magnitude % 10));
    while rest > 0
        invariant
            rest > 0 ==> digits_of(total) == digits_of(rest as nat) + acc@,
            rest == 0 ==> digits_of(total) == acc@,
        decreases rest,
    {
        let piece = String::from_str(digit_str(rest % 10));
        acc = piece.concat(acc.as_str());
        rest = rest / 10;
    }
    assert(digits_of(total) == acc@);
    if negative {
        proof {
            reveal_strlit("-");
        }
        assert(total == -(n as int));
        String::from_str("-").concat(acc.as_str())
    } else {
        acc
    }
}

/// The number that a sequence of decimal digits spells.
pub open spec fn digits_value(s: Seq<char>) -> int
    decreases s.len(),
{
    if s.len() == 0 {
        0
    } else {
        digits_value(s.drop_last()) * 10 + (s.last() as int - 48)
    }
}

proof fn lemma_digits_value(n: nat)
    ensures
        digits_value(digits_of(n)) == n,
        digits_of(n).len() > 0,
        '0' <= digits_of(n)[0] && digits_of(n)[0] <= '9',
        forall|i: int| 0 <= i < digits_of(n).len() ==> '0' <= #[trigger] digits_of(n)[i] && digits_of(n)[i] <= '9',
        n > 0 ==> digits_of(n)[0] != '0',
    decreases n,
{
    assert(digit_char(n % 10) as int == n % 10 + 48);
    if n >= 10 {
        lemma_digits_value(n / 10);
        let d = digits_of(n);
        assert(d.drop_last() == digits_of(n / 10));
        assert(d[0] == digits_of(n / 10)[0]);
        assert(d.last() == digit_char(n % 10));
        assert((n / 10) * 10 + n % 10 == n) by (nonlinear_arith);
        assert(digits_value(d) == digits_value(d.drop_last()) * 10 + (d.last() as int - 48));
    } else {
        assert(n % 10 == n);
        let d = digits_of(n);
        assert(d.drop_last().len() == 0);
        assert(digits_value(d) == digits_value(d.drop_last()) * 10 + (d.last() as int - 48));
    }
}

/// The decimal text of an integer spells it: decimal digits, most significant first and
/// without a leading zero, after a `-` when the integer is negative.
pub proof fn lemma_decimal_text_spells_number(n: int)
    ensures
        n >= 0 ==> digits_value(decimal_text(n)) == n,
        n < 0 ==> decimal_text(n)[0] == '-' && digits_value(decimal_text(n).drop_first()) == -n,
        forall|i: int|
            (if n < 0 { 1int } else { 0int }) <= i < decimal_text(n).len() ==> '0' <= #[trigger] decimal_text(n)[i]
                && decimal_text(n)[i] <= '9',
        decimal_text(n).len() > (if n < 0 { 1int } else { 0int }),
        decimal_text(n).len() > (if n < 0 { 2int } else { 1int }) ==> decimal_text(n)[if n < 0 { 1int } else { 0int }] != '0',
{
    if n < 0 {
        let d = digits_of((-n) as nat);
        lemma_digits_value((-n) as nat);
        assert(decimal_text(n).drop_first() == d);
        assert forall|i: int| 1 <= i < decimal_text(n).len() implies '0' <= #[trigger] decimal_text(n)[i]
            && decimal_text(n)[i] <= '9' by {
            assert(decimal_text(n)[i] == d[i - 1]);
        }
    } else {
        lemma_digits_value(n as nat);
    }
}

/// Different integers have different decimal texts.
pub proof fn lemma_decimal_text_injective(a: int, b: int)
    requires
        decimal_text(a) == decimal_text(b),
    ensures
        a == b,
{
    if a < 0 {
        lemma_digits_value((-a) as nat);
    } else {
        lemma_digits_value(a as nat);
    }
    if b < 0 {
        lemma_digits_value((-b) as nat);
    } else {
        lemma_digits_value(b as nat);
    }
    if a < 0 && b < 0 {
        assert(decimal_text(a).drop_first() == digits_of((-a) as nat));
        assert(decimal_text(b).drop_first() == digits_of((-b) as nat));
    } else if a < 0 {
        assert(decimal_text(a)[0] == '-');
        assert(decimal_text(b)[0] == digits_of(b as nat)[0]);
    } else if b < 0 {
        assert(decimal_text(b)[0] == '-');
        assert(decimal_text(a)[0] == digits_of(a as nat)[0]);
    }
}

} // verus!
