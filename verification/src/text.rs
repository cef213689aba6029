//! Text helpers: exact comparison, decimal rendering and money formatting.
use vstd::prelude::*;
use vstd::string::StringSliceAdditionalSpecFns;

verus! {

broadcast use vstd::utf8::encode_utf8_decode_utf8;

/// Whether two string slices hold the same characters.
pub fn same_text(a: &str, b: &str) -> (r: bool)
    ensures
        r == (a@ == b@),
{
    let x = a.as_bytes();
    let y = b.as_bytes();
    if x.len() != y.len() {
        proof {
            if a@ == b@ {
                assert(a.spec_bytes() == b.spec_bytes());
            }
        }
        return false;
    }
    let mut i: usize = 0;
    while i < x.len()
        invariant
            x@ == a.spec_bytes(),
            y@ == b.spec_bytes(),
            x@.len() == y@.len(),
            i <= x@.len(),
            forall|j: int| 0 <= j < i ==> x@[j] == y@[j],
        decreases x@.len() - i,
    {
        if x[i] != y[i] {
            proof {
                if a@ == b@ {
                    assert(a.spec_bytes() == b.spec_bytes());
                    assert(x@[i as int] == y@[i as int]);
                }
            }
            return false;
        }
        i = i + 1;
    }
    proof {
        assert(x@ =~= y@);
        assert(vstd::utf8::decode_utf8(vstd::utf8::encode_utf8(a@)) == a@);
        assert(vstd::utf8::decode_utf8(vstd::utf8::encode_utf8(b@)) == b@);
    }
    true
}

/// The character of a decimal digit.
pub open spec fn digit_char(d: nat) -> char {
    if d == 0 { '0' }
    else if d == 1 { '1' }
    else if d == 2 { '2' }
    else if d == 3 { '3' }
    else if d == 4 { '4' }
    else if d == 5 { '5' }
    else if d == 6 { '6' }
    else if d == 7 { '7' }
    else if d == 8 { '8' }
    else { '9' }
}

/// The decimal notation of a natural number, without leading zeros.
pub open spec fn decimal(n: nat) -> Seq<char>
    decreases n,
{
    if n < 10 {
        seq![digit_char(n)]
    } else {
        decimal(n / 10) + seq![digit_char(n % 10)]
    }
}

/// The number that a string of decimal digits denotes.
pub open spec fn digits_value(s: Seq<char>) -> int
    decreases s.len(),
{
    if s.len() == 0 {
        0
    } else {
        digits_value(s.drop_last()) * 10 + (s.last() as int - '0' as int)
    }
}

/// Whether every character of a text is a decimal digit.
pub open spec fn all_digits(s: Seq<char>) -> bool {
    forall|i: int| 0 <= i < s.len() ==> '0' <= #[trigger] s[i] && s[i] <= '9'
}

proof fn lemma_digit_char(d: nat)
    requires
        d < 10,
    ensures
        digit_char(d) as int - '0' as int == d,
        '0' <= digit_char(d) <= '9',
        (digit_char(d) == '0') == (d == 0),
{
}

/// Law: the decimal notation of a number is made of digits, denotes the
/// number, and starts with a zero only when the number is zero.
pub proof fn law_decimal_denotes(n: nat)
    ensures
        all_digits(decimal(n)),
        digits_value(decimal(n)) == n,
        decimal(n).len() >= 1,
        decimal(n)[0] == '0' ==> n == 0,
    decreases n,
{
    if n < 10 {
        lemma_digit_char(n);
        assert(decimal(n).drop_last() =~= Seq::<char>::empty());
        assert(digits_value(Seq::<char>::empty()) == 0);
        assert(decimal(n).last() == digit_char(n));
    } else {
        law_decimal_denotes(n / 10);
        lemma_digit_char(n % 10);
        let d = decimal(n);
        assert(d.drop_last() =~= decimal(n / 10));
        assert(d[0] == decimal(n / 10)[0]);
        assert(n / 10 != 0);
        assert(d.last() == digit_char(n % 10));
        assert((n / 10) * 10 + n % 10 == n) by (nonlinear_arith);
    }
}

/// Law: the four digits of a number below ten thousand denote it, and its
/// shortest decimals are those digits without their trailing zeros: a nonempty
/// prefix ending in a nonzero digit, followed in the four digits only by zeros.
pub proof fn law_fraction_digits(m: nat)
    requires
        0 < m < 10000,
    ensures
        four_digits(m).len() == 4,
        all_digits(four_digits(m)),
        digits_value(four_digits(m)) == m,
        ({
            let f = fraction_digits(m);
            &&& 1 <= f.len() <= 4
            &&& f == four_digits(m).take(f.len() as int)
            &&& f.last() != '0'
            &&& forall|i: int| f.len() <= i < 4 ==> #[trigger] four_digits(m)[i] == '0'
        }),
{
    let a = m / 1000;
    let b = (m / 100) % 10;
    let c = (m / 10) % 10;
    let d = m % 10;
    lemma_digit_char(a);
    lemma_digit_char(b);
    lemma_digit_char(c);
    lemma_digit_char(d);
    let s = four_digits(m);
    assert(s.drop_last().drop_last().drop_last().drop_last() =~= Seq::<char>::empty());
    assert(s.drop_last().drop_last().drop_last() =~= seq![digit_char(a)]);
    assert(s.drop_last().drop_last() =~= seq![digit_char(a), digit_char(b)]);
    assert(s.drop_last() =~= seq![digit_char(a), digit_char(b), digit_char(c)]);
    assert(digits_value(Seq::<char>::empty()) == 0);
    assert(digits_value(seq![digit_char(a)]) == a);
    assert(digits_value(seq![digit_char(a), digit_char(b)]) == a * 10 + b);
    assert(digits_value(seq![digit_char(a), digit_char(b), digit_char(c)]) == (a * 10 + b) * 10 + c);
    assert(digits_value(s) == ((a * 10 + b) * 10 + c) * 10 + d);
    assert(m == a * 1000 + b * 100 + c * 10 + d) by (nonlinear_arith)
        requires a == m / 1000, b == (m / 100) % 10, c == (m / 10) % 10, d == m % 10, m < 10000;
    assert(m % 1000 == 0 <==> b == 0 && c == 0 && d == 0) by (nonlinear_arith)
        requires b == (m / 100) % 10, c == (m / 10) % 10, d == m % 10, m < 10000;
    assert(m % 100 == 0 <==> c == 0 && d == 0) by (nonlinear_arith)
        requires c == (m / 10) % 10, d == m % 10;
    assert(m % 10 == 0 <==> d == 0);
    let f = fraction_digits(m);
    if m % 1000 == 0 {
        assert(a != 0);
        assert(f =~= s.take(1));
    } else if m % 100 == 0 {
        assert(f =~= s.take(2));
    } else if m % 10 == 0 {
        assert(f =~= s.take(3));
    } else {
        assert(f =~= s.take(4));
    }
}

fn digit_str(d: u128) -> (s: &'static str)
    requires
        d < 10,
    ensures
        s@ == seq![digit_char(d as nat)],
{
    proof {
        reveal_strlit("0");
        reveal_strlit("1");
        reveal_strlit("2");
        reveal_strlit("3");
        reveal_strlit("4");
        reveal_strlit("5");
        reveal_strlit("6");
        reveal_strlit("7");
        reveal_strlit("8");
        reveal_strlit("9");
    }
    if d == 0 { "0" }
    else if d == 1 { "1" }
    else if d == 2 { "2" }
    else if d == 3 { "3" }
    else if d == 4 { "4" }
    else if d == 5 { "5" }
    else if d == 6 { "6" }
    else if d == 7 { "7" }
    else if d == 8 { "8" }
    else { "9" }
}

/// Renders a number in decimal notation.
pub fn decimal_string(n: u128) -> (s: String)
    ensures
        s@ == decimal(n as nat),
    decreases n,
{
    if n < 10 {
        String::from_str(digit_str(n))
    } else {
        let mut s = decimal_string(n / 10);
        s.append(digit_str(n % 10));
        s
    }
}


/// Digits grouped by three from the right, groups joined by commas.
pub open spec fn group_thousands(d: Seq<char>) -> Seq<char>
    decreases d.len(),
{
    if d.len() <= 3 {
        d
    } else {
        group_thousands(d.take(d.len() - 3)) + seq![','] + d.skip(d.len() - 3)
    }
}

/// Whole dollars with thousands separators and a leading minus sign when negative.
pub open spec fn money_text(dollars: int) -> Seq<char> {
    if dollars < 0 {
        seq!['-'] + group_thousands(decimal((-dollars) as nat))
    } else {
        group_thousands(decimal(dollars as nat))
    }
}

/// The three digits of a number below one thousand, zero padded.
pub open spec fn three_digits(m: nat) -> Seq<char> {
    seq![digit_char(m / 100), digit_char((m / 10) % 10), digit_char(m % 10)]
}

proof fn lemma_decimal_length_small(n: nat)
    ensures
        n < 10 ==> decimal(n).len() == 1,
        n < 100 ==> decimal(n).len() <= 2,
        n < 1000 ==> decimal(n).len() <= 3,
        decimal(n).len() >= 1,
    decreases n,
{
    if n >= 10 {
        lemma_decimal_length_small(n / 10);
    }
}

proof fn lemma_decimal_thousands(n: nat)
    requires
        n >= 1000,
    ensures
        decimal(n) == decimal(n / 1000) + three_digits(n % 1000),
{
    let a = n / 10;
    let b = n / 100;
    let c = n / 1000;
    let m = n % 1000;
    assert(a / 10 == b) by (nonlinear_arith)
        requires a == n / 10, b == n / 100;
    assert(b / 10 == c) by (nonlinear_arith)
        requires b == n / 100, c == n / 1000;
    assert(a >= 100 && b >= 10) by (nonlinear_arith)
        requires a == n / 10, b == n / 100, n >= 1000;
    assert(m / 100 == b % 10) by (nonlinear_arith)
        requires m == n % 1000, b == n / 100;
    assert((m / 10) % 10 == a % 10) by (nonlinear_arith)
        requires m == n % 1000, a == n / 10;
    assert(m % 10 == n % 10) by (nonlinear_arith)
        requires m == n % 1000;
    assert(decimal(n) == decimal(a) + seq![digit_char(n % 10)]);
    assert(decimal(a) == decimal(b) + seq![digit_char(a % 10)]);
    assert(decimal(b) == decimal(c) + seq![digit_char(b % 10)]);
    assert(decimal(n) =~= decimal(c) + three_digits(m));
}

proof fn lemma_group_split(n: nat)
    requires
        n >= 1000,
    ensures
        group_thousands(decimal(n)) == group_thousands(decimal(n / 1000)) + seq![','] + three_digits(
            n % 1000,
        ),
{
    lemma_decimal_thousands(n);
    lemma_decimal_length_small(n / 1000);
    let d = decimal(n);
    let h = decimal(n / 1000);
    let t = three_digits(n % 1000);
    assert(d.take(d.len() - 3) =~= h);
    assert(d.skip(d.len() - 3) =~= t);
}

fn grouped_decimal(n: u64) -> (s: String)
    ensures
        s@ == group_thousands(decimal(n as nat)),
    decreases n,
{
    if n < 1000 {
        proof {
            lemma_decimal_length_small(n as nat);
        }
        decimal_string(n as u128)
    } else {
        let mut s = grouped_decimal(n / 1000);
        proof {
            reveal_strlit(",");
            lemma_group_split(n as nat);
        }
        let m: u64 = n % 1000;
        s.append(",");
        s.append(digit_str((m / 100) as u128));
        s.append(digit_str(((m / 10) % 10) as u128));
        s.append(digit_str((m % 10) as u128));
        proof {
            assert(s@ =~= group_thousands(decimal((n / 1000) as nat)) + seq![','] + three_digits(
                m as nat,
            ));
        }
        s
    }
}

/// Formats a whole-dollar amount with comma thousands separators, e.g. 1234567 as "1,234,567".
pub fn format_money(dollars: i64) -> (s: String)
    requires
        dollars != i64::MIN,
    ensures
        s@ == money_text(dollars as int),
{
    if dollars < 0 {
        proof {
            reveal_strlit("-");
        }
        let mut s = String::from_str("-");
        let digits = grouped_decimal((-dollars) as u64);
        s.append(digits.as_str());
        s
    } else {
        grouped_decimal(dollars as u64)
    }
}


/// The characters of a text other than commas, in order.
pub open spec fn without_commas(s: Seq<char>) -> Seq<char>
    decreases s.len(),
{
    if s.len() == 0 {
        s
    } else if s.last() == ',' {
        without_commas(s.drop_last())
    } else {
        without_commas(s.drop_last()).push(s.last())
    }
}

proof fn lemma_without_commas_concat(a: Seq<char>, b: Seq<char>)
    ensures
        without_commas(a + b) == without_commas(a) + without_commas(b),
    decreases b.len(),
{
    if b.len() == 0 {
        assert(a + b =~= a);
        assert(without_commas(a) + without_commas(b) =~= without_commas(a));
    } else {
        assert((a + b).drop_last() =~= a + b.drop_last());
        lemma_without_commas_concat(a, b.drop_last());
        if b.last() != ',' {
            assert(without_commas(a) + without_commas(b.drop_last()).push(b.last()) =~= (
            without_commas(a) + without_commas(b.drop_last())).push(b.last()));
        }
    }
}

proof fn lemma_decimal_has_no_commas(n: nat)
    ensures
        without_commas(decimal(n)) == decimal(n),
    decreases n,
{
    if n < 10 {
        let d = decimal(n);
        assert(d.drop_last() =~= Seq::<char>::empty());
        assert(without_commas(d.drop_last()).push(d.last()) =~= d);
    } else {
        lemma_decimal_has_no_commas(n / 10);
        let d = decimal(n);
        assert(d.drop_last() =~= decimal(n / 10));
        assert(decimal(n / 10).push(digit_char(n % 10)) =~= d);
    }
}

proof fn lemma_grouping_keeps_digits(d: Seq<char>)
    ensures
        without_commas(group_thousands(d)) == without_commas(d),
    decreases d.len(),
{
    if d.len() > 3 {
        let head = d.take(d.len() - 3);
        let tail = d.skip(d.len() - 3);
        lemma_grouping_keeps_digits(head);
        lemma_without_commas_concat(group_thousands(head) + seq![','], tail);
        lemma_without_commas_concat(group_thousands(head), seq![',']);
        let comma = seq![','];
        assert(comma.drop_last() =~= Seq::<char>::empty());
        assert(without_commas(Seq::<char>::empty()) =~= Seq::<char>::empty());
        assert(comma.last() == ',');
        assert(without_commas(comma) =~= Seq::<char>::empty());
        lemma_without_commas_concat(head, tail);
        assert(head + tail =~= d);
        assert(without_commas(group_thousands(head)) + Seq::<char>::empty() =~= without_commas(
            group_thousands(head),
        ));
    }
}

/// Law: grouping puts a comma at exactly every fourth place counted from the
/// end (so that each comma is followed by three digits) and nowhere in front:
/// a number of `l` digits gets `(l - 1) / 3` commas.
pub proof fn law_grouping_places_commas(d: Seq<char>)
    requires
        all_digits(d),
    ensures
        group_thousands(d).len() == d.len() + (if d.len() == 0 { 0 } else { (d.len() - 1) / 3 }),
        forall|i: int|
            0 <= i < group_thousands(d).len() ==> (#[trigger] group_thousands(d)[i] == ',' <==> (i
                > 0 && (group_thousands(d).len() - i) % 4 == 0)),
    decreases d.len(),
{
    let g = group_thousands(d);
    if d.len() <= 3 {
        assert forall|i: int| 0 <= i < g.len() implies (#[trigger] g[i] == ',' <==> (i > 0 && (
        g.len() - i) % 4 == 0)) by {
            assert('0' <= d[i] <= '9');
        }
    } else {
        let head = d.take(d.len() - 3);
        let tail = d.skip(d.len() - 3);
        assert(all_digits(head)) by {
            assert forall|i: int| 0 <= i < head.len() implies '0' <= #[trigger] head[i] && head[i]
                <= '9' by {
                assert(head[i] == d[i]);
            }
        }
        law_grouping_places_commas(head);
        let gh = group_thousands(head);
        assert(g == gh + seq![','] + tail);
        assert forall|i: int| 0 <= i < g.len() implies (#[trigger] g[i] == ',' <==> (i > 0 && (
        g.len() - i) % 4 == 0)) by {
            if i < gh.len() {
                assert(g[i] == gh[i]);
                assert((g.len() - i) % 4 == (gh.len() - i) % 4);
            } else if i > gh.len() {
                assert(g[i] == tail[i - gh.len() - 1]);
                assert(tail[i - gh.len() - 1] == d[d.len() - 3 + i - gh.len() - 1]);
                assert('0' <= d[d.len() - 3 + i - gh.len() - 1] <= '9');
            }
        }
    }
}

/// Law: the separators are all that formatting adds: without its commas, a
/// formatted amount is the amount's sign and its decimal digits.
pub proof fn lemma_money_text_digits(dollars: int)
    ensures
        without_commas(money_text(dollars)) == (if dollars < 0 {
            seq!['-'] + decimal((-dollars) as nat)
        } else {
            decimal(dollars as nat)
        }),
{
    let n: nat = if dollars < 0 {
        (-dollars) as nat
    } else {
        dollars as nat
    };
    lemma_grouping_keeps_digits(decimal(n));
    lemma_decimal_has_no_commas(n);
    if dollars < 0 {
        lemma_without_commas_concat(seq!['-'], group_thousands(decimal(n)));
        let m = seq!['-'];
        assert(m.drop_last() =~= Seq::<char>::empty());
        assert(without_commas(Seq::<char>::empty()) =~= Seq::<char>::empty());
        assert(m.last() == '-');
        assert(Seq::<char>::empty().push('-') =~= m);
        assert(without_commas(m) =~= m);
    }
}

/// Number of hundredths of a cent in one dollar: every amount of money in this
/// library is counted in hundredths of a cent.
pub const UNITS_PER_DOLLAR: u128 = 10000;

/// The four digits of a number below ten thousand, zero padded.
pub open spec fn four_digits(m: nat) -> Seq<char> {
    seq![
        digit_char(m / 1000),
        digit_char((m / 100) % 10),
        digit_char((m / 10) % 10),
        digit_char(m % 10),
    ]
}

/// An amount (in hundredths of a cent) as dollars with exactly four decimals, e.g. "0.0104".
pub open spec fn amount_fixed4(v: nat) -> Seq<char> {
    decimal(v / 10000) + seq!['.'] + four_digits(v % 10000)
}

/// The shortest decimals of a nonzero fraction of ten thousandths: the four
/// digits without their trailing zeros.
pub open spec fn fraction_digits(m: nat) -> Seq<char> {
    if m % 1000 == 0 {
        seq![digit_char(m / 1000)]
    } else if m % 100 == 0 {
        seq![digit_char(m / 1000), digit_char((m / 100) % 10)]
    } else if m % 10 == 0 {
        seq![digit_char(m / 1000), digit_char((m / 100) % 10), digit_char((m / 10) % 10)]
    } else {
        four_digits(m)
    }
}

/// An amount (in hundredths of a cent) as dollars in its shortest form, e.g. "0.08" or "3".
pub open spec fn amount_plain(v: nat) -> Seq<char> {
    if v % 10000 == 0 {
        decimal(v / 10000)
    } else {
        decimal(v / 10000) + seq!['.'] + fraction_digits(v % 10000)
    }
}

/// Renders an amount with exactly four decimals.
pub fn amount_fixed4_string(v: u128) -> (s: String)
    ensures
        s@ == amount_fixed4(v as nat),
{
    let mut s = decimal_string(v / 10000);
    let m: u128 = v % 10000;
    proof {
        reveal_strlit(".");
    }
    s.append(".");
    s.append(digit_str(m / 1000));
    s.append(digit_str((m / 100) % 10));
    s.append(digit_str((m / 10) % 10));
    s.append(digit_str(m % 10));
    proof {
        assert(s@ =~= amount_fixed4(v as nat));
    }
    s
}

/// Renders an amount in its shortest decimal form.
pub fn amount_plain_string(v: u128) -> (s: String)
    ensures
        s@ == amount_plain(v as nat),
{
    let mut s = decimal_string(v / 10000);
    let m: u128 = v % 10000;
    if m == 0 {
        return s;
    }
    proof {
        reveal_strlit(".");
    }
    s.append(".");
    s.append(digit_str(m / 1000));
    if m % 1000 != 0 {
        s.append(digit_str((m / 100) % 10));
        if m % 100 != 0 {
            s.append(digit_str((m / 10) % 10));
            if m % 10 != 0 {
                s.append(digit_str(m % 10));
            }
        }
    }
    proof {
        assert(s@ =~= amount_plain(v as nat));
    }
    s
}

} // verus!
