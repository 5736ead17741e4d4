//! Character-level text utilities: building strings, comparing them, trimming
//! Unicode white space, and rendering integers in decimal.

use vstd::prelude::*;

verus! {

/// Appends one character to a string (`String::push`): the view gains `c` at its end.
#[verifier::external_body]
pub(crate) fn string_push(s: &mut String, c: char)
    ensures
        final(s)@ == old(s)@.push(c),
{
    s.push(c);
}

/// A new string holding a copy of `s`.
pub fn owned(s: &str) -> (r: String)
    ensures
        r@ == s@,
{
    String::from_str(s)
}

/// Appends `t` to `s`.
pub fn push_str(s: &mut String, t: &str)
    ensures
        final(s)@ == old(s)@ + t@,
{
    s.append(t);
}

/// The characters of `s`, in order.
pub fn chars_of(s: &str) -> (r: Vec<char>)
    ensures
        r@ == s@,
{
    let n = s.unicode_len();
    let mut r: Vec<char> = Vec::new();
    let mut i: usize = 0;
    while i < n
        invariant
            n == s@.len(),
            i <= n,
            r@ == s@.subrange(0, i as int),
        decreases n - i,
    {
        r.push(s.get_char(i));
        i = i + 1;
    }
    r
}

/// Whether two strings hold the same characters.
pub fn str_eq(a: &str, b: &str) -> (r: bool)
    ensures
        r == (a@ == b@),
{
    let x = String::from_str(a);
    let y = String::from_str(b);
    x == y
}

/// Whether `s` begins with `prefix`.
pub fn starts_with(s: &str, prefix: &str) -> (r: bool)
    ensures
        r == (prefix@.len() <= s@.len() && s@.subrange(0, prefix@.len() as int) == prefix@),
{
    let p = chars_of(prefix);
    let n = s.unicode_len();
    if p.len() > n {
        return false;
    }
    let mut i: usize = 0;
    while i < p.len()
        invariant
            p@ == prefix@,
            n == s@.len(),
            p@.len() <= n,
            i <= p@.len(),
            forall|k: int| 0 <= k < i ==> s@[k] == p@[k],
        decreases p.len() - i,
    {
        if s.get_char(i) != p[i] {
            assert(s@.subrange(0, prefix@.len() as int)[i as int] != prefix@[i as int]);
            return false;
        }
        i = i + 1;
    }
    assert(s@.subrange(0, prefix@.len() as int) =~= prefix@);
    true
}

/// Unicode `White_Space`, the property that `char::is_whitespace` tests.
pub open spec fn is_white_space(c: char) -> bool {
    let u = c as u32;
    (0x9 <= u <= 0xd) || u == 0x20 || u == 0x85 || u == 0xa0 || u == 0x1680 || (0x2000 <= u
        <= 0x200a) || u == 0x2028 || u == 0x2029 || u == 0x202f || u == 0x205f || u == 0x3000
}

/// `s` without its leading white space.
pub open spec fn trim_start(s: Seq<char>) -> Seq<char>
    decreases s.len(),
{
    if s.len() > 0 && is_white_space(s[0]) {
        trim_start(s.drop_first())
    } else {
        s
    }
}

/// `s` without its trailing white space.
pub open spec fn trim_end(s: Seq<char>) -> Seq<char>
    decreases s.len(),
{
    if s.len() > 0 && is_white_space(s.last()) {
        trim_end(s.drop_last())
    } else {
        s
    }
}

/// `s` without leading and trailing white space.
pub open spec fn trimmed(s: Seq<char>) -> Seq<char> {
    trim_end(trim_start(s))
}

fn is_white_space_exec(c: char) -> (r: bool)
    ensures
        r == is_white_space(c),
{
    let u = c as u32;
    (0x9 <= u && u <= 0xd) || u == 0x20 || u == 0x85 || u == 0xa0 || u == 0x1680 || (0x2000 <= u
        && u <= 0x200a) || u == 0x2028 || u == 0x2029 || u == 0x202f || u == 0x205f || u
        == 0x3000
}

/// `s` with leading and trailing Unicode white space removed (`str::trim`).
pub fn trim(s: &str) -> (r: String)
    ensures
        r@ == trimmed(s@),
{
    let cs = chars_of(s);
    let n = cs.len();
    let mut i: usize = 0;
    assert(s@.subrange(0, n as int) =~= s@);
    while i < n && is_white_space_exec(cs[i])
        invariant
            cs@ == s@,
            n == cs@.len(),
            i <= n,
            trim_start(s@) == trim_start(s@.subrange(i as int, n as int)),
        decreases n - i,
    {
        assert(s@.subrange(i as int, n as int).drop_first() =~= s@.subrange(i + 1, n as int));
        i = i + 1;
    }
    assert(trim_start(s@) == s@.subrange(i as int, n as int));
    let ghost t = s@.subrange(i as int, n as int);
    let mut j: usize = n;
    while j > i && is_white_space_exec(cs[j - 1])
        invariant
            cs@ == s@,
            n == cs@.len(),
            i <= j <= n,
            t == s@.subrange(i as int, n as int),
            trim_end(t) == trim_end(s@.subrange(i as int, j as int)),
        decreases j - i,
    {
        assert(s@.subrange(i as int, j as int).drop_last() =~= s@.subrange(i as int, j - 1));
        j = j - 1;
    }
    assert(trim_end(t) == s@.subrange(i as int, j as int));
    let mut r = String::new();
    let mut k: usize = i;
    while k < j
        invariant
            cs@ == s@,
            i <= k <= j <= n,
            n == cs@.len(),
            r@ == s@.subrange(i as int, k as int),
        decreases j - k,
    {
        string_push(&mut r, cs[k]);
        assert(s@.subrange(i as int, k + 1) =~= s@.subrange(i as int, k as int).push(cs@[k as int]));
        k = k + 1;
    }
    r
}

} // verus!

verus! {

/// Trimming once is enough: a trimmed text trims to itself, and it neither
/// starts nor ends with white space.
pub proof fn lemma_trim_idempotent(s: Seq<char>)
    ensures
        trimmed(trimmed(s)) == trimmed(s),
        trimmed(s).len() > 0 ==> !is_white_space(trimmed(s)[0]) && !is_white_space(
            trimmed(s).last(),
        ),
{
    lemma_trim_start_facts(s);
    let x = trim_start(s);
    lemma_trim_end_facts(x);
    let y = trim_end(x);
    lemma_trim_start_facts(y);
    lemma_trim_end_facts(y);
    if y.len() > 0 {
        assert(y[0] == x[0]);
        assert(trim_start(y) == y);
    } else {
        assert(trim_start(y) == y);
    }
}

proof fn lemma_trim_start_facts(s: Seq<char>)
    ensures
        trim_start(s).len() == 0 || !is_white_space(trim_start(s)[0]),
        (s.len() == 0 || !is_white_space(s[0])) ==> trim_start(s) == s,
    decreases s.len(),
{
    if s.len() > 0 && is_white_space(s[0]) {
        lemma_trim_start_facts(s.drop_first());
    }
}

proof fn lemma_trim_end_facts(s: Seq<char>)
    ensures
        trim_end(s).len() <= s.len(),
        trim_end(s) == s.subrange(0, trim_end(s).len() as int),
        trim_end(s).len() > 0 ==> !is_white_space(trim_end(s).last()),
        trim_end(trim_end(s)) == trim_end(s),
    decreases s.len(),
{
    if s.len() > 0 && is_white_space(s.last()) {
        lemma_trim_end_facts(s.drop_last());
        assert(s.drop_last().subrange(0, trim_end(s).len() as int) =~= s.subrange(
            0,
            trim_end(s).len() as int,
        ));
    } else {
        assert(s.subrange(0, s.len() as int) =~= s);
    }
}

/// The decimal digit for `d` (below ten).
pub open spec fn digit_char(d: int) -> char {
    seq!['0', '1', '2', '3', '4', '5', '6', '7', '8', '9'][d]
}

/// The decimal digits of `n`, without sign or leading zeros.
pub open spec fn decimal_digits(n: nat) -> Seq<char>
    decreases n,
{
    if n < 10 {
        seq![digit_char(n as int)]
    } else {
        decimal_digits(n / 10).push(digit_char((n % 10) as int))
    }
}

/// `n` in decimal, with a leading `-` when it is negative (as `to_string` writes it).
pub open spec fn decimal(n: int) -> Seq<char> {
    if n < 0 {
        seq!['-'] + decimal_digits((-n) as nat)
    } else {
        decimal_digits(n as nat)
    }
}

/// The digits of `n`, with zeros in front up to `width` characters.
pub open spec fn zero_padded(n: nat, width: nat) -> Seq<char> {
    let d = decimal_digits(n);
    if d.len() < width {
        Seq::new((width - d.len()) as nat, |i: int| '0') + d
    } else {
        d
    }
}

fn digit(d: u128) -> (c: char)
    requires
        d < 10,
    ensures
        c == digit_char(d as int),
{
    if d == 0 {
        '0'
    } else if d == 1 {
        '1'
    } else if d == 2 {
        '2'
    } else if d == 3 {
        '3'
    } else if d == 4 {
        '4'
    } else if d == 5 {
        '5'
    } else if d == 6 {
        '6'
    } else if d == 7 {
        '7'
    } else if d == 8 {
        '8'
    } else {
        '9'
    }
}

/// Appends the decimal digits of `v` to `s`.
pub fn push_digits(s: &mut String, v: u128)
    ensures
        final(s)@ == old(s)@ + decimal_digits(v as nat),
    decreases v,
{
    if v >= 10 {
        push_digits(s, v / 10);
    }
    string_push(s, digit(v % 10));
    assert(final(s)@ =~= old(s)@ + decimal_digits(v as nat));
}

/// Appends `v` to `s`, padded with zeros in front to `width` characters.
pub fn push_zero_padded(s: &mut String, v: u128, width: usize)
    ensures
        final(s)@ == old(s)@ + zero_padded(v as nat, width as nat),
{
    let mut d = String::new();
    push_digits(&mut d, v);
    assert(d@ =~= decimal_digits(v as nat));
    let len = d.as_str().unicode_len();
    let ghost before = s@;
    let mut k: usize = len;
    while k < width
        invariant
            len <= k,
            k <= width || k == len,
            s@ == before + Seq::new((k - len) as nat, |i: int| '0'),
        decreases width - k,
    {
        string_push(s, '0');
        assert(before + Seq::new((k + 1 - len) as nat, |i: int| '0') =~= (before + Seq::new(
            (k - len) as nat,
            |i: int| '0',
        )).push('0'));
        k = k + 1;
    }
    s.append(d.as_str());
    if len < width {
        assert(final(s)@ =~= old(s)@ + zero_padded(v as nat, width as nat));
    } else {
        assert(Seq::new((k - len) as nat, |i: int| '0') =~= Seq::<char>::empty());
        assert(final(s)@ =~= old(s)@ + zero_padded(v as nat, width as nat));
    }
}

/// `v` in decimal.
pub fn decimal_u64(v: u64) -> (r: String)
    ensures
        r@ == decimal(v as int),
{
    let mut r = String::new();
    push_digits(&mut r, v as u128);
    assert(r@ =~= decimal(v as int));
    r
}

/// `v` in decimal, with a `-` in front when it is negative.
pub fn decimal_i64(v: i64) -> (r: String)
    ensures
        r@ == decimal(v as int),
{
    let mut r = String::new();
    if v < 0 {
        string_push(&mut r, '-');
        let m: i128 = -(v as i128);
        push_digits(&mut r, m as u128);
    } else {
        push_digits(&mut r, v as u128);
    }
    assert(r@ =~= decimal(v as int));
    r
}

} // verus!

verus! {

/// `n / d` rounded to the nearest whole number, a half to the even neighbour.
pub open spec fn round_half_even(n: int, d: int) -> int {
    let q = n / d;
    let r = n % d;
    if 2 * r > d || (2 * r == d && q % 2 == 1) {
        q + 1
    } else {
        q
    }
}

/// The number `num / den` (`den` positive) as `{:.2}` writes it: a `-` where it is
/// negative (also where it rounds to zero), the whole part, a point, and two decimals,
/// rounded to the nearest hundredth with a half going to the even hundredth.
pub open spec fn fixed2_text(num: int, den: int) -> Seq<char> {
    let m = if num < 0 {
        -num
    } else {
        num
    };
    let h = round_half_even(100 * m, den);
    (if num < 0 {
        seq!['-']
    } else {
        Seq::<char>::empty()
    }) + decimal_digits((h / 100) as nat) + seq!['.'] + zero_padded((h % 100) as nat, 2)
}

/// The two decimals of `m / d` by long division: the quotient and remainder of `100 * m`
/// come from those of `m`, digit by digit.
proof fn lemma_hundredths(m: int, d: int)
    requires
        d > 0,
        m >= 0,
    ensures
        ({
            let whole = m / d;
            let r = m % d;
            let d1 = (10 * r) / d;
            let r1 = (10 * r) % d;
            let d2 = (10 * r1) / d;
            let r2 = (10 * r1) % d;
            &&& 0 <= r < d
            &&& 0 <= r1 < d
            &&& 0 <= r2 < d
            &&& 0 <= d1 <= 9
            &&& 0 <= d2 <= 9
            &&& whole >= 0
            &&& (100 * m) / d == 100 * whole + 10 * d1 + d2
            &&& (100 * m) % d == r2
        }),
{
    let whole = m / d;
    let r = m % d;
    vstd::arithmetic::div_mod::lemma_fundamental_div_mod(m, d);
    vstd::arithmetic::div_mod::lemma_mod_pos_bound(m, d);
    vstd::arithmetic::div_mod::lemma_div_pos_is_pos(m, d);
    let d1 = (10 * r) / d;
    let r1 = (10 * r) % d;
    vstd::arithmetic::div_mod::lemma_fundamental_div_mod(10 * r, d);
    vstd::arithmetic::div_mod::lemma_mod_pos_bound(10 * r, d);
    let d2 = (10 * r1) / d;
    let r2 = (10 * r1) % d;
    vstd::arithmetic::div_mod::lemma_fundamental_div_mod(10 * r1, d);
    vstd::arithmetic::div_mod::lemma_mod_pos_bound(10 * r1, d);
    assert(100 * m == (100 * whole + 10 * d1 + d2) * d + r2) by (nonlinear_arith)
        requires
            m == d * whole + r,
            10 * r == d * d1 + r1,
            10 * r1 == d * d2 + r2,
    ;
    vstd::arithmetic::div_mod::lemma_fundamental_div_mod_converse(
        100 * m,
        d,
        100 * whole + 10 * d1 + d2,
        r2,
    );
    assert(0 <= d1 <= 9) by (nonlinear_arith)
        requires
            10 * r == d * d1 + r1,
            0 <= r < d,
            0 <= r1 < d,
    ;
    assert(0 <= d2 <= 9) by (nonlinear_arith)
        requires
            10 * r1 == d * d2 + r2,
            0 <= r1 < d,
            0 <= r2 < d,
    ;
}

/// An amount held in millionths of a unit, as `{:.2}` writes the amount in units.
pub open spec fn amount_text(micros: int) -> Seq<char> {
    fixed2_text(micros, 1_000_000)
}

/// Appends the number `num / den` as `{:.2}` writes it.
#[verifier::spinoff_prover]
pub fn push_fixed2(s: &mut String, num: i128, den: i128)
    requires
        0 < den <= 0x1000_0000_0000_0000_0000_0000_0000_0000,
    ensures
        final(s)@ == old(s)@ + fixed2_text(num as int, den as int),
{
    let ghost start = old(s)@;
    let m: u128 = if num < 0 {
        string_push(s, '-');
        let below: i128 = -(num + 1);
        (below as u128) + 1
    } else {
        num as u128
    };
    let ghost signed = s@;
    let d: u128 = den as u128;
    proof {
        lemma_hundredths(m as int, d as int);
    }
    let whole: u128 = m / d;
    let r: u128 = m % d;
    let d1: u128 = (10 * r) / d;
    let r1: u128 = (10 * r) % d;
    let d2: u128 = (10 * r1) / d;
    let r2: u128 = (10 * r1) % d;
    let mut h: u128 = 10 * d1 + d2;
    if 2 * r2 > d || (2 * r2 == d && h % 2 == 1) {
        h = h + 1;
    }
    let units: u128 = if h == 100 {
        whole + 1
    } else {
        whole
    };
    let rest: u128 = if h == 100 {
        0
    } else {
        h
    };
    proof {
        let q = (100 * m as int) / (d as int);
        assert(q % 2 == (10 * d1 + d2) % 2);
        assert(round_half_even(100 * m as int, d as int) == 100 * whole + h);
        vstd::arithmetic::div_mod::lemma_fundamental_div_mod_converse(
            100 * whole + h,
            100,
            units as int,
            rest as int,
        );
    }
    push_digits(s, units);
    string_push(s, '.');
    push_zero_padded(s, rest, 2);
    assert(final(s)@ =~= start + fixed2_text(num as int, den as int));
}

/// Appends an amount held in millionths of a unit, as `{:.2}` writes the amount in units.
pub fn push_amount(s: &mut String, micros: i128)
    ensures
        final(s)@ == old(s)@ + amount_text(micros as int),
{
    push_fixed2(s, micros, 1_000_000);
}

} // verus!

verus! {

/// `s` with every leading copy of `prefix` removed.
pub open spec fn strip_prefixes(s: Seq<char>, prefix: Seq<char>) -> Seq<char>
    decreases s.len(),
{
    if prefix.len() > 0 && prefix.len() <= s.len() && s.subrange(0, prefix.len() as int) == prefix {
        strip_prefixes(s.subrange(prefix.len() as int, s.len() as int), prefix)
    } else {
        s
    }
}

/// `s` with every leading copy of `prefix` removed (`str::trim_start_matches`).
pub fn trim_start_matches(s: &str, prefix: &str) -> (r: String)
    ensures
        r@ == strip_prefixes(s@, prefix@),
{
    let p = chars_of(prefix);
    if p.len() == 0 {
        return owned(s);
    }
    let cs = chars_of(s);
    let n = cs.len();
    let m = p.len();
    let mut i: usize = 0;
    assert(s@.subrange(0, n as int) =~= s@);
    loop
        invariant
            cs@ == s@,
            p@ == prefix@,
            n == s@.len(),
            m == prefix@.len(),
            m > 0,
            i <= n,
            strip_prefixes(s@, prefix@) == strip_prefixes(s@.subrange(i as int, n as int), prefix@),
        ensures
            i <= n,
            strip_prefixes(s@, prefix@) == s@.subrange(i as int, n as int),
        decreases n - i,
    {
        if m > n - i {
            break;
        }
        let mut k: usize = 0;
        let mut same = true;
        while k < m
            invariant
                cs@ == s@,
                p@ == prefix@,
                n == s@.len(),
                m == prefix@.len(),
                i + m <= n,
                k <= m,
                same == forall|j: int| 0 <= j < k ==> s@[i + j] == prefix@[j],
            decreases m - k,
        {
            if cs[i + k] != p[k] {
                same = false;
            }
            k = k + 1;
        }
        let ghost rest = s@.subrange(i as int, n as int);
        if same {
            assert(rest.subrange(0, m as int) =~= prefix@);
            assert(rest.subrange(m as int, rest.len() as int) =~= s@.subrange(i + m, n as int));
            i = i + m;
        } else {
            assert(rest.subrange(0, m as int) != prefix@) by {
                let j = choose|j: int| 0 <= j < m && s@[i + j] != prefix@[j];
                assert(rest.subrange(0, m as int)[j] == s@[i + j]);
            }
            break;
        }
    }
    let mut r = String::new();
    let mut k: usize = i;
    while k < n
        invariant
            cs@ == s@,
            n == s@.len(),
            i <= k <= n,
            r@ == s@.subrange(i as int, k as int),
        decreases n - k,
    {
        string_push(&mut r, cs[k]);
        assert(s@.subrange(i as int, k + 1) =~= s@.subrange(i as int, k as int).push(cs@[k as int]));
        k = k + 1;
    }
    r
}

/// Every copy of the prefix is gone: what remains does not begin with it.
pub proof fn lemma_strip_prefixes_done(s: Seq<char>, prefix: Seq<char>)
    requires
        prefix.len() > 0,
    ensures
        !(prefix.len() <= strip_prefixes(s, prefix).len() && strip_prefixes(s, prefix).subrange(
            0,
            prefix.len() as int,
        ) == prefix),
    decreases s.len(),
{
    if prefix.len() <= s.len() && s.subrange(0, prefix.len() as int) == prefix {
        lemma_strip_prefixes_done(s.subrange(prefix.len() as int, s.len() as int), prefix);
    }
}

/// What `str::to_uppercase` returns for a text.
pub uninterp spec fn std_uppercase(s: Seq<char>) -> Seq<char>;

/// `str::to_uppercase`: the text in upper case, by Unicode's case mapping. Its result is
/// named by `std_uppercase`; the contract states nothing more of it.
#[verifier::external_body]
pub(crate) fn to_uppercase(s: &str) -> (r: String)
    ensures
        r@ == std_uppercase(s@),
{
    s.to_uppercase()
}

} // verus!
