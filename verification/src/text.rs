//! Text helpers over `String`/`&str`, specified on their `Seq<char>` views.
//!
//! These follow the behaviour of the `str` methods that the diagnostics
//! rules are written with (`contains`, `starts_with`, `trim`,
//! `eq_ignore_ascii_case`, `parse::<u64>`, `replace`), stated exactly.

use vstd::prelude::*;

verus! {

// ---------------------------------------------------------------- digits

/// The character of a decimal digit.
pub open spec fn digit_char(d: nat) -> char {
    if d == 0 { '0' }
    else if d == 1 { '1' }
    else if d == 2 { '2' }
    else if d == 3 { '3' }
    else if d == 4 { '4' }
    else if d == 5 { '5' }
    else if d == 6 { '6' }
    else if d == 7 { '7' }
    else if d == 8 { '8' }
    else { '9' }
}

/// The decimal representation of `n`, without sign or leading zeros.
pub open spec fn decimal(n: nat) -> Seq<char>
    decreases n,
{
    if n < 10 {
        seq![digit_char(n)]
    } else {
        decimal(n / 10).push(digit_char(n % 10))
    }
}

/// `t` tenths written with one decimal place, as `{:.1}` prints `t / 10`.
pub open spec fn tenths(t: nat) -> Seq<char> {
    decimal(t / 10) + seq!['.', digit_char(t % 10)]
}

/// A signed number of tenths written with one decimal place.
pub open spec fn signed_tenths(t: int) -> Seq<char> {
    if t < 0 { seq!['-'] + tenths((-t) as nat) } else { tenths(t as nat) }
}

/// `h` hundredths written with two decimal places.
pub open spec fn hundredths(h: nat) -> Seq<char> {
    decimal(h / 100) + seq!['.', digit_char((h % 100) / 10), digit_char(h % 10)]
}

/// How `f64`'s `Display` shows a value that is a whole number of tenths:
/// no fractional part when it is whole, one decimal place otherwise.
pub open spec fn shortest_tenths(t: nat) -> Seq<char> {
    if t % 10 == 0 { decimal(t / 10) } else { tenths(t) }
}

// ---------------------------------------------------------------- rounding

/// `n / d` rounded to the nearest integer, halves away from zero
/// (what `f64::round` does on a non-negative quotient).
pub open spec fn div_round(n: nat, d: nat) -> nat
    recommends d > 0,
{
    (2 * n + d) / (2 * d)
}

/// `n / d` for a signed `n`, rounded to the nearest integer, halves away
/// from zero (what `f64::round` does).
pub open spec fn div_round_signed(n: int, d: nat) -> int
    recommends d > 0,
{
    if n >= 0 { div_round(n as nat, d) as int } else { -(div_round((-n) as nat, d) as int) }
}

/// `n / d` rounded to the nearest integer, halves to even
/// (what `{:.N}` formatting does on an exact tie).
pub open spec fn div_round_even(n: nat, d: nat) -> nat
    recommends d > 0,
{
    let q = n / d;
    let r = n % d;
    if 2 * r > d { q + 1 }
    else if 2 * r < d { q }
    else if q % 2 == 0 { q }
    else { q + 1 }
}

// ---------------------------------------------------------------- predicates

/// `p` occurs in `s` at position `i`.
pub open spec fn occurs_at(s: Seq<char>, p: Seq<char>, i: int) -> bool {
    0 <= i && i + p.len() <= s.len() && s.subrange(i, i + p.len()) == p
}

/// `s.contains(p)`.
pub open spec fn has_sub(s: Seq<char>, p: Seq<char>) -> bool {
    exists|i: int| occurs_at(s, p, i)
}

/// `s.starts_with(p)`.
pub open spec fn has_prefix(s: Seq<char>, p: Seq<char>) -> bool {
    occurs_at(s, p, 0)
}

/// `s.ends_with(p)`.
pub open spec fn has_suffix(s: Seq<char>, p: Seq<char>) -> bool {
    p.len() <= s.len() && occurs_at(s, p, s.len() - p.len())
}

/// `char::is_whitespace`: the Unicode `White_Space` characters.
pub open spec fn is_space(c: char) -> bool {
    let u = c as u32;
    (9 <= u && u <= 13) || u == 32 || u == 0x85 || u == 0xA0 || u == 0x1680
        || (0x2000 <= u && u <= 0x200A) || u == 0x2028 || u == 0x2029
        || u == 0x202F || u == 0x205F || u == 0x3000
}

/// What a trimming step removes: white space, or one given character.
pub open spec fn trims(c: char, by_space: bool, t: char) -> bool {
    if by_space { is_space(c) } else { c == t }
}

/// `s` with the leading characters that `trims` selects removed.
pub open spec fn strip_start(s: Seq<char>, by_space: bool, t: char) -> Seq<char>
    decreases s.len(),
{
    if s.len() > 0 && trims(s[0], by_space, t) {
        strip_start(s.drop_first(), by_space, t)
    } else {
        s
    }
}

/// `s` with the trailing characters that `trims` selects removed.
pub open spec fn strip_end(s: Seq<char>, by_space: bool, t: char) -> Seq<char>
    decreases s.len(),
{
    if s.len() > 0 && trims(s.last(), by_space, t) {
        strip_end(s.drop_last(), by_space, t)
    } else {
        s
    }
}

/// `str::trim` (by_space) or `str::trim_matches(t)`.
pub open spec fn trimmed(s: Seq<char>, by_space: bool, t: char) -> Seq<char> {
    strip_end(strip_start(s, by_space, t), by_space, t)
}

/// `str::trim`.
pub open spec fn trim(s: Seq<char>) -> Seq<char> {
    trimmed(s, true, ' ')
}

/// `char::to_ascii_lowercase`.
pub open spec fn ascii_lower(c: char) -> char {
    if 'A' <= c && c <= 'Z' { ((c as u32) + 32) as char } else { c }
}

/// `char::to_ascii_uppercase`.
pub open spec fn ascii_upper(c: char) -> char {
    if 'a' <= c && c <= 'z' { ((c as u32) - 32) as char } else { c }
}

/// Every character is ASCII (`str::is_ascii`).
pub open spec fn is_ascii_text(s: Seq<char>) -> bool {
    forall|i: int| 0 <= i < s.len() ==> (#[trigger] s[i] as u32) < 128
}

/// `str::to_ascii_lowercase`.
pub open spec fn ascii_lowercase(s: Seq<char>) -> Seq<char> {
    s.map_values(|c: char| ascii_lower(c))
}

/// `str::to_ascii_uppercase`.
pub open spec fn ascii_uppercase(s: Seq<char>) -> Seq<char> {
    s.map_values(|c: char| ascii_upper(c))
}

/// ASCII case changes keep a text ASCII, and lower-casing after either of
/// them gives the text's lower-case form.
pub proof fn lemma_ascii_case_round_trip(s: Seq<char>)
    requires
        is_ascii_text(s),
    ensures
        is_ascii_text(ascii_lowercase(s)),
        is_ascii_text(ascii_uppercase(s)),
        ascii_lowercase(ascii_lowercase(s)) == ascii_lowercase(s),
        ascii_lowercase(ascii_uppercase(s)) == ascii_lowercase(s),
{
    assert forall|i: int| 0 <= i < s.len() implies
        (#[trigger] ascii_lowercase(s)[i] as u32) < 128 && (ascii_uppercase(s)[i] as u32) < 128
        && ascii_lower(ascii_lower(s[i])) == ascii_lower(s[i])
        && ascii_lower(ascii_upper(s[i])) == ascii_lower(s[i]) by {
        let c = s[i];
        assert((c as u32) < 128);
    }
    assert(ascii_lowercase(ascii_lowercase(s)) =~= ascii_lowercase(s));
    assert(ascii_lowercase(ascii_uppercase(s)) =~= ascii_lowercase(s));
}

/// `str::eq_ignore_ascii_case`.
pub open spec fn eq_ignore_case(a: Seq<char>, b: Seq<char>) -> bool {
    a.len() == b.len() && forall|i: int| 0 <= i < a.len() ==> ascii_lower(a[i]) == ascii_lower(b[i])
}

/// The value of a digit character.
pub open spec fn digit_value(c: char) -> nat {
    ((c as u32) - ('0' as u32)) as nat
}

pub open spec fn is_digit(c: char) -> bool {
    '0' <= c && c <= '9'
}

/// The value of a string of decimal digits.
pub open spec fn digits_value(s: Seq<char>) -> nat
    decreases s.len(),
{
    if s.len() == 0 { 0 } else { digits_value(s.drop_last()) * 10 + digit_value(s.last()) }
}

/// The digits of an unsigned integer literal as `u64::from_str` reads it:
/// an optional leading `+`.
pub open spec fn unsigned_digits(s: Seq<char>) -> Seq<char> {
    if s.len() > 0 && s[0] == '+' { s.drop_first() } else { s }
}

/// The text is a well-formed unsigned literal (`u64::from_str` grammar).
pub open spec fn is_unsigned_literal(s: Seq<char>) -> bool {
    let d = unsigned_digits(s);
    d.len() > 0 && forall|i: int| 0 <= i < d.len() ==> is_digit(d[i])
}

/// `s.parse::<u64>().ok()` written over the unbounded value, with `max` the
/// type's largest value.
pub open spec fn parse_unsigned(s: Seq<char>, max: nat) -> Option<nat> {
    if is_unsigned_literal(s) && digits_value(unsigned_digits(s)) <= max {
        Some(digits_value(unsigned_digits(s)))
    } else {
        None
    }
}

/// `s.replace(p, r)` for a non-empty pattern `p`: occurrences are found from
/// the left and do not overlap.
pub open spec fn replace_all(s: Seq<char>, p: Seq<char>, r: Seq<char>) -> Seq<char>
    decreases s.len(),
{
    if p.len() == 0 || s.len() == 0 {
        s
    } else if has_prefix(s, p) {
        r + replace_all(s.skip(p.len() as int), p, r)
    } else {
        seq![s[0]] + replace_all(s.drop_first(), p, r)
    }
}

// ---------------------------------------------------------------- outside names

/// What `str::to_lowercase` returns (Unicode case mapping).
pub uninterp spec fn lowercase(s: Seq<char>) -> Seq<char>;

/// What `str::to_uppercase` returns (Unicode case mapping).
pub uninterp spec fn uppercase(s: Seq<char>) -> Seq<char>;

/// What `String::from_utf8_lossy` returns for a byte string.
pub uninterp spec fn utf8_lossy(b: Seq<u8>) -> Seq<char>;

// ---------------------------------------------------------------- trusted std calls

/// The character of a decimal digit.
fn digit_of(d: u64) -> (c: char)
    requires
        d < 10,
    ensures
        c == digit_char(d as nat),
{
    if d == 0 { '0' }
    else if d == 1 { '1' }
    else if d == 2 { '2' }
    else if d == 3 { '3' }
    else if d == 4 { '4' }
    else if d == 5 { '5' }
    else if d == 6 { '6' }
    else if d == 7 { '7' }
    else if d == 8 { '8' }
    else { '9' }
}

/// The decimal digits of `n`, as `u64::to_string` writes them.
pub(crate) fn u64_text(n: u64) -> (s: String)
    ensures
        s@ == decimal(n as nat),
    decreases n,
{
    if n < 10 {
        let mut s = String::new();
        push_char(&mut s, digit_of(n));
        assert(s@ =~= seq![digit_char(n as nat)]);
        s
    } else {
        let mut s = u64_text(n / 10);
        push_char(&mut s, digit_of(n % 10));
        s
    }
}

/// `String::push`: appends one character.
#[verifier::external_body]
pub(crate) fn push_char(s: &mut String, c: char)
    ensures
        final(s)@ == old(s)@.push(c),
{
    s.push(c)
}

/// `str::to_lowercase`: Unicode lower-casing, a function of the text alone;
/// on ASCII text it maps each character as `char::to_ascii_lowercase` does
/// (the Unicode lower case of an ASCII letter is its ASCII lower case).
#[verifier::external_body]
pub(crate) fn to_lower(s: &str) -> (r: String)
    ensures
        r@ == lowercase(s@),
        is_ascii_text(s@) ==> r@ == ascii_lowercase(s@),
{
    s.to_lowercase()
}

/// `str::to_uppercase`: Unicode upper-casing, a function of the text alone;
/// on ASCII text it maps each character as `char::to_ascii_uppercase` does.
#[verifier::external_body]
pub(crate) fn to_upper(s: &str) -> (r: String)
    ensures
        r@ == uppercase(s@),
        is_ascii_text(s@) ==> r@ == ascii_uppercase(s@),
{
    s.to_uppercase()
}

/// `String::from_utf8_lossy`: decodes UTF-8, replacing invalid sequences
/// with U+FFFD; a function of the bytes alone.
#[verifier::external_body]
pub(crate) fn utf8_lossy_text(b: &[u8]) -> (r: String)
    ensures
        r@ == utf8_lossy(b@),
{
    String::from_utf8_lossy(b).to_string()
}

// ---------------------------------------------------------------- building

/// A `String` holding the given literal.
pub fn lit(s: &str) -> (r: String)
    ensures
        r@ == s@,
{
    String::from_str(s)
}

/// `a` followed by `b`.
pub fn cat(a: String, b: &str) -> (r: String)
    ensures
        r@ == a@ + b@,
{
    a.concat(b)
}

/// The characters of a string.
pub fn chars_of(s: &str) -> (v: Vec<char>)
    ensures
        v@ == s@,
{
    let n = s.unicode_len();
    let mut v: Vec<char> = Vec::new();
    let mut i: usize = 0;
    while i < n
        invariant
            n == s@.len(),
            i <= n,
            v@ == s@.subrange(0, i as int),
        decreases n - i,
    {
        v.push(s.get_char(i));
        i = i + 1;
    }
    v
}

/// A string made of the characters `v[from..to]`.
pub fn string_of(v: &Vec<char>, from: usize, to: usize) -> (s: String)
    requires
        from <= to <= v@.len(),
    ensures
        s@ == v@.subrange(from as int, to as int),
{
    let mut s = String::new();
    let mut i = from;
    while i < to
        invariant
            from <= i <= to,
            to <= v@.len(),
            s@ == v@.subrange(from as int, i as int),
        decreases to - i,
    {
        push_char(&mut s, v[i]);
        i = i + 1;
    }
    s
}

/// Decimal text of `n` (`{}` on an unsigned integer).
pub fn num(n: u64) -> (s: String)
    ensures
        s@ == decimal(n as nat),
{
    u64_text(n)
}

/// Decimal text of a count (`{}` on a `usize`).
pub fn num_usize(n: usize) -> (s: String)
    ensures
        s@ == decimal(n as nat),
{
    u64_text(n as u64)
}

proof fn lemma_decimal_small(d: nat)
    requires
        d < 10,
    ensures
        decimal(d) == seq![digit_char(d)],
{
}

/// `t` tenths rendered as `{:.1}` renders `t / 10`.
pub fn tenths_text(t: u64) -> (s: String)
    ensures
        s@ == tenths(t as nat),
{
    let whole = u64_text(t / 10);
    let mut s = cat(whole, ".");
    let d = u64_text(t % 10);
    proof {
        lemma_decimal_small((t % 10) as nat);
        reveal_strlit(".");
    }
    s = cat(s, d.as_str());
    assert(s@ =~= tenths(t as nat));
    s
}

/// A signed number of tenths rendered with one decimal place.
pub fn signed_tenths_text(t: i64) -> (s: String)
    ensures
        s@ == signed_tenths(t as int),
{
    if t < 0 {
        let m: u64 = if t == i64::MIN { 9223372036854775808u64 } else { (-t) as u64 };
        let body = tenths_text(m);
        proof { reveal_strlit("-"); }
        let r = cat(lit("-"), body.as_str());
        assert(r@ =~= signed_tenths(t as int));
        r
    } else {
        tenths_text(t as u64)
    }
}

/// `h` hundredths rendered with two decimal places.
pub fn hundredths_text(h: u64) -> (s: String)
    ensures
        s@ == hundredths(h as nat),
{
    let whole = u64_text(h / 100);
    let s = cat(whole, ".");
    let d1 = u64_text((h % 100) / 10);
    let d2 = u64_text(h % 10);
    proof {
        lemma_decimal_small(((h % 100) / 10) as nat);
        lemma_decimal_small((h % 10) as nat);
        reveal_strlit(".");
    }
    let s = cat(s, d1.as_str());
    let s = cat(s, d2.as_str());
    assert(s@ =~= hundredths(h as nat));
    s
}

/// A whole number of tenths as `f64`'s `Display` shows it.
pub fn shortest_tenths_text(t: u64) -> (s: String)
    ensures
        s@ == shortest_tenths(t as nat),
{
    if t % 10 == 0 { u64_text(t / 10) } else { tenths_text(t) }
}

/// Exact `n / d` rounded half away from zero.
pub fn round_div(n: u64, d: u64) -> (r: u64)
    requires
        d > 0,
    ensures
        r == div_round(n as nat, d as nat),
{
    let r = (2 * (n as u128) + d as u128) / (2 * d as u128);
    assert(r <= n) by (nonlinear_arith)
        requires
            r == (2 * (n as int) + d as int) / (2 * d as int),
            d >= 1,
    ;
    r as u64
}

/// Exact `n / d` rounded half away from zero, on wide integers.
pub fn round_div_u128(n: u128, d: u128) -> (r: u128)
    requires
        d > 0,
        n <= u128::MAX / 4,
        d <= u128::MAX / 4,
    ensures
        r == div_round(n as nat, d as nat),
{
    (2 * n + d) / (2 * d)
}

/// Exact signed `n / d` rounded half away from zero.
pub fn round_div_signed(n: i64, d: u64) -> (r: i64)
    requires
        d > 0,
    ensures
        r == div_round_signed(n as int, d as nat),
{
    if n >= 0 {
        let q = round_div(n as u64, d);
        assert(q <= n) by (nonlinear_arith)
            requires q == (2 * (n as int) + d as int) / (2 * d as int), d >= 1, n >= 0;
        q as i64
    } else {
        let m: u64 = if n == i64::MIN { 9223372036854775808u64 } else { (-n) as u64 };
        let q = round_div(m, d);
        assert(q <= m) by (nonlinear_arith)
            requires q == (2 * (m as int) + d as int) / (2 * d as int), d >= 1;
        assert(m <= 9223372036854775808);
        if q == 9223372036854775808u64 { i64::MIN } else { -(q as i64) }
    }
}

/// Exact `n / d` rounded half to even.
pub fn round_div_even(n: u64, d: u64) -> (r: u64)
    requires
        d > 0,
    ensures
        r == div_round_even(n as nat, d as nat),
{
    let q = n / d;
    let rem = n % d;
    let twice = 2 * (rem as u128);
    if twice > d as u128 {
        assert(q < n || n == 0 || q + 1 <= n) by (nonlinear_arith)
            requires q == n / d, d >= 1, rem == n % d, 2 * rem > d;
        q + 1
    } else if twice < d as u128 {
        q
    } else if q % 2 == 0 {
        q
    } else {
        assert(q + 1 <= n) by (nonlinear_arith)
            requires q == n / d, d >= 1, rem == n % d, 2 * rem == d, q % 2 == 1;
        q + 1
    }
}

// ---------------------------------------------------------------- searching

/// `s.contains(p)`.
pub fn contains(s: &str, p: &str) -> (b: bool)
    ensures
        b == has_sub(s@, p@),
{
    let sv = chars_of(s);
    let pv = chars_of(p);
    vec_contains(&sv, &pv)
}

/// Does `p` occur in `s` at `i`?
pub fn matches_at(s: &Vec<char>, p: &Vec<char>, i: usize) -> (b: bool)
    ensures
        b == occurs_at(s@, p@, i as int),
{
    if i > s.len() || p.len() > s.len() - i {
        return false;
    }
    let mut k: usize = 0;
    while k < p.len()
        invariant
            i + p@.len() <= s@.len(),
            s@.len() == s.len(),
            k <= p@.len(),
            forall|j: int| 0 <= j < k ==> s@[i + j] == p@[j],
        decreases p@.len() - k,
    {
        if s[i + k] != p[k] {
            assert(s@.subrange(i as int, i + p@.len())[k as int] != p@[k as int]);
            return false;
        }
        k = k + 1;
    }
    assert(s@.subrange(i as int, i + p@.len()) =~= p@);
    true
}

/// `p` occurs somewhere in `s`.
pub fn vec_contains(s: &Vec<char>, p: &Vec<char>) -> (b: bool)
    ensures
        b == has_sub(s@, p@),
{
    if p.len() > s.len() {
        assert forall|i: int| !occurs_at(s@, p@, i) by {}
        return false;
    }
    if p.len() == 0 {
        assert(s@.subrange(0, 0) =~= p@);
        assert(occurs_at(s@, p@, 0));
        return true;
    }
    let last = s.len() - p.len();
    let mut i: usize = 0;
    while i <= last
        invariant
            last == s@.len() - p@.len(),
            s@.len() == s.len(),
            p@.len() > 0,
            i <= last + 1,
            forall|j: int| 0 <= j < i ==> !occurs_at(s@, p@, j),
        decreases last + 1 - i,
    {
        if matches_at(s, p, i) {
            return true;
        }
        i = i + 1;
    }
    assert forall|j: int| !occurs_at(s@, p@, j) by {
        if 0 <= j < i {
        }
    }
    false
}

/// `s.starts_with(p)`.
pub fn starts_with(s: &str, p: &str) -> (b: bool)
    ensures
        b == has_prefix(s@, p@),
{
    let sv = chars_of(s);
    let pv = chars_of(p);
    matches_at(&sv, &pv, 0)
}

/// `s.ends_with(p)`.
pub fn ends_with(s: &str, p: &str) -> (b: bool)
    ensures
        b == has_suffix(s@, p@),
{
    let sv = chars_of(s);
    let pv = chars_of(p);
    if pv.len() > sv.len() {
        false
    } else {
        matches_at(&sv, &pv, sv.len() - pv.len())
    }
}

/// Equality of two strings.
pub fn same_text(a: &str, b: &str) -> (r: bool)
    ensures
        r == (a@ == b@),
{
    let av = chars_of(a);
    let bv = chars_of(b);
    if av.len() != bv.len() {
        return false;
    }
    let mut i: usize = 0;
    while i < av.len()
        invariant
            av@ == a@,
            bv@ == b@,
            av@.len() == bv@.len(),
            i <= av@.len(),
            forall|j: int| 0 <= j < i ==> av@[j] == bv@[j],
        decreases av@.len() - i,
    {
        if av[i] != bv[i] {
            assert(av@[i as int] != bv@[i as int]);
            return false;
        }
        i = i + 1;
    }
    assert(av@ =~= bv@);
    true
}

/// `char::to_ascii_lowercase`.
pub fn lower_char(c: char) -> (r: char)
    ensures
        r == ascii_lower(c),
{
    if 'A' <= c && c <= 'Z' {
        let u = ((c as u32) + 32) as u8;
        u as char
    } else {
        c
    }
}

/// `a.eq_ignore_ascii_case(b)`.
pub fn eq_ignore_ascii_case(a: &str, b: &str) -> (r: bool)
    ensures
        r == eq_ignore_case(a@, b@),
{
    let av = chars_of(a);
    let bv = chars_of(b);
    if av.len() != bv.len() {
        return false;
    }
    let mut i: usize = 0;
    while i < av.len()
        invariant
            av@ == a@,
            bv@ == b@,
            av@.len() == bv@.len(),
            i <= av@.len(),
            forall|j: int| 0 <= j < i ==> ascii_lower(av@[j]) == ascii_lower(bv@[j]),
        decreases av@.len() - i,
    {
        if lower_char(av[i]) != lower_char(bv[i]) {
            assert(ascii_lower(a@[i as int]) != ascii_lower(b@[i as int]));
            return false;
        }
        i = i + 1;
    }
    true
}

// ---------------------------------------------------------------- trimming

proof fn lemma_strip_start_step(s: Seq<char>, i: int, by_space: bool, t: char)
    requires
        0 <= i < s.len(),
        trims(s[i], by_space, t),
    ensures
        strip_start(s.subrange(i, s.len() as int), by_space, t)
            == strip_start(s.subrange(i + 1, s.len() as int), by_space, t),
{
    assert(s.subrange(i, s.len() as int).drop_first() =~= s.subrange(i + 1, s.len() as int));
}

proof fn lemma_strip_end_step(s: Seq<char>, j: int, by_space: bool, t: char)
    requires
        0 < j <= s.len(),
        trims(s[j - 1], by_space, t),
    ensures
        strip_end(s.subrange(0, j), by_space, t) == strip_end(s.subrange(0, j - 1), by_space, t),
{
    assert(s.subrange(0, j).drop_last() =~= s.subrange(0, j - 1));
}

/// The index of the first character that the trimming step keeps.
fn first_kept(v: &Vec<char>, by_space: bool, t: char) -> (i: usize)
    ensures
        i <= v@.len(),
        strip_start(v@, by_space, t) == v@.subrange(i as int, v@.len() as int),
{
    let n = v.len();
    let mut i: usize = 0;
    assert(v@.subrange(0, n as int) =~= v@);
    while i < n && trim_char_test(v[i], by_space, t)
        invariant
            n == v@.len(),
            i <= n,
            strip_start(v@, by_space, t) == strip_start(v@.subrange(i as int, n as int), by_space, t),
        decreases n - i,
    {
        proof { lemma_strip_start_step(v@, i as int, by_space, t); }
        i = i + 1;
    }
    i
}

/// The end of what the trimming step keeps of `v[i..]`.
fn last_kept(v: &Vec<char>, i: usize, by_space: bool, t: char) -> (j: usize)
    requires
        i <= v@.len(),
    ensures
        i <= j <= v@.len(),
        strip_end(v@.subrange(i as int, v@.len() as int), by_space, t) == v@.subrange(i as int, j as int),
{
    let n = v.len();
    let ghost front = v@.subrange(i as int, n as int);
    let mut j: usize = n;
    assert(front.subrange(0, (j - i) as int) =~= front);
    while j > i && trim_char_test(v[j - 1], by_space, t)
        invariant
            n == v@.len(),
            i <= j <= n,
            front == v@.subrange(i as int, n as int),
            strip_end(front, by_space, t) == strip_end(front.subrange(0, (j - i) as int), by_space, t),
        decreases j - i,
    {
        proof {
            assert(front[(j - i) - 1] == v@[j - 1]);
            lemma_strip_end_step(front, (j - i) as int, by_space, t);
        }
        j = j - 1;
    }
    assert(front.subrange(0, (j - i) as int) =~= v@.subrange(i as int, j as int));
    j
}

/// Trims the characters selected by `trims(_, by_space, t)` from both ends.
pub fn trim_by(s: &str, by_space: bool, t: char) -> (r: String)
    ensures
        r@ == trimmed(s@, by_space, t),
{
    let v = chars_of(s);
    let i = first_kept(&v, by_space, t);
    let j = last_kept(&v, i, by_space, t);
    string_of(&v, i, j)
}

/// Does a trimming step remove `c`?
pub fn trim_char_test(c: char, by_space: bool, t: char) -> (b: bool)
    ensures
        b == trims(c, by_space, t),
{
    if by_space {
        let u = c as u32;
        (9 <= u && u <= 13) || u == 32 || u == 0x85 || u == 0xA0 || u == 0x1680
            || (0x2000 <= u && u <= 0x200A) || u == 0x2028 || u == 0x2029
            || u == 0x202F || u == 0x205F || u == 0x3000
    } else {
        c == t
    }
}

/// `s.trim()`.
pub fn trim_text(s: &str) -> (r: String)
    ensures
        r@ == trim(s@),
{
    trim_by(s, true, ' ')
}

// ---------------------------------------------------------------- parsing

proof fn lemma_digits_value_monotone(s: Seq<char>, i: int, j: int)
    requires
        0 <= i <= j <= s.len(),
    ensures
        digits_value(s.subrange(0, i)) <= digits_value(s.subrange(0, j)),
    decreases j - i,
{
    if i < j {
        lemma_digits_value_monotone(s, i, j - 1);
        assert(s.subrange(0, j).drop_last() =~= s.subrange(0, j - 1));
    }
}

/// `s.parse::<u64>().ok()`.
pub fn parse_u64(s: &str) -> (r: Option<u64>)
    ensures
        r matches Some(v) ==> parse_unsigned(s@, u64::MAX as nat) == Some(v as nat),
        r is None ==> parse_unsigned(s@, u64::MAX as nat) is None,
{
    let v = chars_of(s);
    let start: usize = if v.len() > 0 && v[0] == '+' { 1 } else { 0 };
    let ghost d = unsigned_digits(s@);
    assert(d =~= v@.subrange(start as int, v@.len() as int));
    if start >= v.len() {
        assert(d.len() == 0);
        return None;
    }
    let mut acc: u64 = 0;
    let mut i: usize = start;
    assert(d.subrange(0, 0) =~= Seq::<char>::empty());
    while i < v.len()
        invariant
            start <= i <= v@.len(),
            start < v@.len(),
            v@ == s@,
            d == unsigned_digits(s@),
            d =~= v@.subrange(start as int, v@.len() as int),
            forall|k: int| 0 <= k < i - start ==> is_digit(d[k]),
            acc as nat == digits_value(d.subrange(0, i - start)),
        decreases v@.len() - i,
    {
        let c = v[i];
        if !('0' <= c && c <= '9') {
            assert(d[i - start] == c);
            assert(!is_digit(d[i - start]));
            return None;
        }
        let dig = (c as u32 - '0' as u32) as u64;
        assert(d.subrange(0, i + 1 - start).drop_last() =~= d.subrange(0, i - start));
        assert(d.subrange(0, i + 1 - start).last() == c);
        assert(digit_value(c) == dig);
        assert(digits_value(d.subrange(0, i + 1 - start)) == acc * 10 + dig);
        if acc > (u64::MAX - dig) / 10 {
            proof {
                assert(acc * 10 + dig > u64::MAX) by (nonlinear_arith)
                    requires acc > (u64::MAX - dig) / 10, dig <= 9;
                lemma_digits_value_monotone(d, i + 1 - start, d.len() as int);
                assert(d.subrange(0, d.len() as int) =~= d);
                if is_unsigned_literal(s@) {
                }
            }
            return None;
        }
        acc = acc * 10 + dig;
        i = i + 1;
    }
    assert(d.subrange(0, d.len() as int) =~= d);
    Some(acc)
}

/// `s.parse::<u32>().ok()`.
pub fn parse_u32(s: &str) -> (r: Option<u32>)
    ensures
        r matches Some(v) ==> parse_unsigned(s@, u32::MAX as nat) == Some(v as nat),
        r is None ==> parse_unsigned(s@, u32::MAX as nat) is None,
{
    match parse_u64(s) {
        Some(v) => if v <= u32::MAX as u64 { Some(v as u32) } else { None },
        None => None,
    }
}

/// `s.parse::<usize>().ok()`.
pub fn parse_usize(s: &str) -> (r: Option<usize>)
    ensures
        r matches Some(v) ==> parse_unsigned(s@, usize::MAX as nat) == Some(v as nat),
        r is None ==> parse_unsigned(s@, usize::MAX as nat) is None,
{
    match parse_u64(s) {
        Some(v) => if v <= usize::MAX as u64 { Some(v as usize) } else { None },
        None => {
            proof {
                if is_unsigned_literal(s@) {
                    assert(usize::MAX as nat <= u64::MAX as nat);
                }
            }
            None
        }
    }
}

// ---------------------------------------------------------------- replacing

proof fn lemma_replace_unfold(s: Seq<char>, i: int, p: Seq<char>, r: Seq<char>)
    requires
        p.len() > 0,
        0 <= i < s.len(),
    ensures
        has_prefix(s.subrange(i, s.len() as int), p) <==> occurs_at(s, p, i),
        has_prefix(s.subrange(i, s.len() as int), p) ==> replace_all(s.subrange(i, s.len() as int), p, r)
            == r + replace_all(s.subrange(i + p.len(), s.len() as int), p, r),
        !has_prefix(s.subrange(i, s.len() as int), p) ==> replace_all(s.subrange(i, s.len() as int), p, r)
            == seq![s[i]] + replace_all(s.subrange(i + 1, s.len() as int), p, r),
{
    let t = s.subrange(i, s.len() as int);
    if has_prefix(t, p) {
        assert(t.subrange(0, p.len() as int) =~= s.subrange(i, i + p.len()));
        assert(t.skip(p.len() as int) =~= s.subrange(i + p.len(), s.len() as int));
    } else {
        if occurs_at(s, p, i) {
            assert(t.subrange(0, p.len() as int) =~= s.subrange(i, i + p.len()));
        }
        assert(t.drop_first() =~= s.subrange(i + 1, s.len() as int));
    }
}

/// `s.replace(p, r)` for a non-empty pattern.
pub fn replace_text(s: &str, p: &str, r: &str) -> (out: String)
    requires
        p@.len() > 0,
    ensures
        out@ == replace_all(s@, p@, r@),
{
    let v = chars_of(s);
    let pv = chars_of(p);
    let n = v.len();
    let mut out = String::new();
    let mut i: usize = 0;
    assert(v@.subrange(0, n as int) =~= v@);
    while i < n
        invariant
            n == v@.len(),
            pv@ == p@,
            p@.len() > 0,
            i <= n,
            out@ + replace_all(v@.subrange(i as int, n as int), p@, r@) == replace_all(v@, p@, r@),
        decreases n - i,
    {
        proof { lemma_replace_unfold(v@, i as int, p@, r@); }
        if matches_at(&v, &pv, i) {
            out = cat(out, r);
            i = i + pv.len();
        } else {
            push_char(&mut out, v[i]);
            i = i + 1;
        }
    }
    assert(v@.subrange(n as int, n as int) =~= Seq::<char>::empty());
    out
}


// ---------------------------------------------------------------- splitting

/// `s.split(c)`: the pieces between occurrences of `c`, empty ones
/// included; an empty text is one empty piece.
pub open spec fn split_on(s: Seq<char>, c: char) -> Seq<Seq<char>>
    decreases s.len(),
{
    if s.len() == 0 {
        seq![Seq::empty()]
    } else {
        let r = split_on(s.drop_last(), c);
        if s.last() == c {
            r.push(Seq::empty())
        } else {
            r.update(r.len() - 1, r.last().push(s.last()))
        }
    }
}

proof fn lemma_split_on_nonempty(s: Seq<char>, c: char)
    ensures
        split_on(s, c).len() >= 1,
    decreases s.len(),
{
    if s.len() > 0 {
        lemma_split_on_nonempty(s.drop_last(), c);
    }
}

/// The first line of a text, as `str::lines().next()` gives it: `None` for
/// an empty text, else the text before the first `'\n'`, without the `'\r'`
/// of a `"\r\n"` ending.
pub open spec fn first_line(s: Seq<char>) -> Option<Seq<char>> {
    if s.len() == 0 {
        None
    } else {
        let pieces = split_on(s, '\n');
        let l = pieces[0];
        if pieces.len() > 1 && l.len() > 0 && l.last() == '\r' { Some(l.drop_last()) } else { Some(l) }
    }
}

/// The pieces of `s` split at `c`, each trimmed of white space.
pub open spec fn split_trimmed_spec(s: Seq<char>, c: char) -> Seq<Seq<char>> {
    split_on(s, c).map_values(|p: Seq<char>| trim(p))
}

/// Splits a string at every `c`, returning the raw pieces.
fn split_raw(s: &str, c: char) -> (v: Vec<String>)
    ensures
        v@.len() == split_on(s@, c).len(),
        forall|k: int| 0 <= k < v@.len() ==> (#[trigger] v@[k])@ == split_on(s@, c)[k],
{
    let chars = chars_of(s);
    let mut done: Vec<String> = Vec::new();
    let mut cur = String::new();
    let mut i: usize = 0;
    proof {
        assert(chars@.subrange(0, 0) =~= Seq::<char>::empty());
    }
    while i < chars.len()
        invariant
            i <= chars@.len(),
            chars@ == s@,
            done@.len() + 1 == split_on(chars@.subrange(0, i as int), c).len(),
            forall|k: int| 0 <= k < done@.len() ==> (#[trigger] done@[k])@ == split_on(chars@.subrange(0, i as int), c)[k],
            cur@ == split_on(chars@.subrange(0, i as int), c).last(),
        decreases chars@.len() - i,
    {
        let ghost prev = chars@.subrange(0, i as int);
        let ghost next = chars@.subrange(0, i + 1);
        proof {
            assert(next.drop_last() =~= prev);
            assert(next.last() == chars@[i as int]);
            lemma_split_on_nonempty(prev, c);
        }
        let ch = chars[i];
        if ch == c {
            let piece = cur;
            done.push(piece);
            cur = String::new();
        } else {
            push_char(&mut cur, ch);
        }
        i = i + 1;
    }
    assert(chars@.subrange(0, chars@.len() as int) =~= s@);
    done.push(cur);
    done
}

/// `s.split(c).map(|p| p.trim())`, collected.
pub fn split_trimmed(s: &str, c: char) -> (v: Vec<String>)
    ensures
        v@.len() == split_trimmed_spec(s@, c).len(),
        forall|k: int| 0 <= k < v@.len() ==> (#[trigger] v@[k])@ == split_trimmed_spec(s@, c)[k],
{
    let raw = split_raw(s, c);
    let mut v: Vec<String> = Vec::new();
    let mut k: usize = 0;
    while k < raw.len()
        invariant
            k <= raw@.len(),
            raw@.len() == split_on(s@, c).len(),
            forall|j: int| 0 <= j < raw@.len() ==> (#[trigger] raw@[j])@ == split_on(s@, c)[j],
            v@.len() == k,
            forall|j: int| 0 <= j < k ==> (#[trigger] v@[j])@ == trim(split_on(s@, c)[j]),
        decreases raw@.len() - k,
    {
        v.push(trim_text(raw[k].as_str()));
        k = k + 1;
    }
    v
}

/// `s.lines().next()`.
pub fn first_line_of(s: &str) -> (r: Option<String>)
    ensures
        r matches Some(l) ==> first_line(s@) == Some(l@),
        r is None ==> first_line(s@) is None,
{
    if s.unicode_len() == 0 {
        return None;
    }
    let pieces = split_raw(s, '\n');
    proof {
        lemma_split_on_nonempty(s@, '\n');
    }
    let l = pieces[0].as_str();
    let n = l.unicode_len();
    if pieces.len() > 1 && n > 0 && l.get_char(n - 1) == '\r' {
        let v = chars_of(l);
        let r = string_of(&v, 0, n - 1);
        assert(r@ =~= l@.drop_last());
        Some(r)
    } else {
        Some(pieces[0].clone())
    }
}

} // verus!
