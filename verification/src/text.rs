//! Text facts the library relies on: Unicode white space, ASCII case,
//! decimal digits, and the few standard-library string operations that
//! are called rather than written here.

use vstd::prelude::*;

verus! {

/// Unicode `White_Space`, the set `char::is_whitespace` and `str::trim` use.
pub open spec fn is_white_space(c: char) -> bool {
    let u = c as u32;
    ||| 0x9 <= u <= 0xd
    ||| u == 0x20
    ||| u == 0x85
    ||| u == 0xa0
    ||| u == 0x1680
    ||| 0x2000 <= u <= 0x200a
    ||| u == 0x2028
    ||| u == 0x2029
    ||| u == 0x202f
    ||| u == 0x205f
    ||| u == 0x3000
}

/// `s` without its leading white space.
pub open spec fn trim_start(s: Seq<char>) -> Seq<char>
    decreases s.len(),
{
    if s.len() > 0 && is_white_space(s[0]) {
        trim_start(s.drop_first())
    } else {
        s
    }
}

/// `s` without its trailing white space.
pub open spec fn trim_end(s: Seq<char>) -> Seq<char>
    decreases s.len(),
{
    if s.len() > 0 && is_white_space(s.last()) {
        trim_end(s.drop_last())
    } else {
        s
    }
}

/// `s` without leading and trailing white space.
pub open spec fn trimmed(s: Seq<char>) -> Seq<char> {
    trim_end(trim_start(s))
}

/// Whether every character of `s` is ASCII.
pub open spec fn all_ascii(s: Seq<char>) -> bool {
    forall|i: int| 0 <= i < s.len() ==> (#[trigger] s[i] as u32) < 128
}

/// The ASCII upper-case form of one character.
pub open spec fn ascii_upper_char(c: char) -> char {
    if 'a' <= c <= 'z' {
        ((c as u32) - 32) as char
    } else {
        c
    }
}

/// The ASCII upper-case form of `s`: `a`..`z` become `A`..`Z`.
pub open spec fn ascii_upper(s: Seq<char>) -> Seq<char> {
    Seq::new(s.len(), |i: int| ascii_upper_char(s[i]))
}

/// What `str::to_uppercase` returns for `s` (Unicode full case mapping).
pub uninterp spec fn uppercased(s: Seq<char>) -> Seq<char>;

/// The digit character of `d`, for `d < 10`.
pub open spec fn digit_char(d: nat) -> char {
    if d == 0 {
        '0'
    } else if d == 1 {
        '1'
    } else if d == 2 {
        '2'
    } else if d == 3 {
        '3'
    } else if d == 4 {
        '4'
    } else if d == 5 {
        '5'
    } else if d == 6 {
        '6'
    } else if d == 7 {
        '7'
    } else if d == 8 {
        '8'
    } else {
        '9'
    }
}

/// The decimal form of `n`, without leading zeros.
pub open spec fn decimal(n: nat) -> Seq<char>
    decreases n,
{
    if n < 10 {
        seq![digit_char(n)]
    } else {
        decimal(n / 10).push(digit_char(n % 10))
    }
}

/// A decimal form has at least one digit, and at least two from 10 on.
proof fn lemma_decimal_len(n: nat)
    ensures
        decimal(n).len() >= 1,
        n >= 10 ==> decimal(n).len() >= 2,
    decreases n,
{
    if n >= 10 {
        lemma_decimal_len(n / 10);
    }
}

/// Distinct numbers have distinct decimal forms.
pub proof fn lemma_decimal_injective(a: nat, b: nat)
    requires
        decimal(a) == decimal(b),
    ensures
        a == b,
    decreases a + b,
{
    lemma_decimal_len(a);
    lemma_decimal_len(b);
    if a >= 10 && b >= 10 {
        assert(decimal(a).last() == digit_char(a % 10));
        assert(decimal(b).last() == digit_char(b % 10));
        assert(decimal(a).drop_last() =~= decimal(a / 10));
        assert(decimal(b).drop_last() =~= decimal(b / 10));
        lemma_decimal_injective(a / 10, b / 10);
    } else if a < 10 && b < 10 {
        assert(decimal(a)[0] == digit_char(a));
        assert(decimal(b)[0] == digit_char(b));
    }
}

/// The ASCII lower-case form of one character.
pub open spec fn ascii_lower_char(c: char) -> char {
    if 'A' <= c <= 'Z' {
        ((c as u32) + 32) as char
    } else {
        c
    }
}

/// The ASCII lower-case form of `s`: `A`..`Z` become `a`..`z`.
pub open spec fn ascii_lower(s: Seq<char>) -> Seq<char> {
    Seq::new(s.len(), |i: int| ascii_lower_char(s[i]))
}

/// ASCII case mapping keeps a character ASCII, keeps whether it is white
/// space, and upper-casing after either mapping is upper-casing alone.
proof fn lemma_ascii_case_char(c: char)
    requires
        (c as u32) < 128,
    ensures
        (ascii_upper_char(c) as u32) < 128,
        (ascii_lower_char(c) as u32) < 128,
        is_white_space(ascii_upper_char(c)) == is_white_space(c),
        ascii_upper_char(ascii_upper_char(c)) == ascii_upper_char(c),
        ascii_upper_char(ascii_lower_char(c)) == ascii_upper_char(c),
{
}

/// Dropping the first or last character of ASCII text leaves ASCII text.
proof fn lemma_ascii_ends(s: Seq<char>)
    requires
        all_ascii(s),
        s.len() > 0,
    ensures
        all_ascii(s.drop_first()),
        all_ascii(s.drop_last()),
{
    assert forall|i: int| 0 <= i < s.len() - 1 implies (#[trigger] s.drop_first()[i] as u32) < 128
        && (s.drop_last()[i] as u32) < 128 by {
        assert(s.drop_first()[i] == s[i + 1]);
        assert(s.drop_last()[i] == s[i]);
    }
}

/// Trimming ASCII text leaves ASCII text.
proof fn lemma_trim_keeps_ascii(s: Seq<char>)
    requires
        all_ascii(s),
    ensures
        all_ascii(trim_start(s)),
        all_ascii(trim_end(s)),
    decreases s.len(),
{
    if s.len() > 0 {
        lemma_ascii_ends(s);
        lemma_trim_keeps_ascii(s.drop_first());
        lemma_trim_keeps_ascii(s.drop_last());
    }
}

/// On ASCII text, trimming and upper-casing can be done in either order.
proof fn lemma_trim_commutes_with_upper(s: Seq<char>)
    requires
        all_ascii(s),
    ensures
        trim_start(ascii_upper(s)) == ascii_upper(trim_start(s)),
        trim_end(ascii_upper(s)) == ascii_upper(trim_end(s)),
    decreases s.len(),
{
    if s.len() > 0 {
        lemma_ascii_case_char(s[0]);
        lemma_ascii_case_char(s.last());
        let u = ascii_upper(s);
        assert(u.drop_first() =~= ascii_upper(s.drop_first()));
        assert(u.drop_last() =~= ascii_upper(s.drop_last()));
        lemma_ascii_ends(s);
        lemma_trim_commutes_with_upper(s.drop_first());
        lemma_trim_commutes_with_upper(s.drop_last());
    } else {
        assert(ascii_upper(s) =~= s);
    }
}

/// ASCII case mapping keeps text ASCII, and upper-casing after either
/// mapping is upper-casing alone.
pub proof fn lemma_ascii_case_maps(s: Seq<char>)
    requires
        all_ascii(s),
    ensures
        all_ascii(ascii_upper(s)),
        all_ascii(ascii_lower(s)),
        ascii_upper(ascii_upper(s)) == ascii_upper(s),
        ascii_upper(ascii_lower(s)) == ascii_upper(s),
{
    assert forall|i: int| 0 <= i < s.len() implies (#[trigger] ascii_upper(s)[i] as u32) < 128
        && (ascii_lower(s)[i] as u32) < 128 && ascii_upper(ascii_upper(s))[i] == ascii_upper(s)[i]
        && ascii_upper(ascii_lower(s))[i] == ascii_upper(s)[i] by {
        lemma_ascii_case_char(s[i]);
    }
    assert(ascii_upper(ascii_upper(s)) =~= ascii_upper(s));
    assert(ascii_upper(ascii_lower(s)) =~= ascii_upper(s));
}

/// On ASCII text, trimming keeps it ASCII, and trimming and upper-casing
/// can be done in either order.
pub proof fn lemma_trimmed_upper_commute(s: Seq<char>)
    requires
        all_ascii(s),
    ensures
        all_ascii(trimmed(s)),
        trimmed(ascii_upper(s)) == ascii_upper(trimmed(s)),
{
    lemma_trim_keeps_ascii(s);
    lemma_trim_keeps_ascii(trim_start(s));
    lemma_trim_commutes_with_upper(s);
    lemma_trim_commutes_with_upper(trim_start(s));
}

/// Whether `c` is Unicode white space.
pub fn is_white_space_char(c: char) -> (r: bool)
    ensures
        r == is_white_space(c),
{
    let u = c as u32;
    (0x9 <= u && u <= 0xd) || u == 0x20 || u == 0x85 || u == 0xa0 || u == 0x1680 || (0x2000 <= u
        && u <= 0x200a) || u == 0x2028 || u == 0x2029 || u == 0x202f || u == 0x205f || u == 0x3000
}

/// Skipping leading white space first does not change `trim_start`.
proof fn lemma_trim_start_skip(s: Seq<char>, a: int)
    requires
        0 <= a <= s.len(),
        forall|i: int| 0 <= i < a ==> is_white_space(#[trigger] s[i]),
    ensures
        trim_start(s) == trim_start(s.skip(a)),
    decreases a,
{
    if a > 0 {
        assert(s.drop_first().skip(a - 1) =~= s.skip(a));
        assert forall|i: int| 0 <= i < a - 1 implies is_white_space(#[trigger] s.drop_first()[i]) by {
            assert(s.drop_first()[i] == s[i + 1]);
        }
        lemma_trim_start_skip(s.drop_first(), a - 1);
    } else {
        assert(s.skip(0) =~= s);
    }
}

/// Dropping trailing white space first does not change `trim_end`.
proof fn lemma_trim_end_take(s: Seq<char>, b: int)
    requires
        0 <= b <= s.len(),
        forall|i: int| b <= i < s.len() ==> is_white_space(#[trigger] s[i]),
    ensures
        trim_end(s) == trim_end(s.take(b)),
    decreases s.len() - b,
{
    if b < s.len() {
        assert(s.drop_last().take(b) =~= s.take(b));
        assert forall|i: int| b <= i < s.len() - 1 implies is_white_space(#[trigger] s.drop_last()[i]) by {
            assert(s.drop_last()[i] == s[i]);
        }
        lemma_trim_end_take(s.drop_last(), b);
    } else {
        assert(s.take(b) =~= s);
    }
}

/// `s` without leading and trailing Unicode white space, as `str::trim`
/// gives it.
pub fn trim_text(s: &str) -> (r: &str)
    ensures
        r@ == trimmed(s@),
{
    let n = s.unicode_len();
    let mut a: usize = 0;
    while a < n && is_white_space_char(s.get_char(a))
        invariant
            n == s@.len(),
            a <= n,
            forall|i: int| 0 <= i < a ==> is_white_space(#[trigger] s@[i]),
        decreases n - a,
    {
        a = a + 1;
    }
    proof {
        lemma_trim_start_skip(s@, a as int);
    }
    assert(trim_start(s@) == s@.skip(a as int));
    let ghost t = s@.skip(a as int);
    let mut b: usize = n - a;
    while b > 0 && is_white_space_char(s.get_char(a + b - 1))
        invariant
            n == s@.len(),
            a <= n,
            t == s@.skip(a as int),
            b <= n - a,
            forall|i: int| b <= i < t.len() ==> is_white_space(#[trigger] t[i]),
        decreases b,
    {
        b = b - 1;
    }
    proof {
        lemma_trim_end_take(t, b as int);
    }
    assert(trim_end(t) == t.take(b as int));
    let r = s.substring_char(a, a + b);
    assert(r@ =~= t.take(b as int));
    r
}

/// The one-character text of the digit `d`.
fn digit_text(d: usize) -> (r: &'static str)
    requires
        d < 10,
    ensures
        r@ == seq![digit_char(d as nat)],
{
    proof {
        reveal_strlit("0");
        reveal_strlit("1");
        reveal_strlit("2");
        reveal_strlit("3");
        reveal_strlit("4");
        reveal_strlit("5");
        reveal_strlit("6");
        reveal_strlit("7");
        reveal_strlit("8");
        reveal_strlit("9");
    }
    match d {
        0 => "0",
        1 => "1",
        2 => "2",
        3 => "3",
        4 => "4",
        5 => "5",
        6 => "6",
        7 => "7",
        8 => "8",
        _ => "9",
    }
}

/// Appends the decimal form of `n` to `out`.
fn write_decimal(out: &mut String, n: usize)
    ensures
        final(out)@ == old(out)@ + decimal(n as nat),
    decreases n,
{
    if n >= 10 {
        write_decimal(out, n / 10);
    }
    out.append(digit_text(n % 10));
    assert(final(out)@ =~= old(out)@ + decimal(n as nat));
}

/// Calls `str::to_uppercase`. Its result is named `uppercased`; on ASCII
/// text it is the ASCII upper-case form, as the Unicode case mapping maps
/// `a`..`z` to `A`..`Z` and leaves the other ASCII characters alone.
#[verifier::external_body]
pub(crate) fn upper_text(s: &str) -> (r: String)
    ensures
        r@ == uppercased(s@),
        all_ascii(s@) ==> r@ == ascii_upper(s@),
{
    s.to_uppercase()
}

/// `prefix` followed by the decimal form of `index`, as `format!` writes it.
pub fn indexed_key(prefix: &str, index: usize) -> (r: String)
    ensures
        r@ == prefix@ + decimal(index as nat),
{
    let mut key = prefix.to_owned();
    write_decimal(&mut key, index);
    key
}

/// `message`, a colon, a space and `detail`.
pub fn with_detail(message: &str, detail: &str) -> (r: String)
    ensures
        r@ == message@ + seq![':', ' '] + detail@,
{
    let mut text = message.to_owned();
    text.append(": ");
    text.append(detail);
    proof {
        reveal_strlit(": ");
    }
    assert(text@ =~= message@ + seq![':', ' '] + detail@);
    text
}

} // verus!
