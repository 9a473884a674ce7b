use vstd::prelude::*;

use crate::profile::types::{GlideProfile, ProfileView, Waypoint, no_waypoints_message};
use crate::format::decimal;
use crate::text::{chars_of, is_ascii_digit, is_space, is_whitespace, string_of, trim, trim_chars};

verus! {

/// The value of a string of decimal digits.
pub open spec fn digits_value(d: Seq<char>) -> nat
    decreases d.len(),
{
    if d.len() == 0 {
        0
    } else {
        digits_value(d.drop_last()) * 10 + ((d.last() as u32) - ('0' as u32)) as nat
    }
}

/// The digits of an unsigned numeral: the text after a leading `+`, if any.
pub open spec fn unsigned_digits(t: Seq<char>) -> Seq<char> {
    if t.len() > 0 && t[0] == '+' {
        t.skip(1)
    } else {
        t
    }
}

/// What `str::parse::<u8>` gives for `t`: an optional `+` followed by at least one
/// ASCII digit, whose value is at most 255.
pub open spec fn u8_numeral(t: Seq<char>) -> Option<u8> {
    let d = unsigned_digits(t);
    if d.len() > 0 && (forall|i: int| 0 <= i < d.len() ==> is_ascii_digit(#[trigger] d[i]))
        && digits_value(d) <= 255 {
        Some(digits_value(d) as u8)
    } else {
        None
    }
}

proof fn lemma_digits_value_grows(d: Seq<char>, k: int)
    requires
        0 <= k <= d.len(),
        forall|i: int| 0 <= i < d.len() ==> is_ascii_digit(#[trigger] d[i]),
    ensures
        digits_value(d.subrange(0, k)) <= digits_value(d),
    decreases d.len() - k,
{
    if k < d.len() {
        lemma_digits_value_grows(d, k + 1);
        let p = d.subrange(0, k + 1);
        assert(p.drop_last() =~= d.subrange(0, k));
        assert(is_ascii_digit(p.last()));
        assert(digits_value(p) >= digits_value(d.subrange(0, k))) by (nonlinear_arith)
            requires
                digits_value(p) == digits_value(p.drop_last()) * 10 + ((p.last() as u32) - (
                '0' as u32)) as nat,
                p.drop_last() =~= d.subrange(0, k),
        ;
    } else {
        assert(d.subrange(0, k) =~= d);
    }
}

/// The level number in `input`, parsed as `str::parse::<u8>` does after trimming;
/// `None` when it is no such number.
pub fn parse_u8(input: &str) -> (r: Option<u8>)
    ensures
        r == u8_numeral(trim(input@)),
{
    let t = trim_chars(input);
    let start: usize = if t.len() > 0 && t[0] == '+' {
        1
    } else {
        0
    };
    let ghost d = unsigned_digits(t@);
    assert(d =~= t@.subrange(start as int, t@.len() as int));
    if start == t.len() {
        return None;
    }
    let mut value: u32 = 0;
    let mut i = start;
    while i < t.len()
        invariant
            start <= i <= t.len(),
            start < t.len(),
            t@ == trim(input@),
            d == unsigned_digits(t@),
            d =~= t@.subrange(start as int, t@.len() as int),
            forall|k: int| start <= k < i ==> is_ascii_digit(#[trigger] t@[k]),
            value == digits_value(t@.subrange(start as int, i as int)),
            value <= 255,
        decreases t.len() - i,
    {
        let c = t[i];
        if !('0' <= c && c <= '9') {
            assert(!is_ascii_digit(d[i - start]));
            return None;
        }
        let ghost p = t@.subrange(start as int, i + 1);
        assert(p.drop_last() =~= t@.subrange(start as int, i as int));
        let digit = (c as u32) - ('0' as u32);
        value = value * 10 + digit;
        if value > 255 {
            proof {
                assert(forall|k: int| 0 <= k < p.len() ==> is_ascii_digit(#[trigger] p[k]));
                if forall|k: int| 0 <= k < d.len() ==> is_ascii_digit(#[trigger] d[k]) {
                    lemma_digits_value_grows(d, p.len() as int);
                    assert(d.subrange(0, p.len() as int) =~= p);
                }
            }
            return None;
        }
        i = i + 1;
    }
    assert(t@.subrange(start as int, t.len() as int) =~= d);
    Some(value as u8)
}

proof fn lemma_decimal_digits(n: nat)
    ensures
        decimal(n).len() > 0,
        forall|i: int| 0 <= i < decimal(n).len() ==> is_ascii_digit(#[trigger] decimal(n)[i]),
        digits_value(decimal(n)) == n,
    decreases n,
{
    if n < 10 {
        let c = crate::format::digit_char(n);
        assert((c as u32) == ('0' as u32) + n);
        assert(decimal(n).drop_last() =~= Seq::<char>::empty());
        assert(digits_value(Seq::<char>::empty()) == 0);
        assert(digits_value(decimal(n)) == n);
    }
    if n >= 10 {
        lemma_decimal_digits(n / 10);
        let d = decimal(n);
        assert(d.drop_last() =~= decimal(n / 10));
        let c = crate::format::digit_char(n % 10);
        assert(d.last() == c);
        assert((c as u32) == ('0' as u32) + n % 10);
        assert((n / 10) * 10 + n % 10 == n);
        assert(digits_value(d) == digits_value(d.drop_last()) * 10 + ((d.last() as u32) - (
        '0' as u32)) as nat);
        assert(digits_value(d.drop_last()) == n / 10);
        assert(((d.last() as u32) - ('0' as u32)) as nat == n % 10);
        assert(digits_value(d) == n);
        assert forall|i: int| 0 <= i < d.len() implies is_ascii_digit(#[trigger] d[i]) by {
            if i < d.len() - 1 {
                assert(d[i] == decimal(n / 10)[i]);
            }
        }
    }
}

/// A level number written in decimal parses back to itself.
pub proof fn lemma_parse_u8_reads_decimal(n: u8)
    ensures
        u8_numeral(trim(decimal(n as nat))) == Some(n),
{
    let d = decimal(n as nat);
    lemma_decimal_digits(n as nat);
    assert(!crate::text::is_space(d[0]));
    assert(!crate::text::is_space(d.last()));
    assert(crate::text::trim_start(d) == d);
    assert(crate::text::trim_end(d) == d);
    assert(d[0] != '+');
    assert(unsigned_digits(d) == d);
}

/// Whether `c` separates the fields of a waypoint line: whitespace or a comma.
pub open spec fn field_separator(c: char) -> bool {
    is_space(c) || c == ','
}

/// The number of chars at the start of `s` that are not separators.
pub open spec fn word_len(s: Seq<char>) -> nat
    decreases s.len(),
{
    if s.len() == 0 || field_separator(s[0]) {
        0
    } else {
        1 + word_len(s.skip(1))
    }
}

/// The fields of a waypoint line: the maximal runs of chars that are neither
/// whitespace nor commas, as splitting on whitespace after turning commas into
/// spaces finds them.
pub open spec fn fields(s: Seq<char>) -> Seq<Seq<char>>
    decreases s.len(),
{
    if s.len() == 0 {
        seq![]
    } else if field_separator(s[0]) {
        fields(s.skip(1))
    } else {
        let k = word_len(s);
        proof {
            lemma_word_len_bound(s);
        }
        seq![s.take(k as int)] + fields(s.skip(k as int))
    }
}

/// A field is made of the chars before the first separator.
pub proof fn lemma_word_len_bound(s: Seq<char>)
    ensures
        word_len(s) <= s.len(),
        forall|i: int| 0 <= i < word_len(s) ==> !field_separator(#[trigger] s[i]),
        word_len(s) < s.len() ==> field_separator(s[word_len(s) as int]),
    decreases s.len(),
{
    if s.len() > 0 && !field_separator(s[0]) {
        lemma_word_len_bound(s.skip(1));
        assert forall|i: int| 0 <= i < word_len(s) implies !field_separator(#[trigger] s[i]) by {
            if i > 0 {
                assert(s[i] == s.skip(1)[i - 1]);
            }
        }
    }
}

proof fn lemma_word_len_exact(s: Seq<char>, k: int)
    requires
        0 <= k <= s.len(),
        forall|i: int| 0 <= i < k ==> !field_separator(#[trigger] s[i]),
        k == s.len() || field_separator(s[k]),
    ensures
        word_len(s) == k,
    decreases k,
{
    if k > 0 {
        lemma_word_len_exact(s.skip(1), k - 1);
    }
}

proof fn lemma_fields_skip(s: Seq<char>, i: int)
    requires
        0 <= i <= s.len(),
        forall|j: int| 0 <= j < i ==> field_separator(#[trigger] s[j]),
    ensures
        fields(s) == fields(s.skip(i)),
    decreases i,
{
    if i > 0 {
        assert(s.skip(1).skip(i - 1) =~= s.skip(i));
        lemma_fields_skip(s.skip(1), i - 1);
    } else {
        assert(s.skip(0) =~= s);
    }
}

/// Skips separators from `i`; returns where the next field starts (or the end).
fn skip_separators(cs: &Vec<char>, i: usize) -> (j: usize)
    requires
        i <= cs.len(),
    ensures
        i <= j <= cs.len(),
        fields(cs@.skip(i as int)) == fields(cs@.skip(j as int)),
        j < cs.len() ==> !field_separator(cs@[j as int]),
{
    let mut j = i;
    while j < cs.len() && (is_whitespace(cs[j]) || cs[j] == ',')
        invariant
            i <= j <= cs.len(),
            forall|k: int| i <= k < j ==> field_separator(#[trigger] cs@[k]),
        decreases cs.len() - j,
    {
        j = j + 1;
    }
    proof {
        let s = cs@.skip(i as int);
        assert forall|k: int| 0 <= k < j - i implies field_separator(#[trigger] s[k]) by {
            assert(s[k] == cs@[i + k]);
        }
        lemma_fields_skip(s, j - i);
        assert(s.skip(j - i) =~= cs@.skip(j as int));
    }
    j
}

/// The end of the field starting at `i`.
fn field_end(cs: &Vec<char>, i: usize) -> (j: usize)
    requires
        i < cs.len(),
        !field_separator(cs@[i as int]),
    ensures
        i < j <= cs.len(),
        fields(cs@.skip(i as int)) == seq![cs@.subrange(i as int, j as int)] + fields(
            cs@.skip(j as int),
        ),
{
    let mut j = i;
    while j < cs.len() && !(is_whitespace(cs[j]) || cs[j] == ',')
        invariant
            i <= j <= cs.len(),
            forall|k: int| i <= k < j ==> !field_separator(#[trigger] cs@[k]),
        decreases cs.len() - j,
    {
        j = j + 1;
    }
    proof {
        let s = cs@.skip(i as int);
        assert forall|k: int| 0 <= k < j - i implies !field_separator(#[trigger] s[k]) by {
            assert(s[k] == cs@[i + k]);
        }
        if j < cs.len() {
            assert(s[j - i] == cs@[j as int]);
        }
        lemma_word_len_exact(s, j - i);
        assert(s.take(j - i) =~= cs@.subrange(i as int, j as int));
        assert(s.skip(j - i) =~= cs@.skip(j as int));
    }
    j
}

/// The first two fields of a waypoint line (its x and y), when it has two.
pub fn waypoint_fields(input: &str) -> (r: Option<(String, String)>)
    ensures
        fields(input@).len() >= 2 ==> (r matches Some((x, y)) && x@ == fields(input@)[0] && y@
            == fields(input@)[1]),
        fields(input@).len() < 2 ==> (r is None),
{
    let cs = chars_of(input);
    assert(cs@.skip(0) =~= input@);
    let a = skip_separators(&cs, 0);
    if a == cs.len() {
        assert(cs@.skip(a as int) =~= Seq::<char>::empty());
        return None;
    }
    let b = field_end(&cs, a);
    let c = skip_separators(&cs, b);
    if c == cs.len() {
        assert(cs@.skip(c as int) =~= Seq::<char>::empty());
        return None;
    }
    let d = field_end(&cs, c);
    let x = string_of(&cs, a, b);
    let y = string_of(&cs, c, d);
    Some((x, y))
}

/// A profile made of what a profile file holds: its name, its level bounds as text
/// (each kept only when it parses as a number from 0 to 255), and its waypoints.
/// A profile without waypoints is refused.
pub fn profile_from_fields(
    name: Option<String>,
    min_level: Option<String>,
    max_level: Option<String>,
    waypoints: Vec<Waypoint>,
) -> (r: Result<GlideProfile, String>)
    ensures
        waypoints@.len() == 0 ==> (r matches Err(e) && e@ == no_waypoints_message()),
        waypoints@.len() > 0 ==> (r matches Ok(p) && p@ == (ProfileView {
            name: match name {
                Some(n) => Some(n@),
                None => None,
            },
            min_level: match min_level {
                Some(t) => u8_numeral(trim(t@)),
                None => None,
            },
            max_level: match max_level {
                Some(t) => u8_numeral(trim(t@)),
                None => None,
            },
            waypoints: waypoints@,
        })),
{
    let min = match &min_level {
        Some(t) => parse_u8(t.as_str()),
        None => None,
    };
    let max = match &max_level {
        Some(t) => parse_u8(t.as_str()),
        None => None,
    };
    let profile = GlideProfile { name, min_level: min, max_level: max, waypoints };
    match profile.validate() {
        Ok(()) => Ok(profile),
        Err(e) => Err(e),
    }
}

} // verus!
