//! Selection of the store and catalog variants from a settings string, such
//! as `single;10,URI`, `file;mapping.json`, `empty` or
//! `static;file=catalog.json`. Reading the named files is left to the caller.
use crate::contexts::SimpleAppContextServer;
use crate::messages::AppContextModel;
use crate::resolver::ReferenceUriResolver;
use crate::text::{split_at_commas, split_commas};
use vstd::prelude::*;

verus! {

/// Whether `s` begins with `p`.
pub open spec fn has_prefix(s: Seq<char>, p: Seq<char>) -> bool {
    p.len() <= s.len() && s.subrange(0, p.len() as int) == p
}

/// Whether `p` occurs somewhere in `s`.
pub open spec fn occurs_in(s: Seq<char>, p: Seq<char>) -> bool {
    exists|i: int| 0 <= i <= s.len() - p.len() && #[trigger] s.subrange(i, i + p.len()) == p
}

pub open spec fn is_digit(c: char) -> bool {
    '0' <= c && c <= '9'
}

/// The number that a string of decimal digits denotes.
pub open spec fn digits_value(s: Seq<char>) -> int
    decreases s.len(),
{
    if s.len() == 0 {
        0
    } else {
        digits_value(s.drop_last()) * 10 + (s.last() as int - '0' as int)
    }
}

/// The text of a number without its optional leading `+`.
pub open spec fn unsigned_part(s: Seq<char>) -> Seq<char> {
    if s.len() > 0 && s[0] == '+' {
        s.subrange(1, s.len() as int)
    } else {
        s
    }
}

pub open spec fn all_digits(d: Seq<char>) -> bool {
    forall|i: int| 0 <= i < d.len() ==> is_digit(#[trigger] d[i])
}

/// The `usize` that `s` denotes in decimal, with an optional leading `+`,
/// if it denotes one.
pub open spec fn parsed_usize(s: Seq<char>) -> Option<usize> {
    let d = unsigned_part(s);
    if d.len() > 0 && all_digits(d) && digits_value(d) <= usize::MAX {
        Some(digits_value(d) as usize)
    } else {
        None
    }
}

/// Reads a `usize` written in decimal, with an optional leading `+`.
pub fn parse_usize(s: &str) -> (r: Option<usize>)
    ensures
        r == parsed_usize(s@),
{
    let n = s.unicode_len();
    let mut i: usize = 0;
    if n > 0 && s.get_char(0) == '+' {
        i = 1;
    }
    let ghost d = s@.subrange(i as int, n as int);
    assert(d == unsigned_part(s@)) by {
        if !(s@.len() > 0 && s@[0] == '+') {
            assert(s@.subrange(0, n as int) =~= s@);
        }
    }
    if i == n {
        return None;
    }
    let start = i;
    let mut value: usize = 0;
    while i < n
        invariant
            start <= i <= n,
            start < n,
            n == s@.len(),
            d == s@.subrange(start as int, n as int),
            d == unsigned_part(s@),
            forall|j: int| start <= j < i ==> is_digit(#[trigger] s@[j]),
            value == digits_value(s@.subrange(start as int, i as int)),
        decreases n - i,
    {
        let c = s.get_char(i);
        let ghost prefix = s@.subrange(start as int, i as int + 1);
        assert(prefix.drop_last() =~= s@.subrange(start as int, i as int));
        if !('0' <= c && c <= '9') {
            assert(!is_digit(d[i - start]));
            assert(!all_digits(d));
            return None;
        }
        let digit = (c as u32 - '0' as u32) as usize;
        assert(digits_value(prefix) == value * 10 + digit);
        if value > (usize::MAX - digit) / 10 {
            proof {
                assert(value * 10 + digit > usize::MAX) by (nonlinear_arith)
                    requires
                        value > (usize::MAX - digit) / 10,
                        digit <= 9,
                ;
                if all_digits(d) {
                    lemma_digits_value_grows(d, (i - start + 1) as int);
                    assert(d.subrange(0, (i - start + 1) as int) =~= prefix);
                }
            }
            return None;
        }
        assert(value * 10 + digit <= usize::MAX) by (nonlinear_arith)
            requires
                value <= (usize::MAX - digit) / 10,
                digit <= 9,
        ;
        value = value * 10 + digit;
        i = i + 1;
    }
    assert(all_digits(d)) by {
        assert forall|j: int| 0 <= j < d.len() implies is_digit(#[trigger] d[j]) by {
            assert(d[j] == s@[start + j]);
        }
    }
    Some(value)
}

/// A longer string of digits denotes at least as much as any of its prefixes.
proof fn lemma_digits_value_grows(d: Seq<char>, k: int)
    requires
        0 <= k <= d.len(),
        all_digits(d),
    ensures
        digits_value(d) >= digits_value(d.subrange(0, k)),
        digits_value(d.subrange(0, k)) >= 0,
    decreases d.len(),
{
    if d.len() == k {
        assert(d.subrange(0, k) =~= d);
        lemma_digits_value_nonneg(d);
    } else {
        let p = d.drop_last();
        assert forall|i: int| 0 <= i < p.len() implies is_digit(#[trigger] p[i]) by {
            assert(p[i] == d[i]);
        }
        lemma_digits_value_grows(p, k);
        assert(p.subrange(0, k) =~= d.subrange(0, k));
        assert(is_digit(d[d.len() - 1]));
        lemma_digits_value_nonneg(p);
        assert(digits_value(d) == digits_value(p) * 10 + (d.last() as int - '0' as int));
    }
}

proof fn lemma_digits_value_nonneg(d: Seq<char>)
    requires
        forall|i: int| 0 <= i < d.len() ==> is_digit(#[trigger] d[i]),
    ensures
        digits_value(d) >= 0,
    decreases d.len(),
{
    if d.len() > 0 {
        let p = d.drop_last();
        assert forall|i: int| 0 <= i < p.len() implies is_digit(#[trigger] p[i]) by {
            assert(p[i] == d[i]);
        }
        lemma_digits_value_nonneg(p);
        assert(is_digit(d[d.len() - 1]));
    }
}

/// Whether `s` begins with `p`.
pub fn starts_with(s: &str, p: &str) -> (r: bool)
    ensures
        r == has_prefix(s@, p@),
{
    let n = s.unicode_len();
    let m = p.unicode_len();
    if m > n {
        return false;
    }
    let head = s.substring_char(0, m).to_string();
    let expected = p.to_string();
    head.eq(&expected)
}

/// Whether `p` occurs somewhere in `s`.
pub fn occurs(s: &str, p: &str) -> (r: bool)
    ensures
        r == occurs_in(s@, p@),
{
    let n = s.unicode_len();
    let m = p.unicode_len();
    if m > n {
        return false;
    }
    let expected = p.to_string();
    let mut i: usize = 0;
    while i <= n - m
        invariant
            n == s@.len(),
            m == p@.len(),
            m <= n,
            i <= n - m,
            expected@ == p@,
            forall|j: int| 0 <= j < i ==> #[trigger] s@.subrange(j, j + m) != p@,
        decreases n - m - i,
    {
        let part = s.substring_char(i, i + m).to_string();
        if part.eq(&expected) {
            return true;
        }
        if i == n - m {
            return false;
        }
        i = i + 1;
    }
    false
}

/// The bound and the URI of a single-URI store, written `<bound>,<uri>`
/// with a non-empty URI, if the text is such.
pub open spec fn single_settings(rest: Seq<char>) -> Option<(usize, Seq<char>)> {
    let t = split_commas(rest);
    if t.len() == 2 && parsed_usize(t[0]) is Some && t[1].len() > 0 {
        Some((parsed_usize(t[0])->Some_0, t[1]))
    } else {
        None
    }
}

/// Where a context store comes from.
pub enum AppContextServerSource {
    /// A store that is ready for use.
    Ready(SimpleAppContextServer),
    /// A store to build from the settings held in this file.
    File(String),
}

/// Where a catalog comes from.
pub enum ApplicationListSource {
    /// No catalog: every query returns an empty list.
    Empty,
    /// The catalog held in this file.
    File(String),
}

/// Selects the context store that a settings string describes:
/// `single;<bound>,<uri>` is an empty store that gives every context `<uri>`;
/// `file;<name>` names a file of settings. Anything else is refused.
pub fn build_app_context_server(value: &str) -> (r: Result<AppContextServerSource, String>)
    ensures
        has_prefix(value@, "single;"@) ==> match single_settings(
            value@.subrange("single;"@.len() as int, value@.len() as int),
        ) {
            Some(settings) => (r matches Ok(AppContextServerSource::Ready(s)) && s.wf() && s@
                == Map::<Seq<char>, AppContextModel>::empty() && s.max_contexts() == settings.0 && (
            s.resolver() matches ReferenceUriResolver::Single { uri } && uri@ == settings.1)),
            None => (r matches Err(e) && e@ == "could not create the AppContextServer"@),
        },
        !has_prefix(value@, "single;"@) && occurs_in(value@, "single;"@) ==> (r matches Err(e)
            && e@ == "could not create the AppContextServer"@),
        !occurs_in(value@, "single;"@) && has_prefix(value@, "file;"@) && value@.len()
            > "file;"@.len() ==> (r matches Ok(AppContextServerSource::File(f)) && f@
            == value@.subrange("file;"@.len() as int, value@.len() as int)),
        !occurs_in(value@, "single;"@) && !(has_prefix(value@, "file;"@) && value@.len()
            > "file;"@.len()) ==> (r matches Err(e) && e@
            == "could not create the AppContextServer"@),
{
    let single = "single;";
    let file = "file;";
    let n = value.unicode_len();
    proof {
        if has_prefix(value@, "single;"@) {
            let z: int = 0;
            assert(value@.subrange(z, z + "single;"@.len()) == "single;"@);
        }
    }
    if starts_with(value, single) {
        let rest = value.substring_char(single.unicode_len(), n);
        let tokens = split_at_commas(rest);
        if tokens.len() == 2 {
            if let Some(bound) = parse_usize(tokens[0].as_str()) {
                if tokens[1].as_str().unicode_len() > 0 {
                    let store = SimpleAppContextServer::default_empty(bound, tokens[1].as_str());
                    return Ok(AppContextServerSource::Ready(store));
                }
            }
        }
    } else if !occurs(value, single) && starts_with(value, file) && n > file.unicode_len() {
        let name = value.substring_char(file.unicode_len(), n).to_string();
        return Ok(AppContextServerSource::File(name));
    }
    Err("could not create the AppContextServer".to_string())
}

/// Selects the catalog that a settings string describes: `empty` is no
/// catalog; `static;file=<name>` names a file that holds one. Anything else
/// is refused.
pub fn build_application_list_server(value: &str) -> (r: Result<ApplicationListSource, String>)
    ensures
        has_prefix(value@, "static;"@) && has_prefix(
            value@.subrange("static;"@.len() as int, value@.len() as int),
            "file="@,
        ) ==> (r matches Ok(ApplicationListSource::File(f)) && f@ == value@.subrange(
            ("static;"@.len() + "file="@.len()) as int,
            value@.len() as int,
        )),
        has_prefix(value@, "static;"@) && !has_prefix(
            value@.subrange("static;"@.len() as int, value@.len() as int),
            "file="@,
        ) ==> (r matches Err(e) && e@ == "could not create the ApplicationListServer"@),
        !has_prefix(value@, "static;"@) && value@ == "empty"@ ==> (r matches Ok(
            ApplicationListSource::Empty,
        )),
        !has_prefix(value@, "static;"@) && value@ != "empty"@ ==> (r matches Err(e) && e@
            == "could not create the ApplicationListServer"@),
{
    let fixed = "static;";
    let file = "file=";
    let n = value.unicode_len();
    if starts_with(value, fixed) {
        let rest = value.substring_char(fixed.unicode_len(), n);
        if starts_with(rest, file) {
            let start = fixed.unicode_len() + file.unicode_len();
            assert(rest@.subrange(0, file@.len() as int) == file@);
            let name = value.substring_char(start, n).to_string();
            assert(name@ =~= value@.subrange(start as int, n as int));
            return Ok(ApplicationListSource::File(name));
        }
    } else {
        let empty = "empty".to_string();
        let given = value.to_string();
        if given.eq(&empty) {
            return Ok(ApplicationListSource::Empty);
        }
    }
    Err("could not create the ApplicationListServer".to_string())
}

} // verus!
