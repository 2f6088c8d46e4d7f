//! Character and string predicates used by the key and item matching rules.

use vstd::prelude::*;

verus! {

/// ASCII lower-casing of one character: `A`..`Z` map to `a`..`z`, every other
/// character is left as it is.
pub open spec fn ascii_lower(c: char) -> char {
    if 'A' <= c && c <= 'Z' {
        ((c as u8) + 32) as char
    } else {
        c
    }
}

/// Trusted: `char::to_ascii_lowercase` of std maps the ASCII letters `A`..`Z`
/// to `a`..`z` and returns every other character unchanged.
pub assume_specification[ char::to_ascii_lowercase ](c: &char) -> (r: char)
    ensures
        r == ascii_lower(*c),
;

/// Two key characters name the same key when they agree up to ASCII case.
pub open spec fn same_key(a: char, b: char) -> bool {
    ascii_lower(a) == ascii_lower(b)
}

/// Compares two key characters up to ASCII case.
pub fn keys_match(a: char, b: char) -> (r: bool)
    ensures
        r == same_key(a, b),
{
    a.to_ascii_lowercase() == b.to_ascii_lowercase()
}

/// The key, where there is one, and `fallback` otherwise.
pub fn key_or(key: Option<char>, fallback: char) -> (r: char)
    ensures
        r == (match key {
            Some(k) => k,
            None => fallback,
        }),
{
    match key {
        Some(k) => k,
        None => fallback,
    }
}

/// `pat` occurs in `hay` starting at position `i`.
pub open spec fn occurs_at(hay: Seq<char>, pat: Seq<char>, i: int) -> bool {
    &&& 0 <= i
    &&& i + pat.len() <= hay.len()
    &&& hay.subrange(i, i + pat.len()) == pat
}

/// `pat` occurs somewhere in `hay` as a contiguous run of characters.
pub open spec fn has_substring(hay: Seq<char>, pat: Seq<char>) -> bool {
    exists|i: int| occurs_at(hay, pat, i)
}

/// `s` with every leading occurrence of `c` removed.
pub open spec fn without_leading(s: Seq<char>, c: char) -> Seq<char>
    decreases s.len(),
{
    if s.len() > 0 && s[0] == c {
        without_leading(s.drop_first(), c)
    } else {
        s
    }
}

/// The Unicode lower-case mapping of a string, as `str::to_lowercase` of std
/// computes it. The mapping is a fixed table of the Unicode standard and is
/// not restated here.
pub uninterp spec fn unicode_lowercase(s: Seq<char>) -> Seq<char>;

/// Trusted: equality of two string slices in std is equality of their
/// character sequences.
#[verifier::external_body]
pub(crate) fn str_eq(a: &str, b: &str) -> (r: bool)
    ensures
        r == (a@ == b@),
{
    a == b
}

/// Trusted: `str::contains` with a string pattern answers whether the pattern
/// occurs in the string as a contiguous run.
#[verifier::external_body]
pub(crate) fn str_contains(hay: &str, pat: &str) -> (r: bool)
    ensures
        r == has_substring(hay@, pat@),
{
    hay.contains(pat)
}

/// Trusted: `str::starts_with` with a string pattern answers whether the
/// pattern is a prefix of the string.
#[verifier::external_body]
pub(crate) fn str_starts_with(s: &str, prefix: &str) -> (r: bool)
    ensures
        r == prefix@.is_prefix_of(s@),
{
    s.starts_with(prefix)
}

/// Trusted: `str::to_lowercase` returns the Unicode lower-case mapping of its
/// argument; the result depends on the argument alone.
#[verifier::external_body]
pub(crate) fn str_to_lowercase(s: &str) -> (r: String)
    ensures
        r@ == unicode_lowercase(s@),
{
    s.to_lowercase()
}

/// Trusted: `str::trim_start_matches` with a character pattern removes every
/// leading occurrence of that character and nothing else.
#[verifier::external_body]
pub(crate) fn str_trim_start_matches(s: &str, c: char) -> (r: &str)
    ensures
        r@ == without_leading(s@, c),
{
    s.trim_start_matches(c)
}

/// Whether `s` is the one-character string made of `c`.
pub fn is_single_char(s: &str, c: char) -> (r: bool)
    ensures
        r == (s@ == seq![c]),
{
    if s.unicode_len() == 1 {
        let first = s.get_char(0);
        assert(first == c ==> s@ =~= seq![c]);
        first == c
    } else {
        false
    }
}

/// The key that a configured key name stands for matches a pressed key: the
/// lower-cased name is the one lower-cased character.
pub open spec fn key_name_matches(name: Seq<char>, key: char) -> bool {
    unicode_lowercase(name) == seq![ascii_lower(key)]
}

/// Some entry of a list of key names matches the pressed key.
pub open spec fn key_is_listed(names: Seq<String>, key: char) -> bool {
    exists|i: int| 0 <= i < names.len() && key_name_matches((#[trigger] names[i])@, key)
}

/// Whether some entry of a list of key names matches the pressed key.
pub fn key_listed(names: &Vec<String>, key: char) -> (r: bool)
    ensures
        r == key_is_listed(names@, key),
{
    let wanted = key.to_ascii_lowercase();
    let mut i: usize = 0;
    while i < names.len()
        invariant
            i <= names.len(),
            wanted == ascii_lower(key),
            forall|j: int| 0 <= j < i ==> !key_name_matches((#[trigger] names@[j])@, key),
        decreases names.len() - i,
    {
        let lower = str_to_lowercase(names[i].as_str());
        if is_single_char(lower.as_str(), wanted) {
            return true;
        }
        i += 1;
    }
    false
}

/// The character sequences of a list of strings.
pub open spec fn names_of(list: Seq<String>) -> Seq<Seq<char>> {
    Seq::new(list.len(), |i: int| list[i]@)
}

/// An equal copy of a list of strings.
pub fn copy_names(list: &Vec<String>) -> (r: Vec<String>)
    ensures
        names_of(r@) == names_of(list@),
{
    let mut copy: Vec<String> = Vec::new();
    let mut i: usize = 0;
    while i < list.len()
        invariant
            i <= list.len(),
            copy@.len() == i,
            forall|j: int| 0 <= j < i ==> (#[trigger] copy@[j])@ == list@[j]@,
        decreases list.len() - i,
    {
        copy.push(list[i].clone());
        i += 1;
    }
    copy
}

/// Whether `name` is one of `list`.
pub open spec fn listed(list: Seq<String>, name: Seq<char>) -> bool {
    exists|i: int| 0 <= i < list.len() && (#[trigger] list[i])@ == name
}

/// Searches `list` for an entry equal to `name`.
pub fn list_contains(list: &Vec<String>, name: &str) -> (r: bool)
    ensures
        r == listed(list@, name@),
{
    let mut i: usize = 0;
    while i < list.len()
        invariant
            i <= list.len(),
            forall|j: int| 0 <= j < i ==> (#[trigger] list@[j])@ != name@,
        decreases list.len() - i,
    {
        if str_eq(list[i].as_str(), name) {
            return true;
        }
        i += 1;
    }
    false
}

} // verus!
