//! Character and string primitives shared by the dialect tables and the analyzer.
//!
//! The ASCII case mappings are stated exactly; Unicode case mappings are
//! named results of the standard library, which the contracts speak of by name.

use vstd::prelude::*;

verus! {

/// ASCII lowercase of one character: `A..=Z` map to `a..=z`, everything else is kept.
pub open spec fn ascii_lower_char(c: char) -> char {
    if 'A' <= c && c <= 'Z' {
        (((c as u8) + 32) as u8) as char
    } else {
        c
    }
}

/// ASCII uppercase of one character: `a..=z` map to `A..=Z`, everything else is kept.
pub open spec fn ascii_upper_char(c: char) -> char {
    if 'a' <= c && c <= 'z' {
        (((c as u8) - 32) as u8) as char
    } else {
        c
    }
}

/// ASCII lowercase of a character sequence.
pub open spec fn ascii_lower(s: Seq<char>) -> Seq<char> {
    s.map_values(|c: char| ascii_lower_char(c))
}

/// ASCII uppercase of a character sequence.
pub open spec fn ascii_upper(s: Seq<char>) -> Seq<char> {
    s.map_values(|c: char| ascii_upper_char(c))
}

/// Whether `std` classifies `c` as an uppercase character (Unicode `Uppercase` property).
pub uninterp spec fn unicode_is_uppercase(c: char) -> bool;

/// Whether `std` classifies `c` as a lowercase character (Unicode `Lowercase` property).
pub uninterp spec fn unicode_is_lowercase(c: char) -> bool;

/// The full Unicode lowercase mapping that `std` applies to a string.
pub uninterp spec fn unicode_to_lowercase(s: Seq<char>) -> Seq<char>;

/// The full Unicode uppercase mapping that `std` applies to a string.
pub uninterp spec fn unicode_to_uppercase(s: Seq<char>) -> Seq<char>;

/// The ASCII lowercase form of `s`: `A..=Z` become `a..=z`, every other
/// character is kept.
pub fn to_ascii_lowercase(s: &str) -> (r: String)
    ensures
        r@ == ascii_lower(s@),
{
    let n = s.unicode_len();
    proof {
        reveal_strlit("");
    }
    let mut r = string_of("");
    let mut i: usize = 0;
    while i < n
        invariant
            n == s@.len(),
            0 <= i <= n,
            r@ == ascii_lower(s@.take(i as int)),
        decreases n - i,
    {
        let c = s.get_char(i);
        let lower = if 'A' <= c && c <= 'Z' {
            ((c as u8) + 32) as char
        } else {
            c
        };
        push_char(&mut r, lower);
        assert(s@.take(i + 1) =~= s@.take(i as int).push(c));
        assert(r@ =~= ascii_lower(s@.take(i + 1)));
        i = i + 1;
    }
    assert(s@.take(n as int) =~= s@);
    r
}

/// The ASCII uppercase form of `s`: `a..=z` become `A..=Z`, every other
/// character is kept.
pub fn to_ascii_uppercase(s: &str) -> (r: String)
    ensures
        r@ == ascii_upper(s@),
{
    let n = s.unicode_len();
    proof {
        reveal_strlit("");
    }
    let mut r = string_of("");
    let mut i: usize = 0;
    while i < n
        invariant
            n == s@.len(),
            0 <= i <= n,
            r@ == ascii_upper(s@.take(i as int)),
        decreases n - i,
    {
        let c = s.get_char(i);
        let upper = if 'a' <= c && c <= 'z' {
            ((c as u8) - 32) as char
        } else {
            c
        };
        push_char(&mut r, upper);
        assert(s@.take(i + 1) =~= s@.take(i as int).push(c));
        assert(r@ =~= ascii_upper(s@.take(i + 1)));
        i = i + 1;
    }
    assert(s@.take(n as int) =~= s@);
    r
}

/// Whether two string slices hold the same characters.
pub fn str_eq(a: &str, b: &str) -> (r: bool)
    ensures
        r == (a@ == b@),
{
    let n = a.unicode_len();
    if n != b.unicode_len() {
        return false;
    }
    let mut i: usize = 0;
    while i < n
        invariant
            n == a@.len(),
            n == b@.len(),
            0 <= i <= n,
            forall|k: int| 0 <= k < i ==> a@[k] == b@[k],
        decreases n - i,
    {
        if a.get_char(i) != b.get_char(i) {
            return false;
        }
        i = i + 1;
    }
    assert(a@ =~= b@);
    true
}

/// Calls `char::is_uppercase`; the result is named, not stated.
#[verifier::external_body]
pub(crate) fn char_is_uppercase(c: char) -> (r: bool)
    ensures
        r == unicode_is_uppercase(c),
{
    c.is_uppercase()
}

/// Calls `char::is_lowercase`; the result is named, not stated.
#[verifier::external_body]
pub(crate) fn char_is_lowercase(c: char) -> (r: bool)
    ensures
        r == unicode_is_lowercase(c),
{
    c.is_lowercase()
}

/// Calls `str::to_lowercase`; the result is named, not stated.
#[verifier::external_body]
pub(crate) fn str_to_lowercase(s: &str) -> (r: String)
    ensures
        r@ == unicode_to_lowercase(s@),
{
    s.to_lowercase()
}

/// Calls `str::to_uppercase`; the result is named, not stated.
#[verifier::external_body]
pub(crate) fn str_to_uppercase(s: &str) -> (r: String)
    ensures
        r@ == unicode_to_uppercase(s@),
{
    s.to_uppercase()
}

/// Calls `String::push`, which appends one character.
#[verifier::external_body]
pub(crate) fn push_char(s: &mut String, c: char)
    ensures
        final(s)@ == old(s)@.push(c),
{
    s.push(c)
}

/// A fresh `String` holding the characters of `s`.
pub fn string_of(s: &str) -> (r: String)
    ensures
        r@ == s@,
{
    String::from_str(s)
}

/// Whether some entry of `list` holds exactly the characters of `s`.
pub open spec fn seq_has_str(list: Seq<&'static str>, s: Seq<char>) -> bool {
    exists|i: int| 0 <= i < list.len() && (#[trigger] list[i])@ == s
}

/// Linear membership test of `s` in a static list of names.
pub fn list_contains(list: &[&'static str], s: &str) -> (r: bool)
    ensures
        r == seq_has_str(list@, s@),
{
    let mut i: usize = 0;
    while i < list.len()
        invariant
            0 <= i <= list@.len(),
            forall|j: int| 0 <= j < i ==> (#[trigger] list@[j])@ != s@,
        decreases list@.len() - i,
    {
        if str_eq(list[i], s) {
            return true;
        }
        i = i + 1;
    }
    false
}

/// Whether any character of `s` is uppercase by `std`'s Unicode classification.
pub open spec fn any_uppercase(s: Seq<char>) -> bool {
    exists|i: int| 0 <= i < s.len() && unicode_is_uppercase(#[trigger] s[i])
}

/// Whether any character of `s` is lowercase by `std`'s Unicode classification.
pub open spec fn any_lowercase(s: Seq<char>) -> bool {
    exists|i: int| 0 <= i < s.len() && unicode_is_lowercase(#[trigger] s[i])
}

/// Scans `s` for an uppercase character.
pub fn has_uppercase(s: &str) -> (r: bool)
    ensures
        r == any_uppercase(s@),
{
    let n = s.unicode_len();
    let mut i: usize = 0;
    while i < n
        invariant
            n == s@.len(),
            0 <= i <= n,
            forall|j: int| 0 <= j < i ==> !unicode_is_uppercase(#[trigger] s@[j]),
        decreases n - i,
    {
        if char_is_uppercase(s.get_char(i)) {
            return true;
        }
        i = i + 1;
    }
    false
}

/// Scans `s` for a lowercase character.
pub fn has_lowercase(s: &str) -> (r: bool)
    ensures
        r == any_lowercase(s@),
{
    let n = s.unicode_len();
    let mut i: usize = 0;
    while i < n
        invariant
            n == s@.len(),
            0 <= i <= n,
            forall|j: int| 0 <= j < i ==> !unicode_is_lowercase(#[trigger] s@[j]),
        decreases n - i,
    {
        if char_is_lowercase(s.get_char(i)) {
            return true;
        }
        i = i + 1;
    }
    false
}

/// ASCII lowercasing is idempotent.
pub proof fn lemma_ascii_lower_idempotent(s: Seq<char>)
    ensures
        ascii_lower(ascii_lower(s)) == ascii_lower(s),
{
    assert forall|i: int| 0 <= i < s.len() implies #[trigger] ascii_lower(ascii_lower(s))[i]
        == ascii_lower(s)[i] by {
        let c = s[i];
        if 'A' <= c && c <= 'Z' {
            assert((c as u8) + 32 >= 97);
        }
    }
    assert(ascii_lower(ascii_lower(s)) =~= ascii_lower(s));
}

} // verus!

verus! {

/// ASCII-lowercasing an ASCII-uppercased string gives its ASCII lowercase form.
pub proof fn lemma_ascii_lower_of_upper(s: Seq<char>)
    ensures
        ascii_lower(ascii_upper(s)) == ascii_lower(s),
{
    assert forall|i: int| 0 <= i < s.len() implies #[trigger] ascii_lower(ascii_upper(s))[i]
        == ascii_lower(s)[i] by {
        let c = s[i];
        if 'a' <= c && c <= 'z' {
            assert((c as u8) - 32 >= 65);
        }
    }
    assert(ascii_lower(ascii_upper(s)) =~= ascii_lower(s));
}

/// The value paired with the first key of `table` that holds the characters `key`.
pub open spec fn first_value_for<V>(table: Seq<(&'static str, V)>, key: Seq<char>) -> Option<V>
    decreases table.len(),
{
    if table.len() == 0 {
        None
    } else if table[0].0@ == key {
        Some(table[0].1)
    } else {
        first_value_for(table.drop_first(), key)
    }
}

/// No entry among the first `k` of `table` holds the characters `key`.
pub open spec fn key_absent_before<V>(table: Seq<(&'static str, V)>, key: Seq<char>, k: nat) -> bool
    decreases k,
{
    k == 0 || (table[k - 1].0@ != key && key_absent_before(table, key, (k - 1) as nat))
}

/// A key that no entry of `table` holds finds nothing.
pub proof fn lemma_first_value_absent<V>(table: Seq<(&'static str, V)>, key: Seq<char>, n: nat)
    requires
        n == table.len(),
        key_absent_before(table, key, n),
    ensures
        first_value_for(table, key) is None,
    decreases n,
{
    if n > 0 {
        assert(table[0].0@ != key) by {
            lemma_key_absent_before_index(table, key, n, 0);
        }
        let rest = table.drop_first();
        assert forall|j: nat| j <= (n - 1) as nat implies key_absent_before(rest, key, j) by {
            lemma_key_absent_shift(table, key, n, j);
        }
        lemma_first_value_absent(rest, key, (n - 1) as nat);
    }
}

/// The first entry of `table` that holds `key` decides the lookup.
pub proof fn lemma_first_value_at<V>(table: Seq<(&'static str, V)>, key: Seq<char>, k: nat)
    requires
        k < table.len(),
        table[k as int].0@ == key,
        key_absent_before(table, key, k),
    ensures
        first_value_for(table, key) == Some(table[k as int].1),
    decreases k,
{
    if k > 0 {
        assert(table[0].0@ != key) by {
            lemma_key_absent_before_index(table, key, k, 0);
        }
        let rest = table.drop_first();
        assert forall|j: nat| j <= (k - 1) as nat implies key_absent_before(rest, key, j) by {
            lemma_key_absent_shift(table, key, k, j);
        }
        lemma_first_value_at(rest, key, (k - 1) as nat);
    }
}

proof fn lemma_key_absent_before_index<V>(table: Seq<(&'static str, V)>, key: Seq<char>, k: nat, j: nat)
    requires
        key_absent_before(table, key, k),
        j < k,
    ensures
        table[j as int].0@ != key,
    decreases k,
{
    if j < k - 1 {
        lemma_key_absent_before_index(table, key, (k - 1) as nat, j);
    }
}

proof fn lemma_key_absent_shift<V>(table: Seq<(&'static str, V)>, key: Seq<char>, k: nat, j: nat)
    requires
        0 < k <= table.len(),
        key_absent_before(table, key, k),
        j <= k - 1,
    ensures
        key_absent_before(table.drop_first(), key, j),
    decreases j,
{
    if j > 0 {
        lemma_key_absent_before_index(table, key, k, j);
        lemma_key_absent_shift(table, key, k, (j - 1) as nat);
    }
}

/// Looks `key` up in a static table of `(name, value)` pairs; the first match wins.
pub fn lookup_static<V: Copy>(table: &[(&'static str, V)], key: &str) -> (r: Option<V>)
    ensures
        r == first_value_for(table@, key@),
{
    let mut i: usize = 0;
    assert(table@.skip(0) =~= table@);
    while i < table.len()
        invariant
            0 <= i <= table@.len(),
            first_value_for(table@, key@) == first_value_for(table@.skip(i as int), key@),
        decreases table@.len() - i,
    {
        let entry = table[i];
        assert(table@.skip(i as int)[0] == table@[i as int]);
        if str_eq(entry.0, key) {
            return Some(entry.1);
        }
        assert(table@.skip(i as int).drop_first() =~= table@.skip(i + 1));
        i = i + 1;
    }
    None
}

} // verus!
