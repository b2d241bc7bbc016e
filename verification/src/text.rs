//! Small exact operations on text that the rest of the library is specified with.

use vstd::prelude::*;

verus! {

/// The character view of an optional string.
pub open spec fn optional_text(value: Option<String>) -> Option<Seq<char>> {
    match value {
        Some(text) => Some(text@),
        None => None,
    }
}

/// A copy of an optional string.
pub fn copy_optional_text(value: &Option<String>) -> (copy: Option<String>)
    ensures
        optional_text(copy) == optional_text(*value),
{
    match value {
        Some(v) => Some(v.clone()),
        None => None,
    }
}

/// Whether two optional strings hold the same text (both absent counts as the same).
pub fn same_optional_text(left: &Option<String>, right: &Option<String>) -> (same: bool)
    ensures
        same == (optional_text(*left) == optional_text(*right)),
{
    match (left, right) {
        (Some(left), Some(right)) => *left == *right,
        (None, None) => true,
        _ => false,
    }
}

/// Whether an optional string is present and holds `expected`.
pub fn optional_text_is(value: &Option<String>, expected: &str) -> (holds: bool)
    ensures
        holds == (optional_text(*value) == Some(expected@)),
{
    match value {
        Some(text) => text_equals(text.as_str(), expected),
        None => false,
    }
}

/// Whether two strings hold the same characters.
pub fn text_equals(left: &str, right: &str) -> (same: bool)
    ensures
        same == (left@ == right@),
{
    let n = left.unicode_len();
    let m = right.unicode_len();
    if n != m {
        return false;
    }
    let mut i: usize = 0;
    while i < n
        invariant
            n == left@.len(),
            m == right@.len(),
            n == m,
            i <= n,
            forall|j: int| 0 <= j < i ==> left@[j] == right@[j],
        decreases n - i,
    {
        if left.get_char(i) != right.get_char(i) {
            return false;
        }
        i = i + 1;
    }
    assert(left@ =~= right@);
    true
}


/// The Unicode `White_Space` property: exactly the characters `char::is_whitespace` accepts.
pub open spec fn is_white_space(c: char) -> bool {
    let v = c as u32;
    (0x9 <= v <= 0xD) || v == 0x20 || v == 0x85 || v == 0xA0 || v == 0x1680 || (0x2000 <= v
        <= 0x200A) || v == 0x2028 || v == 0x2029 || v == 0x202F || v == 0x205F || v == 0x3000
}

/// Whether `c` has the Unicode `White_Space` property.
pub fn white_space(c: char) -> (space: bool)
    ensures
        space == is_white_space(c),
{
    let v = c as u32;
    (0x9 <= v && v <= 0xD) || v == 0x20 || v == 0x85 || v == 0xA0 || v == 0x1680 || (0x2000 <= v
        && v <= 0x200A) || v == 0x2028 || v == 0x2029 || v == 0x202F || v == 0x205F || v == 0x3000
}

/// `s` without its leading white space.
pub open spec fn trim_start(s: Seq<char>) -> Seq<char>
    decreases s.len(),
{
    if s.len() > 0 && is_white_space(s[0]) {
        trim_start(s.drop_first())
    } else {
        s
    }
}

/// `s` without its trailing white space.
pub open spec fn trim_end(s: Seq<char>) -> Seq<char>
    decreases s.len(),
{
    if s.len() > 0 && is_white_space(s.last()) {
        trim_end(s.drop_last())
    } else {
        s
    }
}

/// `s` without leading and trailing white space, as `str::trim` returns it.
pub open spec fn trimmed(s: Seq<char>) -> Seq<char> {
    trim_end(trim_start(s))
}

/// Every character of `s` is white space (so `s` trims to nothing).
pub open spec fn is_blank(s: Seq<char>) -> bool {
    forall|i: int| 0 <= i < s.len() ==> is_white_space(#[trigger] s[i])
}

proof fn lemma_trim_start_skip(s: Seq<char>, k: int)
    requires
        0 <= k <= s.len(),
        forall|i: int| 0 <= i < k ==> is_white_space(#[trigger] s[i]),
        k == s.len() || !is_white_space(s[k]),
    ensures
        trim_start(s) == s.skip(k),
    decreases k,
{
    if k == 0 {
        assert(s.skip(0) =~= s);
    } else {
        let t = s.drop_first();
        assert forall|i: int| 0 <= i < k - 1 implies is_white_space(#[trigger] t[i]) by {
            assert(t[i] == s[i + 1]);
        }
        if k < s.len() {
            assert(t[k - 1] == s[k]);
        }
        lemma_trim_start_skip(t, k - 1);
        assert(t.skip(k - 1) =~= s.skip(k));
    }
}

proof fn lemma_trim_end_take(s: Seq<char>, k: int)
    requires
        0 <= k <= s.len(),
        forall|i: int| k <= i < s.len() ==> is_white_space(#[trigger] s[i]),
        k == 0 || !is_white_space(s[k - 1]),
    ensures
        trim_end(s) == s.take(k),
    decreases s.len() - k,
{
    if k == s.len() {
        assert(s.take(k) =~= s);
    } else {
        let t = s.drop_last();
        assert forall|i: int| k <= i < t.len() implies is_white_space(#[trigger] t[i]) by {
            assert(t[i] == s[i]);
        }
        if k > 0 {
            assert(t[k - 1] == s[k - 1]);
        }
        lemma_trim_end_take(t, k);
        assert(t.take(k) =~= s.take(k));
    }
}

proof fn lemma_blank_trims_to_nothing(s: Seq<char>)
    ensures
        is_blank(s) <==> trimmed(s).len() == 0,
{
    if is_blank(s) {
        lemma_trim_start_skip(s, s.len() as int);
        assert(s.skip(s.len() as int).len() == 0);
        assert(trim_start(s) =~= Seq::<char>::empty());
        assert(trim_end(Seq::<char>::empty()) == Seq::<char>::empty());
    } else {
        let j = choose|j: int| 0 <= j < s.len() && !is_white_space(#[trigger] s[j]);
        lemma_first_non_space(s, j);
    }
}

proof fn lemma_first_non_space(s: Seq<char>, j: int)
    requires
        0 <= j < s.len(),
        !is_white_space(s[j]),
    ensures
        trimmed(s).len() > 0,
    decreases j,
{
    if j == 0 {
        lemma_trim_start_skip(s, 0);
        let u = trim_start(s);
        assert(u.len() > 0 && !is_white_space(u.last()) ==> trim_end(u) == u);
        if is_white_space(u.last()) {
            // the last non-space character of u keeps trim_end nonempty
            lemma_trim_end_keeps(u, 0);
        }
    } else if is_white_space(s[0]) {
        let t = s.drop_first();
        assert(t[j - 1] == s[j]);
        lemma_first_non_space(t, j - 1);
        assert(trim_start(s) == trim_start(t));
    } else {
        lemma_first_non_space(s, 0);
    }
}

proof fn lemma_trim_end_keeps(u: Seq<char>, j: int)
    requires
        0 <= j < u.len(),
        !is_white_space(u[j]),
    ensures
        trim_end(u).len() > j,
    decreases u.len(),
{
    if is_white_space(u.last()) {
        let t = u.drop_last();
        assert(j < t.len());
        assert(t[j] == u[j]);
        lemma_trim_end_keeps(t, j);
    }
}

/// A trimmed text starts and ends with a character that is not white space.
pub proof fn lemma_trimmed_edges(s: Seq<char>)
    ensures
        trimmed(s).len() > 0 ==> !is_white_space(trimmed(s)[0]),
        trimmed(s).len() > 0 ==> !is_white_space(trimmed(s).last()),
{
    lemma_trim_start_front(s);
    lemma_trim_end_back(trim_start(s));
    lemma_trim_end_is_prefix(trim_start(s));
}

proof fn lemma_trim_start_front(s: Seq<char>)
    ensures
        trim_start(s).len() > 0 ==> !is_white_space(trim_start(s)[0]),
    decreases s.len(),
{
    if s.len() > 0 && is_white_space(s[0]) {
        lemma_trim_start_front(s.drop_first());
    }
}

proof fn lemma_trim_end_back(s: Seq<char>)
    ensures
        trim_end(s).len() > 0 ==> !is_white_space(trim_end(s).last()),
    decreases s.len(),
{
    if s.len() > 0 && is_white_space(s.last()) {
        lemma_trim_end_back(s.drop_last());
    }
}

proof fn lemma_trim_end_is_prefix(s: Seq<char>)
    ensures
        trim_end(s).len() <= s.len(),
        forall|i: int| 0 <= i < trim_end(s).len() ==> trim_end(s)[i] == s[i],
    decreases s.len(),
{
    if s.len() > 0 && is_white_space(s.last()) {
        lemma_trim_end_is_prefix(s.drop_last());
        assert forall|i: int| 0 <= i < trim_end(s).len() implies trim_end(s)[i] == s[i] by {
            assert(s.drop_last()[i] == s[i]);
        }
    }
}

/// The string `text` with its leading and trailing white space removed.
pub fn trim(text: &str) -> (result: String)
    ensures
        result@ == trimmed(text@),
{
    let n = text.unicode_len();
    let mut start: usize = 0;
    while start < n && white_space(text.get_char(start))
        invariant
            n == text@.len(),
            start <= n,
            forall|i: int| 0 <= i < start ==> is_white_space(#[trigger] text@[i]),
        decreases n - start,
    {
        start = start + 1;
    }
    proof {
        lemma_trim_start_skip(text@, start as int);
    }
    let mut end: usize = n;
    while end > start && white_space(text.get_char(end - 1))
        invariant
            n == text@.len(),
            start <= end <= n,
            forall|i: int| end <= i < n ==> is_white_space(#[trigger] text@[i]),
        decreases end,
    {
        end = end - 1;
    }
    proof {
        let u = text@.skip(start as int);
        let k = end - start;
        assert forall|i: int| k <= i < u.len() implies is_white_space(#[trigger] u[i]) by {
            assert(u[i] == text@[i + start]);
        }
        if k > 0 {
            assert(u[k - 1] == text@[end - 1]);
        }
        lemma_trim_end_take(u, k as int);
        assert(u.take(k as int) =~= text@.subrange(start as int, end as int));
    }
    String::from_str(text.substring_char(start, end))
}

/// The string `text` with its leading white space removed, as `str::trim_start` returns it.
pub fn trim_leading(text: &str) -> (result: String)
    ensures
        result@ == trim_start(text@),
{
    let n = text.unicode_len();
    let mut start: usize = 0;
    while start < n && white_space(text.get_char(start))
        invariant
            n == text@.len(),
            start <= n,
            forall|i: int| 0 <= i < start ==> is_white_space(#[trigger] text@[i]),
        decreases n - start,
    {
        start = start + 1;
    }
    proof {
        lemma_trim_start_skip(text@, start as int);
        assert(text@.subrange(start as int, n as int) =~= text@.skip(start as int));
    }
    String::from_str(text.substring_char(start, n))
}

/// Whether `text` trims to nothing.
pub fn blank(text: &str) -> (empty: bool)
    ensures
        empty == is_blank(text@),
        empty == (trimmed(text@).len() == 0),
{
    proof {
        lemma_blank_trims_to_nothing(text@);
    }
    let n = text.unicode_len();
    let mut i: usize = 0;
    while i < n
        invariant
            n == text@.len(),
            i <= n,
            forall|j: int| 0 <= j < i ==> is_white_space(#[trigger] text@[j]),
        decreases n - i,
    {
        if !white_space(text.get_char(i)) {
            assert(!is_white_space(text@[i as int]));
            proof {
                lemma_blank_trims_to_nothing(text@);
            }
            return false;
        }
        i = i + 1;
    }
    true
}

/// Whether `needle` occurs in `hay` starting at position `at`.
pub open spec fn occurs_at(hay: Seq<char>, needle: Seq<char>, at: int) -> bool {
    0 <= at && at + needle.len() <= hay.len() && hay.subrange(at, at + needle.len()) == needle
}

/// Whether `needle` occurs anywhere in `hay`, as `str::contains` with a string pattern.
pub open spec fn contains_text(hay: Seq<char>, needle: Seq<char>) -> bool {
    exists|at: int| occurs_at(hay, needle, at)
}

/// Whether `needle` occurs in `hay`.
pub fn text_contains(hay: &str, needle: &str) -> (found: bool)
    ensures
        found == contains_text(hay@, needle@),
{
    let n = hay.unicode_len();
    let m = needle.unicode_len();
    if m > n {
        assert forall|at: int| !occurs_at(hay@, needle@, at) by {}
        return false;
    }
    let mut at: usize = 0;
    while at <= n - m
        invariant
            n == hay@.len(),
            m == needle@.len(),
            m <= n,
            at <= n - m + 1,
            forall|p: int| 0 <= p < at ==> !occurs_at(hay@, needle@, p),
        decreases n - m + 1 - at,
    {
        let mut k: usize = 0;
        while k < m && hay.get_char(at + k) == needle.get_char(k)
            invariant
                n == hay@.len(),
                m == needle@.len(),
                m <= n,
                at <= n - m,
                k <= m,
                forall|q: int| 0 <= q < k ==> hay@[at + q] == needle@[q],
            decreases m - k,
        {
            k = k + 1;
        }
        if k == m {
            assert(hay@.subrange(at as int, at + m) =~= needle@);
            assert(occurs_at(hay@, needle@, at as int));
            return true;
        }
        assert(hay@.subrange(at as int, at + m)[k as int] != needle@[k as int]);
        at = at + 1;
    }
    assert forall|p: int| !occurs_at(hay@, needle@, p) by {
        if 0 <= p && p + needle@.len() <= hay@.len() {
            assert(p < at);
        }
    }
    false
}

/// `c` with `A`..`Z` mapped to `a`..`z`, as `char::to_ascii_lowercase` does.
pub open spec fn ascii_lower(c: char) -> char {
    if 'A' <= c <= 'Z' {
        ((c as u32) + 32) as char
    } else {
        c
    }
}

/// `s` with every ASCII capital letter lowered.
pub open spec fn ascii_lowercased(s: Seq<char>) -> Seq<char> {
    s.map_values(|c: char| ascii_lower(c))
}


/// Lexicographic order on texts by code point: the order `String`'s `Ord` uses.
pub open spec fn text_less(a: Seq<char>, b: Seq<char>) -> bool
    decreases a.len(),
{
    if a.len() == 0 {
        b.len() > 0
    } else if b.len() == 0 {
        false
    } else if a[0] != b[0] {
        (a[0] as int) < (b[0] as int)
    } else {
        text_less(a.drop_first(), b.drop_first())
    }
}

pub proof fn lemma_text_less_irreflexive(a: Seq<char>)
    ensures
        !text_less(a, a),
    decreases a.len(),
{
    if a.len() > 0 {
        lemma_text_less_irreflexive(a.drop_first());
    }
}

pub proof fn lemma_text_less_transitive(a: Seq<char>, b: Seq<char>, c: Seq<char>)
    requires
        text_less(a, b),
        text_less(b, c),
    ensures
        text_less(a, c),
    decreases a.len(),
{
    if a.len() > 0 && b.len() > 0 && c.len() > 0 && a[0] == b[0] && b[0] == c[0] {
        lemma_text_less_transitive(a.drop_first(), b.drop_first(), c.drop_first());
    }
}

pub proof fn lemma_text_less_total(a: Seq<char>, b: Seq<char>)
    ensures
        a == b || text_less(a, b) || text_less(b, a),
    decreases a.len(),
{
    if a.len() > 0 && b.len() > 0 && a[0] == b[0] {
        lemma_text_less_total(a.drop_first(), b.drop_first());
        if a.drop_first() == b.drop_first() {
            assert(a =~= seq![a[0]] + a.drop_first());
            assert(b =~= seq![b[0]] + b.drop_first());
        }
    } else if a.len() == 0 && b.len() == 0 {
        assert(a =~= b);
    } else if a.len() > 0 && b.len() > 0 {
        assert((a[0] as int) != (b[0] as int));
    }
}

/// Whether `a` sorts strictly before `b`.
pub fn text_precedes(a: &str, b: &str) -> (less: bool)
    ensures
        less == text_less(a@, b@),
{
    let n = a.unicode_len();
    let m = b.unicode_len();
    let mut i: usize = 0;
    assert(a@.skip(0) =~= a@);
    assert(b@.skip(0) =~= b@);
    while i < n && i < m && a.get_char(i) == b.get_char(i)
        invariant
            n == a@.len(),
            m == b@.len(),
            i <= n,
            i <= m,
            text_less(a@, b@) == text_less(a@.skip(i as int), b@.skip(i as int)),
        decreases n - i,
    {
        assert(a@.skip(i as int).drop_first() =~= a@.skip(i + 1));
        assert(b@.skip(i as int).drop_first() =~= b@.skip(i + 1));
        i = i + 1;
    }
    if i == n {
        i < m
    } else if i == m {
        false
    } else {
        let x = a.get_char(i);
        let y = b.get_char(i);
        assert(0 <= (x as int) <= 0x10FFFF && 0 <= (y as int) <= 0x10FFFF);
        (x as u32) < (y as u32)
    }
}

/// The texts held by a list of strings.
pub open spec fn text_views(values: Seq<String>) -> Seq<Seq<char>> {
    values.map_values(|value: String| value@)
}

/// A list of texts in strictly increasing order; no text appears twice.
/// Whether two lists hold the same texts in the same order.
pub fn same_texts(left: &Vec<String>, right: &Vec<String>) -> (same: bool)
    ensures
        same == (text_views(left@) == text_views(right@)),
{
    if left.len() != right.len() {
        proof {
            assert(text_views(left@).len() != text_views(right@).len());
        }
        return false;
    }
    let mut i: usize = 0;
    while i < left.len()
        invariant
            i <= left@.len(),
            left@.len() == right@.len(),
            forall|j: int| 0 <= j < i ==> left@[j]@ == right@[j]@,
        decreases left@.len() - i,
    {
        if !text_equals(left[i].as_str(), right[i].as_str()) {
            proof {
                assert(text_views(left@)[i as int] != text_views(right@)[i as int]);
            }
            return false;
        }
        i = i + 1;
    }
    proof {
        assert(text_views(left@) =~= text_views(right@));
    }
    true
}

pub open spec fn strictly_sorted(values: Seq<Seq<char>>) -> bool {
    forall|i: int, j: int| 0 <= i < j < values.len() ==> text_less(values[i], values[j])
}

/// Add `value` to a strictly sorted list unless it is already there.
pub fn insert_text_sorted(values: &mut Vec<String>, value: String)
    requires
        strictly_sorted(text_views(old(values)@)),
    ensures
        strictly_sorted(text_views(final(values)@)),
        text_views(final(values)@).to_set() == text_views(old(values)@).to_set().insert(value@),
{
    let ghost before = text_views(values@);
    let mut p: usize = 0;
    while p < values.len() && text_precedes(values[p].as_str(), value.as_str())
        invariant
            p <= values@.len(),
            values@ == old(values)@,
            before == text_views(values@),
            strictly_sorted(before),
            forall|j: int| 0 <= j < p ==> text_less(#[trigger] before[j], value@),
        decreases values@.len() - p,
    {
        p = p + 1;
    }
    if p < values.len() && text_equals(values[p].as_str(), value.as_str()) {
        assert(text_views(values@).to_set().insert(value@) =~= text_views(values@).to_set()) by {
            assert(before[p as int] == value@);
            assert(before.contains(value@));
        }
        return;
    }
    proof {
        if p < values@.len() {
            lemma_text_less_total(before[p as int], value@);
        }
    }
    values.insert(p, value);
    proof {
        let after = text_views(values@);
        assert(after =~= before.insert(p as int, value@));
        assert forall|i: int, j: int| 0 <= i < j < after.len() implies text_less(
            after[i],
            after[j],
        ) by {
            if j < p {
            } else if j == p {
            } else if i < p {
                if j == p + 1 {
                    lemma_text_less_transitive(after[i], value@, after[j]);
                } else {
                    assert(text_less(before[i], before[p as int]));
                    lemma_text_less_transitive(before[i], before[p as int], before[j - 1]);
                }
            } else if i == p {
                if j - 1 > p {
                    lemma_text_less_transitive(value@, before[p as int], before[j - 1]);
                }
            }
        }
        assert(after.to_set() =~= before.to_set().insert(value@)) by {
            assert forall|t: Seq<char>| after.to_set().contains(t) implies before.to_set().insert(
                value@,
            ).contains(t) by {
                let k = choose|k: int| 0 <= k < after.len() && after[k] == t;
                if k < p {
                    assert(before[k] == t);
                } else if k > p {
                    assert(before[k - 1] == t);
                }
            }
            assert forall|t: Seq<char>| before.to_set().insert(value@).contains(t) implies after.to_set().contains(t) by {
                if t == value@ {
                    assert(after[p as int] == t);
                } else {
                    let k = choose|k: int| 0 <= k < before.len() && before[k] == t;
                    if k < p {
                        assert(after[k] == t);
                    } else {
                        assert(after[k + 1] == t);
                    }
                }
            }
        }
    }
}


/// The strictly sorted list of the texts in the finite set `texts`.
pub open spec fn sorted_texts(texts: Set<Seq<char>>) -> Seq<Seq<char>> {
    choose|list: Seq<Seq<char>>| strictly_sorted(list) && list.to_set() == texts
}

/// Two strictly sorted lists with the same members are the same list.
pub proof fn lemma_sorted_lists_with_same_members(a: Seq<Seq<char>>, b: Seq<Seq<char>>)
    requires
        strictly_sorted(a),
        strictly_sorted(b),
        a.to_set() == b.to_set(),
    ensures
        a == b,
    decreases a.len(),
{
    if a.len() == 0 {
        if b.len() > 0 {
            assert(b.to_set().contains(b[0]));
        }
        assert(a =~= b);
    } else if b.len() == 0 {
        assert(a.to_set().contains(a[0]));
    } else {
        assert(a.to_set().contains(a[0]));
        let k = choose|k: int| 0 <= k < b.len() && b[k] == a[0];
        assert(b.to_set().contains(b[0]));
        let m = choose|m: int| 0 <= m < a.len() && a[m] == b[0];
        if k > 0 {
            assert(text_less(b[0], b[k]));
            if m > 0 {
                assert(text_less(a[0], a[m]));
                lemma_text_less_transitive(a[0], b[0], a[0]);
                lemma_text_less_irreflexive(a[0]);
            } else {
                lemma_text_less_irreflexive(a[0]);
            }
        }
        assert(a[0] == b[0]);
        let ta = a.drop_first();
        let tb = b.drop_first();
        assert forall|t: Seq<char>| ta.to_set().contains(t) implies tb.to_set().contains(t) by {
            let i = choose|i: int| 0 <= i < ta.len() && ta[i] == t;
            assert(a[i + 1] == t);
            assert(a.to_set().contains(t));
            let j = choose|j: int| 0 <= j < b.len() && b[j] == t;
            if j == 0 {
                assert(text_less(a[0], a[i + 1]));
                lemma_text_less_irreflexive(a[0]);
            }
            assert(tb[j - 1] == t);
        }
        assert forall|t: Seq<char>| tb.to_set().contains(t) implies ta.to_set().contains(t) by {
            let i = choose|i: int| 0 <= i < tb.len() && tb[i] == t;
            assert(b[i + 1] == t);
            assert(b.to_set().contains(t));
            let j = choose|j: int| 0 <= j < a.len() && a[j] == t;
            if j == 0 {
                assert(text_less(b[0], b[i + 1]));
                lemma_text_less_irreflexive(b[0]);
            }
            assert(ta[j - 1] == t);
        }
        assert(ta.to_set() =~= tb.to_set());
        lemma_sorted_lists_with_same_members(ta, tb);
        assert(a =~= seq![a[0]] + ta);
        assert(b =~= seq![b[0]] + tb);
    }
}

/// A strictly sorted list is the sorted list of its own members.
pub proof fn lemma_sorted_is_canonical(list: Seq<Seq<char>>)
    requires
        strictly_sorted(list),
    ensures
        sorted_texts(list.to_set()) == list,
        list.to_set().len() == list.len(),
{
    let chosen = sorted_texts(list.to_set());
    assert(strictly_sorted(chosen) && chosen.to_set() == list.to_set());
    lemma_sorted_lists_with_same_members(chosen, list);
    assert(list.no_duplicates()) by {
        assert forall|i: int, j: int| 0 <= i < list.len() && 0 <= j < list.len() && i != j implies list[i] != list[j] by {
            if i < j {
                assert(text_less(list[i], list[j]));
            } else {
                assert(text_less(list[j], list[i]));
            }
            if list[i] == list[j] {
                lemma_text_less_irreflexive(list[i]);
            }
        }
    }
    list.unique_seq_to_set();
}

/// A strictly sorted list with `t` added in its place (unchanged when present).
pub open spec fn sorted_with(list: Seq<Seq<char>>, t: Seq<char>) -> Seq<Seq<char>>
    decreases list.len(),
{
    if list.len() == 0 {
        seq![t]
    } else if list[0] == t {
        list
    } else if text_less(t, list[0]) {
        seq![t] + list
    } else {
        seq![list[0]] + sorted_with(list.drop_first(), t)
    }
}

pub proof fn lemma_sorted_with(list: Seq<Seq<char>>, t: Seq<char>)
    requires
        strictly_sorted(list),
    ensures
        strictly_sorted(sorted_with(list, t)),
        sorted_with(list, t).to_set() == list.to_set().insert(t),
        forall|i: int|
            0 <= i < sorted_with(list, t).len() ==> #[trigger] sorted_with(list, t)[i] == t
                || list.contains(sorted_with(list, t)[i]),
    decreases list.len(),
{
    let r = sorted_with(list, t);
    if list.len() == 0 {
        assert(r.to_set() =~= list.to_set().insert(t)) by {
            assert(r[0] == t);
        }
    } else if list[0] == t {
        assert(r.to_set() =~= list.to_set().insert(t)) by {
            assert(list.to_set().contains(t));
        }
    } else if text_less(t, list[0]) {
        assert forall|i: int, j: int| 0 <= i < j < r.len() implies text_less(r[i], r[j]) by {
            if i == 0 {
                if j > 1 {
                    lemma_text_less_transitive(t, list[0], list[j - 1]);
                }
            } else {
                assert(r[i] == list[i - 1] && r[j] == list[j - 1]);
            }
        }
        assert(r.to_set() =~= list.to_set().insert(t)) by {
            assert forall|u: Seq<char>| r.to_set().contains(u) implies list.to_set().insert(t).contains(u) by {
                let k = choose|k: int| 0 <= k < r.len() && r[k] == u;
                if k > 0 {
                    assert(list[k - 1] == u);
                }
            }
            assert forall|u: Seq<char>| list.to_set().insert(t).contains(u) implies r.to_set().contains(u) by {
                if u == t {
                    assert(r[0] == u);
                } else {
                    let k = choose|k: int| 0 <= k < list.len() && list[k] == u;
                    assert(r[k + 1] == u);
                }
            }
        }
        assert forall|i: int| 0 <= i < r.len() implies #[trigger] r[i] == t || list.contains(r[i]) by {
            if i > 0 {
                assert(r[i] == list[i - 1]);
            }
        }
    } else {
        let rest = list.drop_first();
        assert forall|i: int, j: int| 0 <= i < j < rest.len() implies text_less(rest[i], rest[j]) by {
            assert(rest[i] == list[i + 1] && rest[j] == list[j + 1]);
        }
        lemma_sorted_with(rest, t);
        let tail = sorted_with(rest, t);
        lemma_text_less_total(t, list[0]);
        assert(text_less(list[0], t));
        assert forall|i: int, j: int| 0 <= i < j < r.len() implies text_less(r[i], r[j]) by {
            if i == 0 {
                let x = tail[j - 1];
                if x == t {
                } else {
                    assert(rest.contains(x));
                    let k = choose|k: int| 0 <= k < rest.len() && rest[k] == x;
                    assert(list[k + 1] == x);
                }
            } else {
                assert(r[i] == tail[i - 1] && r[j] == tail[j - 1]);
            }
        }
        assert(r.to_set() =~= list.to_set().insert(t)) by {
            assert forall|u: Seq<char>| r.to_set().contains(u) implies list.to_set().insert(t).contains(u) by {
                let k = choose|k: int| 0 <= k < r.len() && r[k] == u;
                if k > 0 {
                    assert(tail[k - 1] == u);
                    assert(tail.to_set().contains(u));
                    if u != t {
                        let m = choose|m: int| 0 <= m < rest.len() && rest[m] == u;
                        assert(list[m + 1] == u);
                    }
                }
            }
            assert forall|u: Seq<char>| list.to_set().insert(t).contains(u) implies r.to_set().contains(u) by {
                if u == list[0] {
                    assert(r[0] == u);
                } else {
                    if u != t {
                        let k = choose|k: int| 0 <= k < list.len() && list[k] == u;
                        assert(rest[k - 1] == u);
                    }
                    assert(rest.to_set().insert(t).contains(u));
                    assert(tail.to_set().contains(u));
                    let m = choose|m: int| 0 <= m < tail.len() && tail[m] == u;
                    assert(r[m + 1] == u);
                }
            }
        }
        assert forall|i: int| 0 <= i < r.len() implies #[trigger] r[i] == t || list.contains(r[i]) by {
            if i == 0 {
                assert(list[0] == r[0]);
            } else {
                assert(r[i] == tail[i - 1]);
                if tail[i - 1] != t {
                    assert(rest.contains(tail[i - 1]));
                    let k = choose|k: int| 0 <= k < rest.len() && rest[k] == tail[i - 1];
                    assert(list[k + 1] == r[i]);
                }
            }
        }
    }
}

/// Whether a list of strings holds the text `value`.
pub fn list_holds_text(values: &Vec<String>, value: &str) -> (found: bool)
    ensures
        found == text_views(values@).contains(value@),
{
    let mut i: usize = 0;
    while i < values.len()
        invariant
            i <= values@.len(),
            forall|j: int| 0 <= j < i ==> (#[trigger] values@[j])@ != value@,
        decreases values@.len() - i,
    {
        if text_equals(values[i].as_str(), value) {
            assert(text_views(values@)[i as int] == value@);
            return true;
        }
        i = i + 1;
    }
    assert forall|j: int| 0 <= j < text_views(values@).len() implies text_views(values@)[j] != value@ by {
        assert(values@[j]@ == text_views(values@)[j]);
    }
    false
}

// ---------------------------------------------------------------------------
// Decimal numerals
// ---------------------------------------------------------------------------

/// The ASCII digit for `d` (0 to 9).
pub open spec fn digit_char(d: nat) -> char {
    if d == 0 {
        '0'
    } else if d == 1 {
        '1'
    } else if d == 2 {
        '2'
    } else if d == 3 {
        '3'
    } else if d == 4 {
        '4'
    } else if d == 5 {
        '5'
    } else if d == 6 {
        '6'
    } else if d == 7 {
        '7'
    } else if d == 8 {
        '8'
    } else {
        '9'
    }
}

/// The shortest decimal numeral of `n`, as `u64::to_string` writes it.
pub open spec fn decimal_text(n: nat) -> Seq<char>
    decreases n,
{
    if n < 10 {
        seq![digit_char(n)]
    } else {
        decimal_text(n / 10).push(digit_char(n % 10))
    }
}

/// A numeral never starts with a zero unless it is the numeral of zero.
proof fn lemma_decimal_first_digit(n: nat)
    ensures
        decimal_text(n).len() >= 1,
        n >= 10 ==> decimal_text(n)[0] != '0',
        n >= 10 ==> decimal_text(n).len() >= 2,
        n < 10 ==> decimal_text(n).len() == 1,
    decreases n,
{
    if n >= 10 {
        lemma_decimal_first_digit(n / 10);
    }
}

/// Different numbers have different numerals.
pub proof fn lemma_decimal_text_injective(a: nat, b: nat)
    requires
        decimal_text(a) == decimal_text(b),
    ensures
        a == b,
    decreases a,
{
    lemma_decimal_first_digit(a);
    lemma_decimal_first_digit(b);
    if a < 10 && b < 10 {
        assert(decimal_text(a) == seq![digit_char(a)]);
        assert(decimal_text(b) == seq![digit_char(b)]);
        assert(seq![digit_char(a)][0] == digit_char(a));
        assert(seq![digit_char(b)][0] == digit_char(b));
        assert(digit_char(a) == digit_char(b));
        assert(a == b);
    } else if a < 10 {
        assert(decimal_text(b).len() >= 2);
    } else if b < 10 {
        assert(decimal_text(a).len() >= 2);
    } else {
        let sa = decimal_text(a);
        let sb = decimal_text(b);
        assert(sa.drop_last() =~= decimal_text(a / 10));
        assert(sb.drop_last() =~= decimal_text(b / 10));
        lemma_decimal_text_injective(a / 10, b / 10);
        assert(sa.last() == digit_char(a % 10));
        assert(sb.last() == digit_char(b % 10));
        assert(a % 10 == b % 10);
        assert(a == (a / 10) * 10 + a % 10);
        assert(b == (b / 10) * 10 + b % 10);
        assert(a == b);
    }
}

fn digit_text(d: u64) -> (text: &'static str)
    requires
        d < 10,
    ensures
        text@ == seq![digit_char(d as nat)],
{
    proof {
        reveal_strlit("0");
        reveal_strlit("1");
        reveal_strlit("2");
        reveal_strlit("3");
        reveal_strlit("4");
        reveal_strlit("5");
        reveal_strlit("6");
        reveal_strlit("7");
        reveal_strlit("8");
        reveal_strlit("9");
    }
    if d == 0 {
        "0"
    } else if d == 1 {
        "1"
    } else if d == 2 {
        "2"
    } else if d == 3 {
        "3"
    } else if d == 4 {
        "4"
    } else if d == 5 {
        "5"
    } else if d == 6 {
        "6"
    } else if d == 7 {
        "7"
    } else if d == 8 {
        "8"
    } else {
        "9"
    }
}

/// Append the decimal numeral of `n` to `out`.
pub fn append_decimal(out: &mut String, n: u64)
    ensures
        final(out)@ == old(out)@ + decimal_text(n as nat),
    decreases n,
{
    if n >= 10 {
        append_decimal(out, n / 10);
    }
    out.append(digit_text(n % 10));
    proof {
        if n >= 10 {
            assert(decimal_text(n as nat) == decimal_text((n / 10) as nat).push(digit_char((n % 10) as nat)));
        }
    }
}

// ---------------------------------------------------------------------------
// Reading unsigned numerals
// ---------------------------------------------------------------------------

pub open spec fn is_ascii_digit(c: char) -> bool {
    '0' <= c <= '9'
}

/// The number an all-digit numeral denotes.
pub open spec fn digits_value(digits: Seq<char>) -> nat
    decreases digits.len(),
{
    if digits.len() == 0 {
        0
    } else {
        digits_value(digits.drop_last()) * 10 + ((digits.last() as u32) - ('0' as u32)) as nat
    }
}

/// `text` without the `+` sign it may start with.
pub open spec fn numeral_digits(text: Seq<char>) -> Seq<char> {
    if text.len() > 0 && text[0] == '+' {
        text.skip(1)
    } else {
        text
    }
}

pub open spec fn all_digits(digits: Seq<char>) -> bool {
    forall|i: int| 0 <= i < digits.len() ==> is_ascii_digit(#[trigger] digits[i])
}

/// The digits of an unsigned numeral as the standard integer parsers accept it:
/// an optional `+` and then at least one ASCII digit, nothing else.
pub open spec fn unsigned_digits(text: Seq<char>) -> Option<Seq<char>> {
    if numeral_digits(text).len() > 0 && all_digits(numeral_digits(text)) {
        Some(numeral_digits(text))
    } else {
        None
    }
}

/// The value of `text` read as an unsigned integer no larger than `max`.
pub open spec fn parsed_unsigned(text: Seq<char>, max: nat) -> Option<nat> {
    match unsigned_digits(text) {
        Some(digits) => if digits_value(digits) <= max {
            Some(digits_value(digits))
        } else {
            None
        },
        None => None,
    }
}

proof fn lemma_digits_value_grows(digits: Seq<char>, k: int)
    requires
        0 <= k <= digits.len(),
        all_digits(digits),
    ensures
        digits_value(digits.take(k)) <= digits_value(digits),
    decreases digits.len() - k,
{
    if k < digits.len() {
        lemma_digits_value_grows(digits, k + 1);
        assert(digits.take(k + 1).drop_last() =~= digits.take(k));
    } else {
        assert(digits.take(k) =~= digits);
    }
}

/// Read `text` as an unsigned integer no larger than `max`, as `u64::from_str`
/// and `u32::from_str` do.
pub fn parse_unsigned(text: &str, max: u64) -> (value: Option<u64>)
    ensures
        match value {
            Some(v) => parsed_unsigned(text@, max as nat) == Some(v as nat),
            None => parsed_unsigned(text@, max as nat).is_none(),
        },
{
    let n = text.unicode_len();
    let mut start: usize = 0;
    if n > 0 && text.get_char(0) == '+' {
        start = 1;
    }
    let ghost digits = numeral_digits(text@);
    proof {
        if start == 0 {
            assert(text@.skip(0) =~= text@);
        }
        assert(digits =~= text@.skip(start as int));
    }
    if start >= n {
        return None;
    }
    let mut value: u64 = 0;
    let mut i: usize = start;
    while i < n
        invariant
            n == text@.len(),
            start <= i <= n,
            digits == numeral_digits(text@),
            digits == text@.skip(start as int),
            forall|j: int| 0 <= j < i - start ==> is_ascii_digit(#[trigger] digits[j]),
            value as nat == digits_value(digits.take(i - start)),
            value <= max,
        decreases n - i,
    {
        let c = text.get_char(i);
        proof {
            assert(digits[i - start] == c);
        }
        if !('0' <= c && c <= '9') {
            assert(!is_ascii_digit(digits[i - start]));
            assert(!all_digits(digits));
            return None;
        }
        let d: u64 = (c as u32 - '0' as u32) as u64;
        proof {
            assert(digits.take(i - start + 1).drop_last() =~= digits.take(i - start));
        }
        if value > max / 10 || (value == max / 10 && d > max % 10) {
            proof {
                assert(value * 10 + d > max) by (nonlinear_arith)
                    requires
                        value > max / 10 || (value == max / 10 && d > max % 10),
                        d <= 9,
                ;
                if all_digits(digits) {
                    lemma_digits_value_grows(digits, i - start + 1);
                }
            }
            return None;
        }
        assert(value * 10 + d <= max) by (nonlinear_arith)
            requires
                !(value > max / 10 || (value == max / 10 && d > max % 10)),
                d <= 9,
        ;
        value = value * 10 + d;
        i = i + 1;
    }
    proof {
        assert(digits.take(i - start) =~= digits);
    }
    Some(value)
}

/// Why text is not a signed integer, as `core::num::IntErrorKind` names it.
#[derive(Debug, Clone, Copy, PartialEq, Eq, Structural)]
pub enum IntParseError {
    Empty,
    InvalidDigit,
    PosOverflow,
    NegOverflow,
}

impl IntParseError {
    /// The text the standard library gives the error.
    pub fn message(&self) -> (text: &'static str)
        ensures
            text@ == (match self {
                IntParseError::Empty => "cannot parse integer from empty string"@,
                IntParseError::InvalidDigit => "invalid digit found in string"@,
                IntParseError::PosOverflow => "number too large to fit in target type"@,
                IntParseError::NegOverflow => "number too small to fit in target type"@,
            }),
    {
        match self {
            IntParseError::Empty => "cannot parse integer from empty string",
            IntParseError::InvalidDigit => "invalid digit found in string",
            IntParseError::PosOverflow => "number too large to fit in target type",
            IntParseError::NegOverflow => "number too small to fit in target type",
        }
    }
}

/// Scanning `digits` from the left as a magnitude of at most `max`: the first
/// character that is no digit, or the first digit that takes the magnitude
/// past `max`, stops the scan with its error.
pub open spec fn scanned_magnitude(digits: Seq<char>, max: nat, overflow: IntParseError) -> Result<nat, IntParseError>
    decreases digits.len(),
{
    if digits.len() == 0 {
        Ok(0)
    } else {
        match scanned_magnitude(digits.drop_last(), max, overflow) {
            Err(e) => Err(e),
            Ok(v) => if !is_ascii_digit(digits.last()) {
                Err(IntParseError::InvalidDigit)
            } else if v * 10 + ((digits.last() as u32) - ('0' as u32)) > max {
                Err(overflow)
            } else {
                Ok(v * 10 + ((digits.last() as u32) - ('0' as u32)) as nat)
            },
        }
    }
}

/// `text` read as an `i64`, as `i64::from_str` reads it: an optional sign and
/// at least one digit.
pub open spec fn parsed_i64(text: Seq<char>) -> Result<int, IntParseError> {
    if text.len() == 0 {
        Err(IntParseError::Empty)
    } else if text[0] == '-' || text[0] == '+' {
        let digits = text.skip(1);
        if digits.len() == 0 {
            Err(IntParseError::InvalidDigit)
        } else if text[0] == '-' {
            match scanned_magnitude(digits, 9223372036854775808, IntParseError::NegOverflow) {
                Ok(v) => Ok(-v),
                Err(e) => Err(e),
            }
        } else {
            match scanned_magnitude(digits, 9223372036854775807, IntParseError::PosOverflow) {
                Ok(v) => Ok(v as int),
                Err(e) => Err(e),
            }
        }
    } else {
        match scanned_magnitude(text, 9223372036854775807, IntParseError::PosOverflow) {
            Ok(v) => Ok(v as int),
            Err(e) => Err(e),
        }
    }
}

fn scan_magnitude(text: &str, start: usize, max: u64, overflow: IntParseError) -> (result: Result<u64, IntParseError>)
    requires
        start <= text@.len(),
    ensures
        match result {
            Ok(v) => scanned_magnitude(text@.skip(start as int), max as nat, overflow) == Ok::<nat, IntParseError>(
                v as nat,
            ),
            Err(e) => scanned_magnitude(text@.skip(start as int), max as nat, overflow) == Err::<nat, IntParseError>(
                e,
            ),
        },
{
    let n = text.unicode_len();
    let ghost digits = text@.skip(start as int);
    let mut value: u64 = 0;
    let mut i: usize = start;
    assert(digits.take(0) =~= Seq::<char>::empty());
    while i < n
        invariant
            n == text@.len(),
            start <= i <= n,
            digits == text@.skip(start as int),
            scanned_magnitude(digits.take(i - start), max as nat, overflow) == Ok::<nat, IntParseError>(value as nat),
            value <= max,
        decreases n - i,
    {
        let c = text.get_char(i);
        let ghost prefix = digits.take(i - start + 1);
        proof {
            assert(prefix.drop_last() =~= digits.take(i - start));
            assert(prefix.last() == c);
        }
        if !('0' <= c && c <= '9') {
            proof {
                lemma_scan_stops(digits, i - start + 1, max as nat, overflow);
            }
            return Err(IntParseError::InvalidDigit);
        }
        let d: u64 = (c as u32 - '0' as u32) as u64;
        if value > max / 10 || (value == max / 10 && d > max % 10) {
            proof {
                assert(value * 10 + d > max) by (nonlinear_arith)
                    requires
                        value > max / 10 || (value == max / 10 && d > max % 10),
                        d <= 9,
                ;
                lemma_scan_stops(digits, i - start + 1, max as nat, overflow);
            }
            return Err(overflow);
        }
        assert(value * 10 + d <= max) by (nonlinear_arith)
            requires
                !(value > max / 10 || (value == max / 10 && d > max % 10)),
                d <= 9,
        ;
        value = value * 10 + d;
        i = i + 1;
    }
    assert(digits.take(i - start) =~= digits);
    Ok(value)
}

/// A scan that stops with an error on a prefix stops with the same error on
/// the whole text.
proof fn lemma_scan_stops(digits: Seq<char>, k: int, max: nat, overflow: IntParseError)
    requires
        0 <= k <= digits.len(),
        scanned_magnitude(digits.take(k), max, overflow) is Err,
    ensures
        scanned_magnitude(digits, max, overflow) == scanned_magnitude(digits.take(k), max, overflow),
    decreases digits.len() - k,
{
    if k < digits.len() {
        assert(digits.take(k + 1).drop_last() =~= digits.take(k));
        lemma_scan_stops(digits, k + 1, max, overflow);
    } else {
        assert(digits.take(k) =~= digits);
    }
}

/// Read `text` as an `i64`, as `i64::from_str` does.
pub fn parse_i64(text: &str) -> (result: Result<i64, IntParseError>)
    ensures
        match result {
            Ok(v) => parsed_i64(text@) == Ok::<int, IntParseError>(v as int),
            Err(e) => parsed_i64(text@) == Err::<int, IntParseError>(e),
        },
{
    let n = text.unicode_len();
    if n == 0 {
        return Err(IntParseError::Empty);
    }
    let first = text.get_char(0);
    if first == '-' || first == '+' {
        if n == 1 {
            return Err(IntParseError::InvalidDigit);
        }
        if first == '-' {
            match scan_magnitude(text, 1, 9223372036854775808u64, IntParseError::NegOverflow) {
                Ok(v) => {
                    if v == 9223372036854775808u64 {
                        Ok(i64::MIN)
                    } else {
                        Ok(-(v as i64))
                    }
                },
                Err(e) => Err(e),
            }
        } else {
            match scan_magnitude(text, 1, 9223372036854775807u64, IntParseError::PosOverflow) {
                Ok(v) => Ok(v as i64),
                Err(e) => Err(e),
            }
        }
    } else {
        assert(text@.skip(0) =~= text@);
        match scan_magnitude(text, 0, 9223372036854775807u64, IntParseError::PosOverflow) {
            Ok(v) => Ok(v as i64),
            Err(e) => Err(e),
        }
    }
}

proof fn lemma_decimal_text_digits(n: nat)
    ensures
        all_digits(decimal_text(n)),
        digits_value(decimal_text(n)) == n,
        decimal_text(n).len() > 0,
        decimal_text(n)[0] != '+',
    decreases n,
{
    if n < 10 {
        let s = decimal_text(n);
        assert(s == seq![digit_char(n)]);
        assert(s[0] == digit_char(n));
        assert(s.drop_last() =~= Seq::<char>::empty());
        assert((digit_char(n) as u32) - ('0' as u32) == n);
        assert(digits_value(s) == digits_value(s.drop_last()) * 10 + ((s.last() as u32) - ('0' as u32)) as nat);
    } else {
        lemma_decimal_text_digits(n / 10);
        let s = decimal_text(n);
        assert(s.drop_last() =~= decimal_text(n / 10));
        assert(s.last() == digit_char(n % 10));
        assert((digit_char(n % 10) as u32) - ('0' as u32) == n % 10);
        assert(digits_value(s) == digits_value(s.drop_last()) * 10 + ((s.last() as u32) - ('0' as u32)) as nat);
        assert(n == (n / 10) * 10 + n % 10);
        assert(s[0] == decimal_text(n / 10)[0]);
        assert forall|i: int| 0 <= i < s.len() implies is_ascii_digit(#[trigger] s[i]) by {
            if i < s.len() - 1 {
                assert(s[i] == decimal_text(n / 10)[i]);
            }
        }
    }
}

/// Reading back the numeral of a number gives that number.
pub proof fn law_decimal_round_trip(n: nat, max: nat)
    requires
        n <= max,
    ensures
        parsed_unsigned(decimal_text(n), max) == Some(n),
{
    lemma_decimal_text_digits(n);
}

fn lower_ascii(c: char) -> (lowered: char)
    ensures
        lowered == ascii_lower(c),
{
    if 'A' <= c && c <= 'Z' {
        let wide: u32 = c as u32;
        let code: u8 = c as u8;
        assert(code == wide) by (bit_vector)
            requires
                65 <= wide <= 90,
                code == wide as u8,
        ;
        (code + 32) as char
    } else {
        c
    }
}

/// Whether two texts are equal once ASCII capitals are lowered, as
/// `str::eq_ignore_ascii_case` decides.
pub fn eq_ignore_ascii_case(left: &str, right: &str) -> (same: bool)
    ensures
        same == (ascii_lowercased(left@) == ascii_lowercased(right@)),
{
    let n = left.unicode_len();
    let m = right.unicode_len();
    if n != m {
        proof {
            assert(ascii_lowercased(left@).len() != ascii_lowercased(right@).len());
        }
        return false;
    }
    let mut i: usize = 0;
    while i < n
        invariant
            n == left@.len(),
            m == right@.len(),
            n == m,
            i <= n,
            forall|j: int| 0 <= j < i ==> ascii_lower(left@[j]) == ascii_lower(right@[j]),
        decreases n - i,
    {
        if lower_ascii(left.get_char(i)) != lower_ascii(right.get_char(i)) {
            proof {
                assert(ascii_lowercased(left@)[i as int] != ascii_lowercased(right@)[i as int]);
            }
            return false;
        }
        i = i + 1;
    }
    proof {
        assert(ascii_lowercased(left@) =~= ascii_lowercased(right@));
    }
    true
}

/// Every character of `s` is ASCII.
pub open spec fn all_ascii(s: Seq<char>) -> bool {
    forall|i: int| 0 <= i < s.len() ==> (#[trigger] s[i] as u32) < 128
}

/// The Unicode lowercase mapping of a text, as `str::to_lowercase` computes it.
pub uninterp spec fn unicode_lowercase(text: Seq<char>) -> Seq<char>;

/// Trusted: calls `str::to_lowercase` of std. Its result is the Unicode
/// lowercase mapping of the argument, named `unicode_lowercase`; on an
/// all-ASCII text that mapping lowers `A`..`Z` and keeps every other character.
/// Nothing else about the mapping is stated.
#[verifier::external_body]
pub(crate) fn lowercase(text: &str) -> (lowered: String)
    ensures
        lowered@ == unicode_lowercase(text@),
        all_ascii(text@) ==> lowered@ == ascii_lowercased(text@),
{
    text.to_lowercase()
}

/// Whether `needle` occurs in `hay` once the ASCII capitals of `hay` are lowered.
pub fn text_contains_lowered(hay: &str, needle: &str) -> (found: bool)
    ensures
        found == contains_text(ascii_lowercased(hay@), needle@),
{
    let ghost low = ascii_lowercased(hay@);
    let n = hay.unicode_len();
    let m = needle.unicode_len();
    if m > n {
        assert forall|at: int| !occurs_at(low, needle@, at) by {}
        return false;
    }
    let mut at: usize = 0;
    while at <= n - m
        invariant
            n == hay@.len(),
            low == ascii_lowercased(hay@),
            low.len() == n,
            m == needle@.len(),
            m <= n,
            at <= n - m + 1,
            forall|p: int| 0 <= p < at ==> !occurs_at(low, needle@, p),
        decreases n - m + 1 - at,
    {
        let mut k: usize = 0;
        while k < m && lower_ascii(hay.get_char(at + k)) == needle.get_char(k)
            invariant
                n == hay@.len(),
                low == ascii_lowercased(hay@),
                low.len() == n,
                m == needle@.len(),
                m <= n,
                at <= n - m,
                k <= m,
                forall|q: int| 0 <= q < k ==> low[at + q] == needle@[q],
            decreases m - k,
        {
            k = k + 1;
        }
        if k == m {
            assert(low.subrange(at as int, at + m) =~= needle@);
            assert(occurs_at(low, needle@, at as int));
            return true;
        }
        assert(low.subrange(at as int, at + m)[k as int] != needle@[k as int]);
        at = at + 1;
    }
    assert forall|p: int| !occurs_at(low, needle@, p) by {
        if 0 <= p && p + needle@.len() <= low.len() {
            assert(p < at);
        }
    }
    false
}

} // verus!
