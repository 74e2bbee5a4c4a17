//! The keyword string of a query response: comma-separated `key="value"`
//! entries, looked up by substring containment of the key.

use vstd::prelude::*;

use crate::text::{chars_of, string_of};

verus! {

/// The pieces of `s` between commas, as `str::split(',')` yields them: one
/// more piece than there are commas, empty pieces included.
pub open spec fn split_commas(s: Seq<char>) -> Seq<Seq<char>>
    decreases s.len(),
{
    if s.len() == 0 {
        seq![Seq::empty()]
    } else {
        let prev = split_commas(s.drop_last());
        if s.last() == ',' {
            prev.push(Seq::empty())
        } else {
            prev.update(prev.len() - 1, prev.last().push(s.last()))
        }
    }
}

/// `key` occurs in `s` starting at position `i`.
pub open spec fn occurs_at(s: Seq<char>, key: Seq<char>, i: int) -> bool {
    0 <= i && i + key.len() <= s.len() && s.subrange(i, i + key.len()) == key
}

/// `key` occurs somewhere in `s`.
pub open spec fn contains(s: Seq<char>, key: Seq<char>) -> bool {
    exists|i: int| occurs_at(s, key, i)
}

/// The text after the last `=` of `s`; all of `s` when it has none.
pub open spec fn after_last_eq(s: Seq<char>) -> Seq<char>
    decreases s.len(),
{
    if s.len() == 0 {
        s
    } else if s.last() == '=' {
        Seq::empty()
    } else {
        after_last_eq(s.drop_last()).push(s.last())
    }
}

/// `s` without its trailing double quotes.
pub open spec fn strip_trailing_quotes(s: Seq<char>) -> Seq<char>
    decreases s.len(),
{
    if s.len() > 0 && s.last() == '"' {
        strip_trailing_quotes(s.drop_last())
    } else {
        s
    }
}

/// `s` without its leading double quotes.
pub open spec fn strip_leading_quotes(s: Seq<char>) -> Seq<char>
    decreases s.len(),
{
    if s.len() > 0 && s[0] == '"' {
        strip_leading_quotes(s.drop_first())
    } else {
        s
    }
}

/// `s` without the double quotes at either end.
pub open spec fn trim_quotes(s: Seq<char>) -> Seq<char> {
    strip_leading_quotes(strip_trailing_quotes(s))
}

/// The value that an entry carries: after its last `=`, quotes trimmed.
pub open spec fn entry_value(entry: Seq<char>) -> Seq<char> {
    trim_quotes(after_last_eq(entry))
}

/// The value of the first entry among `entries` that contains `key`.
pub open spec fn first_value(entries: Seq<Seq<char>>, key: Seq<char>) -> Option<Seq<char>>
    decreases entries.len(),
{
    if entries.len() == 0 {
        None
    } else if contains(entries[0], key) {
        Some(entry_value(entries[0]))
    } else {
        first_value(entries.drop_first(), key)
    }
}

/// The value that the keyword string `keywords` gives for `key`, if any.
pub open spec fn keyword_lookup(keywords: Seq<char>, key: Seq<char>) -> Option<Seq<char>> {
    first_value(split_commas(keywords), key)
}

proof fn lemma_first_value_push(entries: Seq<Seq<char>>, last: Seq<char>, key: Seq<char>)
    ensures
        first_value(entries.push(last), key) == (match first_value(entries, key) {
            Some(v) => Some(v),
            None => if contains(last, key) {
                Some(entry_value(last))
            } else {
                None
            },
        }),
    decreases entries.len(),
{
    if entries.len() == 0 {
        assert(entries.push(last).drop_first() =~= Seq::<Seq<char>>::empty());
        assert(first_value(Seq::<Seq<char>>::empty(), key) is None);
        assert(entries.push(last)[0] == last);
    } else {
        assert(entries.push(last)[0] == entries[0]);
        assert(entries.push(last).drop_first() =~= entries.drop_first().push(last));
        lemma_first_value_push(entries.drop_first(), last, key);
    }
}

/// The entry `key="value"`.
pub open spec fn quoted_entry(key: Seq<char>, value: Seq<char>) -> Seq<char> {
    key + seq!['='] + seq!['"'] + value + seq!['"']
}

/// `s` holds no `c`.
pub open spec fn free_of(s: Seq<char>, c: char) -> bool {
    forall|i: int| 0 <= i < s.len() ==> s[i] != c
}

proof fn lemma_split_extend(x: Seq<char>, b: Seq<char>)
    requires
        free_of(b, ','),
        split_commas(x).len() >= 1,
    ensures
        split_commas(x + b) == split_commas(x).update(
            split_commas(x).len() - 1,
            split_commas(x).last() + b,
        ),
    decreases b.len(),
{
    if b.len() == 0 {
        assert(x + b =~= x);
        assert(split_commas(x).last() + b =~= split_commas(x).last());
        assert(split_commas(x).update(split_commas(x).len() - 1, split_commas(x).last())
            =~= split_commas(x));
    } else {
        lemma_split_extend(x, b.drop_last());
        assert((x + b).drop_last() =~= x + b.drop_last());
        assert(split_commas(x).last() + b =~= (split_commas(x).last() + b.drop_last()).push(b.last()));
        assert(b.last() != ',');
        assert(split_commas(x + b) =~= split_commas(x).update(
            split_commas(x).len() - 1,
            split_commas(x).last() + b,
        ));
    }
}

proof fn lemma_after_last_eq_tail(x: Seq<char>, t: Seq<char>)
    requires
        free_of(t, '='),
    ensures
        after_last_eq(x + seq!['='] + t) == t,
    decreases t.len(),
{
    if t.len() == 0 {
        assert(x + seq!['='] + t =~= x.push('='));
        assert((x + seq!['='] + t).drop_last() =~= x);
    } else {
        lemma_after_last_eq_tail(x, t.drop_last());
        assert((x + seq!['='] + t).drop_last() =~= x + seq!['='] + t.drop_last());
        assert(t.drop_last().push(t.last()) =~= t);
    }
}

proof fn lemma_trim_quoted(v: Seq<char>)
    requires
        free_of(v, '"'),
    ensures
        trim_quotes(seq!['"'] + v + seq!['"']) == v,
{
    let q = seq!['"'] + v + seq!['"'];
    let p = seq!['"'] + v;
    assert(q.len() > 0 && q.last() == '"');
    assert(q.drop_last() =~= p);
    assert(strip_trailing_quotes(q) == strip_trailing_quotes(p));
    if v.len() == 0 {
        assert(p.len() > 0 && p.last() == '"');
        assert(p.drop_last() =~= Seq::<char>::empty());
        assert(strip_trailing_quotes(p) == strip_trailing_quotes(Seq::<char>::empty()));
        assert(v =~= Seq::<char>::empty());
    } else {
        assert(p.last() == v.last());
        assert(v[v.len() - 1] != '"');
        assert(strip_trailing_quotes(p) == p);
        assert(p.len() > 0 && p[0] == '"');
        assert(p.drop_first() =~= v);
        assert(strip_leading_quotes(p) == strip_leading_quotes(v));
        assert(v[0] != '"');
        assert(strip_leading_quotes(v) == v);
    }
}

proof fn lemma_split_two(e1: Seq<char>, e2: Seq<char>)
    requires
        free_of(e1, ','),
        free_of(e2, ','),
    ensures
        split_commas(e1 + seq![','] + e2) == seq![e1, e2],
{
    let empty = Seq::<char>::empty();
    assert(split_commas(empty) == seq![empty]);
    lemma_split_extend(empty, e1);
    assert(empty + e1 =~= e1);
    assert(split_commas(e1) =~= seq![e1]);
    let x = e1 + seq![','];
    assert(x.drop_last() =~= e1);
    assert(split_commas(x) =~= seq![e1, empty]);
    lemma_split_extend(x, e2);
    assert(split_commas(x + e2) =~= seq![e1, e2]);
    assert(x + e2 =~= e1 + seq![','] + e2);
}

proof fn lemma_quoted_entry(k: Seq<char>, v: Seq<char>)
    requires
        free_of(k, ','),
        free_of(v, ','),
        free_of(v, '='),
        free_of(v, '"'),
    ensures
        free_of(quoted_entry(k, v), ','),
        contains(quoted_entry(k, v), k),
        entry_value(quoted_entry(k, v)) == v,
{
    let e = quoted_entry(k, v);
    let t = seq!['"'] + v + seq!['"'];
    assert(free_of(t, '='));
    lemma_after_last_eq_tail(k, t);
    assert(e =~= k + seq!['='] + t);
    lemma_trim_quoted(v);
    assert(e.subrange(0, k.len() as int) =~= k);
    assert(occurs_at(e, k, 0));
}

/// A keyword string of two entries `k1="v1",k2="v2"` gives `v1` under `k1`
/// and `v2` under `k2`, quotes trimmed, where the keys hold no comma, the
/// values no comma, `=` or double quote, and the first entry does not
/// already contain `k2`.
pub proof fn lemma_two_entries(k1: Seq<char>, v1: Seq<char>, k2: Seq<char>, v2: Seq<char>)
    requires
        free_of(k1, ','),
        free_of(k2, ','),
        free_of(v1, ','),
        free_of(v2, ','),
        free_of(v1, '='),
        free_of(v2, '='),
        free_of(v1, '"'),
        free_of(v2, '"'),
        !contains(quoted_entry(k1, v1), k2),
    ensures
        keyword_lookup(quoted_entry(k1, v1) + seq![','] + quoted_entry(k2, v2), k1) == Some(v1),
        keyword_lookup(quoted_entry(k1, v1) + seq![','] + quoted_entry(k2, v2), k2) == Some(v2),
{
    let e1 = quoted_entry(k1, v1);
    let e2 = quoted_entry(k2, v2);
    lemma_quoted_entry(k1, v1);
    lemma_quoted_entry(k2, v2);
    lemma_split_two(e1, e2);
    let all = seq![e1, e2];
    assert(all.drop_first() =~= seq![e2]);
    assert(first_value(all, k1) == Some(v1));
    assert(first_value(seq![e2], k2) == Some(v2));
    assert(first_value(all, k2) == Some(v2));
}

/// Whether `key` occurs in `s`.
fn contains_chars(s: &Vec<char>, key: &Vec<char>) -> (r: bool)
    ensures
        r == contains(s@, key@),
{
    if key.len() > s.len() {
        proof {
            assert forall|i: int| !occurs_at(s@, key@, i) by {}
        }
        return false;
    }
    let mut i: usize = 0;
    while i <= s.len() - key.len()
        invariant
            key.len() <= s.len(),
            0 <= i <= s.len() - key.len() + 1,
            forall|j: int| 0 <= j < i ==> !occurs_at(s@, key@, j),
        decreases s.len() - key.len() + 1 - i,
    {
        let mut k: usize = 0;
        let mut same = true;
        while k < key.len()
            invariant
                key.len() <= s.len(),
                i + key.len() <= s.len(),
                0 <= k <= key.len(),
                same == (forall|m: int| 0 <= m < k ==> s@[i + m] == key@[m]),
            decreases key.len() - k,
        {
            if s[i + k] != key[k] {
                same = false;
            }
            k += 1;
        }
        if same {
            assert(s@.subrange(i as int, i + key.len()) =~= key@);
            assert(occurs_at(s@, key@, i as int));
            return true;
        }
        proof {
            if occurs_at(s@, key@, i as int) {
                assert forall|m: int| 0 <= m < key.len() implies s@[i + m] == key@[m] by {
                    assert(s@[i + m] == s@.subrange(i as int, i + key.len())[m]);
                }
            }
        }
        i += 1;
    }
    false
}

/// The text after the last `=` of `s`.
fn after_last_eq_of(s: &Vec<char>) -> (r: Vec<char>)
    ensures
        r@ == after_last_eq(s@),
{
    let mut r: Vec<char> = Vec::new();
    let mut i: usize = 0;
    while i < s.len()
        invariant
            0 <= i <= s.len(),
            r@ == after_last_eq(s@.subrange(0, i as int)),
        decreases s.len() - i,
    {
        assert(s@.subrange(0, i + 1).drop_last() =~= s@.subrange(0, i as int));
        if s[i] == '=' {
            r = Vec::new();
        } else {
            r.push(s[i]);
        }
        i += 1;
    }
    assert(s@.subrange(0, s@.len() as int) =~= s@);
    r
}

/// `s` without the double quotes at either end.
fn trim_quotes_of(s: &Vec<char>) -> (r: Vec<char>)
    ensures
        r@ == trim_quotes(s@),
{
    let mut hi: usize = s.len();
    assert(s@.subrange(0, hi as int) =~= s@);
    while hi > 0 && s[hi - 1] == '"'
        invariant
            hi <= s.len(),
            strip_trailing_quotes(s@) == strip_trailing_quotes(s@.subrange(0, hi as int)),
        decreases hi,
    {
        assert(s@.subrange(0, hi as int).drop_last() =~= s@.subrange(0, hi - 1));
        hi -= 1;
    }
    let ghost w = s@.subrange(0, hi as int);
    assert(strip_trailing_quotes(s@) == w);
    let mut lo: usize = 0;
    assert(w.subrange(0, w.len() as int) =~= w);
    while lo < hi && s[lo] == '"'
        invariant
            lo <= hi <= s.len(),
            w == s@.subrange(0, hi as int),
            strip_leading_quotes(w) == strip_leading_quotes(s@.subrange(lo as int, hi as int)),
        decreases hi - lo,
    {
        assert(s@.subrange(lo as int, hi as int).drop_first() =~= s@.subrange(lo + 1, hi as int));
        lo += 1;
    }
    let mut r: Vec<char> = Vec::new();
    let mut i: usize = lo;
    while i < hi
        invariant
            lo <= i <= hi <= s.len(),
            r@ == s@.subrange(lo as int, i as int),
        decreases hi - i,
    {
        r.push(s[i]);
        assert(s@.subrange(lo as int, i + 1) =~= s@.subrange(lo as int, i as int).push(s@[i as int]));
        i += 1;
    }
    r
}

/// Looks `key` up in the keyword string `keywords`: the first entry that
/// contains `key` gives the value after its last `=`, with the double quotes
/// at either end trimmed.
pub fn keyword_value(keywords: &str, key: &str) -> (r: Option<String>)
    ensures
        match r {
            Some(v) => keyword_lookup(keywords@, key@) == Some(v@),
            None => keyword_lookup(keywords@, key@) is None,
        },
{
    let s = chars_of(keywords);
    let k = chars_of(key);
    let mut cur: Vec<char> = Vec::new();
    let mut found: Option<Vec<char>> = None;
    let ghost mut done: Seq<Seq<char>> = Seq::empty();
    let mut i: usize = 0;
    assert(s@.subrange(0, 0) =~= Seq::<char>::empty());
    assert(split_commas(Seq::<char>::empty()) =~= done.push(cur@));
    while i < s.len()
        invariant
            0 <= i <= s.len(),
            s@ == keywords@,
            k@ == key@,
            split_commas(s@.subrange(0, i as int)) == done.push(cur@),
            match found {
                Some(v) => first_value(done, k@) == Some(v@),
                None => first_value(done, k@) is None,
            },
        decreases s.len() - i,
    {
        let c = s[i];
        assert(s@.subrange(0, i + 1).drop_last() =~= s@.subrange(0, i as int));
        if c == ',' {
            proof {
                lemma_first_value_push(done, cur@, k@);
            }
            if found.is_none() && contains_chars(&cur, &k) {
                found = Some(trim_quotes_of(&after_last_eq_of(&cur)));
            }
            proof {
                done = done.push(cur@);
            }
            cur = Vec::new();
            assert(split_commas(s@.subrange(0, i + 1)) =~= done.push(cur@));
        } else {
            let ghost old_cur = cur@;
            cur.push(c);
            assert(split_commas(s@.subrange(0, i + 1)) =~= done.push(cur@)) by {
                assert(done.push(old_cur).update(done.len() as int, old_cur.push(c)) =~= done.push(cur@));
            }
        }
        i += 1;
    }
    assert(s@.subrange(0, s@.len() as int) =~= s@);
    proof {
        lemma_first_value_push(done, cur@, k@);
    }
    if found.is_none() && contains_chars(&cur, &k) {
        found = Some(trim_quotes_of(&after_last_eq_of(&cur)));
    }
    match found {
        Some(v) => Some(string_of(&v)),
        None => None,
    }
}

} // verus!
