//! Taking over the settings of an existing repository: the suggestions of
//! settings drawn from its archives.
//!
//! The archives are listed oldest first. Suggestions come newest first, from
//! archives whose name prefix at least one other archive shares; archives
//! agreeing on prefix, included and excluded locations, host and user make
//! one suggestion, shown by the newest of them; at most ten are shown.

use vstd::prelude::*;
use itertools::Itertools;
use crate::i18n::{chars_of, push_char};

verus! {

/// The most suggestions shown.
pub const MAX_SUGGESTIONS: usize = 10;

/// An archive of the repository, as far as the suggestions read it: its
/// name, the included and excluded locations of its command line (each list
/// in its sorted order), and the host and user that made it.
#[derive(Debug, PartialEq, Eq)]
pub struct TransferArchive {
    pub name: String,
    pub included: Vec<String>,
    pub excluded: Vec<String>,
    pub hostname: String,
    pub username: String,
}

/// What makes two suggestions the same: prefix, included and excluded
/// locations, host and user.
pub type TransferKey = (Option<String>, Vec<String>, Vec<String>, String, String);

/// The mathematical value of a [`TransferKey`].
pub type TransferKeyView = (Option<Seq<char>>, Seq<Seq<char>>, Seq<Seq<char>>, Seq<char>, Seq<char>);

/// The views of a list of strings.
pub open spec fn strings_view(v: Vec<String>) -> Seq<Seq<char>> {
    v@.map_values(|s: String| s@)
}

/// The view of an optional string.
pub open spec fn opt_view(o: Option<String>) -> Option<Seq<char>> {
    match o {
        Some(s) => Some(s@),
        None => None,
    }
}

/// The views of a list of optional strings.
pub open spec fn opts_view(v: Seq<Option<String>>) -> Seq<Option<Seq<char>>> {
    v.map_values(|o: Option<String>| opt_view(o))
}

/// The view of a key.
pub open spec fn key_view(k: TransferKey) -> TransferKeyView {
    (opt_view(k.0), strings_view(k.1), strings_view(k.2), k.3@, k.4@)
}

/// The views of a list of keys.
pub open spec fn keys_view(v: Seq<TransferKey>) -> Seq<TransferKeyView> {
    v.map_values(|k: TransferKey| key_view(k))
}

/// The index of the first `-` in `s` at or after `i`.
pub open spec fn dash_from(s: Seq<char>, i: int) -> Option<int>
    decreases s.len() - i,
{
    if i < 0 || i >= s.len() {
        None
    } else if s[i] == '-' {
        Some(i)
    } else {
        dash_from(s, i + 1)
    }
}

/// The prefix of an archive name: everything up to and including its first
/// `-`, if it has one.
pub open spec fn prefix_spec(name: Seq<char>) -> Option<Seq<char>> {
    match dash_from(name, 0) {
        Some(k) => Some(name.take(k + 1)),
        None => None,
    }
}

/// The number of times `x` occurs in `s`.
pub open spec fn occurrences<T>(s: Seq<T>, x: T) -> nat
    decreases s.len(),
{
    if s.len() == 0 {
        0
    } else {
        occurrences(s.drop_last(), x) + if s.last() == x { 1nat } else { 0nat }
    }
}

/// The items of `s` that occur more than once, each taken where it occurs the
/// second time.
pub open spec fn second_occurrences<T>(s: Seq<T>) -> Seq<T>
    decreases s.len(),
{
    if s.len() == 0 {
        Seq::empty()
    } else {
        let rest = second_occurrences(s.drop_last());
        if occurrences(s.drop_last(), s.last()) == 1 { rest.push(s.last()) } else { rest }
    }
}

/// The positions at which an item of `s` occurs for the first time.
pub open spec fn first_positions<T>(s: Seq<T>) -> Seq<int>
    decreases s.len(),
{
    if s.len() == 0 {
        Seq::empty()
    } else {
        let rest = first_positions(s.drop_last());
        if !s.drop_last().contains(s.last()) { rest.push(s.len() - 1) } else { rest }
    }
}

/// The positions among the first `m` of `all` whose item occurs in `all`
/// more than once.
pub open spec fn repeated_positions<T>(all: Seq<T>, m: int) -> Seq<int>
    decreases m,
{
    if m <= 0 {
        Seq::empty()
    } else {
        let rest = repeated_positions(all, m - 1);
        if occurrences(all, all[m - 1]) >= 2 { rest.push(m - 1) } else { rest }
    }
}

/// The archives newest first.
pub open spec fn newest_first(archives: Seq<TransferArchive>) -> Seq<TransferArchive> {
    Seq::new(archives.len(), |j: int| archives[archives.len() - 1 - j])
}

/// The prefixes of the archives, newest first.
pub open spec fn prefixes_spec(archives: Seq<TransferArchive>) -> Seq<Option<Seq<char>>> {
    Seq::new(archives.len(), |j: int| prefix_spec(archives[archives.len() - 1 - j].name@))
}

/// The key of the archive at position `j`, newest first.
pub open spec fn key_at(archives: Seq<TransferArchive>, j: int) -> TransferKeyView {
    let a = archives[archives.len() - 1 - j];
    (prefixes_spec(archives)[j], strings_view(a.included), strings_view(a.excluded), a.hostname@, a.username@)
}

/// The suggestions, as indices into the archives listed oldest first, in the
/// order they are shown.
pub open spec fn suggestions_spec(archives: Seq<TransferArchive>) -> Seq<int> {
    let kept = repeated_positions(prefixes_spec(archives), archives.len() as int);
    let firsts = first_positions(kept.map_values(|j: int| key_at(archives, j)));
    let shown = if firsts.len() > MAX_SUGGESTIONS { firsts.take(MAX_SUGGESTIONS as int) } else { firsts };
    shown.map_values(|t: int| archives.len() - 1 - kept[t])
}

/// An item occurs a second time in `s` exactly when it occurs more than once.
proof fn lemma_second_occurrences<T>(s: Seq<T>, x: T)
    ensures
        second_occurrences(s).contains(x) <==> occurrences(s, x) >= 2,
    decreases s.len(),
{
    if s.len() > 0 {
        let d = s.drop_last();
        lemma_second_occurrences(d, x);
        let rest = second_occurrences(d);
        if occurrences(d, s.last()) == 1 {
            if rest.push(s.last()).contains(x) && x != s.last() {
                let i = choose|i: int| 0 <= i < rest.push(s.last()).len() && rest.push(s.last())[i] == x;
                assert(rest[i] == x);
            }
            if rest.contains(x) {
                let i = choose|i: int| 0 <= i < rest.len() && rest[i] == x;
                assert(rest.push(s.last())[i] == x);
            }
            if x == s.last() {
                assert(rest.push(s.last())[rest.len() as int] == x);
            }
        }
    }
}

/// `itertools::Itertools::duplicates`: the items that occur more than once,
/// each returned once, where it occurs for the second time, in the order of
/// the input. Items are told apart by their equality, which for optional
/// strings is that of their characters.
#[verifier::external_body]
fn duplicates_of(values: &Vec<Option<String>>) -> (r: Vec<Option<String>>)
    ensures
        opts_view(r@) == second_occurrences(opts_view(values@)),
{
    values.iter().duplicates().cloned().collect()
}

/// `itertools::Itertools::unique_by`, keyed by the item itself: the
/// positions of the items that occur for the first time, in the order of the
/// input. Keys are told apart by their equality, which for tuples, options,
/// lists and strings is that of their parts.
#[verifier::external_body]
fn first_occurrences(keys: &Vec<TransferKey>) -> (r: Vec<usize>)
    ensures
        r@.map_values(|i: usize| i as int) == first_positions(keys_view(keys@)),
{
    keys.iter().enumerate().unique_by(|p| p.1).map(|p| p.0).collect()
}

/// The prefix of an archive name: everything up to and including its first
/// `-`, if it has one.
pub fn archive_name_prefix(name: &str) -> (r: Option<String>)
    ensures
        opt_view(r) == prefix_spec(name@),
{
    let cs = chars_of(name);
    let n = cs.len();
    let mut i: usize = 0;
    while i < n
        invariant
            n == cs@.len(),
            cs@ == name@,
            i <= n,
            dash_from(name@, 0) == dash_from(name@, i as int),
        decreases n - i,
    {
        if cs[i] == '-' {
            let mut p = String::new();
            let mut k: usize = 0;
            while k <= i
                invariant
                    n == cs@.len(),
                    cs@ == name@,
                    i < n,
                    k <= i + 1,
                    p@ == name@.take(k as int),
                decreases i + 1 - k,
            {
                push_char(&mut p, cs[k]);
                proof {
                    assert(name@.take(k + 1) =~= name@.take(k as int).push(cs@[k as int]));
                }
                k = k + 1;
            }
            return Some(p);
        }
        i = i + 1;
    }
    None
}

/// Whether two optional strings are equal.
fn same_opt(a: &Option<String>, b: &Option<String>) -> (r: bool)
    ensures
        r == (opt_view(*a) == opt_view(*b)),
{
    match (a, b) {
        (Some(x), Some(y)) => *x == *y,
        (None, None) => true,
        _ => false,
    }
}

/// Whether `v` holds an optional string equal to `x`.
fn holds_opt(v: &Vec<Option<String>>, x: &Option<String>) -> (r: bool)
    ensures
        r == opts_view(v@).contains(opt_view(*x)),
{
    let ghost w = opts_view(v@);
    let n = v.len();
    for i in 0..n
        invariant
            n == v@.len(),
            w == opts_view(v@),
            forall|j: int| 0 <= j < i ==> w[j] != opt_view(*x),
    {
        if same_opt(&v[i], x) {
            proof {
                assert(w[i as int] == opt_view(*x));
            }
            return true;
        }
    }
    false
}

/// A copy of a list of strings.
fn clone_strings(v: &Vec<String>) -> (r: Vec<String>)
    ensures
        strings_view(r) == strings_view(*v),
{
    let mut r: Vec<String> = Vec::new();
    let n = v.len();
    for i in 0..n
        invariant
            n == v@.len(),
            strings_view(r) == strings_view(*v).take(i as int),
    {
        let s = v[i].clone();
        let ghost before = r@;
        r.push(s);
        proof {
            assert(r@ =~= before.push(s));
            assert(strings_view(r) =~= before.map_values(|s: String| s@).push(s@));
            assert(strings_view(*v).take(i + 1) =~= strings_view(*v).take(i as int).push(v@[i as int]@));
        }
    }
    proof {
        assert(strings_view(*v).take(n as int) =~= strings_view(*v));
    }
    r
}

/// The suggestions of settings drawn from the archives of a repository,
/// listed oldest first: indices into the list, in the order they are shown.
/// None means there is nothing to suggest.
pub fn transfer_suggestions(archives: &Vec<TransferArchive>) -> (r: Vec<usize>)
    ensures
        r@.map_values(|i: usize| i as int) == suggestions_spec(archives@),
{
    let n = archives.len();
    let ghost pre = prefixes_spec(archives@);
    let mut prefixes: Vec<Option<String>> = Vec::new();
    for j in 0..n
        invariant
            n == archives@.len(),
            pre == prefixes_spec(archives@),
            opts_view(prefixes@) == pre.take(j as int),
    {
        let p = archive_name_prefix(archives[n - 1 - j].name.as_str());
        let ghost before = prefixes@;
        prefixes.push(p);
        proof {
            assert(prefixes@ =~= before.push(p));
            assert(opts_view(prefixes@) =~= opts_view(before).push(opt_view(p)));
            assert(pre.take(j + 1) =~= pre.take(j as int).push(pre[j as int]));
        }
    }
    proof {
        assert(pre.take(n as int) =~= pre);
    }
    let dups = duplicates_of(&prefixes);
    let ghost kept_spec = repeated_positions(pre, n as int);
    let mut kept: Vec<usize> = Vec::new();
    let mut keys: Vec<TransferKey> = Vec::new();
    for j in 0..n
        invariant
            n == archives@.len(),
            pre == prefixes_spec(archives@),
            opts_view(prefixes@) == pre,
            opts_view(dups@) == second_occurrences(pre),
            kept@.map_values(|i: usize| i as int) == repeated_positions(pre, j as int),
            kept@.len() == keys@.len(),
            forall|t: int| 0 <= t < kept@.len() ==> #[trigger] kept@[t] < j,
            keys_view(keys@) == repeated_positions(pre, j as int).map_values(|i: int| key_at(archives@, i)),
    {
        proof {
            lemma_second_occurrences(pre, pre[j as int]);
        }
        if holds_opt(&dups, &prefixes[j]) {
            let a = &archives[n - 1 - j];
            let key: TransferKey = (
                prefixes[j].clone(),
                clone_strings(&a.included),
                clone_strings(&a.excluded),
                a.hostname.clone(),
                a.username.clone(),
            );
            proof {
                assert(key_view(key) == key_at(archives@, j as int));
            }
            let ghost kb = kept@;
            let ghost keyb = keys@;
            kept.push(j);
            keys.push(key);
            proof {
                assert(kept@ =~= kb.push(j));
                assert(kept@.map_values(|i: usize| i as int) =~= kb.map_values(|i: usize| i as int).push(j as int));
                assert(keys@ =~= keyb.push(key));
                assert(keys_view(keys@) =~= keys_view(keyb).push(key_view(key)));
                assert(repeated_positions(pre, j + 1) == repeated_positions(pre, j as int).push(j as int));
                assert(repeated_positions(pre, j + 1).map_values(|i: int| key_at(archives@, i)) =~=
                    repeated_positions(pre, j as int).map_values(|i: int| key_at(archives@, i)).push(key_at(archives@, j as int)));
            }
        } else {
            proof {
                assert(repeated_positions(pre, j + 1) == repeated_positions(pre, j as int));
            }
        }
    }
    let firsts = first_occurrences(&keys);
    let ghost fs = first_positions(keys_view(keys@));
    proof {
        lemma_first_positions(keys_view(keys@));
    }
    let m = if firsts.len() > MAX_SUGGESTIONS { MAX_SUGGESTIONS } else { firsts.len() };
    let ghost shown = if fs.len() > MAX_SUGGESTIONS { fs.take(MAX_SUGGESTIONS as int) } else { fs };
    let mut r: Vec<usize> = Vec::new();
    for t in 0..m
        invariant
            n == archives@.len(),
            m <= firsts@.len(),
            m == shown.len(),
            firsts@.map_values(|i: usize| i as int) == fs,
            shown == (if fs.len() > MAX_SUGGESTIONS { fs.take(MAX_SUGGESTIONS as int) } else { fs }),
            forall|u: int| 0 <= u < fs.len() ==> 0 <= #[trigger] fs[u] < keys@.len(),
            kept@.len() == keys@.len(),
            forall|u: int| 0 <= u < kept@.len() ==> #[trigger] kept@[u] < n,
            r@.map_values(|i: usize| i as int) == shown.take(t as int).map_values(|u: int| n - 1 - kept@[u]),
    {
        proof {
            assert(fs[t as int] == firsts@[t as int] as int);
            assert(shown[t as int] == fs[t as int]);
        }
        let k = kept[firsts[t]];
        let idx = n - 1 - k;
        let ghost before = r@;
        r.push(idx);
        proof {
            assert(r@ =~= before.push(idx));
            assert(r@.map_values(|i: usize| i as int) =~= before.map_values(|i: usize| i as int).push(idx as int));
            assert(shown.take(t + 1) =~= shown.take(t as int).push(shown[t as int]));
            assert(shown.take(t + 1).map_values(|u: int| n - 1 - kept@[u]) =~=
                shown.take(t as int).map_values(|u: int| n - 1 - kept@[u]).push(n - 1 - kept@[shown[t as int]]));
        }
    }
    proof {
        assert(shown.take(m as int) =~= shown);
        let kept_int = kept@.map_values(|i: usize| i as int);
        assert(kept_int == repeated_positions(pre, n as int));
        assert(keys_view(keys@) == kept_int.map_values(|i: int| key_at(archives@, i)));
        assert(shown.map_values(|u: int| n - 1 - kept@[u]) =~= shown.map_values(|u: int| archives@.len() - 1 - kept_int[u]));
    }
    r
}

/// The positions kept for sharing their item lie below `m`, rise, and hold
/// items that occur more than once.
proof fn lemma_repeated_positions<T>(all: Seq<T>, m: int)
    requires
        0 <= m <= all.len(),
    ensures
        forall|u: int| 0 <= u < repeated_positions(all, m).len() ==> {
            &&& 0 <= #[trigger] repeated_positions(all, m)[u] < m
            &&& occurrences(all, all[repeated_positions(all, m)[u]]) >= 2
        },
    decreases m,
{
    if m > 0 {
        lemma_repeated_positions(all, m - 1);
        let rest = repeated_positions(all, m - 1);
        assert forall|u: int| 0 <= u < repeated_positions(all, m).len() implies {
            &&& 0 <= #[trigger] repeated_positions(all, m)[u] < m
            &&& occurrences(all, all[repeated_positions(all, m)[u]]) >= 2
        } by {
            if u < rest.len() {
                assert(repeated_positions(all, m)[u] == rest[u]);
            }
        }
    }
}

/// The positions of first occurrences lie within the list, rise, and hold
/// items that occur nowhere before them.
proof fn lemma_first_positions<T>(s: Seq<T>)
    ensures
        forall|u: int| 0 <= u < first_positions(s).len() ==> {
            &&& 0 <= #[trigger] first_positions(s)[u] < s.len()
            &&& !s.take(first_positions(s)[u]).contains(s[first_positions(s)[u]])
        },
        forall|u: int, v: int| 0 <= u < v < first_positions(s).len()
            ==> #[trigger] first_positions(s)[u] < #[trigger] first_positions(s)[v],
    decreases s.len(),
{
    if s.len() > 0 {
        let d = s.drop_last();
        lemma_first_positions(d);
        let rest = first_positions(d);
        let f = first_positions(s);
        assert forall|u: int| 0 <= u < f.len() implies {
            &&& 0 <= #[trigger] f[u] < s.len()
            &&& !s.take(f[u]).contains(s[f[u]])
        } by {
            if u < rest.len() {
                assert(f[u] == rest[u]);
                assert(s.take(f[u]) =~= d.take(f[u]));
                assert(s[f[u]] == d[f[u]]);
            } else {
                assert(f[u] == s.len() - 1);
                assert(s.take(f[u]) =~= d);
            }
        }
        assert forall|u: int, v: int| 0 <= u < v < f.len() implies #[trigger] f[u] < #[trigger] f[v] by {
            if v < rest.len() {
                assert(f[u] == rest[u] && f[v] == rest[v]);
            } else {
                assert(f[u] == rest[u]);
            }
        }
    }
}

/// The archive a shown suggestion comes from: at most ten show, each from an
/// archive whose name prefix another archive shares, and no two of them agree
/// on prefix, included and excluded locations, host and user.
pub proof fn law_transfer_suggestions(archives: Seq<TransferArchive>)
    ensures
        suggestions_spec(archives).len() <= MAX_SUGGESTIONS,
        forall|u: int| 0 <= u < suggestions_spec(archives).len() ==> {
            &&& 0 <= #[trigger] suggestions_spec(archives)[u] < archives.len()
            &&& occurrences(prefixes_spec(archives), prefix_spec(archives[suggestions_spec(archives)[u]].name@)) >= 2
        },
        forall|u: int, v: int| 0 <= u < v < suggestions_spec(archives).len() ==>
            key_at(archives, archives.len() - 1 - #[trigger] suggestions_spec(archives)[u])
                != key_at(archives, archives.len() - 1 - #[trigger] suggestions_spec(archives)[v]),
{
    let n = archives.len() as int;
    let pre = prefixes_spec(archives);
    let kept = repeated_positions(pre, n);
    let keys = kept.map_values(|j: int| key_at(archives, j));
    let firsts = first_positions(keys);
    let shown = if firsts.len() > MAX_SUGGESTIONS { firsts.take(MAX_SUGGESTIONS as int) } else { firsts };
    let r = suggestions_spec(archives);
    lemma_repeated_positions(pre, n);
    lemma_first_positions(keys);
    assert(r == shown.map_values(|t: int| n - 1 - kept[t]));
    assert forall|u: int| 0 <= u < r.len() implies {
        &&& 0 <= #[trigger] r[u] < archives.len()
        &&& occurrences(pre, prefix_spec(archives[r[u]].name@)) >= 2
    } by {
        assert(shown[u] == firsts[u]);
        let t = shown[u];
        assert(0 <= t < kept.len());
        let j = kept[t];
        assert(0 <= j < n);
        assert(r[u] == n - 1 - j);
        assert(pre[j] == prefix_spec(archives[n - 1 - j].name@));
    }
    assert forall|u: int, v: int| 0 <= u < v < r.len() implies
        key_at(archives, n - 1 - #[trigger] r[u]) != key_at(archives, n - 1 - #[trigger] r[v]) by {
        assert(shown[u] == firsts[u] && shown[v] == firsts[v]);
        let a = firsts[u];
        let b = firsts[v];
        assert(a < b);
        assert(0 <= b < keys.len());
        assert(keys.take(b)[a] == keys[a]);
        assert(keys.take(b).contains(keys[a]));
        assert(r[u] == n - 1 - kept[a]);
        assert(r[v] == n - 1 - kept[b]);
        assert(keys[a] == key_at(archives, kept[a]));
        assert(keys[b] == key_at(archives, kept[b]));
    }
}

/// Whether two archives agree on name prefix, included and excluded
/// locations, host and user.
pub open spec fn same_settings(a: TransferArchive, b: TransferArchive) -> bool {
    &&& prefix_spec(a.name@) == prefix_spec(b.name@)
    &&& strings_view(a.included) == strings_view(b.included)
    &&& strings_view(a.excluded) == strings_view(b.excluded)
    &&& a.hostname@ == b.hostname@
    &&& a.username@ == b.username@
}

/// Whether another archive than the one at `i` has the same name prefix.
pub open spec fn prefix_shared(archives: Seq<TransferArchive>, i: int) -> bool {
    exists|k: int| 0 <= k < archives.len() && k != i && #[trigger] prefix_spec(archives[k].name@) == prefix_spec(archives[i].name@)
}

/// An item that occurs at `j` occurs at least twice exactly when it also
/// occurs elsewhere.
proof fn lemma_occurs_elsewhere<T>(s: Seq<T>, j: int)
    requires
        0 <= j < s.len(),
    ensures
        occurrences(s, s[j]) >= 2 <==> exists|k: int| 0 <= k < s.len() && k != j && #[trigger] s[k] == s[j],
        occurrences(s, s[j]) >= 1,
    decreases s.len(),
{
    let d = s.drop_last();
    let x = s[j];
    if j == s.len() - 1 {
        lemma_occurs_iff_contains(d, x);
        if occurrences(s, x) >= 2 {
            let k = choose|k: int| 0 <= k < d.len() && d[k] == x;
            assert(s[k] == x);
        }
        if exists|k: int| 0 <= k < s.len() && k != j && #[trigger] s[k] == s[j] {
            let k = choose|k: int| 0 <= k < s.len() && k != j && #[trigger] s[k] == s[j];
            assert(d[k] == x);
        }
    } else {
        assert(d[j] == x);
        lemma_occurs_elsewhere(d, j);
        if occurrences(s, x) >= 2 {
            if occurrences(d, x) >= 2 {
                let k = choose|k: int| 0 <= k < d.len() && k != j && #[trigger] d[k] == d[j];
                assert(s[k] == x);
            } else {
                assert(s[s.len() - 1] == x);
            }
        }
        if exists|k: int| 0 <= k < s.len() && k != j && #[trigger] s[k] == s[j] {
            let k = choose|k: int| 0 <= k < s.len() && k != j && #[trigger] s[k] == s[j];
            if k < s.len() - 1 {
                assert(d[k] == x);
            }
        }
    }
}

/// An item occurs in `s` at least once exactly when `s` holds it.
proof fn lemma_occurs_iff_contains<T>(s: Seq<T>, x: T)
    ensures
        occurrences(s, x) >= 1 <==> s.contains(x),
    decreases s.len(),
{
    if s.len() > 0 {
        let d = s.drop_last();
        lemma_occurs_iff_contains(d, x);
        if d.contains(x) {
            let k = choose|k: int| 0 <= k < d.len() && d[k] == x;
            assert(s[k] == x);
        }
        if s.contains(x) && s.last() != x {
            let k = choose|k: int| 0 <= k < s.len() && s[k] == x;
            assert(d[k] == x);
        }
        if s.last() == x {
            assert(s[s.len() - 1] == x);
        }
    }
}

/// The positions kept for sharing their item rise, and every position below
/// `m` whose item occurs more than once is kept.
proof fn lemma_repeated_positions_complete<T>(all: Seq<T>, m: int)
    requires
        0 <= m <= all.len(),
    ensures
        forall|u: int, v: int| 0 <= u < v < repeated_positions(all, m).len()
            ==> #[trigger] repeated_positions(all, m)[u] < #[trigger] repeated_positions(all, m)[v],
        forall|j: int| 0 <= j < m && occurrences(all, #[trigger] all[j]) >= 2
            ==> exists|t: int| 0 <= t < repeated_positions(all, m).len() && #[trigger] repeated_positions(all, m)[t] == j,
    decreases m,
{
    if m > 0 {
        lemma_repeated_positions_complete(all, m - 1);
        lemma_repeated_positions(all, m - 1);
        let rest = repeated_positions(all, m - 1);
        let rp = repeated_positions(all, m);
        assert forall|u: int, v: int| 0 <= u < v < rp.len() implies #[trigger] rp[u] < #[trigger] rp[v] by {
            if v < rest.len() {
                assert(rp[u] == rest[u] && rp[v] == rest[v]);
            } else {
                assert(rp[u] == rest[u]);
                assert(rp[v] == m - 1);
            }
        }
        assert forall|j: int| 0 <= j < m && occurrences(all, #[trigger] all[j]) >= 2
            implies exists|t: int| 0 <= t < rp.len() && #[trigger] rp[t] == j by {
            if j < m - 1 {
                let t = choose|t: int| 0 <= t < rest.len() && #[trigger] rest[t] == j;
                assert(rp[t] == rest[t]);
            } else {
                assert(rp[rest.len() as int] == m - 1);
            }
        }
    }
}

/// Every item of `s` occurs first at or before its own position.
proof fn lemma_first_positions_complete<T>(s: Seq<T>, i: int)
    requires
        0 <= i < s.len(),
    ensures
        exists|u: int| 0 <= u < first_positions(s).len() && first_positions(s)[u] <= i
            && #[trigger] s[first_positions(s)[u]] == s[i],
    decreases s.len(),
{
    let d = s.drop_last();
    let f = first_positions(s);
    let rest = first_positions(d);
    lemma_first_positions(d);
    if i < s.len() - 1 {
        lemma_first_positions_complete(d, i);
        let u = choose|u: int| 0 <= u < rest.len() && rest[u] <= i && #[trigger] d[rest[u]] == d[i];
        assert(f[u] == rest[u]);
        assert(s[f[u]] == s[i]);
    } else if !d.contains(s.last()) {
        assert(f[rest.len() as int] == s.len() - 1);
    } else {
        let k = choose|k: int| 0 <= k < d.len() && d[k] == s.last();
        lemma_first_positions_complete(d, k);
        let u = choose|u: int| 0 <= u < rest.len() && rest[u] <= k && #[trigger] d[rest[u]] == d[k];
        assert(f[u] == rest[u]);
        assert(s[f[u]] == s[i]);
    }
}

/// The suggestions, read against the archives themselves: at most ten, each
/// from an archive whose name prefix another archive shares, newest first;
/// each the newest archive of its settings, no two with the same settings;
/// and every archive whose prefix is shared has a suggestion with its
/// settings, unless ten newer suggestions fill the list. Archives whose
/// included or excluded locations, host or user differ are never merged.
pub proof fn law_transfer_suggestions_represent_archives(archives: Seq<TransferArchive>)
    ensures
        suggestions_spec(archives).len() <= MAX_SUGGESTIONS,
        forall|u: int| 0 <= u < suggestions_spec(archives).len() ==>
            0 <= #[trigger] suggestions_spec(archives)[u] < archives.len()
            && prefix_shared(archives, suggestions_spec(archives)[u]),
        forall|u: int, v: int| 0 <= u < v < suggestions_spec(archives).len() ==>
            #[trigger] suggestions_spec(archives)[v] < #[trigger] suggestions_spec(archives)[u]
            && !same_settings(archives[suggestions_spec(archives)[u]], archives[suggestions_spec(archives)[v]]),
        forall|u: int, k: int| 0 <= u < suggestions_spec(archives).len() && #[trigger] suggestions_spec(archives)[u] < k < archives.len()
            ==> !same_settings(#[trigger] archives[k], archives[suggestions_spec(archives)[u]]),
        forall|i: int| 0 <= i < archives.len() && #[trigger] prefix_shared(archives, i) ==> {
            ||| exists|u: int| 0 <= u < suggestions_spec(archives).len()
                    && #[trigger] same_settings(archives[suggestions_spec(archives)[u]], archives[i])
            ||| suggestions_spec(archives).len() == MAX_SUGGESTIONS
                    && forall|u: int| 0 <= u < suggestions_spec(archives).len() ==> #[trigger] suggestions_spec(archives)[u] > i
        },
{
    let n = archives.len() as int;
    let pre = prefixes_spec(archives);
    let kept = repeated_positions(pre, n);
    let keys = kept.map_values(|j: int| key_at(archives, j));
    let firsts = first_positions(keys);
    let shown = if firsts.len() > MAX_SUGGESTIONS { firsts.take(MAX_SUGGESTIONS as int) } else { firsts };
    let r = suggestions_spec(archives);
    law_transfer_suggestions(archives);
    lemma_repeated_positions(pre, n);
    lemma_repeated_positions_complete(pre, n);
    lemma_first_positions(keys);
    assert(r == shown.map_values(|t: int| n - 1 - kept[t]));
    assert forall|j1: int, j2: int| 0 <= j1 < n && 0 <= j2 < n implies
        (#[trigger] key_at(archives, j1) == #[trigger] key_at(archives, j2)
            <==> same_settings(archives[n - 1 - j1], archives[n - 1 - j2])) by {
        assert(pre[j1] == prefix_spec(archives[n - 1 - j1].name@));
        assert(pre[j2] == prefix_spec(archives[n - 1 - j2].name@));
    }
    assert forall|u: int| 0 <= u < r.len() implies
        0 <= #[trigger] r[u] < archives.len() && prefix_shared(archives, r[u]) by {
        assert(shown[u] == firsts[u]);
        let j = kept[firsts[u]];
        assert(r[u] == n - 1 - j);
        lemma_occurs_elsewhere(pre, j);
        let k = choose|k: int| 0 <= k < pre.len() && k != j && #[trigger] pre[k] == pre[j];
        assert(pre[k] == prefix_spec(archives[n - 1 - k].name@));
        assert(pre[j] == prefix_spec(archives[n - 1 - j].name@));
        assert(prefix_spec(archives[n - 1 - k].name@) == prefix_spec(archives[r[u]].name@));
    }
    assert forall|u: int, v: int| 0 <= u < v < r.len() implies
        #[trigger] r[v] < #[trigger] r[u] && !same_settings(archives[r[u]], archives[r[v]]) by {
        assert(shown[u] == firsts[u] && shown[v] == firsts[v]);
        assert(firsts[u] < firsts[v]);
        assert(kept[firsts[u]] < kept[firsts[v]]);
        assert(key_at(archives, n - 1 - r[u]) != key_at(archives, n - 1 - r[v]));
    }
    assert forall|u: int, k: int| 0 <= u < r.len() && #[trigger] r[u] < k < archives.len()
        implies !same_settings(#[trigger] archives[k], archives[r[u]]) by {
        assert(shown[u] == firsts[u]);
        let a = firsts[u];
        let j = kept[a];
        let j2 = n - 1 - k;
        if same_settings(archives[k], archives[r[u]]) {
            assert(archives[n - 1 - j2] == archives[k]);
            assert(key_at(archives, j2) == key_at(archives, j));
            assert(pre[j2] == pre[j]);
            lemma_occurs_elsewhere(pre, j2);
            assert(pre[j] == pre[j2] && j != j2);
            let t = choose|t: int| 0 <= t < kept.len() && #[trigger] kept[t] == j2;
            assert(t < a);
            assert(keys[t] == keys[a]);
            assert(keys.take(a)[t] == keys[t]);
            assert(keys.take(a).contains(keys[a]));
        }
    }
    assert forall|i: int| 0 <= i < archives.len() && #[trigger] prefix_shared(archives, i) implies {
        ||| exists|u: int| 0 <= u < r.len() && #[trigger] same_settings(archives[r[u]], archives[i])
        ||| r.len() == MAX_SUGGESTIONS && forall|u: int| 0 <= u < r.len() ==> #[trigger] r[u] > i
    } by {
        let j = n - 1 - i;
        let k = choose|k: int| 0 <= k < archives.len() && k != i
            && #[trigger] prefix_spec(archives[k].name@) == prefix_spec(archives[i].name@);
        assert(pre[n - 1 - k] == prefix_spec(archives[k].name@));
        assert(pre[j] == prefix_spec(archives[i].name@));
        lemma_occurs_elsewhere(pre, j);
        assert(pre[n - 1 - k] == pre[j]);
        let t = choose|t: int| 0 <= t < kept.len() && #[trigger] kept[t] == j;
        lemma_first_positions_complete(keys, t);
        let w = choose|w: int| 0 <= w < firsts.len() && firsts[w] <= t && #[trigger] keys[firsts[w]] == keys[t];
        if w < shown.len() {
            assert(shown[w] == firsts[w]);
            assert(r[w] == n - 1 - kept[firsts[w]]);
            assert(key_at(archives, kept[firsts[w]]) == key_at(archives, j));
            assert(archives[n - 1 - j] == archives[i]);
            assert(same_settings(archives[r[w]], archives[i]));
        } else {
            assert(shown.len() == MAX_SUGGESTIONS);
            assert forall|u: int| 0 <= u < r.len() implies #[trigger] r[u] > i by {
                assert(shown[u] == firsts[u]);
                assert(firsts[u] < firsts[w]);
                assert(kept[firsts[u]] < kept[t]);
            }
        }
    }
}

} // verus!
