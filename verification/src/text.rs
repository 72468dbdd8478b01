//! Plain string helpers of the interface: joining, ellipsizing, searching.

use vstd::prelude::*;
use crate::i18n::{chars_of, push_char};

verus! {

/// `parts` joined with `sep` between neighbours.
pub open spec fn joined(parts: Seq<Seq<char>>, sep: Seq<char>) -> Seq<char>
    decreases parts.len(),
{
    if parts.len() == 0 {
        Seq::empty()
    } else if parts.len() == 1 {
        parts[0]
    } else {
        joined(parts.drop_last(), sep) + sep + parts.last()
    }
}

/// The strings of `parts` joined with `sep` between neighbours.
pub fn join(parts: &Vec<String>, sep: &str) -> (r: String)
    ensures
        r@ == joined(parts@.map_values(|p: String| p@), sep@),
{
    let ghost all = parts@.map_values(|p: String| p@);
    let mut r = String::new();
    let n = parts.len();
    for i in 0..n
        invariant
            n == parts@.len(),
            all == parts@.map_values(|p: String| p@),
            r@ == joined(all.take(i as int), sep@),
    {
        proof {
            assert(all.take(i + 1).drop_last() =~= all.take(i as int));
            assert(all.take(i + 1).last() == parts@[i as int]@);
        }
        if i > 0 {
            r.append(sep);
        }
        r.append(parts[i].as_str());
        proof {
            if i == 0 {
                assert(r@ =~= all.take(1)[0]);
            }
        }
    }
    proof {
        assert(all.take(n as int) =~= all);
    }
    r
}

/// Whether `pat` occurs in `s` starting at index `i`.
pub open spec fn occurs_at(s: Seq<char>, pat: Seq<char>, i: int) -> bool {
    0 <= i && i + pat.len() <= s.len() && s.subrange(i, i + pat.len()) == pat
}

/// Whether `pat` occurs in `s`.
pub open spec fn contains_seq(s: Seq<char>, pat: Seq<char>) -> bool {
    exists|i: int| occurs_at(s, pat, i)
}

/// Whether `pat` occurs in `cs` starting at `i`.
fn matches_at(cs: &Vec<char>, pat: &Vec<char>, i: usize) -> (r: bool)
    requires
        i + pat@.len() <= cs@.len(),
    ensures
        r == occurs_at(cs@, pat@, i as int),
{
    let m = pat.len();
    let n = cs.len();
    let mut k: usize = 0;
    while k < m
        invariant
            m == pat@.len(),
            n == cs@.len(),
            i + m <= cs@.len(),
            k <= m,
            forall|j: int| 0 <= j < k ==> cs@[i + j] == pat@[j],
        decreases m - k,
    {
        if cs[i + k] != pat[k] {
            proof {
                assert(cs@.subrange(i as int, i + m)[k as int] != pat@[k as int]);
            }
            return false;
        }
        k = k + 1;
    }
    proof {
        assert(cs@.subrange(i as int, i + m) =~= pat@);
    }
    true
}

/// Whether `pat` occurs in `s`.
pub fn contains_str(s: &str, pat: &str) -> (r: bool)
    ensures
        r == contains_seq(s@, pat@),
{
    let cs = chars_of(s);
    let ps = chars_of(pat);
    let n = cs.len();
    let m = ps.len();
    if m > n {
        proof {
            assert forall|i: int| !occurs_at(s@, pat@, i) by {}
        }
        return false;
    }
    if m == 0 {
        proof {
            assert(s@.subrange(0, 0) =~= pat@);
            assert(occurs_at(s@, pat@, 0));
        }
        return true;
    }
    let mut i: usize = 0;
    while i <= n - m
        invariant
            n == cs@.len(),
            m == ps@.len(),
            m <= n,
            m >= 1,
            cs@ == s@,
            ps@ == pat@,
            forall|j: int| 0 <= j < i ==> !occurs_at(s@, pat@, j),
        decreases n - m + 1 - i,
    {
        if matches_at(&cs, &ps, i) {
            return true;
        }
        i = i + 1;
    }
    proof {
        assert forall|j: int| !occurs_at(s@, pat@, j) by {
            if 0 <= j < i {
            }
        }
    }
    false
}

/// Keeps a long multi-line text readable: a text of more than 510 characters
/// is cut to its first 300 and last 200 characters, with a line holding `…`
/// between them.
pub fn ellipsize_multiline(x: &str) -> (r: String)
    ensures
        x@.len() <= 510 ==> r@ == x@,
        x@.len() > 510 ==> r@ == x@.take(300) + seq!['\n', '…', '\n'] + x@.skip(x@.len() - 200),
{
    let cs = chars_of(x);
    let n = cs.len();
    if n > 510 {
        let mut r = String::new();
        let mut i: usize = 0;
        while i < 300
            invariant
                n == cs@.len(),
                n > 510,
                i <= 300,
                r@ == cs@.take(i as int),
            decreases 300 - i,
        {
            push_char(&mut r, cs[i]);
            i = i + 1;
            proof {
                assert(r@ =~= cs@.take(i as int));
            }
        }
        push_char(&mut r, '\n');
        push_char(&mut r, '…');
        push_char(&mut r, '\n');
        let mut k: usize = n - 200;
        while k < n
            invariant
                n == cs@.len(),
                n > 510,
                n - 200 <= k <= n,
                r@ == cs@.take(300) + seq!['\n', '…', '\n'] + cs@.subrange(n - 200, k as int),
            decreases n - k,
        {
            push_char(&mut r, cs[k]);
            k = k + 1;
            proof {
                assert(r@ =~= cs@.take(300) + seq!['\n', '…', '\n'] + cs@.subrange(n - 200, k as int));
            }
        }
        proof {
            assert(cs@.subrange(n - 200, n as int) =~= cs@.skip(n - 200));
        }
        r
    } else {
        x.to_string()
    }
}

/// The number of characters that [`ellipsize_end`] keeps of a text longer
/// than `max_len` characters: one short of `max_len`, and no less than none.
pub open spec fn ellipsize_keep(max_len: usize) -> int {
    if max_len == 0 { 0 } else { max_len - 1 }
}

/// A text ellipsized at the end to `max_len` characters.
pub open spec fn ellipsized(x: Seq<char>, max_len: usize) -> Seq<char> {
    if x.len() <= max_len { x } else { x.take(ellipsize_keep(max_len)).push('…') }
}

/// An ellipsized text is never longer than `max_len` characters (one, when
/// `max_len` is zero), is exactly that long when it was cut, and starts as the
/// text does.
pub proof fn law_ellipsized_length(x: Seq<char>, max_len: usize)
    ensures
        max_len >= 1 ==> ellipsized(x, max_len).len() <= max_len,
        max_len >= 1 && x.len() > max_len ==> ellipsized(x, max_len).len() == max_len,
        max_len == 0 && x.len() > 0 ==> ellipsized(x, max_len) == seq!['…'],
        forall|i: int| 0 <= i < ellipsize_keep(max_len) && i < x.len() ==> #[trigger] ellipsized(x, max_len)[i] == x[i],
{
    if max_len == 0 && x.len() > 0 {
        assert(x.take(0).push('…') =~= seq!['…']);
    }
}

/// Ellipsizes a text at the end so that it is `max_len` characters long: a
/// longer text keeps its first `max_len - 1` characters, followed by `…`.
pub fn ellipsize_end(x: &str, max_len: usize) -> (r: String)
    ensures
        r@ == ellipsized(x@, max_len),
{
    let cs = chars_of(x);
    if cs.len() <= max_len {
        x.to_string()
    } else {
        let keep: usize = if max_len == 0 { 0 } else { max_len - 1 };
        let mut r = String::new();
        let mut i: usize = 0;
        while i < keep
            invariant
                cs@ == x@,
                keep < cs@.len(),
                keep == ellipsize_keep(max_len),
                i <= keep,
                r@ == x@.take(i as int),
            decreases keep - i,
        {
            push_char(&mut r, cs[i]);
            i = i + 1;
            proof {
                assert(r@ =~= x@.take(i as int));
            }
        }
        push_char(&mut r, '…');
        r
    }
}

} // verus!
