//! Paths as lists of components: the root `/` first for an absolute path,
//! then one name per directory level.

use vstd::prelude::*;
use crate::error::{message_view, Error, ErrorView, Message, MessageView};
use crate::i18n::{Text, TextView};
use crate::text::{join, joined};

verus! {

/// The mathematical value of a path: its components.
pub open spec fn path_view(p: Vec<String>) -> Seq<Seq<char>> {
    p@.map_values(|c: String| c@)
}

/// Whether `a` is a prefix of `b`, component by component.
pub open spec fn is_prefix(a: Seq<Seq<char>>, b: Seq<Seq<char>>) -> bool {
    a.len() <= b.len() && b.take(a.len() as int) == a
}

/// Whether a path is absolute: its first component is the root.
pub open spec fn is_absolute(p: Seq<Seq<char>>) -> bool {
    p.len() > 0 && p[0] == "/"@
}

/// The number of leading components `a` and `b` share, counted from `i`.
pub open spec fn common_len_from(a: Seq<Seq<char>>, b: Seq<Seq<char>>, i: int) -> int
    decreases a.len() - i,
{
    if 0 <= i < a.len() && i < b.len() && a[i] == b[i] {
        common_len_from(a, b, i + 1)
    } else {
        i
    }
}

/// The number of leading components `a` and `b` share.
pub open spec fn common_len(a: Seq<Seq<char>>, b: Seq<Seq<char>>) -> int {
    common_len_from(a, b, 0)
}

/// `path` relative to `home` when it lies within `home`, else `path`.
pub open spec fn rel_path_spec(path: Seq<Seq<char>>, home: Seq<Seq<char>>) -> Seq<Seq<char>> {
    if is_prefix(home, path) { path.skip(home.len() as int) } else { path }
}

/// Whether component lists `a` and `b` agree on the first `k` components.
fn agree_on(a: &Vec<String>, b: &Vec<String>, k: usize) -> (r: bool)
    requires
        k <= a@.len(),
        k <= b@.len(),
    ensures
        r == (path_view(*a).take(k as int) == path_view(*b).take(k as int)),
{
    let mut i: usize = 0;
    while i < k
        invariant
            k <= a@.len(),
            k <= b@.len(),
            i <= k,
            forall|j: int| 0 <= j < i ==> a@[j]@ == b@[j]@,
        decreases k - i,
    {
        if a[i] != b[i] {
            proof {
                assert(path_view(*a).take(k as int)[i as int] != path_view(*b).take(k as int)[i as int]);
            }
            return false;
        }
        i = i + 1;
    }
    proof {
        assert(path_view(*a).take(k as int) =~= path_view(*b).take(k as int));
    }
    true
}

/// Returns a path relative to the home directory when it lies within it,
/// else the path itself.
pub fn rel_path(path: &Vec<String>, home: &Vec<String>) -> (r: Vec<String>)
    ensures
        path_view(r) == rel_path_spec(path_view(*path), path_view(*home)),
{
    let n = path.len();
    let h = home.len();
    if h <= n && agree_on(path, home, h) {
        proof {
            assert(path_view(*home).take(h as int) =~= path_view(*home));
        }
        let mut r: Vec<String> = Vec::new();
        let mut i = h;
        while i < n
            invariant
                h <= i <= n,
                n == path@.len(),
                path_view(r) == path_view(*path).subrange(h as int, i as int),
            decreases n - i,
        {
            let c = path[i].clone();
            let ghost before = r@;
            r.push(c);
            proof {
                assert(r@ =~= before.push(c));
                assert(path_view(r) =~= before.map_values(|c: String| c@).push(c@));
            }
            i = i + 1;
            proof {
                assert(path_view(r) =~= path_view(*path).subrange(h as int, i as int));
            }
        }
        proof {
            assert(path_view(*path).subrange(h as int, n as int) =~= path_view(*path).skip(h as int));
        }
        r
    } else {
        proof {
            if is_prefix(path_view(*home), path_view(*path)) {
                assert(path_view(*path).take(h as int) =~= path_view(*home).take(h as int));
            }
        }
        path.clone()
    }
}

/// One step of finding the common ancestor: the longest ancestor of `path`
/// that the folder found so far lies within. An absolute path's ancestors
/// end at the root, a relative one's at the empty path; when none fits, the
/// folder found so far stays.
pub open spec fn base_step(base: Option<Seq<Seq<char>>>, path: Seq<Seq<char>>) -> Option<Seq<Seq<char>>> {
    match base {
        None => Some(path),
        Some(b) => {
            let lowest = if is_absolute(path) { 1int } else { 0int };
            let k = common_len(b, path);
            if k >= lowest { Some(path.take(k)) } else { Some(b) }
        },
    }
}

/// The folder in which the dialog to add exclusions opens: the common
/// ancestor of the included folders, taken in order, if there are any.
pub open spec fn common_base(paths: Seq<Seq<Seq<char>>>) -> Option<Seq<Seq<char>>>
    decreases paths.len(),
{
    if paths.len() == 0 {
        None
    } else {
        base_step(common_base(paths.drop_last()), paths.last())
    }
}

/// The shared components of `a` and `b` are at most as many as either has,
/// and every shorter count is shared too.
proof fn lemma_common_len(a: Seq<Seq<char>>, b: Seq<Seq<char>>, i: int)
    requires
        0 <= i <= a.len(),
        i <= b.len(),
        a.take(i) == b.take(i),
    ensures
        i <= common_len_from(a, b, i) <= a.len(),
        common_len_from(a, b, i) <= b.len(),
        a.take(common_len_from(a, b, i)) == b.take(common_len_from(a, b, i)),
        common_len_from(a, b, i) < a.len() && common_len_from(a, b, i) < b.len()
            ==> a[common_len_from(a, b, i)] != b[common_len_from(a, b, i)],
    decreases a.len() - i,
{
    if i < a.len() && i < b.len() && a[i] == b[i] {
        assert(a.take(i + 1) =~= a.take(i).push(a[i]));
        assert(b.take(i + 1) =~= b.take(i).push(b[i]));
        lemma_common_len(a, b, i + 1);
    }
}

/// The number of components `a` and `b` share, counted from the start.
fn common_prefix_len(a: &Vec<String>, b: &Vec<String>) -> (k: usize)
    ensures
        k == common_len(path_view(*a), path_view(*b)),
{
    let ghost av = path_view(*a);
    let ghost bv = path_view(*b);
    let mut i: usize = 0;
    while i < a.len() && i < b.len() && a[i] == b[i]
        invariant
            i <= a@.len(),
            av == path_view(*a),
            bv == path_view(*b),
            common_len_from(av, bv, 0) == common_len_from(av, bv, i as int),
        decreases a@.len() - i,
    {
        proof {
            assert(av[i as int] == bv[i as int]);
        }
        i = i + 1;
    }
    i
}

/// Whether a component is the root `/`.
fn is_root(c: &String) -> (r: bool)
    ensures
        r == (c@ == "/"@),
{
    proof {
        reveal_strlit("/");
    }
    let cs = crate::i18n::chars_of(c.as_str());
    let r = cs.len() == 1 && cs[0] == '/';
    proof {
        if r {
            assert(c@ =~= "/"@);
        }
    }
    r
}

/// The first `k` components of `p`.
fn take_components(p: &Vec<String>, k: usize) -> (r: Vec<String>)
    requires
        k <= p@.len(),
    ensures
        path_view(r) == path_view(*p).take(k as int),
{
    let mut r: Vec<String> = Vec::new();
    let mut i: usize = 0;
    while i < k
        invariant
            i <= k,
            k <= p@.len(),
            path_view(r) == path_view(*p).take(i as int),
        decreases k - i,
    {
        let c = p[i].clone();
        let ghost before = r@;
        r.push(c);
        proof {
            assert(r@ =~= before.push(c));
            assert(path_view(r) =~= before.map_values(|c: String| c@).push(c@));
        }
        i = i + 1;
        proof {
            assert(path_view(r) =~= path_view(*p).take(i as int));
        }
    }
    r
}

/// The view of an optional path.
pub open spec fn opt_path_view(p: Option<Vec<String>>) -> Option<Seq<Seq<char>>> {
    match p {
        Some(v) => Some(path_view(v)),
        None => None,
    }
}

/// Whether `b` is the deepest common ancestor of `paths`: it contains each of
/// them, and each folder that contains them all contains `b`.
pub open spec fn is_deepest_common_ancestor(b: Seq<Seq<char>>, paths: Seq<Seq<Seq<char>>>) -> bool {
    &&& forall|i: int| 0 <= i < paths.len() ==> is_prefix(b, #[trigger] paths[i])
    &&& forall|c: Seq<Seq<char>>|
        (forall|i: int| 0 <= i < paths.len() ==> is_prefix(c, #[trigger] paths[i])) ==> #[trigger] is_prefix(c, b)
}

/// The common ancestor of the included folders, in which the dialog to add
/// exclusions opens; `None` when there are none. For absolute folders it is
/// their deepest common ancestor.
pub fn exclude_base_folder(includes: &Vec<Vec<String>>) -> (r: Option<Vec<String>>)
    ensures
        opt_path_view(r) == common_base(includes@.map_values(|p: Vec<String>| path_view(p))),
        includes@.len() > 0 && (forall|i: int| 0 <= i < includes@.len() ==> is_absolute(#[trigger] path_view(includes@[i])))
            ==> (r matches Some(b) && is_absolute(path_view(b))
                && is_deepest_common_ancestor(path_view(b), includes@.map_values(|p: Vec<String>| path_view(p)))),
{
    let ghost all = includes@.map_values(|p: Vec<String>| path_view(p));
    let mut base: Option<Vec<String>> = None;
    let n = includes.len();
    for i in 0..n
        invariant
            n == includes@.len(),
            all == includes@.map_values(|p: Vec<String>| path_view(p)),
            opt_path_view(base) == common_base(all.take(i as int)),
    {
        proof {
            assert(all.take(i + 1).drop_last() =~= all.take(i as int));
            assert(all.take(i + 1).last() == path_view(includes@[i as int]));
        }
        let path = &includes[i];
        let next = match &base {
            None => path.clone(),
            Some(b) => {
                let lowest: usize = if path.len() > 0 && is_root(&path[0]) { 1 } else { 0 };
                proof {
                    assert(lowest == 1 <==> is_absolute(path_view(*path)));
                }
                let k = common_prefix_len(b, path);
                proof {
                    assert(path_view(*b).take(0) =~= path_view(*path).take(0));
                    lemma_common_len(path_view(*b), path_view(*path), 0);
                }
                if k >= lowest { take_components(path, k) } else { b.clone() }
            },
        };
        base = Some(next);
    }
    proof {
        assert(all.take(n as int) =~= all);
        if n > 0 && (forall|i: int| 0 <= i < includes@.len() ==> is_absolute(#[trigger] path_view(includes@[i]))) {
            assert forall|i: int| 0 <= i < all.len() implies is_absolute(#[trigger] all[i]) by {
                assert(all[i] == path_view(includes@[i]));
            }
            law_base_folder_is_deepest_common_ancestor(all);
        }
    }
    base
}

/// A list of chosen paths, or a cancellation when none were chosen.
pub fn paths_or_canceled<T>(paths: Vec<T>) -> (r: Result<Vec<T>, Error>)
    ensures
        paths@.len() == 0 ==> (r matches Err(e) && e@ == ErrorView::UserCanceled),
        paths@.len() > 0 ==> (r matches Ok(p) && p@ == paths@),
{
    if paths.len() == 0 { Err(Error::UserCanceled) } else { Ok(paths) }
}

/// A prefix of `a` that is also a prefix of `b` is no longer than what they
/// share.
proof fn lemma_common_prefix_bound(a: Seq<Seq<char>>, b: Seq<Seq<char>>, c: Seq<Seq<char>>)
    requires
        is_prefix(c, a),
        is_prefix(c, b),
    ensures
        c.len() <= common_len(a, b),
{
    assert(a.take(0) =~= b.take(0));
    lemma_common_len(a, b, 0);
    let k = common_len(a, b);
    if c.len() > k {
        assert(a[k] == a.take(c.len() as int)[k]);
        assert(b[k] == b.take(c.len() as int)[k]);
    }
}

/// For absolute included folders, the folder the exclusion dialog opens in is
/// their deepest common ancestor: it contains every one of them, and every
/// folder that contains them all contains it.
pub proof fn law_base_folder_is_deepest_common_ancestor(paths: Seq<Seq<Seq<char>>>)
    requires
        paths.len() > 0,
        forall|i: int| 0 <= i < paths.len() ==> is_absolute(#[trigger] paths[i]),
    ensures
        common_base(paths) is Some,
        is_absolute(common_base(paths)->0),
        forall|i: int| 0 <= i < paths.len() ==> is_prefix(common_base(paths)->0, #[trigger] paths[i]),
        forall|c: Seq<Seq<char>>|
            (forall|i: int| 0 <= i < paths.len() ==> is_prefix(c, #[trigger] paths[i]))
                ==> #[trigger] is_prefix(c, common_base(paths)->0),
    decreases paths.len(),
{
    let last = paths.last();
    assert(is_absolute(paths[paths.len() - 1]));
    if paths.len() == 1 {
        assert(common_base(paths.drop_last()) is None);
        assert(last.take(last.len() as int) =~= last);
        assert forall|c: Seq<Seq<char>>|
            (forall|i: int| 0 <= i < paths.len() ==> is_prefix(c, #[trigger] paths[i]))
                implies #[trigger] is_prefix(c, common_base(paths)->0) by {
            assert(is_prefix(c, paths[0]));
        }
    } else {
        let front = paths.drop_last();
        assert forall|i: int| 0 <= i < front.len() implies is_absolute(#[trigger] front[i]) by {
            assert(front[i] == paths[i]);
        }
        law_base_folder_is_deepest_common_ancestor(front);
        let b = common_base(front)->0;
        assert(b.take(0) =~= last.take(0));
        lemma_common_len(b, last, 0);
        let k = common_len(b, last);
        assert(b[0] == last[0]);
        assert(b.take(1) =~= last.take(1));
        lemma_common_len(b, last, 1);
        assert(k >= 1);
        let nb = last.take(k);
        assert(common_base(paths) == Some(nb));
        assert(nb =~= b.take(k));
        assert(is_absolute(nb));
        assert forall|i: int| 0 <= i < paths.len() implies is_prefix(nb, #[trigger] paths[i]) by {
            if i < front.len() {
                assert(front[i] == paths[i]);
                assert(is_prefix(b, front[i]));
                assert(paths[i].take(k) =~= paths[i].take(b.len() as int).take(k));
            } else {
                assert(paths[i] == last);
                assert(last.take(k).len() == k);
            }
        }
        assert forall|c: Seq<Seq<char>>|
            (forall|i: int| 0 <= i < paths.len() ==> is_prefix(c, #[trigger] paths[i]))
                implies #[trigger] is_prefix(c, common_base(paths)->0) by {
            assert forall|i: int| 0 <= i < front.len() implies is_prefix(c, #[trigger] front[i]) by {
                assert(front[i] == paths[i]);
            }
            assert(is_prefix(c, b));
            assert(is_prefix(c, paths[paths.len() - 1]));
            lemma_common_prefix_bound(b, last, c);
            assert(nb.take(c.len() as int) =~= last.take(c.len() as int));
        }
    }
}


/// The parent of a path: none for the root and the empty path.
pub open spec fn parent_spec(p: Seq<Seq<char>>) -> Option<Seq<Seq<char>>> {
    if p.len() == 0 || p == seq!["/"@] { None } else { Some(p.drop_last()) }
}

/// The folder the exclusion dialog opens in: the common ancestor of the
/// included folders, or its parent when it is a file, or else the home folder.
pub open spec fn dialog_folder_spec(base: Option<Seq<Seq<char>>>, base_is_file: bool, home: Seq<Seq<char>>) -> Seq<Seq<char>> {
    match base {
        Some(b) => if base_is_file {
            match parent_spec(b) {
                Some(q) => q,
                None => home,
            }
        } else {
            b
        },
        None => home,
    }
}

/// The folder the exclusion dialog opens in, from the common ancestor of the
/// included folders, whether that is a file, and the home folder.
pub fn exclude_dialog_folder(base: Option<Vec<String>>, base_is_file: bool, home: Vec<String>) -> (r: Vec<String>)
    ensures
        path_view(r) == dialog_folder_spec(opt_path_view(base), base_is_file, path_view(home)),
{
    match base {
        Some(b) => {
            if base_is_file {
                let n = b.len();
                if n == 0 || (n == 1 && is_root(&b[0])) {
                    proof {
                        if n == 1 {
                            assert(path_view(b) =~= seq!["/"@]);
                        }
                    }
                    home
                } else {
                    proof {
                        if path_view(b) == seq!["/"@] {
                            assert(path_view(b)[0] == "/"@);
                        }
                    }
                    let q = take_components(&b, n - 1);
                    proof {
                        assert(path_view(b).take(n - 1) =~= path_view(b).drop_last());
                    }
                    q
                }
            } else {
                b
            }
        },
        None => home,
    }
}

/// Whether `p` lies within `base`, component by component.
pub fn starts_with(p: &Vec<String>, base: &Vec<String>) -> (r: bool)
    ensures
        r == is_prefix(path_view(*base), path_view(*p)),
{
    let k = base.len();
    if k > p.len() {
        return false;
    }
    let r = agree_on(p, base, k);
    proof {
        assert(path_view(*base).take(k as int) =~= path_view(*base));
    }
    r
}

/// Whether a path lies in the folder through which the sandbox hands out
/// documents, `doc/` within the runtime folder: such paths are not reliably
/// available later.
pub open spec fn in_document_portal(p: Seq<Seq<char>>, runtime_dir: Seq<Seq<char>>) -> bool {
    is_prefix(runtime_dir.push("doc"@), p)
}

/// Whether a path is the root or lies within `/dev`: the whole system cannot
/// be backed up.
pub open spec fn is_system_path(p: Seq<Seq<char>>) -> bool {
    is_prefix(seq!["/"@, "dev"@], p) || p == seq!["/"@]
}

/// The paths that may be included: inside the sandbox, those neither handed
/// out by the document portal nor system paths.
pub open spec fn includable(ps: Seq<Seq<Seq<char>>>, runtime_dir: Seq<Seq<char>>) -> Seq<Seq<Seq<char>>>
    decreases ps.len(),
{
    if ps.len() == 0 {
        Seq::empty()
    } else {
        let rest = includable(ps.drop_last(), runtime_dir);
        let p = ps.last();
        if !in_document_portal(p, runtime_dir) && !is_system_path(p) { rest.push(p) } else { rest }
    }
}

/// The paths refused because the document portal handed them out.
pub open spec fn portal_refused(ps: Seq<Seq<Seq<char>>>, runtime_dir: Seq<Seq<char>>) -> Seq<Seq<Seq<char>>>
    decreases ps.len(),
{
    if ps.len() == 0 {
        Seq::empty()
    } else {
        let rest = portal_refused(ps.drop_last(), runtime_dir);
        let p = ps.last();
        if in_document_portal(p, runtime_dir) { rest.push(p) } else { rest }
    }
}

/// The paths refused because they are system paths.
pub open spec fn system_refused(ps: Seq<Seq<Seq<char>>>, runtime_dir: Seq<Seq<char>>) -> Seq<Seq<Seq<char>>>
    decreases ps.len(),
{
    if ps.len() == 0 {
        Seq::empty()
    } else {
        let rest = system_refused(ps.drop_last(), runtime_dir);
        let p = ps.last();
        if !in_document_portal(p, runtime_dir) && is_system_path(p) { rest.push(p) } else { rest }
    }
}

/// The paths chosen for inclusion, sorted: those to include, and those
/// refused, either handed out by the document portal or system paths; each
/// list keeps the order of the choice.
#[derive(Debug, PartialEq, Eq)]
pub struct IncludeSelection {
    pub included: Vec<Vec<String>>,
    pub portal: Vec<Vec<String>>,
    pub system: Vec<Vec<String>>,
}

/// The views of a list of paths.
pub open spec fn paths_view(ps: Vec<Vec<String>>) -> Seq<Seq<Seq<char>>> {
    ps@.map_values(|p: Vec<String>| path_view(p))
}

/// The path made of the given components.
fn path_of(a: &str, b: &str) -> (r: Vec<String>)
    ensures
        path_view(r) == seq![a@, b@],
{
    let mut r: Vec<String> = Vec::new();
    r.push(a.to_string());
    r.push(b.to_string());
    proof {
        assert(path_view(r) =~= seq![a@, b@]);
    }
    r
}

/// Sorts the paths chosen for inclusion. Inside the sandbox, paths that the
/// document portal handed out and system paths are refused; outside it every
/// path is included.
pub fn select_include_paths(paths: Vec<Vec<String>>, runtime_dir: &Vec<String>, sandboxed: bool) -> (r: IncludeSelection)
    ensures
        !sandboxed ==> paths_view(r.included) == paths_view(paths) && r.portal@.len() == 0 && r.system@.len() == 0,
        sandboxed ==> paths_view(r.included) == includable(paths_view(paths), path_view(*runtime_dir)),
        sandboxed ==> paths_view(r.portal) == portal_refused(paths_view(paths), path_view(*runtime_dir)),
        sandboxed ==> paths_view(r.system) == system_refused(paths_view(paths), path_view(*runtime_dir)),
{
    if !sandboxed {
        return IncludeSelection { included: paths, portal: Vec::new(), system: Vec::new() };
    }
    proof {
        reveal_strlit("/");
        reveal_strlit("dev");
        reveal_strlit("doc");
    }
    let mut doc_dir = runtime_dir.clone();
    doc_dir.push("doc".to_string());
    proof {
        assert(path_view(doc_dir) =~= path_view(*runtime_dir).push("doc"@));
    }
    let dev = path_of("/", "dev");
    let ghost all = paths_view(paths);
    let ghost rt = path_view(*runtime_dir);
    let mut included: Vec<Vec<String>> = Vec::new();
    let mut portal: Vec<Vec<String>> = Vec::new();
    let mut system: Vec<Vec<String>> = Vec::new();
    let n = paths.len();
    for i in 0..n
        invariant
            n == paths@.len(),
            all == paths_view(paths),
            rt == path_view(*runtime_dir),
            path_view(doc_dir) == rt.push("doc"@),
            path_view(dev) == seq!["/"@, "dev"@],
            paths_view(included) == includable(all.take(i as int), rt),
            paths_view(portal) == portal_refused(all.take(i as int), rt),
            paths_view(system) == system_refused(all.take(i as int), rt),
    {
        proof {
            assert(all.take(i + 1).drop_last() =~= all.take(i as int));
            assert(all.take(i + 1).last() == path_view(paths@[i as int]));
        }
        let p = &paths[i];
        let in_portal = starts_with(p, &doc_dir);
        let root = p.len() == 1 && is_root(&p[0]);
        proof {
            if root {
                assert(path_view(*p) =~= seq!["/"@]);
            }
            if path_view(*p) == seq!["/"@] {
                assert(path_view(*p)[0] == "/"@);
            }
        }
        let system_path = starts_with(p, &dev) || root;
        let c = p.clone();
        if in_portal {
            let ghost before = portal@;
            portal.push(c);
            proof {
                assert(portal@ =~= before.push(c));
                assert(paths_view(portal) =~= before.map_values(|p: Vec<String>| path_view(p)).push(path_view(c)));
            }
        } else if system_path {
            let ghost before = system@;
            system.push(c);
            proof {
                assert(system@ =~= before.push(c));
                assert(paths_view(system) =~= before.map_values(|p: Vec<String>| path_view(p)).push(path_view(c)));
            }
        } else {
            let ghost before = included@;
            included.push(c);
            proof {
                assert(included@ =~= before.push(c));
                assert(paths_view(included) =~= before.map_values(|p: Vec<String>| path_view(p)).push(path_view(c)));
            }
        }
    }
    proof {
        assert(all.take(n as int) =~= all);
    }
    IncludeSelection { included, portal, system }
}

/// The message about paths the document portal handed out, listing them one
/// per line as the caller displays them.
pub fn portal_refusal(displays: &Vec<String>) -> (m: Message)
    ensures
        m@ == (MessageView {
            text: TextView::Translatable("Unable to Include Location"@),
            secondary_text: TextView::Format {
                msgid: "The following paths could not be included because they aren't reliably available in the sandbox:\n{}"@,
                args: seq![joined(displays@.map_values(|d: String| d@), "\n"@)],
            },
        }),
{
    let list = join(displays, "\n");
    let ghost l = list@;
    let mut args: Vec<String> = Vec::new();
    args.push(list);
    proof {
        assert(args@.map_values(|a: String| a@) =~= seq![l]);
    }
    Message {
        text: Text::translatable("Unable to Include Location"),
        secondary_text: Text::format(
            "The following paths could not be included because they aren't reliably available in the sandbox:\n{}",
            args,
        ),
    }
}

/// The message about system paths, which cannot be backed up.
pub fn system_refusal() -> (m: Message)
    ensures
        m@ == message_view(
            "Unable to Include Location"@,
            "Pika Backup cannot be used to backup the entire system or the “/dev” directory."@,
        ),
{
    Message::new(
        "Unable to Include Location",
        "Pika Backup cannot be used to backup the entire system or the “/dev” directory.",
    )
}

/// A path within the home folder is the home folder joined with the path
/// relative to it; any other path is left as it is.
pub proof fn law_rel_path_rejoins(path: Seq<Seq<char>>, home: Seq<Seq<char>>)
    ensures
        is_prefix(home, path) ==> home + rel_path_spec(path, home) == path,
        !is_prefix(home, path) ==> rel_path_spec(path, home) == path,
{
    if is_prefix(home, path) {
        assert(home + path.skip(home.len() as int) =~= path);
    }
}

/// The folder of the host's system configuration: reached through
/// `/run/host/etc` inside the sandbox, else `/etc`.
pub open spec fn etc_spec(sandboxed: bool) -> Seq<Seq<char>> {
    if sandboxed { seq!["/"@, "run"@, "host"@, "etc"@] } else { seq!["/"@, "etc"@] }
}

/// The folder of the host's system configuration, where the debug
/// information reads the operating system's release and the autostart files.
pub fn etc(sandboxed: bool) -> (r: Vec<String>)
    ensures
        path_view(r) == etc_spec(sandboxed),
{
    let mut r: Vec<String> = Vec::new();
    r.push("/".to_string());
    if sandboxed {
        r.push("run".to_string());
        r.push("host".to_string());
    }
    r.push("etc".to_string());
    proof {
        assert(path_view(r) =~= etc_spec(sandboxed));
    }
    r
}

} // verus!
