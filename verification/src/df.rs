//! Free space on a backup location: the figures `df` prints over SFTP.

use vstd::prelude::*;
use vstd::string::StringSliceAdditionalSpecFns;
use vstd::utf8::encode_utf8;
use crate::i18n::{chars_of, push_char};

verus! {

/// The space of a file system, in bytes.
#[derive(Clone, Copy, Debug, PartialEq, Eq, Structural)]
pub struct Space {
    pub size: u64,
    pub used: u64,
    pub avail: u64,
}

/// Why the space of a remote location is not known.
#[derive(Debug, PartialEq, Eq)]
pub enum DfError {
    /// A figure is not a number that fits in 64 bits.
    ParseInt,
    /// Running the SFTP client failed; the text is the error as shown.
    StdIo(String),
    /// The server address is not a URL.
    Url,
    /// The output lacks a part; the text says which.
    Other(String),
}

/// The mathematical value of a [`DfError`].
pub enum DfErrorView {
    ParseInt,
    StdIo(Seq<char>),
    Url,
    Other(Seq<char>),
}

impl View for DfError {
    type V = DfErrorView;

    open spec fn view(&self) -> DfErrorView {
        match self {
            DfError::ParseInt => DfErrorView::ParseInt,
            DfError::StdIo(e) => DfErrorView::StdIo(e@),
            DfError::Url => DfErrorView::Url,
            DfError::Other(e) => DfErrorView::Other(e@),
        }
    }
}

/// `l` without one carriage return at its end.
pub open spec fn strip_cr(l: Seq<char>) -> Seq<char> {
    if l.len() > 0 && l.last() == '\r' { l.drop_last() } else { l }
}

/// The index of the first newline at or after `from`.
pub open spec fn newline_from(s: Seq<char>, from: int) -> Option<int>
    decreases s.len() - from,
{
    if from < 0 || from >= s.len() {
        None
    } else if s[from] == '\n' {
        Some(from)
    } else {
        newline_from(s, from + 1)
    }
}

/// The lines of `s` from index `start` on, as Rust's `str::lines` yields
/// them: split at each newline, a carriage return before it dropped, and no
/// empty line after a final newline.
pub open spec fn lines_from(s: Seq<char>, start: int) -> Seq<Seq<char>>
    decreases s.len() - start,
{
    if start < 0 || start >= s.len() {
        Seq::empty()
    } else {
        match newline_from(s, start) {
            Some(i) => if start <= i < s.len() {
                seq![strip_cr(s.subrange(start, i))] + lines_from(s, i + 1)
            } else {
                Seq::empty()
            },
            None => seq![s.subrange(start, s.len() as int)],
        }
    }
}

/// The characters that Unicode counts as white space, as Rust's
/// `char::is_whitespace` does.
pub open spec fn is_white_space(c: char) -> bool {
    ('\u{9}' <= c <= '\u{d}') || c == ' ' || c == '\u{85}' || c == '\u{a0}' || c == '\u{1680}'
        || ('\u{2000}' <= c <= '\u{200a}') || c == '\u{2028}' || c == '\u{2029}' || c == '\u{202f}'
        || c == '\u{205f}' || c == '\u{3000}'
}

/// The end of the word starting at `i`: the first white space at or after
/// `i`, or the end of `s`.
pub open spec fn word_end(s: Seq<char>, i: int) -> int
    decreases s.len() - i,
{
    if i < 0 || i >= s.len() || is_white_space(s[i]) {
        i
    } else {
        word_end(s, i + 1)
    }
}

/// The words of `s` from index `i` on, as Rust's `str::split_whitespace`
/// yields them.
pub open spec fn words_from(s: Seq<char>, i: int) -> Seq<Seq<char>>
    decreases s.len() - i, 1int,
{
    if i < 0 || i >= s.len() {
        Seq::empty()
    } else if is_white_space(s[i]) {
        words_from(s, i + 1)
    } else {
        let j = word_end(s, i);
        if i < j <= s.len() {
            seq![s.subrange(i, j)] + words_from(s, j)
        } else {
            Seq::empty()
        }
    }
}

/// Whether `c` is an ASCII digit.
pub open spec fn is_digit(c: char) -> bool {
    '0' <= c <= '9'
}

/// The number the decimal digits `d` denote.
pub open spec fn digits_value(d: Seq<char>) -> nat
    decreases d.len(),
{
    if d.len() == 0 {
        0
    } else {
        digits_value(d.drop_last()) * 10 + ((d.last() as nat) - ('0' as nat)) as nat
    }
}

/// `s` without one leading `+`.
pub open spec fn unsigned_digits(s: Seq<char>) -> Seq<char> {
    if s.len() > 0 && s[0] == '+' { s.drop_first() } else { s }
}

/// Whether `d` holds ASCII digits only.
pub open spec fn digits_only(d: Seq<char>) -> bool {
    forall|i: int| 0 <= i < d.len() ==> is_digit(#[trigger] d[i])
}

/// The number `s` denotes as Rust's `u64::from_str` reads it: an optional
/// `+`, then at least one ASCII digit, with a value that fits.
pub open spec fn parse_u64_spec(s: Seq<char>) -> Option<u64> {
    let d = unsigned_digits(s);
    if d.len() > 0 && digits_only(d) && digits_value(d) <= u64::MAX {
        Some(digits_value(d) as u64)
    } else {
        None
    }
}

/// The space read from `df` output, as the third line's first three words.
pub open spec fn df_outcome(out: Seq<char>) -> Result<Space, DfErrorView> {
    let lines = lines_from(out, 0);
    if lines.len() < 3 {
        Err(DfErrorView::Other("Third line missing in output."@))
    } else {
        let w = words_from(lines[2], 0);
        if w.len() < 1 {
            Err(DfErrorView::Other("First column missing."@))
        } else if parse_u64_spec(w[0]) is None {
            Err(DfErrorView::ParseInt)
        } else if w.len() < 2 {
            Err(DfErrorView::Other("Second column missing."@))
        } else if parse_u64_spec(w[1]) is None {
            Err(DfErrorView::ParseInt)
        } else if w.len() < 3 {
            Err(DfErrorView::Other("Third column missing."@))
        } else if parse_u64_spec(w[2]) is None {
            Err(DfErrorView::ParseInt)
        } else {
            Ok(Space {
                size: parse_u64_spec(w[0])->0,
                used: parse_u64_spec(w[1])->0,
                avail: parse_u64_spec(w[2])->0,
            })
        }
    }
}

/// Whether `c` is white space.
pub fn is_whitespace(c: char) -> (r: bool)
    ensures
        r == is_white_space(c),
{
    ('\u{9}' <= c && c <= '\u{d}') || c == ' ' || c == '\u{85}' || c == '\u{a0}' || c == '\u{1680}'
        || ('\u{2000}' <= c && c <= '\u{200a}') || c == '\u{2028}' || c == '\u{2029}' || c == '\u{202f}'
        || c == '\u{205f}' || c == '\u{3000}'
}

/// Reads a number as Rust's `u64::from_str` does.
pub fn parse_u64(s: &Vec<char>) -> (r: Option<u64>)
    ensures
        r == parse_u64_spec(s@),
{
    let n = s.len();
    let start: usize = if n > 0 && s[0] == '+' { 1 } else { 0 };
    let ghost d = unsigned_digits(s@);
    proof {
        assert(d =~= s@.subrange(start as int, n as int));
    }
    if start >= n {
        return None;
    }
    let mut acc: u64 = 0;
    let mut k: usize = start;
    let mut overflow = false;
    while k < n
        invariant
            start <= k <= n,
            n == s@.len(),
            d == s@.subrange(start as int, n as int),
            d == unsigned_digits(s@),
            forall|i: int| start <= i < k ==> is_digit(#[trigger] s@[i]),
            !overflow ==> acc == digits_value(d.take(k - start)),
            overflow ==> digits_value(d.take(k - start)) > u64::MAX,
        decreases n - k,
    {
        let c = s[k];
        if !('0' <= c && c <= '9') {
            proof {
                assert(d[k - start] == c);
                assert(!is_digit(d[k - start]));
                assert(!digits_only(d));
                assert(d == unsigned_digits(s@));
                assert(parse_u64_spec(s@) is None);
            }
            return None;
        }
        let digit = (c as u32 - '0' as u32) as u64;
        proof {
            let p = d.take(k + 1 - start);
            assert(p.drop_last() =~= d.take(k - start));
            assert(p.last() == c);
            assert(digits_value(p) == digits_value(d.take(k - start)) * 10 + digit);
        }
        if !overflow {
            match acc.checked_mul(10) {
                Some(m) => match m.checked_add(digit) {
                    Some(v) => {
                        acc = v;
                    },
                    None => {
                        overflow = true;
                    },
                },
                None => {
                    overflow = true;
                    proof {
                        assert(digits_value(d.take(k + 1 - start)) >= acc * 10) by (nonlinear_arith)
                            requires
                                digits_value(d.take(k + 1 - start)) == acc * 10 + digit,
                                digit >= 0;
                    }
                },
            }
        } else {
            proof {
                assert(digits_value(d.take(k + 1 - start)) >= digits_value(d.take(k - start))) by (nonlinear_arith)
                    requires
                        digits_value(d.take(k + 1 - start)) == digits_value(d.take(k - start)) * 10 + digit,
                        digit >= 0;
            }
        }
        k = k + 1;
    }
    proof {
        assert(d.take(n - start) =~= d);
        assert forall|i: int| 0 <= i < d.len() implies is_digit(#[trigger] d[i]) by {
            assert(d[i] == s@[i + start]);
        }
    }
    if overflow {
        None
    } else {
        Some(acc)
    }
}

/// The words of `cs`, as `str::split_whitespace` yields them.
pub fn split_whitespace(cs: &Vec<char>) -> (w: Vec<Vec<char>>)
    ensures
        w@.map_values(|x: Vec<char>| x@) == words_from(cs@, 0),
{
    let n = cs.len();
    let mut w: Vec<Vec<char>> = Vec::new();
    let mut i: usize = 0;
    while i < n
        invariant
            n == cs@.len(),
            i <= n,
            w@.map_values(|x: Vec<char>| x@) + words_from(cs@, i as int) == words_from(cs@, 0),
        decreases n - i,
    {
        if is_whitespace(cs[i]) {
            i = i + 1;
        } else {
            let mut word: Vec<char> = Vec::new();
            let mut j: usize = i;
            while j < n && !is_whitespace(cs[j])
                invariant
                    n == cs@.len(),
                    i <= j <= n,
                    i < n,
                    !is_white_space(cs@[i as int]),
                    word@ == cs@.subrange(i as int, j as int),
                    word_end(cs@, i as int) == word_end(cs@, j as int),
                decreases n - j,
            {
                word.push(cs[j]);
                j = j + 1;
                proof {
                    assert(word@ =~= cs@.subrange(i as int, j as int));
                }
            }
            proof {
                assert(word_end(cs@, j as int) == j);
                assert(j > i);
                assert(words_from(cs@, i as int) == seq![cs@.subrange(i as int, j as int)] + words_from(cs@, j as int));
            }
            let ghost before = w@;
            w.push(word);
            proof {
                assert(w@.map_values(|x: Vec<char>| x@) =~= before.map_values(|x: Vec<char>| x@).push(cs@.subrange(i as int, j as int)));
                assert(w@.map_values(|x: Vec<char>| x@) + words_from(cs@, j as int) =~= before.map_values(|x: Vec<char>| x@) + words_from(cs@, i as int));
            }
            i = j;
        }
    }
    proof {
        assert(w@.map_values(|x: Vec<char>| x@) =~= words_from(cs@, 0));
    }
    w
}

/// A newline found from `from` lies between `from` and the end.
proof fn lemma_newline_in_range(s: Seq<char>, from: int)
    requires
        from >= 0,
    ensures
        newline_from(s, from) matches Some(i) ==> from <= i < s.len() && s[i] == '\n',
        newline_from(s, from) is None ==> forall|j: int| from <= j < s.len() ==> s[j] != '\n',
    decreases s.len() - from,
{
    if from >= 0 && from < s.len() && s[from] != '\n' {
        lemma_newline_in_range(s, from + 1);
    }
}

/// The first newline in `cs` at or after `from`.
fn next_newline(cs: &Vec<char>, from: usize) -> (r: Option<usize>)
    ensures
        r matches Some(i) ==> newline_from(cs@, from as int) == Some(i as int),
        r is None ==> newline_from(cs@, from as int) is None,
{
    let n = cs.len();
    let mut i = from;
    while i < n
        invariant
            n == cs@.len(),
            from <= i,
            newline_from(cs@, from as int) == newline_from(cs@, i as int),
        decreases n - i,
    {
        if cs[i] == '\n' {
            return Some(i);
        }
        i = i + 1;
    }
    None
}

/// The characters of `cs` from `start` to before `end`, without a carriage
/// return at their end when `strip` holds.
fn line_between(cs: &Vec<char>, start: usize, end: usize, strip: bool) -> (l: Vec<char>)
    requires
        start <= end <= cs@.len(),
    ensures
        strip ==> l@ == strip_cr(cs@.subrange(start as int, end as int)),
        !strip ==> l@ == cs@.subrange(start as int, end as int),
{
    let mut l: Vec<char> = Vec::new();
    let mut k = start;
    while k < end
        invariant
            start <= k <= end,
            end <= cs@.len(),
            l@ == cs@.subrange(start as int, k as int),
        decreases end - k,
    {
        l.push(cs[k]);
        k = k + 1;
        proof {
            assert(l@ =~= cs@.subrange(start as int, k as int));
        }
    }
    if strip && l.len() > 0 && l[l.len() - 1] == '\r' {
        l.pop();
        proof {
            assert(l@ =~= cs@.subrange(start as int, end as int).drop_last());
        }
    }
    l
}

/// The third line of `cs`, if it has one.
pub fn third_line(cs: &Vec<char>) -> (r: Option<Vec<char>>)
    ensures
        r is None <==> lines_from(cs@, 0).len() < 3,
        r matches Some(l) ==> l@ == lines_from(cs@, 0)[2],
{
    let n = cs.len();
    let ghost s = cs@;
    if n == 0 {
        return None;
    }
    let i0 = match next_newline(cs, 0) {
        None => {
            return None;
        },
        Some(i) => i,
    };
    proof {
        lemma_newline_in_range(s, 0);
    }
    let start1 = i0 + 1;
    if start1 >= n {
        proof {
            assert(lines_from(s, start1 as int) == Seq::<Seq<char>>::empty());
        }
        return None;
    }
    let i1 = match next_newline(cs, start1) {
        None => {
            proof {
                assert(lines_from(s, start1 as int) =~= seq![s.subrange(start1 as int, n as int)]);
                assert(lines_from(s, 0).len() == 2);
            }
            return None;
        },
        Some(i) => i,
    };
    proof {
        lemma_newline_in_range(s, start1 as int);
    }
    let start2 = i1 + 1;
    if start2 >= n {
        proof {
            assert(lines_from(s, start2 as int) == Seq::<Seq<char>>::empty());
            assert(lines_from(s, start1 as int) =~= seq![strip_cr(s.subrange(start1 as int, i1 as int))]);
            assert(lines_from(s, 0).len() == 2);
        }
        return None;
    }
    proof {
        lemma_newline_in_range(s, start2 as int);
    }
    let (end, strip) = match next_newline(cs, start2) {
        None => (n, false),
        Some(i) => (i, true),
    };
    let line = line_between(cs, start2, end, strip);
    proof {
        let rest = lines_from(s, start2 as int);
        assert(rest.len() >= 1);
        assert(rest[0] == line@);
        assert(lines_from(s, start1 as int) =~= seq![strip_cr(s.subrange(start1 as int, i1 as int))] + rest);
        assert(lines_from(s, 0) =~= seq![strip_cr(s.subrange(0, i0 as int))] + lines_from(s, start1 as int));
        assert(lines_from(s, 0)[2] == rest[0]);
    }
    Some(line)
}

/// The view of a space result.
pub open spec fn space_result_view(r: Result<Space, DfError>) -> Result<Space, DfErrorView> {
    match r {
        Ok(s) => Ok(s),
        Err(e) => Err(e@),
    }
}

/// Reads the space of a file system from the output of `df` run through
/// SFTP: the third line holds the size, the used and the available space.
pub fn parse_df_output(out: &str) -> (r: Result<Space, DfError>)
    ensures
        space_result_view(r) == df_outcome(out@),
{
    let cs = chars_of(out);
    let line = match third_line(&cs) {
        None => {
            return Err(DfError::Other(String::from_str("Third line missing in output.")));
        },
        Some(l) => l,
    };
    let w = split_whitespace(&line);
    let ghost ws = w@.map_values(|x: Vec<char>| x@);
    if w.len() < 1 {
        return Err(DfError::Other(String::from_str("First column missing.")));
    }
    proof {
        assert(ws[0] == w@[0]@);
    }
    let size = match parse_u64(&w[0]) {
        None => {
            return Err(DfError::ParseInt);
        },
        Some(v) => v,
    };
    if w.len() < 2 {
        return Err(DfError::Other(String::from_str("Second column missing.")));
    }
    proof {
        assert(ws[1] == w@[1]@);
    }
    let used = match parse_u64(&w[1]) {
        None => {
            return Err(DfError::ParseInt);
        },
        Some(v) => v,
    };
    if w.len() < 3 {
        return Err(DfError::Other(String::from_str("Third column missing.")));
    }
    proof {
        assert(ws[2] == w@[2]@);
    }
    let avail = match parse_u64(&w[2]) {
        None => {
            return Err(DfError::ParseInt);
        },
        Some(v) => v,
    };
    Ok(Space { size, used, avail })
}

/// A parsed URL of the `url` crate.
#[verifier::external_type_specification]
#[verifier::external_body]
pub struct ExUrl(url::Url);

/// What `url::Url::parse` reads from `input`: the URL, or none where it
/// refuses the text.
pub uninterp spec fn url_parsed(input: Seq<char>) -> Option<url::Url>;

/// The text of a URL, as `url::Url::as_str` writes it.
pub uninterp spec fn url_serialization(u: url::Url) -> Seq<char>;

/// The URL after `url::Url::set_scheme` with `scheme`, which leaves it as it
/// was where the URL standard forbids the change.
pub uninterp spec fn url_with_scheme(u: url::Url, scheme: Seq<char>) -> url::Url;

/// The URL after `url::Url::set_path` with `path`.
pub uninterp spec fn url_with_path(u: url::Url, path: Seq<char>) -> url::Url;

/// The length in bytes of a URL's text.
pub open spec fn url_len(u: url::Url) -> nat {
    encode_utf8(url_serialization(u)).len()
}

/// `url::Url::parse`: reads an absolute URL from `input`, or refuses it. The
/// outcome is named by [`url_parsed`], a function of the input alone. Texts
/// whose offsets pass 32 bits are refused by url with an error, not a panic.
#[verifier::external_body]
fn url_parse(input: &str) -> (r: Option<url::Url>)
    ensures
        r == url_parsed(input@),
{
    url::Url::parse(input).ok()
}

/// `url::Url::as_str`: the URL's text, named by [`url_serialization`].
#[verifier::external_body]
fn url_as_str(u: &url::Url) -> (r: String)
    ensures
        r@ == url_serialization(*u),
{
    u.as_str().to_string()
}

/// `url::Url::set_scheme`: changes the URL's scheme where the URL standard
/// allows it; the outcome is named by [`url_with_scheme`]. Whether the
/// change was refused is not handed out. url keeps 32-bit offsets and stops
/// the process when the new offsets pass them, which `requires` excludes.
#[verifier::external_body]
fn url_set_scheme(u: &mut url::Url, scheme: &str)
    requires
        url_len(*old(u)) + scheme.spec_bytes().len() <= u32::MAX,
    ensures
        *final(u) == url_with_scheme(*old(u), scheme@),
{
    let _refused = u.set_scheme(scheme);
}

/// `url::Url::set_path`: replaces the URL's path, percent-encoding it; the
/// outcome is named by [`url_with_path`]. url keeps 32-bit offsets and stops
/// the process when the text passes them; `requires` excludes that, with
/// room for each byte of the path written as three and a leading part of
/// three bytes.
#[verifier::external_body]
fn url_set_path(u: &mut url::Url, path: &str)
    requires
        url_len(*old(u)) + 3 * path.spec_bytes().len() + 3 <= u32::MAX,
    ensures
        *final(u) == url_with_path(*old(u), path@),
{
    u.set_path(path);
}

/// The URL the SFTP client is given for a server's URL: the scheme `sftp`
/// and no path.
pub open spec fn sftp_target(u: url::Url) -> url::Url {
    url_with_path(url_with_scheme(u, "sftp"@), ""@)
}

/// Whether a server's URL stays within url's 32-bit offsets while it is
/// turned into the SFTP address.
pub open spec fn sftp_fits(u: url::Url) -> bool {
    &&& url_len(u) + encode_utf8("sftp"@).len() <= u32::MAX
    &&& url_len(url_with_scheme(u, "sftp"@)) + 3 * encode_utf8(""@).len() + 3 <= u32::MAX
}

/// The address the SFTP client is given for a server: the text of the
/// server's URL with the scheme `sftp` and no path. A server that is no URL
/// is refused, and so is one whose URL would pass url's 32-bit offsets
/// (4 GiB), which url itself does not support.
pub fn sftp_url(server: &str) -> (r: Result<String, DfError>)
    ensures
        url_parsed(server@) is None ==> r == Err::<String, DfError>(DfError::Url),
        url_parsed(server@) matches Some(u) ==> {
            if sftp_fits(u) {
                r matches Ok(a) && a@ == url_serialization(sftp_target(u))
            } else {
                r == Err::<String, DfError>(DfError::Url)
            }
        },
{
    let limit: usize = u32::MAX as usize;
    let mut u = match url_parse(server) {
        Some(u) => u,
        None => {
            return Err(DfError::Url);
        },
    };
    let scheme = "sftp";
    let scheme_len = scheme.as_bytes().len();
    let before = url_as_str(&u);
    let before_str = before.as_str();
    if scheme_len > limit || before_str.as_bytes().len() > limit - scheme_len {
        return Err(DfError::Url);
    }
    proof {
        assert(before_str.spec_bytes() == encode_utf8(url_serialization(u)));
        assert(limit == u32::MAX);
    }
    url_set_scheme(&mut u, scheme);
    let path = "";
    let path_len = path.as_bytes().len();
    let with_scheme = url_as_str(&u);
    let with_scheme_str = with_scheme.as_str();
    if path_len > (limit - 3) / 3 || with_scheme_str.as_bytes().len() > limit - 3 - 3 * path_len {
        return Err(DfError::Url);
    }
    proof {
        assert(with_scheme_str.spec_bytes() == encode_utf8(url_serialization(u)));
    }
    url_set_path(&mut u, path);
    Ok(url_as_str(&u))
}

} // verus!
