//! Translatable texts: what the interface says, kept apart from the
//! translation that the locale's message catalog supplies.

use vstd::prelude::*;

verus! {

/// Whether `s` holds the NUL character, which no message catalog key may hold.
pub open spec fn has_nul(s: Seq<char>) -> bool {
    s.contains('\0')
}

/// The decimal digit character for `d < 10`.
pub open spec fn digit_char(d: nat) -> char {
    if d == 0 { '0' }
    else if d == 1 { '1' }
    else if d == 2 { '2' }
    else if d == 3 { '3' }
    else if d == 4 { '4' }
    else if d == 5 { '5' }
    else if d == 6 { '6' }
    else if d == 7 { '7' }
    else if d == 8 { '8' }
    else { '9' }
}

/// The decimal notation of `n`, without sign or leading zeros.
pub open spec fn decimal(n: nat) -> Seq<char>
    decreases n,
{
    if n < 10 {
        seq![digit_char(n)]
    } else {
        decimal(n / 10).push(digit_char(n % 10))
    }
}

/// Whether a `{}` placeholder starts at index `i` of `s`.
pub open spec fn placeholder_at(s: Seq<char>, i: int) -> bool {
    0 <= i && i + 1 < s.len() && s[i] == '{' && s[i + 1] == '}'
}

/// The index of the first `{}` placeholder in `s` at or after `from`.
pub open spec fn find_placeholder(s: Seq<char>, from: int) -> Option<int>
    decreases s.len() - from,
{
    if from < 0 || from + 1 >= s.len() {
        None
    } else if placeholder_at(s, from) {
        Some(from)
    } else {
        find_placeholder(s, from + 1)
    }
}

/// `template` with its first `{}` replaced by `arg`; `template` unchanged
/// when it holds no placeholder.
pub open spec fn replace_first_spec(template: Seq<char>, arg: Seq<char>) -> Seq<char> {
    match find_placeholder(template, 0) {
        Some(i) => template.take(i) + arg + template.skip(i + 2),
        None => template,
    }
}

/// `template` with its first `{}` replaced by the decimal notation of `n`;
/// `template` unchanged when it holds no placeholder.
pub open spec fn fill_count_spec(template: Seq<char>, n: nat) -> Seq<char> {
    replace_first_spec(template, decimal(n))
}

/// `template` with its placeholders filled by `args` in turn, each argument
/// replacing the first `{}` left by the previous ones.
pub open spec fn fill_args_spec(template: Seq<char>, args: Seq<Seq<char>>) -> Seq<char>
    decreases args.len(),
{
    if args.len() == 0 {
        template
    } else {
        fill_args_spec(replace_first_spec(template, args[0]), args.drop_first())
    }
}

/// A text of the interface, before translation.
#[derive(Debug, PartialEq, Eq)]
pub enum Text {
    /// Shown as it stands, never translated.
    Verbatim(String),
    /// A catalog key, shown in the locale's translation.
    Translatable(String),
    /// A catalog key pair chosen by the count `n`, whose translation has
    /// its first `{}` replaced by `n`.
    Plural { singular: String, plural: String, n: u32 },
    /// A catalog key whose translation has its placeholders `{}` filled by
    /// `args` in turn.
    Format { msgid: String, args: Vec<String> },
    /// One text followed by another.
    Concat(Box<Text>, Box<Text>),
}

/// The mathematical value of a [`Text`].
pub enum TextView {
    Verbatim(Seq<char>),
    Translatable(Seq<char>),
    Plural { singular: Seq<char>, plural: Seq<char>, n: u32 },
    Format { msgid: Seq<char>, args: Seq<Seq<char>> },
    Concat(Box<TextView>, Box<TextView>),
}

impl View for Text {
    type V = TextView;

    open spec fn view(&self) -> TextView
        decreases self,
    {
        match self {
            Text::Verbatim(s) => TextView::Verbatim(s@),
            Text::Translatable(s) => TextView::Translatable(s@),
            Text::Plural { singular, plural, n } => TextView::Plural {
                singular: singular@,
                plural: plural@,
                n: *n,
            },
            Text::Format { msgid, args } => TextView::Format {
                msgid: msgid@,
                args: args@.map_values(|a: String| a@),
            },
            Text::Concat(a, b) => TextView::Concat(Box::new((**a).view()), Box::new((**b).view())),
        }
    }
}

impl TextView {
    /// No catalog key of the text holds a NUL character.
    pub open spec fn keys_valid(self) -> bool
        decreases self,
    {
        match self {
            TextView::Verbatim(_) => true,
            TextView::Translatable(s) => !has_nul(s),
            TextView::Plural { singular, plural, .. } => !has_nul(singular) && !has_nul(plural),
            TextView::Format { msgid, .. } => !has_nul(msgid),
            TextView::Concat(a, b) => (*a).keys_valid() && (*b).keys_valid(),
        }
    }

    /// The catalog keys of the text, in order: one per translatable part.
    pub open spec fn keys(self) -> Seq<CatalogKeyView>
        decreases self,
    {
        match self {
            TextView::Verbatim(_) => Seq::empty(),
            TextView::Translatable(m) => seq![CatalogKeyView::Single(m)],
            TextView::Plural { singular, plural, n } => seq![CatalogKeyView::Counted { singular, plural, n }],
            TextView::Format { msgid, .. } => seq![CatalogKeyView::Single(msgid)],
            TextView::Concat(a, b) => (*a).keys() + (*b).keys(),
        }
    }

    /// The text shown when its catalog keys translate to `tr`, in order:
    /// verbatim parts as they are, a translatable part as its translation, a
    /// counted part as its translation with the first `{}` filled by the
    /// count, a formatted part as its translation with its placeholders
    /// filled by the arguments.
    pub open spec fn rendered(self, tr: Seq<Seq<char>>) -> Seq<char>
        decreases self,
    {
        match self {
            TextView::Verbatim(s) => s,
            TextView::Translatable(_) => tr[0],
            TextView::Plural { n, .. } => fill_count_spec(tr[0], n as nat),
            TextView::Format { args, .. } => fill_args_spec(tr[0], args),
            TextView::Concat(a, b) => {
                let k = (*a).keys().len() as int;
                (*a).rendered(tr.take(k)) + (*b).rendered(tr.skip(k))
            },
        }
    }

    /// Whether `r` is the text shown in the text domain `domain`: the text
    /// assembled from translations that gettext gives for its catalog keys,
    /// one per key and in order.
    pub open spec fn renders_in(self, domain: Seq<char>, r: Seq<char>) -> bool {
        exists|tr: Seq<Seq<char>>| {
            &&& tr.len() == self.keys().len()
            &&& forall|i: int| 0 <= i < tr.len() ==> translation_of(domain, self.keys()[i], #[trigger] tr[i])
            &&& #[trigger] self.rendered(tr) == r
        }
    }
}

/// A key of the message catalog.
#[derive(Debug, PartialEq, Eq)]
pub enum CatalogKey {
    /// A message.
    Single(String),
    /// A message in singular and plural, chosen by the count `n`.
    Counted { singular: String, plural: String, n: u32 },
}

/// The mathematical value of a [`CatalogKey`].
pub enum CatalogKeyView {
    Single(Seq<char>),
    Counted { singular: Seq<char>, plural: Seq<char>, n: u32 },
}

impl View for CatalogKey {
    type V = CatalogKeyView;

    open spec fn view(&self) -> CatalogKeyView {
        match self {
            CatalogKey::Single(m) => CatalogKeyView::Single(m@),
            CatalogKey::Counted { singular, plural, n } => CatalogKeyView::Counted {
                singular: singular@,
                plural: plural@,
                n: *n,
            },
        }
    }
}

/// Whether gettext gives `r` for the message `msgid` in the text domain
/// `domain`: the translation that the locale's catalog holds, or `msgid`
/// itself. Which one depends on the locale and the installed catalogs, so
/// this is a relation, not a function.
pub uninterp spec fn gettext_gives(domain: Seq<char>, msgid: Seq<char>, r: Seq<char>) -> bool;

/// Whether gettext gives `r` for the singular and plural message pair with
/// the count `n` in the text domain `domain`.
pub uninterp spec fn ngettext_gives(domain: Seq<char>, singular: Seq<char>, plural: Seq<char>, n: u32, r: Seq<char>) -> bool;

/// Whether gettext gives `t` for the catalog key `k` in the text domain
/// `domain`.
pub open spec fn translation_of(domain: Seq<char>, k: CatalogKeyView, t: Seq<char>) -> bool {
    match k {
        CatalogKeyView::Single(m) => gettext_gives(domain, m, t),
        CatalogKeyView::Counted { singular, plural, n } => ngettext_gives(domain, singular, plural, n, t),
    }
}

/// No part of the key holds a NUL character.
pub open spec fn key_valid(k: CatalogKeyView) -> bool {
    match k {
        CatalogKeyView::Single(m) => !has_nul(m),
        CatalogKeyView::Counted { singular, plural, .. } => !has_nul(singular) && !has_nul(plural),
    }
}

/// The views of a list of keys.
pub open spec fn keys_view(v: Seq<CatalogKey>) -> Seq<CatalogKeyView> {
    v.map_values(|k: CatalogKey| k@)
}

/// The views of a list of strings.
pub open spec fn strings_view(v: Seq<String>) -> Seq<Seq<char>> {
    v.map_values(|s: String| s@)
}

/// The keys of a text whose keys hold no NUL hold no NUL.
proof fn lemma_keys_valid(t: TextView)
    requires
        t.keys_valid(),
    ensures
        forall|i: int| 0 <= i < t.keys().len() ==> #[trigger] key_valid(t.keys()[i]),
    decreases t,
{
    match t {
        TextView::Concat(a, b) => {
            lemma_keys_valid(*a);
            lemma_keys_valid(*b);
            let ka = (*a).keys();
            let kb = (*b).keys();
            assert forall|i: int| 0 <= i < t.keys().len() implies #[trigger] key_valid(t.keys()[i]) by {
                if i < ka.len() {
                    assert(t.keys()[i] == ka[i]);
                } else {
                    assert(t.keys()[i] == kb[i - ka.len()]);
                }
            }
        },
        _ => {},
    }
}

/// The message catalog of a text domain whose translations come in UTF-8.
pub struct Catalog {
    domain: String,
}

impl Catalog {
    /// The domain's name holds no NUL character.
    #[verifier::type_invariant]
    spec fn inv(self) -> bool {
        !has_nul(self.domain@)
    }

    /// The name of the text domain.
    pub closed spec fn domain_spec(self) -> Seq<char> {
        self.domain@
    }

    /// The catalog of the text domain `domain`, once gettext was asked to
    /// hand its translations out in UTF-8; none when the name holds a NUL
    /// character or gettext refused.
    pub fn open(domain: &str) -> (r: Option<Catalog>)
        ensures
            has_nul(domain@) ==> r is None,
            r matches Some(c) ==> c.domain_spec() == domain@,
    {
        if holds_nul(domain) {
            return None;
        }
        proof {
            reveal_strlit("UTF-8");
            assert(!has_nul("UTF-8"@)) by {
                if "UTF-8"@.contains('\0') {
                    let i = choose|i: int| 0 <= i < "UTF-8"@.len() && "UTF-8"@[i] == '\0';
                }
            }
        }
        if bind_codeset(domain, "UTF-8") {
            Some(Catalog { domain: domain.to_string() })
        } else {
            None
        }
    }

    /// The name of the text domain.
    pub fn domain(&self) -> (r: &str)
        ensures
            r@ == self.domain_spec(),
    {
        self.domain.as_str()
    }
}

/// Whether `s` holds the NUL character.
fn holds_nul(s: &str) -> (r: bool)
    ensures
        r == has_nul(s@),
{
    let cs = chars_of(s);
    let n = cs.len();
    for i in 0..n
        invariant
            n == cs@.len(),
            cs@ == s@,
            forall|j: int| 0 <= j < i ==> cs@[j] != '\0',
    {
        if cs[i] == '\0' {
            proof {
                assert(s@[i as int] == '\0');
            }
            return true;
        }
    }
    false
}

impl Text {
    /// A text shown as it stands.
    pub fn verbatim(s: &str) -> (t: Text)
        ensures
            t@ == TextView::Verbatim(s@),
    {
        Text::Verbatim(s.to_string())
    }

    /// A text shown in translation.
    pub fn translatable(msgid: &str) -> (t: Text)
        ensures
            t@ == TextView::Translatable(msgid@),
    {
        Text::Translatable(msgid.to_string())
    }

    /// A counted text: the singular or plural form as the locale chooses for `n`,
    /// with `n` filled in.
    pub fn plural(singular: &str, plural: &str, n: u32) -> (t: Text)
        ensures
            t@ == (TextView::Plural { singular: singular@, plural: plural@, n }),
    {
        Text::Plural { singular: singular.to_string(), plural: plural.to_string(), n }
    }

    /// A text whose translation has its placeholders filled by `args`.
    pub fn format(msgid: &str, args: Vec<String>) -> (t: Text)
        ensures
            t@ == (TextView::Format { msgid: msgid@, args: args@.map_values(|a: String| a@) }),
    {
        Text::Format { msgid: msgid.to_string(), args }
    }

    /// `a` followed by `b`.
    pub fn concat(a: Text, b: Text) -> (t: Text)
        ensures
            t@ == TextView::Concat(Box::new(a@), Box::new(b@)),
    {
        Text::Concat(Box::new(a), Box::new(b))
    }

    /// The catalog keys of the text, in order.
    pub fn catalog_keys(&self) -> (r: Vec<CatalogKey>)
        ensures
            keys_view(r@) == self@.keys(),
    {
        let mut r: Vec<CatalogKey> = Vec::new();
        collect_keys(self, &mut r);
        proof {
            assert(keys_view(r@) =~= Seq::<CatalogKeyView>::empty() + self@.keys());
        }
        r
    }

    /// The text shown when its catalog keys translate to `tr`, in order.
    pub fn assemble(&self, tr: &Vec<String>) -> (r: String)
        requires
            tr@.len() == self@.keys().len(),
        ensures
            r@ == self@.rendered(strings_view(tr@)),
    {
        let (r, _end) = assemble_from(self, tr, 0);
        proof {
            assert(strings_view(tr@).subrange(0, tr@.len() as int) =~= strings_view(tr@));
        }
        r
    }

    /// The text in the catalog's language: its keys are translated, one call
    /// of gettext each, and the translations put in place.
    pub fn render(&self, catalog: &Catalog) -> (r: String)
        requires
            self@.keys_valid(),
        ensures
            self@.renders_in(catalog.domain_spec(), r@),
    {
        let keys = self.catalog_keys();
        proof {
            lemma_keys_valid(self@);
            assert forall|i: int| 0 <= i < keys@.len() implies #[trigger] key_valid(keys@[i]@) by {
                assert(keys_view(keys@)[i] == keys@[i]@);
            }
        }
        let tr = translate_keys(catalog, &keys);
        let r = self.assemble(&tr);
        proof {
            let t = strings_view(tr@);
            assert(self@.rendered(t) == r@);
            assert forall|i: int| 0 <= i < t.len() implies translation_of(catalog.domain_spec(), self@.keys()[i], #[trigger] t[i]) by {
                assert(keys_view(keys@)[i] == keys@[i]@);
            }
        }
        r
    }
}

/// Appends the catalog keys of `t` to `out`.
fn collect_keys(t: &Text, out: &mut Vec<CatalogKey>)
    ensures
        keys_view(final(out)@) == keys_view(old(out)@) + t@.keys(),
    decreases t,
{
    match t {
        Text::Verbatim(_) => {
            proof {
                assert(keys_view(out@) =~= keys_view(out@) + t@.keys());
            }
        },
        Text::Translatable(m) => {
            let k = CatalogKey::Single(m.clone());
            let ghost before = out@;
            out.push(k);
            proof {
                assert(out@ =~= before.push(k));
                assert(keys_view(out@) =~= keys_view(before) + t@.keys());
            }
        },
        Text::Plural { singular, plural, n } => {
            let k = CatalogKey::Counted { singular: singular.clone(), plural: plural.clone(), n: *n };
            let ghost before = out@;
            out.push(k);
            proof {
                assert(out@ =~= before.push(k));
                assert(keys_view(out@) =~= keys_view(before) + t@.keys());
            }
        },
        Text::Format { msgid, .. } => {
            let k = CatalogKey::Single(msgid.clone());
            let ghost before = out@;
            out.push(k);
            proof {
                assert(out@ =~= before.push(k));
                assert(keys_view(out@) =~= keys_view(before) + t@.keys());
            }
        },
        Text::Concat(a, b) => {
            let ghost before = keys_view(out@);
            collect_keys(a, out);
            collect_keys(b, out);
            proof {
                assert(keys_view(out@) =~= before + t@.keys());
            }
        },
    }
}

/// The text `t` shows for the translations from `start` on, and where its
/// translations end.
fn assemble_from(t: &Text, tr: &Vec<String>, start: usize) -> (r: (String, usize))
    requires
        start + t@.keys().len() <= tr@.len(),
    ensures
        r.1 == start + t@.keys().len(),
        r.0@ == t@.rendered(strings_view(tr@).subrange(start as int, r.1 as int)),
    decreases t,
{
    let ghost all = strings_view(tr@);
    let len = tr.len();
    assert(start + t@.keys().len() <= len);
    match t {
        Text::Verbatim(s) => (s.clone(), start),
        Text::Translatable(_) => {
            proof {
                assert(t@.keys().len() == 1);
                assert(all.subrange(start as int, start + 1)[0] == tr@[start as int]@);
            }
            (tr[start].clone(), start + 1)
        },
        Text::Plural { n, .. } => {
            proof {
                assert(t@.keys().len() == 1);
                assert(all.subrange(start as int, start + 1)[0] == tr@[start as int]@);
            }
            (fill_count(tr[start].as_str(), *n), start + 1)
        },
        Text::Format { args, .. } => {
            proof {
                assert(t@.keys().len() == 1);
                assert(all.subrange(start as int, start + 1)[0] == tr@[start as int]@);
            }
            (fill_args(tr[start].as_str(), args), start + 1)
        },
        Text::Concat(a, b) => {
            let (ra, mid) = assemble_from(a, tr, start);
            let (rb, end) = assemble_from(b, tr, mid);
            let mut out = ra;
            out.append(rb.as_str());
            proof {
                let sub = all.subrange(start as int, end as int);
                let k = (*a)@.keys().len() as int;
                assert(sub.take(k) =~= all.subrange(start as int, mid as int));
                assert(sub.skip(k) =~= all.subrange(mid as int, end as int));
            }
            (out, end)
        },
    }
}

/// The translations of `keys` from the catalog, one gettext call per key, in
/// order: each is what gettext gives for its key in the catalog's text
/// domain.
pub fn translate_keys(catalog: &Catalog, keys: &Vec<CatalogKey>) -> (r: Vec<String>)
    requires
        forall|i: int| 0 <= i < keys@.len() ==> #[trigger] key_valid(keys@[i]@),
    ensures
        r@.len() == keys@.len(),
        forall|i: int| 0 <= i < r@.len() ==> translation_of(catalog.domain_spec(), keys@[i]@, #[trigger] r@[i]@),
{
    proof {
        use_type_invariant(catalog);
    }
    let mut r: Vec<String> = Vec::new();
    let n = keys.len();
    for i in 0..n
        invariant
            n == keys@.len(),
            r@.len() == i,
            !has_nul(catalog.domain_spec()),
            forall|j: int| 0 <= j < i ==> translation_of(catalog.domain_spec(), keys@[j]@, #[trigger] r@[j]@),
            forall|j: int| 0 <= j < keys@.len() ==> #[trigger] key_valid(keys@[j]@),
    {
        proof {
            assert(key_valid(keys@[i as int]@));
        }
        let t = match &keys[i] {
            CatalogKey::Single(m) => dgettext(catalog, m.as_str()),
            CatalogKey::Counted { singular, plural, n } => dngettext(catalog, singular.as_str(), plural.as_str(), *n),
        };
        r.push(t);
    }
    r
}

/// `String::push` of std: appends one character.
#[verifier::external_body]
pub(crate) fn push_char(s: &mut String, c: char)
    ensures
        final(s)@ == old(s)@.push(c),
{
    s.push(c);
}

/// `gettextrs::bind_textdomain_codeset`: asks gettext to hand out the
/// translations of `domain` in `codeset`; true when gettext reports the
/// codeset bound. The call panics on arguments holding NUL, which
/// `requires` excludes.
#[verifier::external_body]
fn bind_codeset(domain: &str, codeset: &str) -> (r: bool)
    requires
        !has_nul(domain@),
        !has_nul(codeset@),
{
    gettextrs::bind_textdomain_codeset(domain, codeset).ok().flatten().is_some()
}

/// `gettextrs::dgettext`: the translation of `msgid` in the catalog's text
/// domain, for the current locale. A [`Catalog`] exists only once gettext
/// hands out that domain's translations in UTF-8, the binding gettext-rs
/// names to keep the call from panicking on other encodings; nothing in this
/// library binds another codeset. Keys holding NUL, on which the call
/// panics, are excluded. What comes back depends on the locale and the
/// installed catalogs: [`gettext_gives`] relates it to the call's
/// arguments without claiming that two calls give the same text.
#[verifier::external_body]
fn dgettext(catalog: &Catalog, msgid: &str) -> (r: String)
    requires
        !has_nul(catalog.domain_spec()),
        !has_nul(msgid@),
    ensures
        gettext_gives(catalog.domain_spec(), msgid@, r@),
{
    gettextrs::dgettext(catalog.domain.as_str(), msgid)
}

/// `gettextrs::dngettext`: the translation of the singular or plural key for
/// the count `n` in the catalog's text domain. As for [`dgettext`], the
/// domain's translations come in UTF-8 and keys holding NUL are excluded;
/// the locale-dependent result is related to the call's arguments by
/// [`ngettext_gives`].
#[verifier::external_body]
fn dngettext(catalog: &Catalog, singular: &str, plural: &str, n: u32) -> (r: String)
    requires
        !has_nul(catalog.domain_spec()),
        !has_nul(singular@),
        !has_nul(plural@),
    ensures
        ngettext_gives(catalog.domain_spec(), singular@, plural@, n, r@),
{
    gettextrs::dngettext(catalog.domain.as_str(), singular, plural, n)
}

/// The decimal digit for `d`.
fn digit(d: u32) -> (c: char)
    requires
        d < 10,
    ensures
        c == digit_char(d as nat),
{
    if d == 0 { '0' }
    else if d == 1 { '1' }
    else if d == 2 { '2' }
    else if d == 3 { '3' }
    else if d == 4 { '4' }
    else if d == 5 { '5' }
    else if d == 6 { '6' }
    else if d == 7 { '7' }
    else if d == 8 { '8' }
    else { '9' }
}

/// Appends the decimal notation of `n` to `s`.
pub fn push_decimal(s: &mut String, n: u32)
    ensures
        final(s)@ == old(s)@ + decimal(n as nat),
    decreases n,
{
    if n >= 10 {
        push_decimal(s, n / 10);
    }
    push_char(s, digit(n % 10));
    proof {
        if n >= 10 {
            assert(decimal(n as nat) == decimal((n / 10) as nat).push(digit_char((n % 10) as nat)));
        }
    }
}

/// The decimal notation of `n`.
pub fn decimal_string(n: u32) -> (r: String)
    ensures
        r@ == decimal(n as nat),
{
    let mut r = String::new();
    push_decimal(&mut r, n);
    proof {
        assert(r@ =~= decimal(n as nat));
    }
    r
}

/// The characters of `s`, in order.
pub fn chars_of(s: &str) -> (v: Vec<char>)
    ensures
        v@ == s@,
{
    broadcast use vstd::string::group_string_axioms;

    let mut v: Vec<char> = Vec::new();
    for c in it: s.chars()
        invariant
            v@ == it.seq().take(it.index() as int),
    {
        v.push(c);
    }
    v
}

/// The index of the first `{}` in `cs`, if any.
fn first_placeholder(cs: &Vec<char>) -> (r: Option<usize>)
    ensures
        r matches Some(i) ==> placeholder_at(cs@, i as int),
        match r {
            Some(i) => find_placeholder(cs@, 0) == Some(i as int),
            None => find_placeholder(cs@, 0) is None,
        },
{
    let len = cs.len();
    if len < 2 {
        return None;
    }
    let mut i: usize = 0;
    while i < len - 1
        invariant
            len == cs@.len(),
            len >= 2,
            find_placeholder(cs@, 0) == find_placeholder(cs@, i as int),
        decreases len - i,
    {
        if cs[i] == '{' && cs[i + 1] == '}' {
            return Some(i);
        }
        i = i + 1;
    }
    None
}

/// `template` with its first `{}` replaced by `arg`.
pub fn replace_first(template: &str, arg: &str) -> (r: String)
    ensures
        r@ == replace_first_spec(template@, arg@),
{
    let cs = chars_of(template);
    let len = cs.len();
    match first_placeholder(&cs) {
        None => template.to_string(),
        Some(i) => {
            let mut r = String::new();
            let mut j: usize = 0;
            while j < i
                invariant
                    i + 1 < cs@.len(),
                    j <= i,
                    r@ == cs@.take(j as int),
                decreases i - j,
            {
                push_char(&mut r, cs[j]);
                j = j + 1;
                proof {
                    assert(r@ =~= cs@.take(j as int));
                }
            }
            r.append(arg);
            let mut k: usize = i + 2;
            while k < len
                invariant
                    i + 2 <= k <= cs@.len(),
                    len == cs@.len(),
                    r@ == cs@.take(i as int) + arg@ + cs@.subrange(i + 2, k as int),
                decreases cs@.len() - k,
            {
                push_char(&mut r, cs[k]);
                k = k + 1;
                proof {
                    assert(r@ =~= cs@.take(i as int) + arg@ + cs@.subrange(i + 2, k as int));
                }
            }
            proof {
                assert(cs@.subrange(i + 2, cs@.len() as int) =~= cs@.skip(i + 2));
            }
            r
        },
    }
}

/// `template` with its first `{}` replaced by the decimal notation of `n`, as
/// the counted texts of the interface are filled after translation.
pub fn fill_count(template: &str, n: u32) -> (r: String)
    ensures
        r@ == fill_count_spec(template@, n as nat),
{
    let d = decimal_string(n);
    replace_first(template, d.as_str())
}

/// `template` with its placeholders filled by `args` in turn.
pub fn fill_args(template: &str, args: &Vec<String>) -> (r: String)
    ensures
        r@ == fill_args_spec(template@, args@.map_values(|a: String| a@)),
{
    let ghost all = args@.map_values(|a: String| a@);
    let mut r = template.to_string();
    let n = args.len();
    proof {
        assert(all.skip(0) =~= all);
    }
    for i in 0..n
        invariant
            n == args@.len(),
            all == args@.map_values(|a: String| a@),
            fill_args_spec(template@, all) == fill_args_spec(r@, all.skip(i as int)),
    {
        proof {
            assert(all.skip(i as int).drop_first() =~= all.skip(i + 1));
            assert(all.skip(i as int)[0] == args@[i as int]@);
        }
        r = replace_first(r.as_str(), args[i].as_str());
    }
    proof {
        assert(all.skip(n as int) =~= Seq::<Seq<char>>::empty());
    }
    r
}

} // verus!
