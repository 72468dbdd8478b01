//! The exclusion rules of a backup configuration and the dialog that edits
//! them: suggested rules toggled on and off, rules for chosen files and
//! folders, and patterns written by hand.

use vstd::prelude::*;
use crate::error::{Error, ErrorView, Message, MessageView};
use crate::i18n::{Text, TextView};

verus! {

/// How a pattern written into an exclusion rule matches paths.
#[derive(Clone, Copy, Debug, PartialEq, Eq, Structural)]
pub enum PatternKind {
    /// Shell-style wildcards.
    Fnmatch,
    /// A regular expression.
    RegularExpression,
    /// Everything within a folder.
    PathPrefix,
    /// One file.
    PathFullMatch,
}

/// An exclusion rule: one of the predefined rules, by its number, or a
/// pattern.
#[derive(Debug, PartialEq, Eq)]
pub enum ExcludeRule {
    Predefined(u32),
    Pattern(PatternKind, String),
}

/// The mathematical value of an [`ExcludeRule`].
pub enum ExcludeRuleView {
    Predefined(u32),
    Pattern(PatternKind, Seq<char>),
}

impl View for ExcludeRule {
    type V = ExcludeRuleView;

    open spec fn view(&self) -> ExcludeRuleView {
        match self {
            ExcludeRule::Predefined(n) => ExcludeRuleView::Predefined(*n),
            ExcludeRule::Pattern(k, t) => ExcludeRuleView::Pattern(*k, t@),
        }
    }
}

impl ExcludeRule {
    /// A copy of the rule.
    pub fn duplicate(&self) -> (r: ExcludeRule)
        ensures
            r@ == self@,
    {
        match self {
            ExcludeRule::Predefined(n) => ExcludeRule::Predefined(*n),
            ExcludeRule::Pattern(k, t) => ExcludeRule::Pattern(*k, t.clone()),
        }
    }

    /// Whether two rules are the same.
    pub fn same(&self, other: &ExcludeRule) -> (r: bool)
        ensures
            r == (self@ == other@),
    {
        match (self, other) {
            (ExcludeRule::Predefined(a), ExcludeRule::Predefined(b)) => *a == *b,
            (ExcludeRule::Pattern(ka, ta), ExcludeRule::Pattern(kb, tb)) => *ka == *kb && *ta == *tb,
            _ => false,
        }
    }
}

/// The views of a list of rules.
pub open spec fn rules_view(rules: Seq<ExcludeRule>) -> Seq<ExcludeRuleView> {
    rules.map_values(|r: ExcludeRule| r@)
}

/// The exclusion rules of a configuration: a set, so no rule occurs twice.
pub struct ExcludeSet {
    rules: Vec<ExcludeRule>,
}

impl View for ExcludeSet {
    type V = Set<ExcludeRuleView>;

    closed spec fn view(&self) -> Set<ExcludeRuleView> {
        rules_view(self.rules@).to_set()
    }
}

/// `s` with `x` appended holds what `s` holds and `x`.
proof fn lemma_push_to_set(s: Seq<ExcludeRuleView>, x: ExcludeRuleView)
    ensures
        s.push(x).to_set() == s.to_set().insert(x),
{
    assert forall|y: ExcludeRuleView| s.push(x).to_set().contains(y) <==> s.to_set().insert(x).contains(y) by {
        if s.push(x).contains(y) && y != x {
            let i = choose|i: int| 0 <= i < s.push(x).len() && s.push(x)[i] == y;
            assert(i < s.len());
            assert(s[i] == y);
        }
        if s.contains(y) {
            let i = choose|i: int| 0 <= i < s.len() && s[i] == y;
            assert(s.push(x)[i] == y);
        }
        if y == x {
            assert(s.push(x)[s.len() as int] == x);
        }
    }
    assert(s.push(x).to_set() =~= s.to_set().insert(x));
}

impl ExcludeSet {
    /// No rule occurs twice.
    pub closed spec fn well_formed(&self) -> bool {
        rules_view(self.rules@).no_duplicates()
    }

    /// The rules, each once, in the order they were added.
    pub closed spec fn listed(&self) -> Seq<ExcludeRuleView> {
        rules_view(self.rules@)
    }

    /// No rules.
    pub fn new() -> (s: ExcludeSet)
        ensures
            s.well_formed(),
            s@ == Set::<ExcludeRuleView>::empty(),
            s.listed() == Seq::<ExcludeRuleView>::empty(),
    {
        let s = ExcludeSet { rules: Vec::new() };
        proof {
            assert(rules_view(s.rules@).to_set() =~= Set::<ExcludeRuleView>::empty());
            assert(rules_view(s.rules@) =~= Seq::<ExcludeRuleView>::empty());
        }
        s
    }

    /// The rules, each once.
    pub fn rules(&self) -> (r: &Vec<ExcludeRule>)
        ensures
            rules_view(r@) == self.listed(),
    {
        &self.rules
    }

    /// Whether the set holds `rule`.
    pub fn contains(&self, rule: &ExcludeRule) -> (r: bool)
        ensures
            r == self@.contains(rule@),
            self.listed().to_set() == self@,
    {
        let ghost v = rules_view(self.rules@);
        let n = self.rules.len();
        for i in 0..n
            invariant
                n == self.rules@.len(),
                v == rules_view(self.rules@),
                forall|j: int| 0 <= j < i ==> v[j] != rule@,
        {
            if self.rules[i].same(rule) {
                proof {
                    assert(v[i as int] == rule@);
                    assert(v.contains(rule@));
                }
                return true;
            }
        }
        proof {
            if v.contains(rule@) {
                let j = choose|j: int| 0 <= j < v.len() && v[j] == rule@;
                assert(v[j] != rule@);
            }
        }
        false
    }

    /// Adds `rule` unless the set holds it already; a new rule is listed
    /// last.
    pub fn insert(&mut self, rule: ExcludeRule)
        requires
            old(self).well_formed(),
        ensures
            final(self).well_formed(),
            final(self)@ == old(self)@.insert(rule@),
            old(self)@.contains(rule@) ==> final(self).listed() == old(self).listed(),
            !old(self)@.contains(rule@) ==> final(self).listed() == old(self).listed().push(rule@),
    {
        if !self.contains(&rule) {
            let ghost before = self.rules@;
            let ghost x = rule@;
            self.rules.push(rule);
            proof {
                assert(self.rules@ =~= before.push(rule));
                assert(rules_view(self.rules@) =~= rules_view(before).push(x));
                lemma_push_to_set(rules_view(before), x);
                assert(!rules_view(before).contains(x));
                assert forall|i: int, j: int|
                    0 <= i < j < rules_view(self.rules@).len() implies rules_view(self.rules@)[i] != rules_view(self.rules@)[j] by {
                    if j == rules_view(before).len() {
                        assert(rules_view(before)[i] == rules_view(self.rules@)[i]);
                    }
                }
            }
        } else {
            proof {
                assert(self@.insert(rule@) =~= self@);
            }
        }
    }

    /// Keeps the rules for which `keep_rule` holds of their view, given as a
    /// list of answers, one per listed rule.
    fn retain_by(&mut self, keep: &Vec<bool>)
        requires
            old(self).well_formed(),
            keep@.len() == old(self).listed().len(),
        ensures
            final(self).well_formed(),
            forall|x: ExcludeRuleView| #[trigger] final(self)@.contains(x) <==> exists|i: int|
                0 <= i < keep@.len() && keep@[i] && old(self).listed()[i] == x,
    {
        let ghost old_v = rules_view(self.rules@);
        let mut kept: Vec<ExcludeRule> = Vec::new();
        let n = self.rules.len();
        for i in 0..n
            invariant
                n == self.rules@.len(),
                n == keep@.len(),
                old_v == rules_view(self.rules@),
                old_v.no_duplicates(),
                rules_view(kept@).no_duplicates(),
                forall|x: ExcludeRuleView| #[trigger] rules_view(kept@).contains(x) <==> exists|j: int|
                    0 <= j < i && keep@[j] && old_v[j] == x,
        {
            if keep[i] {
                let r = self.rules[i].duplicate();
                let ghost before = kept@;
                let ghost x = r@;
                kept.push(r);
                proof {
                    assert(kept@ =~= before.push(r));
                    assert(rules_view(kept@) =~= rules_view(before).push(x));
                    assert(x == old_v[i as int]);
                    if rules_view(before).contains(x) {
                        let j = choose|j: int| 0 <= j < i && keep@[j] && old_v[j] == x;
                        assert(old_v[j] == old_v[i as int]);
                    }
                    assert forall|a: int, b: int|
                        0 <= a < b < rules_view(kept@).len() implies rules_view(kept@)[a] != rules_view(kept@)[b] by {
                        if b == rules_view(before).len() {
                            assert(rules_view(before)[a] == rules_view(kept@)[a]);
                            assert(rules_view(before).contains(rules_view(before)[a]));
                        }
                    }
                    assert forall|y: ExcludeRuleView| #[trigger] rules_view(kept@).contains(y) <==> exists|j: int|
                        0 <= j < i + 1 && keep@[j] && old_v[j] == y by {
                        if rules_view(kept@).contains(y) {
                            let k = choose|k: int| 0 <= k < rules_view(kept@).len() && rules_view(kept@)[k] == y;
                            if k < rules_view(before).len() {
                                assert(rules_view(before)[k] == y);
                                assert(rules_view(before).contains(y));
                            }
                        }
                        if exists|j: int| 0 <= j < i + 1 && keep@[j] && old_v[j] == y {
                            let j = choose|j: int| 0 <= j < i + 1 && keep@[j] && old_v[j] == y;
                            if j < i {
                                assert(rules_view(before).contains(y));
                                let k = choose|k: int| 0 <= k < rules_view(before).len() && rules_view(before)[k] == y;
                                assert(rules_view(kept@)[k] == y);
                            } else {
                                assert(rules_view(kept@)[rules_view(before).len() as int] == y);
                            }
                        }
                    }
                }
            }
        }
        self.rules = kept;
        proof {
            assert forall|x: ExcludeRuleView| #[trigger] self@.contains(x) <==> exists|i: int|
                0 <= i < keep@.len() && keep@[i] && old_v[i] == x by {
                assert(self@.contains(x) == rules_view(self.rules@).contains(x));
            }
        }
    }

    /// Removes `rule` if the set holds it.
    pub fn remove(&mut self, rule: &ExcludeRule)
        requires
            old(self).well_formed(),
        ensures
            final(self).well_formed(),
            final(self)@ == old(self)@.remove(rule@),
    {
        let ghost old_v = rules_view(self.rules@);
        let mut keep: Vec<bool> = Vec::new();
        let n = self.rules.len();
        for i in 0..n
            invariant
                n == self.rules@.len(),
                old_v == rules_view(self.rules@),
                keep@.len() == i,
                forall|j: int| 0 <= j < i ==> keep@[j] == (old_v[j] != rule@),
        {
            let k = !self.rules[i].same(rule);
            keep.push(k);
        }
        self.retain_by(&keep);
        proof {
            assert forall|x: ExcludeRuleView| final(self)@.contains(x) <==> old(self)@.remove(rule@).contains(x) by {
                if old(self)@.remove(rule@).contains(x) {
                    assert(old_v.contains(x));
                    let i = choose|i: int| 0 <= i < old_v.len() && old_v[i] == x;
                    assert(keep@[i]);
                }
            }
            assert(final(self)@ =~= old(self)@.remove(rule@));
        }
    }

    /// Keeps only the predefined rules other than `predefined`; every other
    /// rule goes.
    pub fn retain_predefined_except(&mut self, predefined: u32)
        requires
            old(self).well_formed(),
        ensures
            final(self).well_formed(),
            final(self)@ == old(self)@.filter(|x: ExcludeRuleView| x matches ExcludeRuleView::Predefined(p) && p != predefined),
    {
        let ghost old_v = rules_view(self.rules@);
        let mut keep: Vec<bool> = Vec::new();
        let n = self.rules.len();
        for i in 0..n
            invariant
                n == self.rules@.len(),
                old_v == rules_view(self.rules@),
                keep@.len() == i,
                forall|j: int| 0 <= j < i ==> keep@[j] == (old_v[j] matches ExcludeRuleView::Predefined(p) && p != predefined),
        {
            let k = match &self.rules[i] {
                ExcludeRule::Predefined(p) => *p != predefined,
                ExcludeRule::Pattern(..) => false,
            };
            keep.push(k);
        }
        self.retain_by(&keep);
        proof {
            let f = |x: ExcludeRuleView| x matches ExcludeRuleView::Predefined(p) && p != predefined;
            assert forall|x: ExcludeRuleView| final(self)@.contains(x) <==> old(self)@.filter(f).contains(x) by {
                if old(self)@.filter(f).contains(x) {
                    assert(old_v.contains(x));
                    let i = choose|i: int| 0 <= i < old_v.len() && old_v[i] == x;
                    assert(keep@[i]);
                }
            }
            assert(final(self)@ =~= old(self)@.filter(f));
        }
    }
}

/// What toggling a suggested rule does to the rules: switched on, the
/// predefined rule is added; switched off, only the other predefined rules
/// stay, so every path and pattern rule goes as well.
pub fn toggle_suggested(rules: &mut ExcludeSet, predefined: u32, active: bool)
    requires
        old(rules).well_formed(),
    ensures
        final(rules).well_formed(),
        active ==> final(rules)@ == old(rules)@.insert(ExcludeRuleView::Predefined(predefined)),
        !active ==> final(rules)@ == old(rules)@.filter(|x: ExcludeRuleView| x matches ExcludeRuleView::Predefined(p) && p != predefined),
{
    if active {
        rules.insert(ExcludeRule::Predefined(predefined));
    } else {
        rules.retain_predefined_except(predefined);
    }
}

/// Adds a rule for each chosen path: a folder excludes all within it, a file
/// itself. The paths are written as the caller displays them.
pub fn exclude_chosen_paths(rules: &mut ExcludeSet, paths: &Vec<String>, folders: bool)
    requires
        old(rules).well_formed(),
    ensures
        final(rules).well_formed(),
        final(rules)@ == old(rules)@.union(paths@.map_values(|p: String| ExcludeRuleView::Pattern(
            if folders { PatternKind::PathPrefix } else { PatternKind::PathFullMatch }, p@)).to_set()),
{
    let kind = if folders { PatternKind::PathPrefix } else { PatternKind::PathFullMatch };
    let ghost f = |p: String| ExcludeRuleView::Pattern(kind, p@);
    let ghost all = paths@.map_values(f);
    let n = paths.len();
    for i in 0..n
        invariant
            n == paths@.len(),
            all == paths@.map_values(f),
            f == (|p: String| ExcludeRuleView::Pattern(kind, p@)),
            rules.well_formed(),
            rules@ == old(rules)@.union(all.take(i as int).to_set()),
    {
        let ghost before = rules@;
        rules.insert(ExcludeRule::Pattern(kind, paths[i].clone()));
        proof {
            assert(all.take(i + 1) =~= all.take(i as int).push(all[i as int]));
            lemma_push_to_set(all.take(i as int), all[i as int]);
            assert(rules@ =~= old(rules)@.union(all.take(i + 1).to_set()));
        }
    }
    proof {
        assert(all.take(n as int) =~= all);
    }
}

/// Saves a pattern written by hand: the rule being edited, if any, is
/// replaced by the new one.
pub fn save_pattern(rules: &mut ExcludeSet, edited: Option<ExcludeRule>, rule: ExcludeRule)
    requires
        old(rules).well_formed(),
    ensures
        final(rules).well_formed(),
        edited is None ==> final(rules)@ == old(rules)@.insert(rule@),
        edited matches Some(e) ==> final(rules)@ == old(rules)@.remove(e@).insert(rule@),
{
    if let Some(e) = edited {
        rules.remove(&e);
    }
    rules.insert(rule);
}

/// Whether a rule can be edited by hand: patterns of wildcards and regular
/// expressions.
pub open spec fn editable_spec(rule: ExcludeRuleView) -> bool {
    rule matches ExcludeRuleView::Pattern(k, _) && (k == PatternKind::Fnmatch || k == PatternKind::RegularExpression)
}

/// Whether the rule's row offers to edit it.
pub fn is_editable(rule: &ExcludeRule) -> (r: bool)
    ensures
        r == editable_spec(rule@),
{
    match rule {
        ExcludeRule::Pattern(PatternKind::Fnmatch, _) => true,
        ExcludeRule::Pattern(PatternKind::RegularExpression, _) => true,
        _ => false,
    }
}

/// The rule for a pattern written by hand, from the pattern type chosen in
/// the list (wildcards first, then regular expressions) and the pattern.
/// Whether a regular expression is valid is checked where it is compiled.
pub fn pattern_from_selection(selected: u32, pattern: String) -> (r: Result<ExcludeRule, Error>)
    ensures
        selected == 0 ==> (r matches Ok(x) && x@ == ExcludeRuleView::Pattern(PatternKind::Fnmatch, pattern@)),
        selected == 1 ==> (r matches Ok(x) && x@ == ExcludeRuleView::Pattern(PatternKind::RegularExpression, pattern@)),
        selected > 1 ==> (r matches Err(e) && e@ == ErrorView::Message(MessageView {
            text: TextView::Verbatim("No valid pattern type selected"@),
            secondary_text: TextView::Verbatim(Seq::empty()),
        })),
{
    if selected == 0 {
        Ok(ExcludeRule::Pattern(PatternKind::Fnmatch, pattern))
    } else if selected == 1 {
        Ok(ExcludeRule::Pattern(PatternKind::RegularExpression, pattern))
    } else {
        let secondary_text = Text::Verbatim(String::new());
        let m = Message { text: Text::verbatim("No valid pattern type selected"), secondary_text };
        proof {
            assert(m@.secondary_text =~= TextView::Verbatim(Seq::empty()));
        }
        Err(Error::Message(m))
    }
}

/// How the page for a pattern written by hand opens.
#[derive(Debug, PartialEq, Eq)]
pub struct PatternPage {
    /// The page can be left back to the list: only when adding.
    pub can_pop: bool,
    /// The label of the button that saves the pattern.
    pub button_label: Text,
    /// The pattern to show, when one is edited.
    pub text: Option<String>,
    /// The pattern type to select, when one is edited.
    pub selected: Option<u32>,
}

/// The pattern of the rule being edited, with its kind, when it is one.
pub open spec fn edited_pattern(edited: Option<&ExcludeRule>) -> Option<(PatternKind, Seq<char>)> {
    match edited {
        Some(e) => match e@ {
            ExcludeRuleView::Pattern(k, t) => Some((k, t)),
            ExcludeRuleView::Predefined(_) => None,
        },
        None => None,
    }
}

/// The entry of the pattern type list that shows a kind of pattern, if any
/// does.
pub open spec fn kind_entry(k: PatternKind) -> Option<u32> {
    if k == PatternKind::Fnmatch {
        Some(0u32)
    } else if k == PatternKind::RegularExpression {
        Some(1u32)
    } else {
        None
    }
}

/// How the page for a pattern opens, for a new pattern or for editing a rule.
pub fn pattern_page(edited: Option<&ExcludeRule>) -> (p: PatternPage)
    ensures
        p.can_pop == (edited is None),
        match edited_pattern(edited) {
            Some((k, t)) => {
                &&& p.button_label@ == TextView::Translatable("Save"@)
                &&& p.text matches Some(s) && s@ == t
                &&& p.selected == kind_entry(k)
            },
            None => {
                &&& p.button_label@ == TextView::Translatable("Add"@)
                &&& p.text is None
                &&& p.selected is None
            },
        },
{
    let can_pop = edited.is_none();
    match edited {
        Some(ExcludeRule::Pattern(k, t)) => {
            let selected = match k {
                PatternKind::Fnmatch => Some(0u32),
                PatternKind::RegularExpression => Some(1u32),
                _ => None,
            };
            PatternPage { can_pop, button_label: Text::translatable("Save"), text: Some(t.clone()), selected }
        },
        _ => PatternPage { can_pop, button_label: Text::translatable("Add"), text: None, selected: None },
    }
}

/// The rows of rules suggested because some files could not be read: each
/// row is checked when the rule is already in place, and the group shows
/// only when there is a suggestion.
pub fn unreadable_rows(rules: &ExcludeSet, suggested: &Option<Vec<ExcludeRule>>) -> (r: (bool, Vec<bool>))
    ensures
        r.0 == (suggested matches Some(s) && s@.len() > 0),
        suggested is None ==> r.1@.len() == 0,
        suggested matches Some(s) ==> r.1@.len() == s@.len()
            && forall|i: int| 0 <= i < s@.len() ==> #[trigger] r.1@[i] == rules@.contains(s@[i]@),
{
    match suggested {
        None => (false, Vec::new()),
        Some(s) => {
            let mut checked: Vec<bool> = Vec::new();
            let n = s.len();
            for i in 0..n
                invariant
                    n == s@.len(),
                    checked@.len() == i,
                    forall|j: int| 0 <= j < i ==> #[trigger] checked@[j] == rules@.contains(s@[j]@),
            {
                let c = rules.contains(&s[i]);
                checked.push(c);
            }
            (n > 0, checked)
        },
    }
}

} // verus!
