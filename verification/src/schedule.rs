//! The schedule page: frequencies, preferred times, and the rules for
//! deleting old archives.

use vstd::prelude::*;
use crate::error::{short_message_view, Error, ErrorView, Message};
use crate::i18n::{decimal, decimal_string, push_char, push_decimal, Text, TextView};
use crate::schedule_status::FrequencyKind;

verus! {

/// A day of the week.
#[derive(Clone, Copy, Debug, PartialEq, Eq, Structural)]
pub enum Weekday {
    Mon,
    Tue,
    Wed,
    Thu,
    Fri,
    Sat,
    Sun,
}

/// The number of days from Monday to `w`.
pub open spec fn days_from_monday(w: Weekday) -> u32 {
    match w {
        Weekday::Mon => 0,
        Weekday::Tue => 1,
        Weekday::Wed => 2,
        Weekday::Thu => 3,
        Weekday::Fri => 4,
        Weekday::Sat => 5,
        Weekday::Sun => 6,
    }
}

impl Weekday {
    /// The number of days from Monday, as the weekday list is ordered.
    pub fn num_days_from_monday(&self) -> (n: u32)
        ensures
            n == days_from_monday(*self),
    {
        match self {
            Weekday::Mon => 0,
            Weekday::Tue => 1,
            Weekday::Wed => 2,
            Weekday::Thu => 3,
            Weekday::Fri => 4,
            Weekday::Sat => 5,
            Weekday::Sun => 6,
        }
    }

    /// The number of the day counted from Monday as one.
    pub fn number_from_monday(&self) -> (n: u32)
        ensures
            n == days_from_monday(*self) + 1,
    {
        self.num_days_from_monday() + 1
    }
}

/// The days of the week in the order the weekday list shows them.
pub fn weekday_list() -> (l: Vec<Weekday>)
    ensures
        l@.len() == 7,
        forall|i: int| 0 <= i < 7 ==> days_from_monday(#[trigger] l@[i]) == i,
{
    vec![Weekday::Mon, Weekday::Tue, Weekday::Wed, Weekday::Thu, Weekday::Fri, Weekday::Sat, Weekday::Sun]
}

/// A time of day to the minute.
#[derive(Clone, Copy, Debug, PartialEq, Eq, Structural)]
pub struct TimeOfDay {
    pub hour: u32,
    pub minute: u32,
}

/// How often scheduled backups are due, with the preferred moment.
#[derive(Clone, Copy, Debug, PartialEq, Eq, Structural)]
pub enum Frequency {
    Hourly,
    Daily { preferred_time: TimeOfDay },
    Weekly { preferred_weekday: Weekday },
    Monthly { preferred_day: u8 },
}

/// The kind of a frequency.
pub open spec fn kind_of(f: Frequency) -> FrequencyKind {
    match f {
        Frequency::Hourly => FrequencyKind::Hourly,
        Frequency::Daily { .. } => FrequencyKind::Daily,
        Frequency::Weekly { .. } => FrequencyKind::Weekly,
        Frequency::Monthly { .. } => FrequencyKind::Monthly,
    }
}

/// The position of a frequency kind in the frequency list.
pub open spec fn kind_index(k: FrequencyKind) -> u32 {
    match k {
        FrequencyKind::Hourly => 0,
        FrequencyKind::Daily => 1,
        FrequencyKind::Weekly => 2,
        FrequencyKind::Monthly => 3,
    }
}

impl Frequency {
    /// The kind of this frequency.
    pub fn kind(&self) -> (k: FrequencyKind)
        ensures
            k == kind_of(*self),
    {
        match self {
            Frequency::Hourly => FrequencyKind::Hourly,
            Frequency::Daily { .. } => FrequencyKind::Daily,
            Frequency::Weekly { .. } => FrequencyKind::Weekly,
            Frequency::Monthly { .. } => FrequencyKind::Monthly,
        }
    }
}

/// The frequencies the frequency list offers, in order, each with its default
/// preferred moment: midnight, Monday, the first of the month.
pub fn frequency_list() -> (l: Vec<Frequency>)
    ensures
        l@ == seq![
            Frequency::Hourly,
            Frequency::Daily { preferred_time: TimeOfDay { hour: 0, minute: 0 } },
            Frequency::Weekly { preferred_weekday: Weekday::Mon },
            Frequency::Monthly { preferred_day: 1 },
        ],
        forall|i: int| 0 <= i < 4 ==> kind_index(kind_of(#[trigger] l@[i])) == i,
{
    let l = vec![
        Frequency::Hourly,
        Frequency::Daily { preferred_time: TimeOfDay { hour: 0, minute: 0 } },
        Frequency::Weekly { preferred_weekday: Weekday::Mon },
        Frequency::Monthly { preferred_day: 1 },
    ];
    proof {
        assert(l@ =~= seq![
            Frequency::Hourly,
            Frequency::Daily { preferred_time: TimeOfDay { hour: 0, minute: 0 } },
            Frequency::Weekly { preferred_weekday: Weekday::Mon },
            Frequency::Monthly { preferred_day: 1 },
        ]);
    }
    l
}

/// The position of a frequency's kind in the frequency list, which the page
/// selects when it shows a configuration.
pub fn frequency_index(f: &Frequency) -> (i: u32)
    ensures
        i == kind_index(kind_of(*f)),
{
    match f.kind() {
        FrequencyKind::Hourly => 0,
        FrequencyKind::Daily => 1,
        FrequencyKind::Weekly => 2,
        FrequencyKind::Monthly => 3,
    }
}

/// The values the schedule page's widgets hold.
#[derive(Clone, Copy, Debug, PartialEq, Eq, Structural)]
pub struct FrequencySelection {
    /// The kind of the selected entry of the frequency list, if any.
    pub kind: Option<FrequencyKind>,
    pub hour: u32,
    pub minute: u32,
    /// The selected weekday, if any.
    pub weekday: Option<Weekday>,
    pub day: u8,
}

/// The frequency a selection describes, or the error the page reports.
pub open spec fn frequency_of_selection(s: FrequencySelection) -> Result<Frequency, ErrorView> {
    match s.kind {
        None => Err(ErrorView::Message(short_message_view("No frequency selected."@))),
        Some(FrequencyKind::Hourly) => Ok(Frequency::Hourly),
        Some(FrequencyKind::Daily) => if s.hour < 24 && s.minute < 60 {
            Ok(Frequency::Daily { preferred_time: TimeOfDay { hour: s.hour, minute: s.minute } })
        } else {
            Err(ErrorView::Message(short_message_view("Invalid time format."@)))
        },
        Some(FrequencyKind::Weekly) => match s.weekday {
            Some(w) => Ok(Frequency::Weekly { preferred_weekday: w }),
            None => Err(ErrorView::Message(short_message_view("Invalid weekday."@))),
        },
        Some(FrequencyKind::Monthly) => Ok(Frequency::Monthly { preferred_day: s.day }),
    }
}

/// The view of a frequency result.
pub open spec fn frequency_result_view(r: Result<Frequency, Error>) -> Result<Frequency, ErrorView> {
    match r {
        Ok(f) => Ok(f),
        Err(e) => Err(e@),
    }
}

/// Reads the frequency from the page's widgets: the selected kind, with the
/// preferred time (which must be a valid time of day), weekday or day.
pub fn frequency(s: &FrequencySelection) -> (r: Result<Frequency, Error>)
    ensures
        frequency_result_view(r) == frequency_of_selection(*s),
{
    match s.kind {
        None => Err(Error::Message(Message::short("No frequency selected."))),
        Some(FrequencyKind::Hourly) => Ok(Frequency::Hourly),
        Some(FrequencyKind::Daily) => if s.hour < 24 && s.minute < 60 {
            Ok(Frequency::Daily { preferred_time: TimeOfDay { hour: s.hour, minute: s.minute } })
        } else {
            Err(Error::Message(Message::short("Invalid time format.")))
        },
        Some(FrequencyKind::Weekly) => match s.weekday {
            Some(w) => Ok(Frequency::Weekly { preferred_weekday: w }),
            None => Err(Error::Message(Message::short("Invalid weekday."))),
        },
        Some(FrequencyKind::Monthly) => Ok(Frequency::Monthly { preferred_day: s.day }),
    }
}

/// A frequency whose preferred time, if any, is a time of day.
pub open spec fn valid_frequency(f: Frequency) -> bool {
    f matches Frequency::Daily { preferred_time } ==> preferred_time.hour < 24 && preferred_time.minute < 60
}

/// What the page's widgets hold after showing the configured frequency `f`:
/// its entry of the frequency list, and its preferred moment; the widgets of
/// the other moments keep what they held.
pub open spec fn shown_selection(f: Frequency, current: FrequencySelection) -> FrequencySelection {
    match f {
        Frequency::Hourly => FrequencySelection { kind: Some(FrequencyKind::Hourly), ..current },
        Frequency::Daily { preferred_time } => FrequencySelection {
            kind: Some(FrequencyKind::Daily),
            hour: preferred_time.hour,
            minute: preferred_time.minute,
            ..current
        },
        Frequency::Weekly { preferred_weekday } => FrequencySelection {
            kind: Some(FrequencyKind::Weekly),
            weekday: Some(preferred_weekday),
            ..current
        },
        Frequency::Monthly { preferred_day } => FrequencySelection {
            kind: Some(FrequencyKind::Monthly),
            day: preferred_day,
            ..current
        },
    }
}

/// Sets the page's widgets to show the configured frequency.
pub fn show_frequency(f: &Frequency, current: &FrequencySelection) -> (s: FrequencySelection)
    ensures
        s == shown_selection(*f, *current),
{
    match *f {
        Frequency::Hourly => FrequencySelection {
            kind: Some(FrequencyKind::Hourly),
            hour: current.hour,
            minute: current.minute,
            weekday: current.weekday,
            day: current.day,
        },
        Frequency::Daily { preferred_time } => FrequencySelection {
            kind: Some(FrequencyKind::Daily),
            hour: preferred_time.hour,
            minute: preferred_time.minute,
            weekday: current.weekday,
            day: current.day,
        },
        Frequency::Weekly { preferred_weekday } => FrequencySelection {
            kind: Some(FrequencyKind::Weekly),
            hour: current.hour,
            minute: current.minute,
            weekday: Some(preferred_weekday),
            day: current.day,
        },
        Frequency::Monthly { preferred_day } => FrequencySelection {
            kind: Some(FrequencyKind::Monthly),
            hour: current.hour,
            minute: current.minute,
            weekday: current.weekday,
            day: preferred_day,
        },
    }
}

/// Reading the page's widgets right after they show a configured frequency
/// gives that frequency back, whatever the widgets held before.
pub proof fn law_shown_frequency_reads_back(f: Frequency, current: FrequencySelection)
    requires
        valid_frequency(f),
    ensures
        frequency_of_selection(shown_selection(f, current)) == Ok::<Frequency, ErrorView>(f),
{
}

/// The widgets after the frequency changed from the configured one: a new
/// preferred hour (from one to 23) at minute zero, weekday and day, drawn at
/// random by the caller, replace the former ones.
pub fn reset_preferred_moments(current: &FrequencySelection, hour: u32, weekday_index: u32, day: u8) -> (s: FrequencySelection)
    requires
        1 <= hour < 24,
        weekday_index < 7,
        1 <= day < 32,
    ensures
        s.kind == current.kind,
        s.hour == hour,
        s.minute == 0,
        s.weekday matches Some(w) && days_from_monday(w) == weekday_index,
        s.day == day,
{
    let days = weekday_list();
    let w = days[weekday_index as usize];
    FrequencySelection { kind: current.kind, hour, minute: 0, weekday: Some(w), day }
}

/// A number as two digits at least, with a leading zero below ten.
pub open spec fn two_digits(n: u32) -> Seq<char> {
    if n < 10 { seq!['0'] + decimal(n as nat) } else { decimal(n as nat) }
}

/// A number as two digits at least.
pub fn two_digit_text(n: u32) -> (r: String)
    ensures
        r@ == two_digits(n),
{
    if n < 10 {
        let mut r = String::new();
        push_char(&mut r, '0');
        push_decimal(&mut r, n);
        proof {
            assert(r@ =~= seq!['0'] + decimal(n as nat));
        }
        r
    } else {
        decimal_string(n)
    }
}

/// The label of the preferred time: hours and minutes as two digits, apart
/// by a colon between thin spaces.
pub fn preferred_time_label(hour: u32, minute: u32) -> (r: String)
    ensures
        r@ == two_digits(hour) + seq!['\u{2009}', ':', '\u{2009}'] + two_digits(minute),
{
    let mut r = two_digit_text(hour);
    push_char(&mut r, '\u{2009}');
    push_char(&mut r, ':');
    push_char(&mut r, '\u{2009}');
    let m = two_digit_text(minute);
    r.append(m.as_str());
    proof {
        assert(r@ =~= two_digits(hour) + seq!['\u{2009}', ':', '\u{2009}'] + two_digits(minute));
    }
    r
}

/// The question asked before scheduled backups are switched off.
pub fn disable_schedule_question() -> (q: (Text, Text, Text, Text))
    ensures
        q.0@ == TextView::Translatable("Disable backup schedule?"@),
        q.1@ == TextView::Translatable("Backups will no longer run on a schedule"@),
        q.2@ == TextView::Translatable("_Keep Schedule"@),
        q.3@ == TextView::Translatable("_Disable Schedule"@),
{
    (
        Text::translatable("Disable backup schedule?"),
        Text::translatable("Backups will no longer run on a schedule"),
        Text::translatable("_Keep Schedule"),
        Text::translatable("_Disable Schedule"),
    )
}

/// Whether scheduled backups are on after the switch was turned to `active`:
/// switching them off takes the user's confirmation, without which they stay
/// on. Switching them on also asks to run in the background.
pub fn schedule_enabled_after(active: bool, disable_confirmed: bool) -> (r: (bool, bool))
    ensures
        r.0 == (active || !disable_confirmed),
        r.1 == active,
{
    (active || !disable_confirmed, active)
}

/// What a change of the deletion rules does: changes that need a review show
/// the button to save them; others are saved at once.
pub fn prune_change_effect(unsafe_changes: bool) -> (r: (bool, bool))
    ensures
        r.0 == unsafe_changes,
        r.1 == !unsafe_changes,
{
    (unsafe_changes, !unsafe_changes)
}

/// Which preferred-moment rows the page shows.
#[derive(Clone, Copy, Debug, PartialEq, Eq, Structural)]
pub struct PreferredRows {
    pub time: bool,
    pub weekday: bool,
    pub day: bool,
}

/// The preferred-moment rows shown for a frequency: the time for daily
/// backups, the weekday for weekly ones, the day for monthly ones.
pub fn preferred_rows(k: FrequencyKind) -> (r: PreferredRows)
    ensures
        r.time == (k == FrequencyKind::Daily),
        r.weekday == (k == FrequencyKind::Weekly),
        r.day == (k == FrequencyKind::Monthly),
{
    match k {
        FrequencyKind::Hourly => PreferredRows { time: false, weekday: false, day: false },
        FrequencyKind::Daily => PreferredRows { time: true, weekday: false, day: false },
        FrequencyKind::Weekly => PreferredRows { time: false, weekday: true, day: false },
        FrequencyKind::Monthly => PreferredRows { time: false, weekday: false, day: true },
    }
}

/// Whether changing to `selected` is a change of the configured frequency,
/// after which the page suggests new preferred moments.
pub fn frequency_changed(configured: &Frequency, selected: &Frequency) -> (r: bool)
    ensures
        r == (*configured != *selected),
{
    *configured != *selected
}

/// How many archives of each age the deletion of old archives keeps.
#[derive(Clone, Copy, Debug, PartialEq, Eq, Structural)]
pub struct Keep {
    pub hourly: u32,
    pub daily: u32,
    pub weekly: u32,
    pub monthly: u32,
    pub yearly: u32,
}

/// `a` keeps at least as many archives as `b` of every age.
pub open spec fn keeps_at_least(a: Keep, b: Keep) -> bool {
    &&& a.hourly >= b.hourly
    &&& a.daily >= b.daily
    &&& a.weekly >= b.weekly
    &&& a.monthly >= b.monthly
    &&& a.yearly >= b.yearly
}

impl Keep {
    /// Whether this keeps at least as many archives as `other` of every age.
    pub fn is_greater_eq_everywhere(&self, other: &Keep) -> (r: bool)
        ensures
            r == keeps_at_least(*self, *other),
    {
        self.hourly >= other.hourly
            && self.daily >= other.daily
            && self.weekly >= other.weekly
            && self.monthly >= other.monthly
            && self.yearly >= other.yearly
    }
}

/// Changes to the deletion rules that could delete archives and must be
/// reviewed first: switching deletion on, or keeping fewer archives of some
/// age while deletion is on.
pub open spec fn unsafe_prune_change(enabled: bool, configured_enabled: bool, keep: Keep, configured_keep: Keep) -> bool {
    (enabled && configured_enabled != enabled) || (!keeps_at_least(keep, configured_keep) && enabled)
}

/// Whether the rules on the page, compared with the configured ones, must be
/// reviewed before they are saved.
pub fn prune_pending_unsafe_changes(enabled: bool, configured_enabled: bool, keep: &Keep, configured_keep: &Keep) -> (r: bool)
    ensures
        r == unsafe_prune_change(enabled, configured_enabled, *keep, *configured_keep),
{
    (enabled && configured_enabled != enabled) || (!keep.is_greater_eq_everywhere(configured_keep) && enabled)
}

/// Switching deletion off, or keeping more archives, never needs a review.
pub proof fn law_keeping_more_is_safe(enabled: bool, configured_enabled: bool, keep: Keep, configured_keep: Keep)
    requires
        !enabled || (configured_enabled && keeps_at_least(keep, configured_keep)),
    ensures
        !unsafe_prune_change(enabled, configured_enabled, keep, configured_keep),
{
}

/// With deletion on, keeping fewer archives of any one age (hourly, daily,
/// weekly, monthly or yearly) than configured needs a review, and so does
/// switching deletion on; keeping no fewer of any age, with deletion already
/// on, needs none.
pub proof fn law_keeping_fewer_is_unsafe(configured_enabled: bool, keep: Keep, configured_keep: Keep)
    ensures
        keep.hourly < configured_keep.hourly ==> unsafe_prune_change(true, configured_enabled, keep, configured_keep),
        keep.daily < configured_keep.daily ==> unsafe_prune_change(true, configured_enabled, keep, configured_keep),
        keep.weekly < configured_keep.weekly ==> unsafe_prune_change(true, configured_enabled, keep, configured_keep),
        keep.monthly < configured_keep.monthly ==> unsafe_prune_change(true, configured_enabled, keep, configured_keep),
        keep.yearly < configured_keep.yearly ==> unsafe_prune_change(true, configured_enabled, keep, configured_keep),
        !configured_enabled ==> unsafe_prune_change(true, configured_enabled, keep, configured_keep),
        configured_enabled && keep.hourly >= configured_keep.hourly && keep.daily >= configured_keep.daily
            && keep.weekly >= configured_keep.weekly && keep.monthly >= configured_keep.monthly
            && keep.yearly >= configured_keep.yearly
            ==> !unsafe_prune_change(true, configured_enabled, keep, configured_keep),
        !unsafe_prune_change(false, configured_enabled, keep, configured_keep),
{
}

/// One `Keep` keeps at least as many as another exactly when it does for
/// every age: lowering any one count below the other's makes it keep less.
pub proof fn law_lowering_one_count_keeps_less(a: Keep, b: Keep)
    ensures
        a.hourly < b.hourly || a.daily < b.daily || a.weekly < b.weekly || a.monthly < b.monthly
            || a.yearly < b.yearly <==> !keeps_at_least(a, b),
{
}

/// The presets for the deletion rules.
#[derive(Clone, Copy, Debug, PartialEq, Eq, Structural)]
pub enum PrunePreset {
    KeepMany,
    KeepSome,
    Custom,
}

impl PrunePreset {
    /// The name of the preset.
    pub fn name(&self) -> (t: Text)
        ensures
            t@ == TextView::Translatable(match *self {
                PrunePreset::KeepMany => "Keep Many"@,
                PrunePreset::KeepSome => "Keep Some"@,
                PrunePreset::Custom => "Custom"@,
            }),
    {
        match self {
            PrunePreset::KeepMany => Text::translatable("Keep Many"),
            PrunePreset::KeepSome => Text::translatable("Keep Some"),
            PrunePreset::Custom => Text::translatable("Custom"),
        }
    }

    /// The presets in the order the preset list shows them.
    pub fn list() -> (l: Vec<PrunePreset>)
        ensures
            l@ == seq![PrunePreset::KeepMany, PrunePreset::KeepSome, PrunePreset::Custom],
    {
        let l = vec![PrunePreset::KeepMany, PrunePreset::KeepSome, PrunePreset::Custom];
        proof {
            assert(l@ =~= seq![PrunePreset::KeepMany, PrunePreset::KeepSome, PrunePreset::Custom]);
        }
        l
    }
}

impl Default for PrunePreset {
    fn default() -> (p: Self)
        ensures
            p == PrunePreset::Custom,
    {
        PrunePreset::Custom
    }
}

} // verus!
