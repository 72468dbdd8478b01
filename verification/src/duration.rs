//! Durations in the words of the interface: "3 minutes ago", "2 days left".

use vstd::prelude::*;
use crate::i18n::{Catalog, Text, TextView};

verus! {

/// The largest number of whole seconds a time span can hold: `i64::MAX`
/// milliseconds.
pub const MAX_SECONDS: i64 = 9_223_372_036_854_775;

/// `a / b` rounded toward zero, as Rust's integer division rounds.
pub open spec fn div_trunc(a: int, b: int) -> int
    recommends
        b > 0,
{
    if a >= 0 { a / b } else { -((-a) / b) }
}

/// A signed time span, held as its number of whole seconds (rounded toward
/// zero), which is all that the texts of the interface read of it.
pub struct Span {
    pub seconds: i64,
}

impl Span {
    /// The number of whole minutes.
    pub open spec fn minutes(self) -> int {
        div_trunc(self.seconds as int, 60)
    }

    /// The number of whole hours.
    pub open spec fn hours(self) -> int {
        div_trunc(self.seconds as int, 3600)
    }

    /// The number of whole days.
    pub open spec fn days(self) -> int {
        div_trunc(self.seconds as int, 86400)
    }

    /// The number of whole weeks.
    pub open spec fn weeks(self) -> int {
        div_trunc(self.days(), 7)
    }

    /// A span of `seconds` whole seconds.
    pub fn from_seconds(seconds: i64) -> (d: Span)
        ensures
            d.seconds == seconds,
    {
        Span { seconds }
    }

    /// The number of whole seconds.
    pub fn num_seconds(&self) -> (r: i64)
        ensures
            r == self.seconds,
    {
        self.seconds
    }

    /// The number of whole minutes.
    pub fn num_minutes(&self) -> (r: i64)
        ensures
            r == self.minutes(),
    {
        div_toward_zero(self.seconds, 60)
    }

    /// The number of whole hours.
    pub fn num_hours(&self) -> (r: i64)
        ensures
            r == self.hours(),
    {
        div_toward_zero(self.seconds, 3600)
    }

    /// The number of whole days.
    pub fn num_days(&self) -> (r: i64)
        ensures
            r == self.days(),
    {
        div_toward_zero(self.seconds, 86400)
    }

    /// The number of whole weeks.
    pub fn num_weeks(&self) -> (r: i64)
        ensures
            r == self.weeks(),
    {
        div_toward_zero(self.num_days(), 7)
    }
}

/// `a / b` rounded toward zero.
fn div_toward_zero(a: i64, b: i64) -> (q: i64)
    requires
        b >= 2,
    ensures
        q == div_trunc(a as int, b as int),
{
    if a >= 0 {
        let q = a / b;
        proof {
            assert(q == (a as int) / (b as int));
        }
        q
    } else {
        let m: u64 = (-(a + 1)) as u64 + 1;
        let q: u64 = m / (b as u64);
        proof {
            assert(m == -(a as int));
            vstd::arithmetic::div_mod::lemma_div_is_ordered_by_denominator(m as int, 2, b as int);
            assert(m as int / 2 <= 0x4000_0000_0000_0000);
            assert(q == (m as int) / (b as int));
        }
        -(q as i64)
    }
}

/// The span of a standard duration of `secs` whole seconds, capped at the
/// largest span representable.
pub fn from_std(secs: u64) -> (d: Span)
    ensures
        secs <= MAX_SECONDS ==> d.seconds == secs,
        secs > MAX_SECONDS ==> d.seconds == MAX_SECONDS,
{
    if secs > MAX_SECONDS as u64 {
        Span { seconds: MAX_SECONDS }
    } else {
        Span { seconds: secs as i64 }
    }
}

/// The view of a counted text.
pub open spec fn plural_view(singular: Seq<char>, plural: Seq<char>, n: u32) -> TextView {
    TextView::Plural { singular, plural, n }
}

/// What [`plain`] says of a span.
pub open spec fn plain_view(d: Span) -> TextView {
    if d.minutes() < 1 {
        plural_view("One second"@, "{} seconds"@, d.seconds as u32)
    } else if d.hours() < 1 {
        plural_view("One minute"@, "{} minutes"@, d.minutes() as u32)
    } else if d.days() < 2 {
        plural_view("One hour"@, "{} hours"@, d.hours() as u32)
    } else {
        plural_view("One day"@, "{} days"@, d.days() as u32)
    }
}

/// What [`plain_lowercase`] says of a span.
pub open spec fn plain_lowercase_view(d: Span) -> TextView {
    if d.minutes() < 1 {
        plural_view("one second"@, "{} seconds"@, d.seconds as u32)
    } else if d.hours() < 1 {
        plural_view("one minute"@, "{} minutes"@, d.minutes() as u32)
    } else if d.days() < 2 {
        plural_view("one hour"@, "{} hours"@, d.hours() as u32)
    } else {
        plural_view("one day"@, "{} days"@, d.days() as u32)
    }
}

/// What [`left`] says of a remaining span.
pub open spec fn left_view(d: Span) -> TextView {
    if d.hours() < 1 {
        plural_view("One minute left"@, "{} minutes left"@, (d.minutes() + 1) as u32)
    } else if d.days() < 2 {
        plural_view("One hour left"@, "{} hours left"@, (d.hours() + 1) as u32)
    } else {
        plural_view("One day left"@, "{} days left"@, (d.days() + 1) as u32)
    }
}

/// What [`ago`] says of an elapsed span.
pub open spec fn ago_view(d: Span) -> TextView {
    if d.minutes() < 1 {
        TextView::Translatable("Now"@)
    } else if d.hours() < 1 {
        plural_view("One minute ago"@, "{} minutes ago"@, d.minutes() as u32)
    } else if d.days() < 1 {
        plural_view("One hour ago"@, "{} hours ago"@, d.hours() as u32)
    } else if d.weeks() < 1 {
        plural_view("One day ago"@, "{} days ago"@, d.days() as u32)
    } else if d.days() < 30 {
        plural_view("One week ago"@, "{} weeks ago"@, d.weeks() as u32)
    } else if d.weeks() < 52 {
        plural_view("One month ago"@, "{} months ago"@, (d.days() / 30) as u32)
    } else {
        plural_view("One year ago"@, "{} years ago"@, (d.weeks() / 52) as u32)
    }
}

/// The length of a span in its largest fitting unit: seconds below a minute,
/// minutes below an hour, hours below two days, days beyond.
pub fn plain_text(d: &Span) -> (t: Text)
    ensures
        t@ == plain_view(*d),
{
    if d.num_minutes() < 1 {
        Text::plural("One second", "{} seconds", d.num_seconds() as u32)
    } else if d.num_hours() < 1 {
        Text::plural("One minute", "{} minutes", d.num_minutes() as u32)
    } else if d.num_days() < 2 {
        Text::plural("One hour", "{} hours", d.num_hours() as u32)
    } else {
        Text::plural("One day", "{} days", d.num_days() as u32)
    }
}

/// As [`plain_text`], in lower case for use within a sentence.
pub fn plain_lowercase_text(d: &Span) -> (t: Text)
    ensures
        t@ == plain_lowercase_view(*d),
{
    if d.num_minutes() < 1 {
        Text::plural("one second", "{} seconds", d.num_seconds() as u32)
    } else if d.num_hours() < 1 {
        Text::plural("one minute", "{} minutes", d.num_minutes() as u32)
    } else if d.num_days() < 2 {
        Text::plural("one hour", "{} hours", d.num_hours() as u32)
    } else {
        Text::plural("one day", "{} days", d.num_days() as u32)
    }
}

/// The time left, rounded up: minutes below an hour, hours below two days,
/// days beyond.
pub fn left_text(d: &Span) -> (t: Text)
    ensures
        t@ == left_view(*d),
{
    if d.num_hours() < 1 {
        Text::plural("One minute left", "{} minutes left", (d.num_minutes() + 1) as u32)
    } else if d.num_days() < 2 {
        Text::plural("One hour left", "{} hours left", (d.num_hours() + 1) as u32)
    } else {
        Text::plural("One day left", "{} days left", (d.num_days() + 1) as u32)
    }
}

/// How long ago something happened: "Now" below a minute, then minutes,
/// hours, days, weeks, months of thirty days, and years of fifty-two weeks.
pub fn ago_text(d: &Span) -> (t: Text)
    ensures
        t@ == ago_view(*d),
{
    if d.num_minutes() < 1 {
        Text::translatable("Now")
    } else if d.num_hours() < 1 {
        Text::plural("One minute ago", "{} minutes ago", d.num_minutes() as u32)
    } else if d.num_days() < 1 {
        Text::plural("One hour ago", "{} hours ago", d.num_hours() as u32)
    } else if d.num_weeks() < 1 {
        Text::plural("One day ago", "{} days ago", d.num_days() as u32)
    } else if d.num_days() < 30 {
        Text::plural("One week ago", "{} weeks ago", d.num_weeks() as u32)
    } else if d.num_weeks() < 52 {
        Text::plural("One month ago", "{} months ago", (d.num_days() / 30) as u32)
    } else {
        Text::plural("One year ago", "{} years ago", (d.num_weeks() / 52) as u32)
    }
}

/// The catalog keys of the duration texts hold no NUL character.
proof fn lemma_duration_keys_valid(d: Span)
    ensures
        plain_view(d).keys_valid(),
        plain_lowercase_view(d).keys_valid(),
        left_view(d).keys_valid(),
        ago_view(d).keys_valid(),
{
    reveal_strlit("One second");
    reveal_strlit("{} seconds");
    reveal_strlit("One minute");
    reveal_strlit("{} minutes");
    reveal_strlit("One hour");
    reveal_strlit("{} hours");
    reveal_strlit("One day");
    reveal_strlit("{} days");
    reveal_strlit("one second");
    reveal_strlit("one minute");
    reveal_strlit("one hour");
    reveal_strlit("one day");
    reveal_strlit("One minute left");
    reveal_strlit("{} minutes left");
    reveal_strlit("One hour left");
    reveal_strlit("{} hours left");
    reveal_strlit("One day left");
    reveal_strlit("{} days left");
    reveal_strlit("Now");
    reveal_strlit("One minute ago");
    reveal_strlit("{} minutes ago");
    reveal_strlit("One hour ago");
    reveal_strlit("{} hours ago");
    reveal_strlit("One day ago");
    reveal_strlit("{} days ago");
    reveal_strlit("One week ago");
    reveal_strlit("{} weeks ago");
    reveal_strlit("One month ago");
    reveal_strlit("{} months ago");
    reveal_strlit("One year ago");
    reveal_strlit("{} years ago");
}

/// [`plain_text`] in the catalog's language.
pub fn plain(d: &Span, catalog: &Catalog) -> (r: String)
    ensures
        plain_view(*d).renders_in(catalog.domain_spec(), r@),
{
    proof { lemma_duration_keys_valid(*d); }
    plain_text(d).render(catalog)
}

/// [`plain_lowercase_text`] in the catalog's language.
pub fn plain_lowercase(d: &Span, catalog: &Catalog) -> (r: String)
    ensures
        plain_lowercase_view(*d).renders_in(catalog.domain_spec(), r@),
{
    proof { lemma_duration_keys_valid(*d); }
    plain_lowercase_text(d).render(catalog)
}

/// [`left_text`] in the catalog's language.
pub fn left(d: &Span, catalog: &Catalog) -> (r: String)
    ensures
        left_view(*d).renders_in(catalog.domain_spec(), r@),
{
    proof { lemma_duration_keys_valid(*d); }
    left_text(d).render(catalog)
}

/// [`ago_text`] in the catalog's language.
pub fn ago(d: &Span, catalog: &Catalog) -> (r: String)
    ensures
        ago_view(*d).renders_in(catalog.domain_spec(), r@),
{
    proof { lemma_duration_keys_valid(*d); }
    ago_text(d).render(catalog)
}

} // verus!
