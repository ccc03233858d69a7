use vstd::prelude::*;
use crate::account::{
    style_label, AutoCommitBehaviour, AutoPullBehaviour, AutoPushBehaviour, CommandStyle,
    Settings,
};
use crate::text::same_text;

verus! {

/// One stored preferences record: a tag column per dimension and nullable
/// parameter columns. Durations are in milliseconds; counts are stored as
/// the bits of the `u32` count in a signed column.
#[derive(Debug, Clone)]
pub struct SettingsRow {
    pub command_style: String,
    pub autocommit_option: String,
    pub autocommit_duration: Option<u64>,
    pub autocommit_interval_count: Option<i32>,
    pub autopull_option: String,
    pub autopull_duration: Option<u64>,
    pub autopush_option: String,
    pub autopush_duration: Option<u64>,
    pub autopush_interval_count: Option<i32>,
}

/// The content of a stored record.
pub struct RowView {
    pub command_style: Seq<char>,
    pub autocommit_option: Seq<char>,
    pub autocommit_duration: Option<u64>,
    pub autocommit_interval_count: Option<i32>,
    pub autopull_option: Seq<char>,
    pub autopull_duration: Option<u64>,
    pub autopush_option: Seq<char>,
    pub autopush_duration: Option<u64>,
    pub autopush_interval_count: Option<i32>,
}

impl View for SettingsRow {
    type V = RowView;

    open spec fn view(&self) -> RowView {
        RowView {
            command_style: self.command_style@,
            autocommit_option: self.autocommit_option@,
            autocommit_duration: self.autocommit_duration,
            autocommit_interval_count: self.autocommit_interval_count,
            autopull_option: self.autopull_option@,
            autopull_duration: self.autopull_duration,
            autopush_option: self.autopush_option@,
            autopush_duration: self.autopush_duration,
            autopush_interval_count: self.autopush_interval_count,
        }
    }
}

/// The record inserted for `s`: each dimension's tag, and the parameter of
/// the active variant in its column as given; every other parameter column
/// is empty.
pub open spec fn created_row(s: Settings) -> RowView {
    let (commit, commit_duration, commit_count) = match s.auto_commit_behaviour {
        AutoCommitBehaviour::Timer(d) => ("timer"@, Some(d), None),
        AutoCommitBehaviour::Count(n) => ("count"@, None, Some(n as i32)),
        AutoCommitBehaviour::Off => ("off"@, None, None),
    };
    let (pull, pull_duration) = match s.auto_pull_behaviour {
        AutoPullBehaviour::Timer(d) => ("timer"@, Some(d)),
        AutoPullBehaviour::On => ("on"@, None),
        AutoPullBehaviour::Off => ("off"@, None),
    };
    let (push, push_duration, push_count) = match s.auto_push_behaviour {
        AutoPushBehaviour::Timer(d) => ("timer"@, Some(d), None),
        AutoPushBehaviour::Count(n) => ("count"@, None, Some(n as i32)),
        AutoPushBehaviour::Off => ("off"@, None, None),
    };
    RowView {
        command_style: style_label(s.preferred_command_style),
        autocommit_option: commit,
        autocommit_duration: commit_duration,
        autocommit_interval_count: commit_count,
        autopull_option: pull,
        autopull_duration: pull_duration,
        autopush_option: push,
        autopush_duration: push_duration,
        autopush_interval_count: push_count,
    }
}

/// A parameter as it is written: zero stands for no parameter.
pub open spec fn supplied<T>(value: T, is_zero: bool) -> Option<T> {
    if is_zero {
        None
    } else {
        Some(value)
    }
}

/// The values an update binds for `s`: each dimension's tag, and a parameter
/// only for the active variant, and only when it is not zero, so that an
/// update never overwrites a stored parameter with zero.
pub open spec fn written_row(s: Settings) -> RowView {
    let (commit, commit_duration, commit_count) = match s.auto_commit_behaviour {
        AutoCommitBehaviour::Timer(d) => ("timer"@, supplied(d, d == 0), None),
        AutoCommitBehaviour::Count(n) => ("count"@, None, supplied(n as i32, n == 0)),
        AutoCommitBehaviour::Off => ("off"@, None, None),
    };
    let (pull, pull_duration) = match s.auto_pull_behaviour {
        AutoPullBehaviour::Timer(d) => ("timer"@, supplied(d, d == 0)),
        AutoPullBehaviour::On => ("on"@, None),
        AutoPullBehaviour::Off => ("off"@, None),
    };
    let (push, push_duration, push_count) = match s.auto_push_behaviour {
        AutoPushBehaviour::Timer(d) => ("timer"@, supplied(d, d == 0), None),
        AutoPushBehaviour::Count(n) => ("count"@, None, supplied(n as i32, n == 0)),
        AutoPushBehaviour::Off => ("off"@, None, None),
    };
    RowView {
        command_style: style_label(s.preferred_command_style),
        autocommit_option: commit,
        autocommit_duration: commit_duration,
        autocommit_interval_count: commit_count,
        autopull_option: pull,
        autopull_duration: pull_duration,
        autopush_option: push,
        autopush_duration: push_duration,
        autopush_interval_count: push_count,
    }
}

/// A parameter column after an update: the incoming value if there is one,
/// else the stored value.
pub open spec fn kept<T>(incoming: Option<T>, stored: Option<T>) -> Option<T> {
    if incoming is Some {
        incoming
    } else {
        stored
    }
}

/// The record after an update with `incoming`: every tag is replaced, and
/// each parameter column independently keeps its stored value unless the
/// update supplies one.
pub open spec fn merged_row(stored: RowView, incoming: RowView) -> RowView {
    RowView {
        command_style: incoming.command_style,
        autocommit_option: incoming.autocommit_option,
        autocommit_duration: kept(incoming.autocommit_duration, stored.autocommit_duration),
        autocommit_interval_count: kept(
            incoming.autocommit_interval_count,
            stored.autocommit_interval_count,
        ),
        autopull_option: incoming.autopull_option,
        autopull_duration: kept(incoming.autopull_duration, stored.autopull_duration),
        autopush_option: incoming.autopush_option,
        autopush_duration: kept(incoming.autopush_duration, stored.autopush_duration),
        autopush_interval_count: kept(
            incoming.autopush_interval_count,
            stored.autopush_interval_count,
        ),
    }
}

/// The stored command style; an unrecognised label reads as Unix.
pub open spec fn style_of_row(label: Seq<char>) -> CommandStyle {
    if label == "plain-english style"@ {
        CommandStyle::PlainEnglish
    } else {
        CommandStyle::Unix
    }
}

/// A stored duration; an empty column reads as zero.
pub open spec fn duration_of(c: Option<u64>) -> u64 {
    match c {
        Some(d) => d,
        None => 0,
    }
}

/// A stored count; an empty column reads as zero.
pub open spec fn count_of(c: Option<i32>) -> u32 {
    match c {
        Some(n) => n as u32,
        None => 0,
    }
}

/// The stored commit behaviour; an unrecognised tag reads as `Off`.
pub open spec fn commit_of_row(r: RowView) -> AutoCommitBehaviour {
    if r.autocommit_option == "timer"@ {
        AutoCommitBehaviour::Timer(duration_of(r.autocommit_duration))
    } else if r.autocommit_option == "count"@ {
        AutoCommitBehaviour::Count(count_of(r.autocommit_interval_count))
    } else {
        AutoCommitBehaviour::Off
    }
}

pub open spec fn pull_of_row(r: RowView) -> AutoPullBehaviour {
    if r.autopull_option == "on"@ {
        AutoPullBehaviour::On
    } else if r.autopull_option == "timer"@ {
        AutoPullBehaviour::Timer(duration_of(r.autopull_duration))
    } else {
        AutoPullBehaviour::Off
    }
}

pub open spec fn push_of_row(r: RowView) -> AutoPushBehaviour {
    if r.autopush_option == "timer"@ {
        AutoPushBehaviour::Timer(duration_of(r.autopush_duration))
    } else if r.autopush_option == "count"@ {
        AutoPushBehaviour::Count(count_of(r.autopush_interval_count))
    } else {
        AutoPushBehaviour::Off
    }
}

/// The preferences a stored record holds.
pub open spec fn row_settings(r: RowView) -> Settings {
    Settings {
        preferred_command_style: style_of_row(r.command_style),
        auto_commit_behaviour: commit_of_row(r),
        auto_pull_behaviour: pull_of_row(r),
        auto_push_behaviour: push_of_row(r),
    }
}

fn duration_param(d: u64) -> (r: Option<u64>)
    ensures
        r == supplied(d, d == 0),
{
    if d == 0 {
        None
    } else {
        Some(d)
    }
}

fn count_param(n: u32) -> (r: Option<i32>)
    ensures
        r == supplied(n as i32, n == 0),
{
    if n == 0 {
        None
    } else {
        Some(n as i32)
    }
}

fn stored_duration(c: Option<u64>) -> (r: u64)
    ensures
        r == duration_of(c),
{
    match c {
        Some(d) => d,
        None => 0,
    }
}

fn stored_count(c: Option<i32>) -> (r: u32)
    ensures
        r == count_of(c),
{
    match c {
        Some(n) => n as u32,
        None => 0,
    }
}

fn copy_text(s: &String) -> (r: String)
    ensures
        r@ == s@,
{
    s.clone()
}

impl SettingsRow {
    /// The record inserted when preferences are created.
    pub fn created(s: &Settings) -> (r: SettingsRow)
        ensures
            r@ == created_row(*s),
    {
        let (commit, commit_duration, commit_count): (&str, Option<u64>, Option<i32>) =
            match s.auto_commit_behaviour {
            AutoCommitBehaviour::Timer(d) => ("timer", Some(d), None),
            AutoCommitBehaviour::Count(n) => ("count", None, Some(n as i32)),
            AutoCommitBehaviour::Off => ("off", None, None),
        };
        let (pull, pull_duration): (&str, Option<u64>) = match s.auto_pull_behaviour {
            AutoPullBehaviour::Timer(d) => ("timer", Some(d)),
            AutoPullBehaviour::On => ("on", None),
            AutoPullBehaviour::Off => ("off", None),
        };
        let (push, push_duration, push_count): (&str, Option<u64>, Option<i32>) =
            match s.auto_push_behaviour {
            AutoPushBehaviour::Timer(d) => ("timer", Some(d), None),
            AutoPushBehaviour::Count(n) => ("count", None, Some(n as i32)),
            AutoPushBehaviour::Off => ("off", None, None),
        };
        SettingsRow {
            command_style: String::from_str(s.preferred_command_style.to_string()),
            autocommit_option: String::from_str(commit),
            autocommit_duration: commit_duration,
            autocommit_interval_count: commit_count,
            autopull_option: String::from_str(pull),
            autopull_duration: pull_duration,
            autopush_option: String::from_str(push),
            autopush_duration: push_duration,
            autopush_interval_count: push_count,
        }
    }

    /// The values bound when preferences are updated.
    pub fn written(s: &Settings) -> (r: SettingsRow)
        ensures
            r@ == written_row(*s),
    {
        let (commit, commit_duration, commit_count): (&str, Option<u64>, Option<i32>) =
            match s.auto_commit_behaviour {
            AutoCommitBehaviour::Timer(d) => ("timer", duration_param(d), None),
            AutoCommitBehaviour::Count(n) => ("count", None, count_param(n)),
            AutoCommitBehaviour::Off => ("off", None, None),
        };
        let (pull, pull_duration): (&str, Option<u64>) = match s.auto_pull_behaviour {
            AutoPullBehaviour::Timer(d) => ("timer", duration_param(d)),
            AutoPullBehaviour::On => ("on", None),
            AutoPullBehaviour::Off => ("off", None),
        };
        let (push, push_duration, push_count): (&str, Option<u64>, Option<i32>) =
            match s.auto_push_behaviour {
            AutoPushBehaviour::Timer(d) => ("timer", duration_param(d), None),
            AutoPushBehaviour::Count(n) => ("count", None, count_param(n)),
            AutoPushBehaviour::Off => ("off", None, None),
        };
        SettingsRow {
            command_style: String::from_str(s.preferred_command_style.to_string()),
            autocommit_option: String::from_str(commit),
            autocommit_duration: commit_duration,
            autocommit_interval_count: commit_count,
            autopull_option: String::from_str(pull),
            autopull_duration: pull_duration,
            autopush_option: String::from_str(push),
            autopush_duration: push_duration,
            autopush_interval_count: push_count,
        }
    }

    /// This record updated with the values of `incoming`: tags are replaced,
    /// and a parameter column is overwritten only where `incoming` has a value.
    pub fn merged(&self, incoming: &SettingsRow) -> (r: SettingsRow)
        ensures
            r@ == merged_row(self@, incoming@),
    {
        SettingsRow {
            command_style: copy_text(&incoming.command_style),
            autocommit_option: copy_text(&incoming.autocommit_option),
            autocommit_duration: match incoming.autocommit_duration {
                Some(d) => Some(d),
                None => self.autocommit_duration,
            },
            autocommit_interval_count: match incoming.autocommit_interval_count {
                Some(c) => Some(c),
                None => self.autocommit_interval_count,
            },
            autopull_option: copy_text(&incoming.autopull_option),
            autopull_duration: match incoming.autopull_duration {
                Some(d) => Some(d),
                None => self.autopull_duration,
            },
            autopush_option: copy_text(&incoming.autopush_option),
            autopush_duration: match incoming.autopush_duration {
                Some(d) => Some(d),
                None => self.autopush_duration,
            },
            autopush_interval_count: match incoming.autopush_interval_count {
                Some(c) => Some(c),
                None => self.autopush_interval_count,
            },
        }
    }

    /// The preferences this record holds. Unrecognised tags read as Unix or
    /// `Off`, and an empty parameter column of an active variant as zero.
    pub fn to_settings(&self) -> (r: Settings)
        ensures
            r == row_settings(self@),
    {
        let style = if same_text(self.command_style.as_str(), "plain-english style") {
            CommandStyle::PlainEnglish
        } else {
            CommandStyle::Unix
        };
        let commit_tag = self.autocommit_option.as_str();
        let commit = if same_text(commit_tag, "timer") {
            AutoCommitBehaviour::Timer(stored_duration(self.autocommit_duration))
        } else if same_text(commit_tag, "count") {
            AutoCommitBehaviour::Count(stored_count(self.autocommit_interval_count))
        } else {
            AutoCommitBehaviour::Off
        };
        let pull_tag = self.autopull_option.as_str();
        let pull = if same_text(pull_tag, "on") {
            AutoPullBehaviour::On
        } else if same_text(pull_tag, "timer") {
            AutoPullBehaviour::Timer(stored_duration(self.autopull_duration))
        } else {
            AutoPullBehaviour::Off
        };
        let push_tag = self.autopush_option.as_str();
        let push = if same_text(push_tag, "timer") {
            AutoPushBehaviour::Timer(stored_duration(self.autopush_duration))
        } else if same_text(push_tag, "count") {
            AutoPushBehaviour::Count(stored_count(self.autopush_interval_count))
        } else {
            AutoPushBehaviour::Off
        };
        Settings {
            preferred_command_style: style,
            auto_commit_behaviour: commit,
            auto_pull_behaviour: pull,
            auto_push_behaviour: push,
        }
    }
}

/// Reading back a freshly inserted record, or the values an update binds,
/// gives the preferences they were made from.
pub proof fn lemma_rows_read_back(s: Settings)
    ensures
        row_settings(created_row(s)) == s,
        row_settings(written_row(s)) == s,
{
    reveal_strlit("terminal style");
    reveal_strlit("plain-english style");
    reveal_strlit("timer");
    reveal_strlit("count");
    reveal_strlit("on");
    reveal_strlit("off");
    assert("timer"@[0] != "count"@[0]);
    assert("timer"@.len() != "on"@.len());
    assert("terminal style"@[0] != "plain-english style"@[0]);
    match s.auto_commit_behaviour {
        AutoCommitBehaviour::Count(n) => lemma_count_column(n),
        _ => {},
    }
    match s.auto_push_behaviour {
        AutoPushBehaviour::Count(n) => lemma_count_column(n),
        _ => {},
    }
}

/// A count survives its trip through the signed column.
proof fn lemma_count_column(n: u32)
    ensures
        (n as i32) as u32 == n,
{
    assert((n as i32) as u32 == n) by (bit_vector);
}

/// A stored interval as the database keeps it: months, days and microseconds.
#[derive(Debug, Clone, Copy, PartialEq, Eq, Structural)]
pub struct Interval {
    pub months: i32,
    pub days: i32,
    pub microseconds: i64,
}

/// Microseconds in a day.
pub const DAY_MICROS: i128 = 86_400_000_000;

/// The length of an interval in microseconds, counting a month as 30 days.
pub open spec fn interval_micros(iv: Interval) -> int {
    (iv.months * 30 + iv.days) * DAY_MICROS + iv.microseconds
}

/// The whole milliseconds of an interval; `None` for a negative interval.
pub open spec fn millis_of_interval(iv: Interval) -> Option<u64> {
    if interval_micros(iv) < 0 {
        None
    } else {
        Some((interval_micros(iv) / 1000) as u64)
    }
}

/// The interval of a duration in milliseconds, held in microseconds;
/// `None` when the microseconds do not fit the column.
pub open spec fn interval_of_millis(ms: u64) -> Option<Interval> {
    if ms * 1000 > i64::MAX {
        None
    } else {
        Some(Interval { months: 0, days: 0, microseconds: (ms * 1000) as i64 })
    }
}

impl Interval {
    /// The duration of this interval in whole milliseconds, a month counted
    /// as 30 days; `None` when it is negative.
    pub fn to_millis(&self) -> (r: Option<u64>)
        ensures
            r == millis_of_interval(*self),
    {
        let days: i128 = self.months as i128 * 30 + self.days as i128;
        assert(-70_000_000_000 <= days <= 70_000_000_000);
        assert(-70_000_000_000 * DAY_MICROS <= days * DAY_MICROS <= 70_000_000_000 * DAY_MICROS)
            by (nonlinear_arith)
            requires
                -70_000_000_000 <= days <= 70_000_000_000,
        ;
        let total: i128 = days * DAY_MICROS + self.microseconds as i128;
        if total < 0 {
            None
        } else {
            assert(total / 1000 <= u64::MAX);
            Some((total / 1000) as u64)
        }
    }

    /// The interval stored for a duration in milliseconds.
    pub fn from_millis(ms: u64) -> (r: Option<Interval>)
        ensures
            r == interval_of_millis(ms),
    {
        if ms > (i64::MAX as u64) / 1000 {
            None
        } else {
            Some(Interval { months: 0, days: 0, microseconds: (ms * 1000) as i64 })
        }
    }
}

/// A duration stored as an interval reads back as the same duration.
pub proof fn lemma_interval_round_trip(ms: u64)
    requires
        interval_of_millis(ms) is Some,
    ensures
        millis_of_interval(interval_of_millis(ms)->0) == Some(ms),
{
}

} // verus!
