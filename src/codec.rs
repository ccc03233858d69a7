use vstd::prelude::*;
use crate::account::{
    AutoCommitBehaviour, AutoPullBehaviour, AutoPushBehaviour, CommandStyle, Settings,
};
use crate::text::same_text;

verus! {

/// The flat wire form of the preferences: one tag per dimension, and numeric
/// side fields for the parameters of the timer and count variants.
#[derive(Debug, Clone)]
pub struct SettingsResponse {
    /// `unix` or `plain-english`.
    pub preferred_command_style: String,
    /// `timer`, `count` or `off`.
    pub auto_commit_behaviour: String,
    pub auto_commit_timer_interval: u64,
    pub auto_commit_count_interval: u64,
    /// `timer`, `on` or `off`.
    pub auto_pull_behaviour: String,
    pub auto_pull_timer_interval: u64,
    /// `timer`, `count` or `off`.
    pub auto_push_behaviour: String,
    pub auto_push_timer_interval: u64,
    pub auto_push_count_interval: u64,
}

pub open spec fn wire_style(c: CommandStyle) -> Seq<char> {
    match c {
        CommandStyle::Unix => "unix"@,
        CommandStyle::PlainEnglish => "plain-english"@,
    }
}

pub open spec fn commit_tag(b: AutoCommitBehaviour) -> Seq<char> {
    match b {
        AutoCommitBehaviour::Timer(_) => "timer"@,
        AutoCommitBehaviour::Count(_) => "count"@,
        AutoCommitBehaviour::Off => "off"@,
    }
}

pub open spec fn pull_tag(b: AutoPullBehaviour) -> Seq<char> {
    match b {
        AutoPullBehaviour::Timer(_) => "timer"@,
        AutoPullBehaviour::On => "on"@,
        AutoPullBehaviour::Off => "off"@,
    }
}

pub open spec fn push_tag(b: AutoPushBehaviour) -> Seq<char> {
    match b {
        AutoPushBehaviour::Timer(_) => "timer"@,
        AutoPushBehaviour::Count(_) => "count"@,
        AutoPushBehaviour::Off => "off"@,
    }
}

/// The timer side field of a dimension: the interval when the timer is
/// active, zero otherwise.
pub open spec fn commit_timer(b: AutoCommitBehaviour) -> u64 {
    match b {
        AutoCommitBehaviour::Timer(d) => d,
        _ => 0,
    }
}

pub open spec fn commit_count(b: AutoCommitBehaviour) -> u64 {
    match b {
        AutoCommitBehaviour::Count(n) => n as u64,
        _ => 0,
    }
}

pub open spec fn pull_timer(b: AutoPullBehaviour) -> u64 {
    match b {
        AutoPullBehaviour::Timer(d) => d,
        _ => 0,
    }
}

pub open spec fn push_timer(b: AutoPushBehaviour) -> u64 {
    match b {
        AutoPushBehaviour::Timer(d) => d,
        _ => 0,
    }
}

pub open spec fn push_count(b: AutoPushBehaviour) -> u64 {
    match b {
        AutoPushBehaviour::Count(n) => n as u64,
        _ => 0,
    }
}

/// `w` is the complete wire form of `s`: every field is set, and the side
/// fields of inactive variants are zero.
pub open spec fn is_encoding(s: Settings, w: SettingsResponse) -> bool {
    &&& w.preferred_command_style@ == wire_style(s.preferred_command_style)
    &&& w.auto_commit_behaviour@ == commit_tag(s.auto_commit_behaviour)
    &&& w.auto_commit_timer_interval == commit_timer(s.auto_commit_behaviour)
    &&& w.auto_commit_count_interval == commit_count(s.auto_commit_behaviour)
    &&& w.auto_pull_behaviour@ == pull_tag(s.auto_pull_behaviour)
    &&& w.auto_pull_timer_interval == pull_timer(s.auto_pull_behaviour)
    &&& w.auto_push_behaviour@ == push_tag(s.auto_push_behaviour)
    &&& w.auto_push_timer_interval == push_timer(s.auto_push_behaviour)
    &&& w.auto_push_count_interval == push_count(s.auto_push_behaviour)
}

/// A wire count as a count of the model; counts beyond `u32::MAX` saturate.
pub open spec fn count_of_wire(n: u64) -> u32 {
    if n > u32::MAX as u64 {
        u32::MAX
    } else {
        n as u32
    }
}

/// Unrecognised style tags read as Unix.
pub open spec fn style_of_wire(tag: Seq<char>) -> CommandStyle {
    if tag == "plain-english"@ {
        CommandStyle::PlainEnglish
    } else {
        CommandStyle::Unix
    }
}

/// Unrecognised behaviour tags read as `Off`.
pub open spec fn commit_of_wire(tag: Seq<char>, timer: u64, count: u64) -> AutoCommitBehaviour {
    if tag == "timer"@ {
        AutoCommitBehaviour::Timer(timer)
    } else if tag == "count"@ {
        AutoCommitBehaviour::Count(count_of_wire(count))
    } else {
        AutoCommitBehaviour::Off
    }
}

pub open spec fn pull_of_wire(tag: Seq<char>, timer: u64) -> AutoPullBehaviour {
    if tag == "timer"@ {
        AutoPullBehaviour::Timer(timer)
    } else if tag == "on"@ {
        AutoPullBehaviour::On
    } else {
        AutoPullBehaviour::Off
    }
}

pub open spec fn push_of_wire(tag: Seq<char>, timer: u64, count: u64) -> AutoPushBehaviour {
    if tag == "timer"@ {
        AutoPushBehaviour::Timer(timer)
    } else if tag == "count"@ {
        AutoPushBehaviour::Count(count_of_wire(count))
    } else {
        AutoPushBehaviour::Off
    }
}

/// The preferences that a wire value stands for.
pub open spec fn decoded(w: SettingsResponse) -> Settings {
    Settings {
        preferred_command_style: style_of_wire(w.preferred_command_style@),
        auto_commit_behaviour: commit_of_wire(
            w.auto_commit_behaviour@,
            w.auto_commit_timer_interval,
            w.auto_commit_count_interval,
        ),
        auto_pull_behaviour: pull_of_wire(w.auto_pull_behaviour@, w.auto_pull_timer_interval),
        auto_push_behaviour: push_of_wire(
            w.auto_push_behaviour@,
            w.auto_push_timer_interval,
            w.auto_push_count_interval,
        ),
    }
}

fn wire_count(n: u64) -> (r: u32)
    ensures
        r == count_of_wire(n),
{
    if n > u32::MAX as u64 {
        u32::MAX
    } else {
        n as u32
    }
}

impl SettingsResponse {
    /// The complete wire form of `s`.
    pub fn encode(s: &Settings) -> (w: SettingsResponse)
        ensures
            is_encoding(*s, w),
    {
        let style = match s.preferred_command_style {
            CommandStyle::Unix => "unix",
            CommandStyle::PlainEnglish => "plain-english",
        };
        let (commit, commit_timer, commit_count): (&str, u64, u64) = match s.auto_commit_behaviour {
            AutoCommitBehaviour::Timer(d) => ("timer", d, 0),
            AutoCommitBehaviour::Count(n) => ("count", 0, n as u64),
            AutoCommitBehaviour::Off => ("off", 0, 0),
        };
        let (pull, pull_timer): (&str, u64) = match s.auto_pull_behaviour {
            AutoPullBehaviour::Timer(d) => ("timer", d),
            AutoPullBehaviour::On => ("on", 0),
            AutoPullBehaviour::Off => ("off", 0),
        };
        let (push, push_timer, push_count): (&str, u64, u64) = match s.auto_push_behaviour {
            AutoPushBehaviour::Timer(d) => ("timer", d, 0),
            AutoPushBehaviour::Count(n) => ("count", 0, n as u64),
            AutoPushBehaviour::Off => ("off", 0, 0),
        };
        SettingsResponse {
            preferred_command_style: String::from_str(style),
            auto_commit_behaviour: String::from_str(commit),
            auto_commit_timer_interval: commit_timer,
            auto_commit_count_interval: commit_count,
            auto_pull_behaviour: String::from_str(pull),
            auto_pull_timer_interval: pull_timer,
            auto_push_behaviour: String::from_str(push),
            auto_push_timer_interval: push_timer,
            auto_push_count_interval: push_count,
        }
    }

    /// The preferences this wire value stands for. Never fails: unrecognised
    /// tags read as Unix or `Off`, and the side field of the selected variant
    /// is taken as it is.
    pub fn decode(&self) -> (s: Settings)
        ensures
            s == decoded(*self),
    {
        let style = if same_text(self.preferred_command_style.as_str(), "plain-english") {
            CommandStyle::PlainEnglish
        } else {
            CommandStyle::Unix
        };
        let commit_tag = self.auto_commit_behaviour.as_str();
        let commit = if same_text(commit_tag, "timer") {
            AutoCommitBehaviour::Timer(self.auto_commit_timer_interval)
        } else if same_text(commit_tag, "count") {
            AutoCommitBehaviour::Count(wire_count(self.auto_commit_count_interval))
        } else {
            AutoCommitBehaviour::Off
        };
        let pull_tag = self.auto_pull_behaviour.as_str();
        let pull = if same_text(pull_tag, "timer") {
            AutoPullBehaviour::Timer(self.auto_pull_timer_interval)
        } else if same_text(pull_tag, "on") {
            AutoPullBehaviour::On
        } else {
            AutoPullBehaviour::Off
        };
        let push_tag = self.auto_push_behaviour.as_str();
        let push = if same_text(push_tag, "timer") {
            AutoPushBehaviour::Timer(self.auto_push_timer_interval)
        } else if same_text(push_tag, "count") {
            AutoPushBehaviour::Count(wire_count(self.auto_push_count_interval))
        } else {
            AutoPushBehaviour::Off
        };
        Settings {
            preferred_command_style: style,
            auto_commit_behaviour: commit,
            auto_pull_behaviour: pull,
            auto_push_behaviour: push,
        }
    }
}

/// Decoding the wire form of any preferences gives those preferences back.
pub proof fn lemma_decode_encode(s: Settings, w: SettingsResponse)
    requires
        is_encoding(s, w),
    ensures
        decoded(w) == s,
{
    reveal_strlit("unix");
    reveal_strlit("plain-english");
    reveal_strlit("timer");
    reveal_strlit("count");
    reveal_strlit("on");
    reveal_strlit("off");
    assert("timer"@[0] != "count"@[0]);
    assert("timer"@.len() != "on"@.len());
    assert("plain-english"@.len() != "unix"@.len());
    match s.auto_commit_behaviour {
        AutoCommitBehaviour::Count(n) => assert(count_of_wire(n as u64) == n),
        _ => {},
    }
    match s.auto_push_behaviour {
        AutoPushBehaviour::Count(n) => assert(count_of_wire(n as u64) == n),
        _ => {},
    }
}

} // verus!
