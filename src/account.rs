use vstd::prelude::*;
use crate::ids::Uid;
use crate::text::same_text;

verus! {

/// How commands are presented to the user.
#[derive(Debug, Clone, Copy, PartialEq, Eq, Structural)]
pub enum CommandStyle {
    Unix,
    PlainEnglish,
}

/// The stored label of a command style.
pub open spec fn style_label(c: CommandStyle) -> Seq<char> {
    match c {
        CommandStyle::Unix => "terminal style"@,
        CommandStyle::PlainEnglish => "plain-english style"@,
    }
}

/// The command style a stored label names, if any.
pub open spec fn style_of_label(s: Seq<char>) -> Option<CommandStyle> {
    if s == "terminal style"@ {
        Some(CommandStyle::Unix)
    } else if s == "plain-english style"@ {
        Some(CommandStyle::PlainEnglish)
    } else {
        None
    }
}

impl CommandStyle {
    pub fn to_string(&self) -> (r: &'static str)
        ensures
            r@ == style_label(*self),
    {
        match self {
            CommandStyle::Unix => "terminal style",
            CommandStyle::PlainEnglish => "plain-english style",
        }
    }

    pub fn from_string(s: &str) -> (r: Option<CommandStyle>)
        ensures
            r == style_of_label(s@),
    {
        if same_text(s, "terminal style") {
            Some(CommandStyle::Unix)
        } else if same_text(s, "plain-english style") {
            Some(CommandStyle::PlainEnglish)
        } else {
            None
        }
    }
}

/// When to commit automatically. Durations are in milliseconds.
#[derive(Debug, Clone, Copy, PartialEq, Eq, Structural)]
pub enum AutoCommitBehaviour {
    /// Commit every given number of milliseconds.
    Timer(u64),
    /// Commit after every given number of changes.
    Count(u32),
    Off,
}

/// When to pull automatically. Durations are in milliseconds.
#[derive(Debug, Clone, Copy, PartialEq, Eq, Structural)]
pub enum AutoPullBehaviour {
    /// Pull every given number of milliseconds.
    Timer(u64),
    /// Pull whenever online.
    On,
    Off,
}

/// When to push automatically. Durations are in milliseconds.
#[derive(Debug, Clone, Copy, PartialEq, Eq, Structural)]
pub enum AutoPushBehaviour {
    /// Push every given number of milliseconds.
    Timer(u64),
    /// Push after every given number of commits.
    Count(u32),
    Off,
}

/// The automation preferences of one account.
#[derive(Debug, Clone, Copy, PartialEq, Eq, Structural)]
pub struct Settings {
    pub preferred_command_style: CommandStyle,
    pub auto_commit_behaviour: AutoCommitBehaviour,
    pub auto_pull_behaviour: AutoPullBehaviour,
    pub auto_push_behaviour: AutoPushBehaviour,
}

/// The preferences handed to the store on create and update.
pub type SettingsParams = Settings;

/// The preferences every account starts with.
pub open spec fn default_settings() -> Settings {
    Settings {
        preferred_command_style: CommandStyle::Unix,
        auto_commit_behaviour: AutoCommitBehaviour::Off,
        auto_pull_behaviour: AutoPullBehaviour::Off,
        auto_push_behaviour: AutoPushBehaviour::Off,
    }
}

impl Settings {
    /// Unix commands, and no automatic commit, pull or push.
    pub fn defaults() -> (r: Settings)
        ensures
            r == default_settings(),
    {
        Settings {
            preferred_command_style: CommandStyle::Unix,
            auto_commit_behaviour: AutoCommitBehaviour::Off,
            auto_pull_behaviour: AutoPullBehaviour::Off,
            auto_push_behaviour: AutoPushBehaviour::Off,
        }
    }
}

#[derive(Debug, Clone, Copy, PartialEq, Eq, Structural)]
pub enum SubscriptionType {
    CloudSync,
    SyncCollaborate,
}

/// Times are milliseconds since the Unix epoch, UTC.
#[derive(Debug, Clone, Copy, PartialEq, Eq, Structural)]
pub struct SubscriptionInfo {
    pub paid_until: i64,
    pub subscription_type: SubscriptionType,
}

impl SubscriptionInfo {
    /// Whether the subscription is paid beyond the instant `now`.
    pub fn is_active_at(&self, now: i64) -> (r: bool)
        ensures
            r == (self.paid_until > now),
    {
        self.paid_until > now
    }
}

#[derive(Debug, Clone)]
pub struct Payment {
    /// The payment provider's reference, e.g. a payment intent id.
    pub payment_id: String,
    pub user_id: Uid,
    pub amount_cents: u32,
    /// Milliseconds since the Unix epoch, UTC.
    pub payment_date: i64,
}

} // verus!
