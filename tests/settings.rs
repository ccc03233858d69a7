use nolatabs_accounts::account::{
    AutoCommitBehaviour, AutoPullBehaviour, AutoPushBehaviour, CommandStyle, Settings,
};
use nolatabs_accounts::codec::SettingsResponse;
use nolatabs_accounts::error::RepoError;
use nolatabs_accounts::ids::Uid;
use nolatabs_accounts::row::{Interval, SettingsRow};
use nolatabs_accounts::store::AccountStore;

fn wire(
    style: &str,
    commit: &str,
    commit_timer: u64,
    commit_count: u64,
    pull: &str,
    pull_timer: u64,
    push: &str,
    push_timer: u64,
    push_count: u64,
) -> SettingsResponse {
    SettingsResponse {
        preferred_command_style: style.to_string(),
        auto_commit_behaviour: commit.to_string(),
        auto_commit_timer_interval: commit_timer,
        auto_commit_count_interval: commit_count,
        auto_pull_behaviour: pull.to_string(),
        auto_pull_timer_interval: pull_timer,
        auto_push_behaviour: push.to_string(),
        auto_push_timer_interval: push_timer,
        auto_push_count_interval: push_count,
    }
}

fn registered(email: &str) -> (AccountStore, Uid) {
    let mut store = AccountStore::new();
    let id = store.register(email, 1_000).unwrap();
    (store, id)
}

#[test]
fn command_style_labels() {
    assert_eq!(CommandStyle::Unix.to_string(), "terminal style");
    assert_eq!(CommandStyle::PlainEnglish.to_string(), "plain-english style");
    assert_eq!(CommandStyle::from_string("terminal style"), Some(CommandStyle::Unix));
    assert_eq!(CommandStyle::from_string("plain-english style"), Some(CommandStyle::PlainEnglish));
    assert_eq!(CommandStyle::from_string("unix"), None);
}

#[test]
fn encode_fills_every_field() {
    let s = Settings {
        preferred_command_style: CommandStyle::PlainEnglish,
        auto_commit_behaviour: AutoCommitBehaviour::Count(3),
        auto_pull_behaviour: AutoPullBehaviour::On,
        auto_push_behaviour: AutoPushBehaviour::Timer(250),
    };
    let w = SettingsResponse::encode(&s);
    assert_eq!(w.preferred_command_style, "plain-english");
    assert_eq!(w.auto_commit_behaviour, "count");
    assert_eq!(w.auto_commit_timer_interval, 0);
    assert_eq!(w.auto_commit_count_interval, 3);
    assert_eq!(w.auto_pull_behaviour, "on");
    assert_eq!(w.auto_pull_timer_interval, 0);
    assert_eq!(w.auto_push_behaviour, "timer");
    assert_eq!(w.auto_push_timer_interval, 250);
    assert_eq!(w.auto_push_count_interval, 0);
}

#[test]
fn decode_of_encode_is_identity() {
    let all = [
        Settings::defaults(),
        Settings {
            preferred_command_style: CommandStyle::PlainEnglish,
            auto_commit_behaviour: AutoCommitBehaviour::Timer(u64::MAX),
            auto_pull_behaviour: AutoPullBehaviour::Timer(0),
            auto_push_behaviour: AutoPushBehaviour::Count(u32::MAX),
        },
        Settings {
            preferred_command_style: CommandStyle::Unix,
            auto_commit_behaviour: AutoCommitBehaviour::Count(0),
            auto_pull_behaviour: AutoPullBehaviour::On,
            auto_push_behaviour: AutoPushBehaviour::Timer(1),
        },
    ];
    for s in all.iter() {
        assert_eq!(SettingsResponse::encode(s).decode(), *s);
    }
}

#[test]
fn decode_defaults_unrecognised_tags() {
    let w = wire("vim", "sometimes", 5, 6, "always", 7, "", 8, 9);
    assert_eq!(w.decode(), Settings::defaults());
    let w = wire("UNIX", "Timer", 5, 6, "ON", 7, "Count", 8, 9);
    assert_eq!(w.decode(), Settings::defaults());
}

#[test]
fn decode_reads_side_fields_of_selected_variant() {
    let w = wire("plain-english", "count", 5, 6, "timer", 7, "timer", 8, 9);
    assert_eq!(
        w.decode(),
        Settings {
            preferred_command_style: CommandStyle::PlainEnglish,
            auto_commit_behaviour: AutoCommitBehaviour::Count(6),
            auto_pull_behaviour: AutoPullBehaviour::Timer(7),
            auto_push_behaviour: AutoPushBehaviour::Timer(8),
        }
    );
    let w = wire("unix", "count", 0, 1 << 40, "off", 0, "count", 0, 12);
    assert_eq!(w.decode().auto_commit_behaviour, AutoCommitBehaviour::Count(u32::MAX));
    assert_eq!(w.decode().auto_push_behaviour, AutoPushBehaviour::Count(12));
}

#[test]
fn registering_twice_conflicts() {
    let (mut store, id) = registered("a@test.account");
    let again = store.register("a@test.account", 2_000);
    assert!(matches!(again, Err(RepoError::DuplicateEntry(_))));
    assert_eq!(store.resolve("a@test.account"), Ok(id));
    assert_eq!(store.find_by_email("a@test.account"), Some(id));
}

#[test]
fn registrations_get_distinct_ids() {
    let (mut store, first) = registered("a@test.account");
    let second = store.register("b@test.account", 2_000).unwrap();
    assert_ne!(first, second);
    assert_eq!(store.resolve("a@test.account"), Ok(first));
    assert_eq!(store.resolve("b@test.account"), Ok(second));
    assert_eq!(store.find_by_user_id(second), Ok(Settings::defaults()));
}

#[test]
fn registration_provisions_defaults() {
    let (store, id) = registered("a@test.account");
    let s = store.find_by_user_id(id).unwrap();
    assert_eq!(s.preferred_command_style, CommandStyle::Unix);
    assert_eq!(s.auto_commit_behaviour, AutoCommitBehaviour::Off);
    assert_eq!(s.auto_pull_behaviour, AutoPullBehaviour::Off);
    assert_eq!(s.auto_push_behaviour, AutoPushBehaviour::Off);
}

#[test]
fn full_update_then_read_back() {
    let (mut store, id) = registered("a@test.account");
    let posted = wire("unix", "timer", 500, 0, "timer", 100, "count", 0, 100);
    assert_eq!(store.update(id, &posted.decode()), Ok(()));
    let read = store.find_by_user_id(id).unwrap();
    assert_eq!(
        read,
        Settings {
            preferred_command_style: CommandStyle::Unix,
            auto_commit_behaviour: AutoCommitBehaviour::Timer(500),
            auto_pull_behaviour: AutoPullBehaviour::Timer(100),
            auto_push_behaviour: AutoPushBehaviour::Count(100),
        }
    );
    let w = SettingsResponse::encode(&read);
    assert_eq!(w.preferred_command_style, "unix");
    assert_eq!(w.auto_commit_behaviour, "timer");
    assert_eq!(w.auto_commit_timer_interval, 500);
    assert_eq!(w.auto_commit_count_interval, 0);
    assert_eq!(w.auto_pull_behaviour, "timer");
    assert_eq!(w.auto_pull_timer_interval, 100);
    assert_eq!(w.auto_push_behaviour, "count");
    assert_eq!(w.auto_push_timer_interval, 0);
    assert_eq!(w.auto_push_count_interval, 100);
}

#[test]
fn push_timer_interval_retained_across_switch() {
    let (mut store, id) = registered("a@test.account");
    let first = wire("unix", "off", 0, 0, "off", 0, "timer", 200, 0);
    assert_eq!(store.update(id, &first.decode()), Ok(()));
    let second = wire("unix", "off", 0, 0, "off", 0, "count", 0, 5);
    assert_eq!(store.update(id, &second.decode()), Ok(()));
    assert_eq!(
        store.find_by_user_id(id).unwrap().auto_push_behaviour,
        AutoPushBehaviour::Count(5)
    );
    let third = wire("unix", "off", 0, 0, "off", 0, "timer", 0, 0);
    assert_eq!(store.update(id, &third.decode()), Ok(()));
    assert_eq!(
        store.find_by_user_id(id).unwrap().auto_push_behaviour,
        AutoPushBehaviour::Timer(200)
    );
    let fourth = wire("unix", "off", 0, 0, "off", 0, "count", 0, 0);
    assert_eq!(store.update(id, &fourth.decode()), Ok(()));
    assert_eq!(
        store.find_by_user_id(id).unwrap().auto_push_behaviour,
        AutoPushBehaviour::Count(5)
    );
}

#[test]
fn unknown_accounts_are_not_found() {
    let (mut store, _) = registered("a@test.account");
    let unknown = Uid { bits: 99 };
    assert!(matches!(store.find_by_user_id(unknown), Err(RepoError::NotFound(_))));
    assert!(matches!(store.resolve("nobody@test.account"), Err(RepoError::NotFound(_))));
    assert_eq!(store.update(unknown, &Settings::defaults()), Ok(()));
    assert!(matches!(store.find_by_user_id(unknown), Err(RepoError::NotFound(_))));
    assert!(matches!(AccountStore::new().find_by_user_id(unknown), Err(RepoError::NotFound(_))));
}

#[test]
fn create_checks_existing_records_and_accounts() {
    let (mut store, id) = registered("a@test.account");
    assert!(matches!(
        store.create(id, &Settings::defaults()),
        Err(RepoError::DuplicateEntry(_))
    ));
    assert!(matches!(
        store.create(Uid { bits: 3 }, &Settings::defaults()),
        Err(RepoError::QueryError(_))
    ));
}

#[test]
fn created_rows_keep_zero_parameters() {
    let s = Settings {
        preferred_command_style: CommandStyle::Unix,
        auto_commit_behaviour: AutoCommitBehaviour::Timer(0),
        auto_pull_behaviour: AutoPullBehaviour::Timer(0),
        auto_push_behaviour: AutoPushBehaviour::Count(0),
    };
    let created = SettingsRow::created(&s);
    assert_eq!(created.command_style, "terminal style");
    assert_eq!(created.autocommit_duration, Some(0));
    assert_eq!(created.autopull_duration, Some(0));
    assert_eq!(created.autopush_duration, None);
    assert_eq!(created.autopush_interval_count, Some(0));
    assert_eq!(created.to_settings(), s);
    let bound = SettingsRow::written(&s);
    assert_eq!(bound.autocommit_duration, None);
    assert_eq!(bound.autopush_interval_count, None);
    assert_eq!(bound.to_settings(), s);
}

#[test]
fn written_rows_and_merge() {
    let s = Settings {
        preferred_command_style: CommandStyle::PlainEnglish,
        auto_commit_behaviour: AutoCommitBehaviour::Count(4),
        auto_pull_behaviour: AutoPullBehaviour::Timer(30),
        auto_push_behaviour: AutoPushBehaviour::Off,
    };
    let row = SettingsRow::written(&s);
    assert_eq!(row.command_style, "plain-english style");
    assert_eq!(row.autocommit_option, "count");
    assert_eq!(row.autocommit_duration, None);
    assert_eq!(row.autocommit_interval_count, Some(4));
    assert_eq!(row.autopull_option, "timer");
    assert_eq!(row.autopull_duration, Some(30));
    assert_eq!(row.autopush_option, "off");
    assert_eq!(row.autopush_duration, None);
    assert_eq!(row.autopush_interval_count, None);
    assert_eq!(row.to_settings(), s);
    let later = SettingsRow::written(&Settings::defaults());
    let merged = row.merged(&later);
    assert_eq!(merged.autocommit_option, "off");
    assert_eq!(merged.autocommit_interval_count, Some(4));
    assert_eq!(merged.autopull_duration, Some(30));
    assert_eq!(merged.to_settings(), Settings::defaults());
}

#[test]
fn large_counts_survive_the_signed_column() {
    let s = Settings {
        preferred_command_style: CommandStyle::Unix,
        auto_commit_behaviour: AutoCommitBehaviour::Count(u32::MAX),
        auto_pull_behaviour: AutoPullBehaviour::Off,
        auto_push_behaviour: AutoPushBehaviour::Count(1 << 31),
    };
    let row = SettingsRow::written(&s);
    assert_eq!(row.autocommit_interval_count, Some(-1));
    assert_eq!(row.to_settings(), s);
}

#[test]
fn intervals() {
    let iv = Interval { months: 1, days: 2, microseconds: 3_500 };
    assert_eq!(iv.to_millis(), Some(32 * 86_400_000 + 3));
    assert_eq!(Interval { months: 0, days: -1, microseconds: 0 }.to_millis(), None);
    assert_eq!(Interval { months: 0, days: -1, microseconds: 86_400_000_000 }.to_millis(), Some(0));
    assert_eq!(
        Interval::from_millis(200),
        Some(Interval { months: 0, days: 0, microseconds: 200_000 })
    );
    assert_eq!(Interval::from_millis(u64::MAX), None);
    let largest = (i64::MAX as u64) / 1000;
    assert_eq!(Interval::from_millis(largest).unwrap().to_millis(), Some(largest));
    assert_eq!(Interval::from_millis(largest + 1), None);
}
