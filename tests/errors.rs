use nolatabs_accounts::account::{Settings, SubscriptionInfo, SubscriptionType};
use nolatabs_accounts::error::{RepoError, ServiceError, StorageFailure};
use nolatabs_accounts::handlers::{account_of_lookup, init_reply, me_reply, settings_reply};
use nolatabs_accounts::ids::Uid;
use nolatabs_accounts::repository::{Repository, RepositoryPermission};
use nolatabs_accounts::service::{get_settings, login_user, register_user, update_settings};
use nolatabs_accounts::store::AccountStore;
use nolatabs_accounts::user::{MLSClient, MLSClientId};

#[test]
fn storage_failures_are_classified() {
    assert_eq!(
        RepoError::from_failure(StorageFailure::RowNotFound),
        RepoError::NotFound("row not found".to_string())
    );
    assert_eq!(RepoError::from_failure(StorageFailure::PoolTimedOut), RepoError::ConnectionError);
    let unique = StorageFailure::Database {
        code: Some("23505".to_string()),
        message: "duplicate key".to_string(),
    };
    assert_eq!(RepoError::from_failure(unique), RepoError::DuplicateEntry("duplicate key".to_string()));
    let other = StorageFailure::Database { code: Some("23503".to_string()), message: "fk".to_string() };
    assert_eq!(RepoError::from_failure(other), RepoError::QueryError("fk".to_string()));
    let none = StorageFailure::Database { code: None, message: "x".to_string() };
    assert_eq!(RepoError::from_failure(none), RepoError::QueryError("x".to_string()));
    assert_eq!(
        RepoError::from_failure(StorageFailure::Other("io".to_string())),
        RepoError::QueryError("io".to_string())
    );
}

#[test]
fn status_codes() {
    let repo = |e: RepoError| ServiceError::from_repo(e).status_code();
    assert_eq!(repo(RepoError::NotFound(String::new())), 404);
    assert_eq!(repo(RepoError::DuplicateEntry(String::new())), 409);
    assert_eq!(repo(RepoError::ConnectionError), 500);
    assert_eq!(repo(RepoError::QueryError(String::new())), 500);
    assert_eq!(ServiceError::InvalidInput(String::new()).status_code(), 400);
    assert_eq!(ServiceError::AuthenticationError(String::new()).status_code(), 401);
    assert_eq!(ServiceError::AuthorizationError(String::new()).status_code(), 403);
    assert_eq!(ServiceError::Unknown(String::new()).status_code(), 500);
}

#[test]
fn service_layer_passes_storage_failures_up() {
    let mut store = AccountStore::new();
    let id = register_user(&mut store, "a@b.c", 0).unwrap();
    let again = register_user(&mut store, "a@b.c", 0);
    assert!(matches!(again, Err(ServiceError::RepositoryError(RepoError::DuplicateEntry(_)))));
    assert_eq!(init_reply(again).unwrap_err(), 409);
    assert_eq!(login_user(&store, "a@b.c"), Ok(Some(id)));
    assert_eq!(login_user(&store, "z@b.c"), Ok(None));
    assert_eq!(get_settings(&store, id), Ok(Settings::defaults()));
    let unknown = Uid { bits: id.bits + 1 };
    let missing = get_settings(&store, unknown);
    assert!(matches!(missing, Err(ServiceError::RepositoryError(RepoError::NotFound(_)))));
    assert_eq!(settings_reply(missing).unwrap_err(), 404);
    assert_eq!(update_settings(&mut store, unknown, Settings::defaults()), Ok(()));
    assert!(get_settings(&store, unknown).is_err());
    assert_eq!(update_settings(&mut store, id, Settings::defaults()), Ok(()));
}

#[test]
fn replies_carry_the_id_text() {
    let id = Uid { bits: 0x0123_4567_89ab_cdef_0011_2233_4455_6677 };
    assert_eq!(init_reply(Ok(id)), Ok("01234567-89ab-cdef-0011-223344556677".to_string()));
    assert_eq!(me_reply(Ok(Some(Uid { bits: 0 }))), Ok("00000000-0000-0000-0000-000000000000".to_string()));
    assert_eq!(me_reply(Ok(None)), Err(404));
    assert_eq!(me_reply(Err(ServiceError::Unknown(String::new()))), Err(500));
    assert_eq!(account_of_lookup(Ok(Some(id))), Ok(id));
    assert_eq!(account_of_lookup(Err(ServiceError::InvalidInput(String::new()))), Err(500));
    let w = settings_reply(Ok(Settings::defaults())).unwrap();
    assert_eq!(w.auto_push_behaviour, "off");
}

#[test]
fn models() {
    let repo = Repository { owner_id: Uid { bits: 255 }, name: "notes".to_string(), members: vec![] };
    assert_eq!(repo.identifier(), "00000000-0000-0000-0000-0000000000ff/notes");
    assert_eq!(RepositoryPermission::Viewer.level(), 250);
    assert_eq!(RepositoryPermission::Admin.level(), 1000);
    let client = MLSClient { id: MLSClientId(Uid { bits: 1 }), assoc_user: None };
    assert!(!client.has_account());
    let paid = SubscriptionInfo { paid_until: 1_000, subscription_type: SubscriptionType::CloudSync };
    assert!(paid.is_active_at(999));
    assert!(!paid.is_active_at(1_000));
    let forever = SubscriptionInfo { paid_until: i64::MAX, subscription_type: SubscriptionType::SyncCollaborate };
    assert!(forever.is_active_at(i64::MAX - 1));
}
