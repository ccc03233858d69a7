use vstd::prelude::*;
use crate::account::Settings;
use crate::error::{RepoError, ServiceError};
use crate::ids::Uid;
use crate::store::{lookup, registration, update_outcome, AccountStore};

verus! {

/// `s` is a storage result passed up unchanged in kind: a success, or a
/// storage failure wrapped as a service failure.
pub open spec fn passed_up<T>(s: Result<T, ServiceError>) -> bool {
    s is Ok || s matches Err(ServiceError::RepositoryError(_))
}

/// The storage result that a passed-up result wraps.
pub open spec fn storage_part<T>(s: Result<T, ServiceError>) -> Result<T, RepoError> {
    match s {
        Ok(v) => Ok(v),
        Err(ServiceError::RepositoryError(e)) => Err(e),
        Err(_) => Err(RepoError::ConnectionError),
    }
}

fn pass_up<T>(r: Result<T, RepoError>) -> (s: Result<T, ServiceError>)
    ensures
        passed_up(s),
        storage_part(s) == r,
{
    match r {
        Ok(v) => Ok(v),
        Err(e) => Err(ServiceError::from_repo(e)),
    }
}

/// Registers an account for `eml` under a fresh id, with default
/// preferences. The caller has checked the trust policy.
pub fn register_user(store: &mut AccountStore, eml: &str, now: i64) -> (r: Result<
    Uid,
    ServiceError,
>)
    requires
        old(store).wf(),
    ensures
        final(store).wf(),
        passed_up(r),
        registration(old(store)@, eml@, final(store)@, storage_part(r)),
{
    pass_up(store.register(eml, now))
}

/// The account registered under `eml`, if any.
pub fn login_user(store: &AccountStore, eml: &str) -> (r: Result<Option<Uid>, ServiceError>)
    requires
        store.wf(),
    ensures
        r == Ok::<Option<Uid>, ServiceError>(
            if store@.accounts.contains_key(eml@) {
                Some(store@.accounts[eml@])
            } else {
                None
            },
        ),
{
    Ok(store.find_by_email(eml))
}

/// The preferences of the account `uid`.
pub fn get_settings(store: &AccountStore, uid: Uid) -> (r: Result<Settings, ServiceError>)
    requires
        store.wf(),
    ensures
        passed_up(r),
        lookup(store@, uid, storage_part(r)),
{
    pass_up(store.find_by_user_id(uid))
}

/// Replaces the preferences of the account `uid` with `settings`, keeping
/// the stored parameters of inactive variants.
pub fn update_settings(store: &mut AccountStore, uid: Uid, settings: Settings) -> (r: Result<
    (),
    ServiceError,
>)
    requires
        old(store).wf(),
    ensures
        final(store).wf(),
        passed_up(r),
        update_outcome(old(store)@, uid, settings, final(store)@, storage_part(r)),
{
    pass_up(store.update(uid, &settings))
}

} // verus!
