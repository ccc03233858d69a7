use vstd::prelude::*;
use crate::environment::Environment;
use crate::text::{ends_with, has_suffix};

verus! {

/// The address suffix reserved for test accounts.
pub const TEST_ACCOUNT_SUFFIX: &'static str = "@test.account";

/// The trust policy: a verified address is trusted anywhere; an unverified one
/// only when it is a test account outside production.
pub open spec fn is_trusted(env: Environment, email: Seq<char>, email_verified: bool) -> bool {
    email_verified || (has_suffix(email, TEST_ACCOUNT_SUFFIX@) && env != Environment::Production)
}

/// Decides whether an asserted identity is accepted without further checks.
pub fn verify_email(env: Environment, email: &str, email_verified: bool) -> (r: bool)
    ensures
        r == is_trusted(env, email@, email_verified),
{
    email_verified || (ends_with(email, TEST_ACCOUNT_SUFFIX) && env != Environment::Production)
}

/// The trust policy's truth table: a verified address is trusted in every
/// environment; an unverified address without the test suffix never is; an
/// unverified test address is trusted everywhere but in production.
pub proof fn lemma_trust_table(env: Environment, email: Seq<char>)
    ensures
        is_trusted(env, email, true),
        !has_suffix(email, TEST_ACCOUNT_SUFFIX@) ==> !is_trusted(env, email, false),
        has_suffix(email, TEST_ACCOUNT_SUFFIX@) && env != Environment::Production ==> is_trusted(
            env,
            email,
            false,
        ),
        has_suffix(email, TEST_ACCOUNT_SUFFIX@) && env == Environment::Production ==> !is_trusted(
            env,
            email,
            false,
        ),
{
}

} // verus!
