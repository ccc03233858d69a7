use vstd::prelude::*;
use crate::ids::Uid;

verus! {

/// An account. Times are milliseconds since the Unix epoch, UTC.
#[derive(Debug, Clone)]
pub struct User {
    pub id: Uid,
    pub email: String,
    pub created_at: i64,
    pub updated_at: i64,
}

#[derive(Debug, Clone, Copy, PartialEq, Eq, Structural)]
pub struct MLSClientId(pub Uid);

#[derive(Debug, Clone, Copy, PartialEq, Eq, Structural)]
pub struct MLSClient {
    pub id: MLSClientId,
    /// The account this client belongs to, if any.
    pub assoc_user: Option<Uid>,
}

impl MLSClient {
    pub fn has_account(&self) -> (r: bool)
        ensures
            r == self.assoc_user is Some,
    {
        self.assoc_user.is_some()
    }
}

#[derive(Debug, Clone)]
pub struct KeyPackage {
    pub mls_client_id: MLSClientId,
    /// Encrypted with the user's public key.
    pub kpkg: Vec<u8>,
    /// Milliseconds since the Unix epoch, UTC.
    pub expires_at: i64,
}

} // verus!
