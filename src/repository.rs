use vstd::prelude::*;
use crate::ids::{uuid_text, Uid};
use crate::user::MLSClientId;

verus! {

/// A repository shared among MLS clients.
#[derive(Debug, Clone)]
pub struct Repository {
    pub owner_id: Uid,
    pub name: String,
    pub members: Vec<MLSClientId>,
}

impl Repository {
    /// `<owner id>/<name>`.
    pub fn identifier(&self) -> (r: String)
        ensures
            r@ == uuid_text(self.owner_id.bits) + "/"@ + self.name@,
    {
        let mut r = self.owner_id.to_text();
        r.append("/");
        r.append(self.name.as_str());
        r
    }
}

/// Access levels, from least to most.
#[derive(Debug, Clone, Copy, PartialEq, Eq, Structural)]
pub enum RepositoryPermission {
    Viewer,
    Contributor,
    Editor,
    Admin,
}

pub open spec fn permission_level(p: RepositoryPermission) -> u32 {
    match p {
        RepositoryPermission::Viewer => 250,
        RepositoryPermission::Contributor => 500,
        RepositoryPermission::Editor => 750,
        RepositoryPermission::Admin => 1000,
    }
}

impl RepositoryPermission {
    /// The numeric level of the permission.
    pub fn level(&self) -> (r: u32)
        ensures
            r == permission_level(*self),
    {
        match self {
            RepositoryPermission::Viewer => 250,
            RepositoryPermission::Contributor => 500,
            RepositoryPermission::Editor => 750,
            RepositoryPermission::Admin => 1000,
        }
    }
}

#[derive(Debug, Clone)]
pub struct RepositoryAccess {
    pub repository: Repository,
    pub permission: RepositoryPermission,
    /// The highest permission this member may grant, if any.
    pub delegation_level: Option<RepositoryPermission>,
}

impl RepositoryAccess {
    pub fn can_delegate(&self) -> (r: bool)
        ensures
            r == self.delegation_level is Some,
    {
        self.delegation_level.is_some()
    }
}

#[derive(Debug, Clone)]
pub struct CommitHash(pub String);

#[derive(Debug, Clone)]
pub struct EncryptedChangeSet(pub Vec<u8>);

#[derive(Debug, Clone)]
pub struct EncryptedCommitMessage(pub Vec<u8>);

/// Times are milliseconds since the Unix epoch, UTC.
#[derive(Debug, Clone)]
pub struct Commit {
    pub hash: CommitHash,
    pub repo: Uid,
    pub parents: Vec<CommitHash>,
    pub author: MLSClientId,
    pub changes: EncryptedChangeSet,
    pub message: EncryptedCommitMessage,
    pub created_at: i64,
}

#[derive(Debug, Clone, Copy, PartialEq, Eq, Structural)]
pub enum MessageType {
    Proposal,
    Commit,
    Welcome,
    Application,
}

#[derive(Debug, Clone)]
pub struct BroadcastMessage {
    pub id: Uid,
    pub repo: Uid,
    pub sender: MLSClientId,
    pub message_type: MessageType,
    /// Encrypted.
    pub payload: Vec<u8>,
    pub created_at: i64,
}

#[derive(Debug, Clone)]
pub struct UnicastMessage {
    pub id: Uid,
    pub recipient: MLSClientId,
    pub sender: MLSClientId,
    pub message_type: MessageType,
    /// Encrypted.
    pub payload: Vec<u8>,
    pub created_at: i64,
}

#[derive(Debug, Clone, Copy, PartialEq, Eq, Structural)]
pub struct BroadcastMessageReadReceipt {
    pub message_id: Uid,
    pub readers: MLSClientId,
    pub read_at: i64,
}

#[derive(Debug, Clone, Copy, PartialEq, Eq, Structural)]
pub struct UnicastMessageReadReceipt {
    pub message_id: Uid,
    pub read_at: i64,
}

#[derive(Debug, Clone, Copy, PartialEq, Eq, Structural)]
pub struct BlobServerId(pub Uid);

} // verus!
