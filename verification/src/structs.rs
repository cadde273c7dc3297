//! Plain data carried between the engine and its collaborators: metadata
//! nodes, session credentials, and transfer units. JSON (de)serialization
//! of these records is a collaborator's concern and happens outside the
//! library.

#![allow(non_snake_case)]

use vstd::prelude::*;

verus! {

/// Identity record returned by the metadata service for a user lookup.
#[derive(Debug)]
pub struct UserData {
    pub Uuid: String,
    pub Attributes: AttributeData,
}

/// Display attributes attached to a user identity.
#[derive(Debug)]
pub struct AttributeData {
    pub displayName: String,
    pub email: String,
    pub profile: String,
}

/// A bulk metadata answer: the nodes known for the queried paths.
#[derive(Debug)]
pub struct BulkMetaData {
    pub Nodes: Vec<BulkNode>,
}

/// One remote node: its path and the stored content tag used for
/// change detection.
#[derive(Debug)]
pub struct BulkNode {
    pub Uuid: String,
    pub Path: String,
    pub Type: String,
    pub Etag: String,
    pub MetaStore: BulkMetaStore,
}

/// Workspace annotations attached to a remote node.
#[derive(Debug)]
pub struct BulkMetaStore {
    pub ws_label: String,
    pub ws_syncable: String,
    pub name: String,
}

/// The authenticated session: bearer token for the metadata service plus
/// the credential pair for the data plane.
#[derive(Debug)]
pub struct SessionData {
    pub JWT: String,
    pub ExpireTime: usize,
    pub Token: TokenData,
}

/// The short-lived data-plane credential pair.
#[derive(Debug)]
pub struct TokenData {
    pub AccessToken: String,
    pub IDToken: String,
    pub ExpiresAt: String,
}

/// One file transfer unit: local source path and remote destination key.
#[derive(Debug)]
pub struct SyncTask {
    pub from: String,
    pub to: String,
}

impl Clone for SyncTask {
    /// A clone is the same transfer unit, field for field.
    fn clone(&self) -> (r: Self)
        ensures
            r == *self,
    {
        SyncTask { from: self.from.clone(), to: self.to.clone() }
    }
}

impl Clone for TokenData {
    /// A clone carries the same credential pair.
    fn clone(&self) -> (r: Self)
        ensures
            r == *self,
    {
        TokenData {
            AccessToken: self.AccessToken.clone(),
            IDToken: self.IDToken.clone(),
            ExpiresAt: self.ExpiresAt.clone(),
        }
    }
}

impl Clone for SessionData {
    /// A clone carries the same session, token pair included.
    fn clone(&self) -> (r: Self)
        ensures
            r == *self,
    {
        SessionData {
            JWT: self.JWT.clone(),
            ExpireTime: self.ExpireTime,
            Token: self.Token.clone(),
        }
    }
}

impl Default for SessionData {
    /// The process starts with no session: every token empty.
    fn default() -> (r: Self)
        ensures
            r.JWT@ == Seq::<char>::empty(),
            r.ExpireTime == 0,
            r.Token.AccessToken@ == Seq::<char>::empty(),
            r.Token.IDToken@ == Seq::<char>::empty(),
            r.Token.ExpiresAt@ == Seq::<char>::empty(),
    {
        SessionData {
            JWT: String::new(),
            ExpireTime: 0,
            Token: TokenData {
                AccessToken: String::new(),
                IDToken: String::new(),
                ExpiresAt: String::new(),
            },
        }
    }
}

impl Clone for BulkNode {
    /// A clone is the same node, tag included.
    fn clone(&self) -> (r: Self)
        ensures
            r == *self,
    {
        BulkNode {
            Uuid: self.Uuid.clone(),
            Path: self.Path.clone(),
            Type: self.Type.clone(),
            Etag: self.Etag.clone(),
            MetaStore: self.MetaStore.clone(),
        }
    }
}

impl Clone for BulkMetaStore {
    /// A clone carries the same annotations.
    fn clone(&self) -> (r: Self)
        ensures
            r == *self,
    {
        BulkMetaStore {
            ws_label: self.ws_label.clone(),
            ws_syncable: self.ws_syncable.clone(),
            name: self.name.clone(),
        }
    }
}

/// One candidate file found under the local root, as the walking
/// collaborator reports it: the full local path, its path components
/// (checked one by one against the exclusion set), and the path relative
/// to the local root (the tail of the destination key).
#[derive(Debug)]
pub struct FileEntry {
    pub path: String,
    pub components: Vec<String>,
    pub rel: String,
}

} // verus!
