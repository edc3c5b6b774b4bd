//! The session store: a thin, retrying view over two key/value trees, one
//! for user records and one for community records. Records are fixed-size
//! little-endian images keyed by big-endian ids; a missing or malformed
//! value reads as the default record; transient storage failures are retried
//! a bounded number of times before they surface.

use vstd::prelude::*;
use crate::data::{Deserialize, Serialize, Server, User};

verus! {

/// Storage failed transiently and kept failing past the retry budget.
#[derive(Debug, PartialEq, Eq, Structural)]
pub struct StoreError;

/// How many times a failed storage call is retried before giving up.
pub const STORE_RETRIES: u32 = 5;

#[verifier::external_type_specification]
#[verifier::external_body]
pub struct ExTree(sled::Tree);

/// Relies on sled::Tree::get: reads the value stored under the key, if any.
/// What comes back depends on what is on disk, so nothing is promised of it.
#[verifier::external_body]
fn tree_get(tree: &sled::Tree, key: &Vec<u8>) -> (r: Result<Option<Vec<u8>>, StoreError>) {
    match tree.get(key.as_slice()) {
        Ok(Some(v)) => Ok(Some(v.as_ref().to_vec())),
        Ok(None) => Ok(None),
        Err(_) => Err(StoreError),
    }
}

/// Relies on sled::Tree::insert: stores the value under the key, replacing
/// whatever was there.
#[verifier::external_body]
fn tree_insert(tree: &sled::Tree, key: &Vec<u8>, value: &Vec<u8>) -> (r: Result<
    (),
    StoreError,
>) {
    match tree.insert(key.as_slice(), value.as_slice()) {
        Ok(_) => Ok(()),
        Err(_) => Err(StoreError),
    }
}

/// Relies on sled::Tree::remove: deletes the value under the key, if any.
#[verifier::external_body]
fn tree_remove(tree: &sled::Tree, key: &Vec<u8>) -> (r: Result<(), StoreError>) {
    match tree.remove(key.as_slice()) {
        Ok(_) => Ok(()),
        Err(_) => Err(StoreError),
    }
}

/// The big-endian image of a record key.
pub open spec fn spec_record_key(id: u64) -> Seq<u8> {
    seq![
        ((id >> 56) & 0xff) as u8,
        ((id >> 48) & 0xff) as u8,
        ((id >> 40) & 0xff) as u8,
        ((id >> 32) & 0xff) as u8,
        ((id >> 24) & 0xff) as u8,
        ((id >> 16) & 0xff) as u8,
        ((id >> 8) & 0xff) as u8,
        (id & 0xff) as u8,
    ]
}

fn record_key(id: u64) -> (r: Vec<u8>)
    ensures
        r@ == spec_record_key(id),
{
    let mut v: Vec<u8> = Vec::new();
    v.push(((id >> 56) & 0xff) as u8);
    v.push(((id >> 48) & 0xff) as u8);
    v.push(((id >> 40) & 0xff) as u8);
    v.push(((id >> 32) & 0xff) as u8);
    v.push(((id >> 24) & 0xff) as u8);
    v.push(((id >> 16) & 0xff) as u8);
    v.push(((id >> 8) & 0xff) as u8);
    v.push((id & 0xff) as u8);
    proof {
        assert(v@ =~= spec_record_key(id));
    }
    v
}

/// Handles on the store's two trees.
pub struct DbView {
    pub user: sled::Tree,
    pub server: sled::Tree,
}

/// A record type that lives in one of the store's trees and has a default
/// for missing or malformed entries.
pub trait Tag: Deserialize {
    /// The record read where the store holds none.
    spec fn spec_default_record() -> Self;

    fn default_record() -> (r: Self)
        ensures
            r == Self::spec_default_record(),
    ;

    /// The tree of the store that holds this record type.
    fn view(view: &DbView) -> &sled::Tree;
}

impl Tag for User {
    open spec fn spec_default_record() -> Self {
        User { cash: 100, exp: 0, last_allowance: 0 }
    }

    fn default_record() -> Self {
        User::new()
    }

    fn view(view: &DbView) -> &sled::Tree {
        &view.user
    }
}

impl Tag for Server {
    open spec fn spec_default_record() -> Self {
        Server { welcome_ch: 0, music_ch: 0, dev_ch: 0, spam_ch: 0 }
    }

    fn default_record() -> Self {
        Server { welcome_ch: 0, music_ch: 0, dev_ch: 0, spam_ch: 0 }
    }

    fn view(view: &DbView) -> &sled::Tree {
        &view.server
    }
}

/// The bytes a fetch handed back, if any.
pub open spec fn spec_stored_view(stored: &Option<Vec<u8>>) -> Option<Seq<u8>> {
    match *stored {
        Some(v) => Some(v@),
        None => None,
    }
}

/// What a fetched value reads as: an image of exactly the record's size
/// parses; anything else — absent, undersized or oversized — is the default
/// record.
pub open spec fn spec_decode<T: Tag>(stored: Option<Seq<u8>>) -> T {
    match stored {
        Some(b) => if b.len() == T::spec_size() {
            T::spec_from_bytes(b)
        } else {
            T::spec_default_record()
        },
        None => T::spec_default_record(),
    }
}

/// Reads a fetched value as a record.
pub fn decode_stored<T: Tag>(stored: &Option<Vec<u8>>) -> (r: T)
    ensures
        r == spec_decode::<T>(spec_stored_view(stored)),
{
    match stored {
        Some(v) => {
            let n = v.len();
            if n == T::size() {
                T::deserialize(v)
            } else {
                T::default_record()
            }
        },
        None => T::default_record(),
    }
}

impl DbView {
    /// Fetches the record stored for `id`. Every successful fetch is read
    /// through `spec_decode`, so an absent or malformed entry comes back as
    /// the default record; an error comes only once storage has failed past
    /// the retry budget.
    pub fn get<T: Tag>(&self, id: u64) -> (r: Result<T, StoreError>)
        ensures
            r matches Ok(t) ==> exists|stored: Option<Seq<u8>>| t == spec_decode::<T>(stored),
    {
        let key = record_key(id);
        let tree = T::view(self);
        let mut retry: u32 = STORE_RETRIES;
        loop
            decreases retry,
        {
            match tree_get(tree, &key) {
                Ok(stored) => {
                    let t = decode_stored::<T>(&stored);
                    proof {
                        assert(t == spec_decode::<T>(spec_stored_view(&stored)));
                    }
                    return Ok(t);
                },
                Err(e) => {
                    if retry == 0 {
                        return Err(e);
                    }
                    retry = retry - 1;
                },
            }
        }
    }

    /// Writes the record for `id`, replacing whatever the store held, with
    /// the same bounded retry on transient failure.
    pub fn put<T: Tag>(&self, id: u64, data: &T) -> (r: Result<(), StoreError>) {
        let key = record_key(id);
        let bytes = data.serialize();
        let tree = T::view(self);
        let mut retry: u32 = STORE_RETRIES;
        loop
            decreases retry,
        {
            match tree_insert(tree, &key, &bytes) {
                Ok(_) => {
                    return Ok(());
                },
                Err(e) => {
                    if retry == 0 {
                        return Err(e);
                    }
                    retry = retry - 1;
                },
            }
        }
    }

    /// Deletes the record for `id`, if any, with the same bounded retry on
    /// transient failure.
    pub fn delete<T: Tag>(&self, id: u64) -> (r: Result<(), StoreError>) {
        let key = record_key(id);
        let tree = T::view(self);
        let mut retry: u32 = STORE_RETRIES;
        loop
            decreases retry,
        {
            match tree_remove(tree, &key) {
                Ok(_) => {
                    return Ok(());
                },
                Err(e) => {
                    if retry == 0 {
                        return Err(e);
                    }
                    retry = retry - 1;
                },
            }
        }
    }
}

} // verus!
