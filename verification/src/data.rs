//! Data types and serialization: the per-community and per-user records kept
//! in the session store, with their fixed-size little-endian encodings.

use vstd::prelude::*;
use vstd::bytes::*;
use vstd::slice::slice_subrange;

verus! {

pub trait Serialize: Sized {
    /// Exact byte size of the stored record.
    spec fn spec_size() -> usize;

    /// The little-endian byte image of the record.
    spec fn spec_bytes(&self) -> Seq<u8>;

    fn size() -> (r: usize)
        ensures
            r == Self::spec_size(),
    ;

    fn serialize(&self) -> (r: Vec<u8>)
        ensures
            r@ == self.spec_bytes(),
            r@.len() == Self::spec_size(),
    ;
}

pub trait Deserialize: Serialize {
    /// The record read back from a byte image.
    spec fn spec_from_bytes(data: Seq<u8>) -> Self;

    fn deserialize(data: &Vec<u8>) -> (r: Self)
        requires
            data@.len() == Self::spec_size(),
        ensures
            r == Self::spec_from_bytes(data@),
    ;
}

fn read_u64_le(data: &Vec<u8>, offset: usize) -> (x: u64)
    requires
        offset + 8 <= data@.len(),
    ensures
        x == spec_u64_from_le_bytes(data@.subrange(offset as int, offset as int + 8)),
{
    let n = data.len();
    assert(offset + 8 <= n);
    let s = slice_subrange(data.as_slice(), offset, offset + 8);
    u64_from_le_bytes(s)
}

fn read_u32_le(data: &Vec<u8>, offset: usize) -> (x: u32)
    requires
        offset + 4 <= data@.len(),
    ensures
        x == spec_u32_from_le_bytes(data@.subrange(offset as int, offset as int + 4)),
{
    let n = data.len();
    assert(offset + 4 <= n);
    let s = slice_subrange(data.as_slice(), offset, offset + 4);
    u32_from_le_bytes(s)
}

/// Per-community configuration: the channels the bot posts or plays into.
/// A channel id of zero means the channel is not configured.
#[derive(Debug, Clone, Copy, PartialEq, Eq, Structural)]
pub struct Server {
    pub welcome_ch: u64,
    pub music_ch: u64,
    pub dev_ch: u64,
    pub spam_ch: u64,
}

impl Server {
    pub fn from_bytes(data: &Vec<u8>) -> (r: Self)
        requires
            data@.len() == 32,
        ensures
            r == Self::spec_from_bytes(data@),
            r.spec_bytes() == data@,
    {
        let r = Self {
            welcome_ch: read_u64_le(data, 0),
            music_ch: read_u64_le(data, 8),
            dev_ch: read_u64_le(data, 16),
            spam_ch: read_u64_le(data, 24),
        };
        proof {
            lemma_auto_spec_u64_to_from_le_bytes();
            assert(r.spec_bytes() =~= data@);
        }
        r
    }

    pub fn to_bytes(&self) -> (r: Vec<u8>)
        ensures
            r@ == self.spec_bytes(),
            r@.len() == 32,
            Self::spec_from_bytes(r@) == *self,
    {
        let mut r = u64_to_le_bytes(self.welcome_ch);
        let mut music = u64_to_le_bytes(self.music_ch);
        let mut dev = u64_to_le_bytes(self.dev_ch);
        let mut spam = u64_to_le_bytes(self.spam_ch);
        r.append(&mut music);
        r.append(&mut dev);
        r.append(&mut spam);
        proof {
            lemma_auto_spec_u64_to_from_le_bytes();
            assert(r@.subrange(0, 8) =~= spec_u64_to_le_bytes(self.welcome_ch));
            assert(r@.subrange(8, 16) =~= spec_u64_to_le_bytes(self.music_ch));
            assert(r@.subrange(16, 24) =~= spec_u64_to_le_bytes(self.dev_ch));
            assert(r@.subrange(24, 32) =~= spec_u64_to_le_bytes(self.spam_ch));
        }
        r
    }
}

impl Serialize for Server {
    open spec fn spec_size() -> usize {
        32
    }

    open spec fn spec_bytes(&self) -> Seq<u8> {
        spec_u64_to_le_bytes(self.welcome_ch) + spec_u64_to_le_bytes(self.music_ch)
            + spec_u64_to_le_bytes(self.dev_ch) + spec_u64_to_le_bytes(self.spam_ch)
    }

    fn size() -> usize {
        32
    }

    fn serialize(&self) -> Vec<u8> {
        self.to_bytes()
    }
}

impl Deserialize for Server {
    open spec fn spec_from_bytes(data: Seq<u8>) -> Self {
        Server {
            welcome_ch: spec_u64_from_le_bytes(data.subrange(0, 8)),
            music_ch: spec_u64_from_le_bytes(data.subrange(8, 16)),
            dev_ch: spec_u64_from_le_bytes(data.subrange(16, 24)),
            spam_ch: spec_u64_from_le_bytes(data.subrange(24, 32)),
        }
    }

    fn deserialize(data: &Vec<u8>) -> Self {
        Self::from_bytes(data)
    }
}

impl Default for Server {
    fn default() -> (r: Self)
        ensures
            r == (Server { welcome_ch: 0, music_ch: 0, dev_ch: 0, spam_ch: 0 }),
    {
        Server { welcome_ch: 0, music_ch: 0, dev_ch: 0, spam_ch: 0 }
    }
}

/// Per-user record: wallet balance, accumulated experience, and the moment
/// (seconds since the epoch) of the last allowance grant.
#[derive(Debug, Clone, Copy, PartialEq, Eq, Structural)]
pub struct User {
    pub cash: u32,
    pub exp: u32,
    pub last_allowance: u64,
}

impl User {
    pub fn new() -> (r: Self)
        ensures
            r == (User { cash: 100, exp: 0, last_allowance: 0 }),
    {
        Self { cash: 100, exp: 0, last_allowance: 0 }
    }

    pub fn from_bytes(data: &Vec<u8>) -> (r: Self)
        requires
            data@.len() == 16,
        ensures
            r == Self::spec_from_bytes(data@),
            r.spec_bytes() == data@,
    {
        let r = Self {
            cash: read_u32_le(data, 0),
            exp: read_u32_le(data, 4),
            last_allowance: read_u64_le(data, 8),
        };
        proof {
            lemma_auto_spec_u32_to_from_le_bytes();
            lemma_auto_spec_u64_to_from_le_bytes();
            assert(r.spec_bytes() =~= data@);
        }
        r
    }

    pub fn to_bytes(&self) -> (r: Vec<u8>)
        ensures
            r@ == self.spec_bytes(),
            r@.len() == 16,
            Self::spec_from_bytes(r@) == *self,
    {
        let mut r = u32_to_le_bytes(self.cash);
        let mut exp = u32_to_le_bytes(self.exp);
        let mut last = u64_to_le_bytes(self.last_allowance);
        r.append(&mut exp);
        r.append(&mut last);
        proof {
            lemma_auto_spec_u32_to_from_le_bytes();
            lemma_auto_spec_u64_to_from_le_bytes();
            assert(r@.subrange(0, 4) =~= spec_u32_to_le_bytes(self.cash));
            assert(r@.subrange(4, 8) =~= spec_u32_to_le_bytes(self.exp));
            assert(r@.subrange(8, 16) =~= spec_u64_to_le_bytes(self.last_allowance));
        }
        r
    }
}

impl Serialize for User {
    open spec fn spec_size() -> usize {
        16
    }

    open spec fn spec_bytes(&self) -> Seq<u8> {
        spec_u32_to_le_bytes(self.cash) + spec_u32_to_le_bytes(self.exp) + spec_u64_to_le_bytes(
            self.last_allowance,
        )
    }

    fn size() -> usize {
        16
    }

    fn serialize(&self) -> Vec<u8> {
        self.to_bytes()
    }
}

impl Deserialize for User {
    open spec fn spec_from_bytes(data: Seq<u8>) -> Self {
        User {
            cash: spec_u32_from_le_bytes(data.subrange(0, 4)),
            exp: spec_u32_from_le_bytes(data.subrange(4, 8)),
            last_allowance: spec_u64_from_le_bytes(data.subrange(8, 16)),
        }
    }

    fn deserialize(data: &Vec<u8>) -> Self {
        Self::from_bytes(data)
    }
}

impl Default for User {
    fn default() -> (r: Self)
        ensures
            r == (User { cash: 100, exp: 0, last_allowance: 0 }),
    {
        Self::new()
    }
}

/// Channel toggling as the configuration commands use it: requesting the
/// already configured channel clears the setting, any other channel replaces
/// it.
pub fn toggle_channel(current: u64, requested: u64) -> (r: u64)
    ensures
        r == if current == requested {
            0u64
        } else {
            requested
        },
{
    if current == requested {
        0
    } else {
        requested
    }
}

} // verus!
