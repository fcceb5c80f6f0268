//! The System Management Controller's keys: their four-character codes, the cache of key
//! descriptions, and the value bytes of a reply.

use vstd::prelude::*;
use std::collections::HashMap;
use vstd::utf8::*;

verus! {

/// Description of an SMC key: the size and type of its value.
#[derive(Debug, Clone, Copy, PartialEq, Eq, Structural)]
pub struct KeyInfo {
    pub data_size: u32,
    pub data_type: u32,
    pub data_attributes: u8,
}

/// The code of a four-byte key: its bytes, first byte most significant.
pub open spec fn fourcc_spec(b: Seq<u8>) -> u32 {
    (b[0] * 0x100_0000 + b[1] * 0x1_0000 + b[2] * 0x100 + b[3]) as u32
}

/// The code of a key name, when it is four bytes long.
pub open spec fn key_fourcc_spec(key: Seq<char>) -> Option<u32> {
    let b = encode_utf8(key);
    if b.len() == 4 {
        Some(fourcc_spec(b))
    } else {
        None
    }
}

/// The code of an SMC key name (`"PSTR"`); none unless the name is four bytes long.
pub fn key_fourcc(key: &str) -> (r: Option<u32>)
    ensures
        r == key_fourcc_spec(key@),
{
    let b = key.as_bytes();
    if b.len() != 4 {
        return None;
    }
    let mut acc: u32 = 0;
    let mut i: usize = 0;
    while i < 4
        invariant
            b@.len() == 4,
            i <= 4,
            acc == (if i == 0 {
                0
            } else if i == 1 {
                b@[0] as int
            } else if i == 2 {
                b@[0] * 0x100 + b@[1]
            } else if i == 3 {
                b@[0] * 0x1_0000 + b@[1] * 0x100 + b@[2]
            } else {
                b@[0] * 0x100_0000 + b@[1] * 0x1_0000 + b@[2] * 0x100 + b@[3]
            }),
        decreases 4 - i,
    {
        let x = b[i] as u32;
        assert(acc < 0x100_0000) by {
            assert(b@[0] < 256 && b@[1] < 256 && b@[2] < 256);
        }
        assert(acc << 8 == acc * 256) by (bit_vector)
            requires
                acc < 0x100_0000,
        ;
        acc = (acc << 8) + x;
        i = i + 1;
    }
    Some(acc)
}

/// Where a key's description is to be found.
#[derive(Debug, Clone, Copy, PartialEq, Eq, Structural)]
pub enum KeyLookup {
    /// The name is not a four-byte key.
    BadKey,
    /// The description was read before.
    Cached(KeyInfo),
    /// The description must be read from the controller under this code.
    Read(u32),
}

/// Descriptions of keys read so far, by code.
pub struct KeyInfoCache {
    keys: HashMap<u32, KeyInfo>,
}

impl KeyInfoCache {
    /// The descriptions held, by code.
    pub closed spec fn view_map(&self) -> Map<u32, KeyInfo> {
        self.keys@
    }

    /// An empty cache.
    pub fn new() -> (c: KeyInfoCache)
        ensures
            c.view_map() == Map::<u32, KeyInfo>::empty(),
    {
        KeyInfoCache { keys: HashMap::new() }
    }

    /// Where the description of `key` comes from: nowhere for a name that is not four
    /// bytes, the cache when it holds the code, else the controller.
    pub fn lookup(&self, key: &str) -> (r: KeyLookup)
        ensures
            match key_fourcc_spec(key@) {
                None => r == KeyLookup::BadKey,
                Some(code) => if self.view_map().contains_key(code) {
                    r == KeyLookup::Cached(self.view_map()[code])
                } else {
                    r == KeyLookup::Read(code)
                },
            },
    {
        match key_fourcc(key) {
            None => KeyLookup::BadKey,
            Some(code) => {
                proof {
                    broadcast use vstd::std_specs::hash::group_hash_axioms;
                }
                match self.keys.get(&code) {
                    Some(info) => KeyLookup::Cached(*info),
                    None => KeyLookup::Read(code),
                }
            },
        }
    }

    /// Remembers the description read for a code.
    pub fn remember(&mut self, code: u32, info: KeyInfo)
        ensures
            final(self).view_map() == old(self).view_map().insert(code, info),
    {
        proof {
            broadcast use vstd::std_specs::hash::group_hash_axioms;
        }
        self.keys.insert(code, info);
    }
}

/// The value bytes of a reply: the first `data_size` bytes of its buffer.
pub fn value_bytes(bytes: &[u8; 32], info: KeyInfo) -> (v: Vec<u8>)
    requires
        info.data_size <= 32,
    ensures
        v@ == bytes@.take(info.data_size as int),
{
    let n = info.data_size as usize;
    let mut v: Vec<u8> = Vec::new();
    let mut i: usize = 0;
    while i < n
        invariant
            n == info.data_size,
            n <= 32,
            i <= n,
            v@ == bytes@.take(i as int),
        decreases n - i,
    {
        v.push(bytes[i]);
        assert(bytes@.take(i + 1) =~= bytes@.take(i as int).push(bytes@[i as int]));
        i = i + 1;
    }
    v
}

} // verus!
