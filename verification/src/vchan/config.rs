//! Where a channel is found and how large its rings are.

use super::error::{Error, NulError};
use vstd::prelude::*;
use vstd::utf8::encode_utf8;

verus! {

#[derive(Debug, PartialEq, Eq)]
pub struct VchanConfig {
    /// The domain at the other end.
    pub domid: u32,
    /// The xenstore path under which the channel is announced.
    pub xs_path: String,
    /// The smallest size of the ring that the server reads from.
    pub read_min: usize,
    /// The smallest size of the ring that the server writes to.
    pub write_min: usize,
}

impl Clone for VchanConfig {
    fn clone(&self) -> (copy: Self)
        ensures
            copy.domid == self.domid,
            copy.xs_path@ == self.xs_path@,
            copy.read_min == self.read_min,
            copy.write_min == self.write_min,
    {
        VchanConfig {
            domid: self.domid,
            xs_path: self.xs_path.clone(),
            read_min: self.read_min,
            write_min: self.write_min,
        }
    }
}

impl VchanConfig {
    /// A channel whose two rings have the same smallest size.
    pub fn symmetric<P: Into<String>>(domid: u32, xs_path: P, ring_min: usize) -> (config: Self)
        ensures
            config.domid == domid,
            call_ensures(<P as Into<String>>::into, (xs_path,), config.xs_path),
            config.read_min == ring_min,
            config.write_min == ring_min,
    {
        VchanConfig { domid, xs_path: xs_path.into(), read_min: ring_min, write_min: ring_min }
    }
}

/// The bytes of a path.
pub open spec fn path_bytes(path: Seq<char>) -> Seq<u8> {
    encode_utf8(path)
}

/// The first NUL byte stands at `position`.
pub open spec fn first_nul(bytes: Seq<u8>, position: int) -> bool {
    &&& 0 <= position < bytes.len()
    &&& bytes[position] == 0
    &&& forall|i: int| 0 <= i < position ==> bytes[i] != 0
}

/// The path as a C string, with its closing NUL. A path that holds a NUL byte
/// itself is refused, with the position of the first.
pub fn c_path(path: &str) -> (c_string: Result<Vec<u8>, Error>)
    ensures
        match c_string {
            Ok(bytes) => !path_bytes(path@).contains(0) && bytes@ == path_bytes(path@).push(0),
            Err(Error::InvalidPath(nul)) => nul.bytes@ == path_bytes(path@) && first_nul(
                path_bytes(path@),
                nul.position as int,
            ),
            Err(_) => false,
        },
{
    let source = path.as_bytes();
    let mut bytes: Vec<u8> = Vec::new();
    let mut nul: Option<usize> = None;
    let mut i: usize = 0;
    while i < source.len()
        invariant
            i <= source@.len(),
            bytes@ == source@.take(i as int),
            match nul {
                Some(position) => position < i && first_nul(source@, position as int),
                None => forall|j: int| 0 <= j < i ==> source@[j] != 0,
            },
        decreases source@.len() - i,
    {
        if source[i] == 0 && nul.is_none() {
            nul = Some(i);
        }
        bytes.push(source[i]);
        assert(source@.take(i as int).push(source@[i as int]) == source@.take(i + 1));
        i = i + 1;
    }
    assert(bytes@ == source@);
    match nul {
        Some(position) => Err(Error::InvalidPath(NulError { position, bytes })),
        None => {
            bytes.push(0);
            Ok(bytes)
        },
    }
}

} // verus!
