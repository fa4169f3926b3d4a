//! The content-addressed capture store: a captured byte stream is persisted
//! under `<direction>/<digest>`, where the digest is the lowercase
//! hexadecimal SHA-1 of the exact bytes. This module builds the record to
//! persist — path and content — and proves that identical content in the
//! same direction always addresses the same file.

use vstd::prelude::*;

use crate::direction::Direction;
use crate::digest::{sha1_digest, sha1_of};
use crate::hex::{hex_of, hex_of_bytes};

verus! {

/// The relative path a capture with content `data` is stored under: the
/// direction's sub-directory, a slash, and the lowercase hex SHA-1 digest
/// of `data`.
pub open spec fn capture_path(dir: Direction, data: Seq<u8>) -> Seq<char> {
    dir.name_spec() + "/"@ + hex_of(sha1_of(data))
}

/// A capture ready to be persisted: the file path it must be written to,
/// and the exact bytes the file must contain.
pub struct CaptureRecord {
    pub path: String,
    pub content: Vec<u8>,
}

impl CaptureRecord {
    /// The record stores `data` for direction `dir`: its path is the
    /// content-addressed path of `data`, and its content is exactly `data`.
    pub open spec fn is_record_for(self, dir: Direction, data: Seq<u8>) -> bool {
        &&& self.path@ == capture_path(dir, data)
        &&& self.content@ == data
    }
}

/// Build the capture record for one direction's captured bytes: the file
/// named by the lowercase hex SHA-1 digest of `data`, under the direction's
/// sub-directory, holding exactly `data`.
pub fn make_record(data: Vec<u8>, dir: Direction) -> (r: CaptureRecord)
    ensures
        r.is_record_for(dir, data@),
        r.path@.len() == 47,
{
    let digest = sha1_digest(&data);
    let hex = hex_of_bytes(&digest);
    let mut path = String::new();
    path.append(dir.name());
    path.append("/");
    let record = CaptureRecord { path: path.concat(hex.as_str()), content: data };
    proof {
        reveal_strlit("client");
        reveal_strlit("server");
        reveal_strlit("/");
    }
    record
}

/// Content addressing is idempotent: two captures of identical bytes in the
/// same direction are addressed to the same path, so the second save
/// overwrites the first file with identical content and one unchanged file
/// remains.
pub proof fn lemma_content_addressing_idempotent(dir: Direction, d1: Seq<u8>, d2: Seq<u8>)
    requires
        d1 == d2,
    ensures
        capture_path(dir, d1) == capture_path(dir, d2),
{
}

/// The two directions never share a file: a client-direction capture and a
/// server-direction capture are always addressed to different paths.
pub proof fn lemma_directions_are_separate(d1: Seq<u8>, d2: Seq<u8>)
    ensures
        capture_path(Direction::Client, d1) != capture_path(Direction::Server, d2),
{
    reveal_strlit("client");
    reveal_strlit("server");
    let p1 = capture_path(Direction::Client, d1);
    let p2 = capture_path(Direction::Server, d2);
    assert(p1[0] == 'c');
    assert(p2[0] == 's');
}

} // verus!
