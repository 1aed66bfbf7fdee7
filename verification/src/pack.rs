//! Artifact packing: the final output file is the UTF-8 bytes of the
//! launcher stub followed by the payload bytes, nothing else.  The byte
//! count embedded in the stub text equals the exact length of the
//! appended payload — the invariant every future extraction relies on.

use vstd::prelude::*;
use vstd::utf8::encode_utf8;

use crate::num::dec_digits;
use crate::stub::arg_views;
use crate::stub::contains_part;
use crate::stub::generate;
use crate::stub::lemma_stub_layout;
use crate::stub::stub_text;

verus! {

/// The byte layout of a finished artifact.
pub open spec fn artifact_bytes(stub: Seq<char>, payload: Seq<u8>) -> Seq<u8> {
    encode_utf8(stub) + payload
}

/// Assembles the artifact for the given payload: renders the stub with
/// the payload's content identifier, exact byte count, and extra
/// runtime arguments, and appends the payload bytes after it.
pub fn build_artifact(payload_hash: &str, payload: &Vec<u8>, jvm_args: &[String]) -> (artifact:
    Vec<u8>)
    ensures
        artifact@ == artifact_bytes(
            stub_text(payload_hash@, payload@.len() as u64, arg_views(jvm_args@)),
            payload@,
        ),
{
    let size: u64 = payload.len() as u64;
    let stub = generate(payload_hash, size, jvm_args);
    let mut bytes = stub.as_str().as_bytes_vec();
    bytes.extend_from_slice(payload.as_slice());
    proof {
        assert(bytes@ =~= encode_utf8(stub@) + payload@);
    }
    bytes
}

/// Reads the trailing `count` bytes of an artifact file's contents —
/// exactly what the launcher stub does on first run.
pub fn read_trailing(data: &Vec<u8>, count: usize) -> (tail: Vec<u8>)
    requires
        count <= data@.len(),
    ensures
        tail@ == data@.subrange(data@.len() - count, data@.len() as int),
{
    let mut tail: Vec<u8> = Vec::new();
    let start: usize = data.len() - count;
    let mut i: usize = start;
    while i < data.len()
        invariant
            start <= i <= data@.len(),
            start == data@.len() - count,
            tail@ == data@.subrange(start as int, i as int),
        decreases data@.len() - i,
    {
        tail.push(data[i]);
        proof {
            assert(tail@ =~= data@.subrange(start as int, i as int + 1));
        }
        i = i + 1;
    }
    tail
}

/// Byte-exact packing: for an artifact assembled from a stub and a
/// payload, the trailing `payload.len()` bytes of the artifact are the
/// payload itself, the artifact holds not one byte more than stub plus
/// payload, and the byte count embedded in the stub text is exactly
/// that length.
pub proof fn lemma_payload_round_trip(hash: Seq<char>, payload: Seq<u8>, args: Seq<Seq<char>>)
    requires
        payload.len() <= u64::MAX,
    ensures
        ({
            let stub = stub_text(hash, payload.len() as u64, args);
            let artifact = artifact_bytes(stub, payload);
            artifact.subrange(artifact.len() - payload.len(), artifact.len() as int) == payload
                && artifact.len() == encode_utf8(stub).len() + payload.len() && contains_part(
                stub,
                "PAYLOAD_SIZE="@ + dec_digits(payload.len() as int) + "\n"@,
            )
        }),
{
    let stub = stub_text(hash, payload.len() as u64, args);
    let artifact = artifact_bytes(stub, payload);
    assert(artifact.subrange(artifact.len() - payload.len(), artifact.len() as int) =~= payload);
    lemma_stub_layout(hash, payload.len() as u64, args);
}

} // verus!
