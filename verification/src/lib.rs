use vstd::prelude::*;

pub mod account;
pub mod assemble;
pub mod decode;
pub mod extensions;
pub mod hashing;
pub mod model;
pub mod normalize;
pub mod output;
pub mod project;
pub mod registry;

use crate::assemble::{assemble, assemble_spec};
use crate::decode::{decode_v14, v14_model};
use crate::model::MetadataError;
use crate::normalize::res_m;
use crate::output::{Metadata, MetadataM};

verus! {

/// The one metadata schema version this library understands.
pub const SUPPORTED_VERSION: u8 = 14;

/// True when the four magic bytes that open every encoded metadata
/// blob ("meta", little-endian) stand at the start of `bytes`.
pub open spec fn has_magic_prefix(bytes: Seq<u8>) -> bool {
    bytes.len() >= 4 && bytes[0] == 0x6du8 && bytes[1] == 0x65u8 && bytes[2] == 0x74u8
        && bytes[3] == 0x61u8
}

/// Checks the fixed magic prefix of an encoded metadata blob.
pub fn check_magic_prefix(bytes: &[u8]) -> (r: bool)
    ensures
        r == has_magic_prefix(bytes@),
{
    bytes.len() >= 4 && bytes[0] == 0x6d && bytes[1] == 0x65 && bytes[2] == 0x74 && bytes[3] == 0x61
}

/// What the whole pipeline returns for a given byte buffer: magic check,
/// version check, structural decode of the body, then assembly.
pub open spec fn decode_spec(bytes: Seq<u8>) -> Result<MetadataM, MetadataError> {
    if bytes.len() < 5 || !has_magic_prefix(bytes) {
        Err(MetadataError::MalformedMetadata)
    } else if bytes[4] != SUPPORTED_VERSION {
        Err(MetadataError::UnsupportedVersion(bytes[4]))
    } else {
        match v14_model(bytes.skip(5)) {
            None => Err(MetadataError::MalformedMetadata),
            Some(raw) => assemble_spec(raw),
        }
    }
}

/// Decodes a raw metadata blob into the normalized schema, or reports
/// the first error encountered.  This is the single fallible entry
/// point; it never returns partial output.
pub fn metadata_from_hex(bytes: &[u8]) -> (r: Result<Metadata, MetadataError>)
    ensures
        res_m(r) == decode_spec(bytes@),
{
    if bytes.len() < 5 || !check_magic_prefix(bytes) {
        return Err(MetadataError::MalformedMetadata);
    }
    let version = bytes[4];
    if version != SUPPORTED_VERSION {
        return Err(MetadataError::UnsupportedVersion(version));
    }
    let body = vstd::slice::slice_subrange(bytes, 5, bytes.len());
    proof {
        assert(body@ =~= bytes@.skip(5));
    }
    match decode_v14(body) {
        None => Err(MetadataError::MalformedMetadata),
        Some(raw) => assemble(&raw),
    }
}

/// A buffer whose version byte differs from the supported version is
/// rejected as such, before any of the body is interpreted; the observed
/// byte is carried in the error.
pub proof fn lemma_unsupported_version(bytes: Seq<u8>)
    requires
        bytes.len() >= 5,
        has_magic_prefix(bytes),
        bytes[4] != SUPPORTED_VERSION,
    ensures
        decode_spec(bytes) == Err::<MetadataM, MetadataError>(
            MetadataError::UnsupportedVersion(bytes[4]),
        ),
{
}

/// A buffer with the correct magic and version whose body does not
/// decode structurally (truncated, or otherwise invalid) yields the
/// malformed-metadata error and no output.
pub proof fn lemma_malformed_body(bytes: Seq<u8>)
    requires
        bytes.len() >= 5,
        has_magic_prefix(bytes),
        bytes[4] == SUPPORTED_VERSION,
        v14_model(bytes.skip(5)) is None,
    ensures
        decode_spec(bytes) == Err::<MetadataM, MetadataError>(MetadataError::MalformedMetadata),
{
}

} // verus!
