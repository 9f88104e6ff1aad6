//! Resolving the compiled backend binary.
//!
//! After a successful backend build the toolchain is asked for its metadata
//! (a JSON document on stdout); the `target_directory` field of that document
//! is the root of the toolchain's own output tree, and the optimized binary
//! lives at `<target_directory>/release/<bin>`. The parse of the document is
//! the one outside call of this crate; everything after it is verified.

use vstd::prelude::*;

use crate::layout::release_binary_source;
use crate::layout::release_binary_source_spec;

verus! {

/// The `target_directory` field of a toolchain metadata document, when the
/// bytes parse as one; a function of the bytes alone.
pub uninterp spec fn target_dir_of(out: Seq<u8>) -> Option<Seq<u8>>;

/// Relies on `serde_json::from_slice` parsing a toolchain metadata JSON
/// document into `cargo_metadata::Metadata`: the result is a function of the
/// input bytes alone, and on success its `target_directory` is the
/// toolchain's resolved output root.
#[verifier::external_body]
fn parse_target_dir(out: &[u8]) -> (r: Option<Vec<u8>>)
    ensures
        match r {
            Some(v) => target_dir_of(out@) == Some(v@),
            None => target_dir_of(out@) is None,
        },
{
    serde_json::from_slice::<cargo_metadata::Metadata>(out)
        .ok()
        .map(|m| m.target_directory.into_string().into_bytes())
}

/// Resolve the path of the freshly built optimized binary from the raw
/// toolchain metadata output: `<target_directory>/release/<bin>`, or nothing
/// when the metadata does not parse.
pub fn locate_release_binary(meta_out: &[u8], bin: &[u8]) -> (r: Option<Vec<u8>>)
    ensures
        match target_dir_of(meta_out@) {
            Some(d) => r is Some && r.unwrap()@ == release_binary_source_spec(d, bin@),
            None => r is None,
        },
{
    match parse_target_dir(meta_out) {
        Some(d) => Some(release_binary_source(d.as_slice(), bin)),
        None => None,
    }
}

} // verus!
