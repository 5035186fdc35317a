//! Parsing of registry references. The reference string names a registry
//! host, a repository path and a tag or digest; the registry client's own
//! parser decides validity, so the parsed value is carried opaquely and only
//! its acceptance is stated.

use vstd::prelude::*;

verus! {

#[verifier::external_type_specification]
#[verifier::external_body]
pub struct ExReference(oci_distribution::Reference);

#[verifier::external_type_specification]
#[verifier::external_body]
pub struct ExParseError(oci_distribution::ParseError);

/// A malformed registry/repository/tag string. Fatal: a reference error
/// aborts the run before any network call.
#[derive(Debug, PartialEq, Eq)]
pub enum ReferenceError {
    Invalid,
}

/// Whether the registry client's parser accepts a reference string: a
/// function of the string alone, so it is only given a name here.
pub uninterp spec fn reference_ok(s: Seq<char>) -> bool;

/// Relies on `oci_distribution::Reference::try_from(&str)`: parses a
/// registry/repository/tag-or-digest string; acceptance is a function of the
/// string alone.
#[verifier::external_body]
fn try_parse_reference(s: &str) -> (r: Result<
    oci_distribution::Reference,
    oci_distribution::ParseError,
>)
    ensures
        r is Ok <==> reference_ok(s@),
{
    <oci_distribution::Reference as TryFrom<&str>>::try_from(s)
}

/// Parses a reference string, accepting exactly the strings the registry
/// client accepts.
pub fn parse_reference(s: &str) -> (r: Result<oci_distribution::Reference, ReferenceError>)
    ensures
        r is Ok <==> reference_ok(s@),
        r is Err <==> !reference_ok(s@),
{
    match try_parse_reference(s) {
        Ok(reference) => Ok(reference),
        Err(_) => Err(ReferenceError::Invalid),
    }
}

} // verus!
