//! What the verifier is told about `up_rust`.
//!
//! Two things are taken from it: the check of an authority name and the text
//! of a resource's URI. Both depend on their arguments alone. How `up_rust`
//! arrives at them (a URI parser and a pattern for the check, hexadecimal
//! formatting for the text) is not restated here; each result has a name, and
//! the functions below say that the call returns what the name stands for.

use up_rust::{LocalUriProvider, StaticUriProvider, UUri, UUriError};
use vstd::prelude::*;

verus! {

/// `up_rust::UUriError`, the reason an authority name or a URI was rejected.
#[verifier::external_type_specification]
#[verifier::external_body]
pub struct ExUUriError(UUriError);

/// The authority name that `UUri::verify_authority` returns for `authority`,
/// or `None` where it rejects it.
pub uninterp spec fn verified_authority(authority: Seq<char>) -> Option<Seq<char>>;

/// The text that `UUri::to_uri(true)` gives for the URI that a
/// `StaticUriProvider` made from `authority`, `entity_id` and `version_major`
/// returns for `resource_id`.
pub uninterp spec fn resource_uri_text(
    authority: Seq<char>,
    entity_id: u32,
    version_major: u8,
    resource_id: u16,
) -> Seq<char>;

/// `UUri::verify_authority`: checks that the name may stand as the authority
/// of a uProtocol URI and returns the name as the URI will carry it. The
/// contract only ties the outcome to [`verified_authority`].
#[verifier::external_body]
pub(crate) fn verify_authority(authority: &str) -> (checked: Result<String, UUriError>)
    ensures
        match checked {
            Ok(name) => verified_authority(authority@) == Some(name@),
            Err(_) => verified_authority(authority@) is None,
        },
{
    UUri::verify_authority(authority)
}

/// `StaticUriProvider::new`, `LocalUriProvider::get_resource_uri` and
/// `UUri::to_uri` with the scheme included: the URI of one resource of an
/// entity, as text. None of the three can fail. The contract only ties the
/// text to [`resource_uri_text`].
#[verifier::external_body]
pub(crate) fn resource_uri(
    authority: &str,
    entity_id: u32,
    version_major: u8,
    resource_id: u16,
) -> (text: String)
    ensures
        text@ == resource_uri_text(authority@, entity_id, version_major, resource_id),
{
    let provider = StaticUriProvider::new(authority, entity_id, version_major);
    provider.get_resource_uri(resource_id).to_uri(true)
}

} // verus!
