use vstd::prelude::*;

use crate::version::VersionId;

verus! {

/// The canonical text of a 128-bit token: a result that depends on the token
/// alone.
pub uninterp spec fn uuid_text_of(n: u128) -> Seq<char>;

/// Mint a fresh, globally unique version id.
/// Relies on uuid::Uuid::new_v4, which fills the value from random bytes and
/// then sets the version-4 and variant bits, so the 128 bits are never all
/// zero, and on uuid::Uuid::as_u128, which returns those 128 bits.
#[verifier::external_body]
pub(crate) fn mint_version_id() -> (r: VersionId)
    ensures
        r.0 != 0,
{
    VersionId(uuid::Uuid::new_v4().as_u128())
}

/// Render a version id as its canonical text.
/// Relies on uuid::Uuid::to_string through uuid's Display: the hyphenated
/// lower-case form, 36 characters, a function of the 128-bit value alone
/// (uuid::Uuid::from_u128 only carries the 128 bits in).
#[verifier::external_body]
pub(crate) fn version_id_text(id: VersionId) -> (r: String)
    ensures
        r@ == uuid_text_of(id.0),
        r@.len() == 36,
{
    uuid::Uuid::from_u128(id.0).to_string()
}

} // verus!
