use uuid::Uuid;
use vstd::prelude::*;

verus! {

/// `uuid::Uuid`: a user's id. It is carried through as it is.
#[verifier::external_type_specification]
#[verifier::external_body]
pub struct ExUuid(Uuid);

/// The hyphenated lower-case text of an id.
pub uninterp spec fn uuid_text(id: Uuid) -> Seq<char>;

/// `Uuid::to_string`, which goes by the id's `Display`: its hyphenated
/// lower-case text, which depends on the id alone.
#[verifier::external_body]
pub(crate) fn uuid_to_string(id: &Uuid) -> (text: String)
    ensures
        text@ == uuid_text(*id),
{
    id.to_string()
}

} // verus!
