use vstd::prelude::*;

verus! {

/// Identity of a principal (a client, an artisan, the engine's own custodial
/// account) or of an asset.  The engine only ever compares identities for
/// equality, so an opaque numeric handle is all it keeps; the host maps its
/// own richer account identifiers onto these handles.
#[derive(Clone, Copy, PartialEq, Eq, Structural, Debug, Hash)]
pub struct Address(pub u64);

} // verus!
