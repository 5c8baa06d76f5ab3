//! Texture handles and the hash table that finds a rectangle by handle.

use bevy_utils::HashMap;
use vstd::prelude::*;

verus! {

/// The identity of a texture asset.
///
/// The asset system hands these out. An atlas stores and compares them and
/// never looks at the texture behind one.
#[derive(Clone, Copy, Debug, PartialEq, Eq, Hash, Structural)]
pub struct TextureHandle {
    pub id: u64,
}

impl TextureHandle {
    pub fn new(id: u64) -> (handle: TextureHandle)
        ensures
            handle.id == id,
    {
        TextureHandle { id }
    }
}

/// `ahash::RandomState`, the hasher factory of `bevy_utils::HashMap`.
/// Nothing is said of what it holds.
#[verifier::external_type_specification]
#[verifier::external_body]
pub struct ExRandomState(ahash::RandomState);

/// `HashMap::get` on a table keyed by handle ids. `bevy_utils::HashMap` is
/// the standard library's hash map with `ahash::RandomState` in the place of
/// the default hasher factory.
///
/// Not proved. The contract claims what the documentation of `get` promises:
/// a reference to the value stored under `id`, or nothing where the table
/// has no such key. For that the table's hashers must agree on equal keys,
/// which one `ahash::RandomState` guarantees for the hashers it builds.
#[verifier::external_body]
pub(crate) fn index_get<'a>(index: &'a HashMap<u64, usize>, id: &u64) -> (found: Option<&'a usize>)
    ensures
        match found {
            Some(position) => index@.contains_key(*id) && index@[*id] == *position,
            None => !index@.contains_key(*id),
        },
{
    index.get(id)
}

} // verus!
