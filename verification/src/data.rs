//! Data access, as far as a host needs to know of it.

use vstd::prelude::*;

verus! {

/// A typed data-access object over entities of one type. A host asks nothing
/// of a repository: it only hands it to request handlers.
pub trait Repository<Entity> {
}

} // verus!
