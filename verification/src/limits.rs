//! Fixed limits of the service.

use vstd::prelude::*;

verus! {

/// The most bytes of a request body that are ever held in memory: 64 MiB.
pub const MAX_SIZE: usize = 67_108_864;

/// The limit written out as the product it stands for.
pub proof fn lemma_max_size_is_64_mib()
    ensures
        MAX_SIZE == 64 * 1024 * 1024,
{
}

} // verus!
