//! Inherent data for benchmark blocks.
//!
//! The benchmark overhead command hands the block builder one inherent:
//! the timestamp, fixed at moment zero. Inherent data is a keyed set of
//! SCALE payloads; the timestamp provider contributes its eight-byte
//! identifier and the moment as a little-endian word.

use vstd::prelude::*;
use crate::scale::{spec_u64_le, scale_u64};

verus! {

/// One inherent: an eight-byte identifier and its SCALE payload.
pub struct InherentEntry {
    /// The provider's eight-byte identifier.
    pub id: Vec<u8>,
    /// The SCALE-encoded payload.
    pub payload: Vec<u8>,
}

/// The timestamp provider's identifier: the ASCII bytes of `timstap0`.
pub open spec fn spec_timestamp_inherent_id() -> Seq<u8> {
    seq![116u8, 105u8, 109u8, 115u8, 116u8, 97u8, 112u8, 48u8]
}

/// The moment every benchmark block carries: zero milliseconds.
pub const BENCHMARK_TIMESTAMP_MILLIS: u64 = 0;

/// Produces the inherent data for a benchmark block: exactly the
/// timestamp inherent, at the fixed benchmark moment.
pub fn inherent_benchmark_data() -> (r: Vec<InherentEntry>)
    ensures
        r@.len() == 1,
        r@[0].id@ == spec_timestamp_inherent_id(),
        r@[0].payload@ == spec_u64_le(BENCHMARK_TIMESTAMP_MILLIS),
{
    let mut id: Vec<u8> = Vec::new();
    id.push(116);
    id.push(105);
    id.push(109);
    id.push(115);
    id.push(116);
    id.push(97);
    id.push(112);
    id.push(48);
    proof {
        assert(id@ =~= spec_timestamp_inherent_id());
    }
    let payload = scale_u64(BENCHMARK_TIMESTAMP_MILLIS);
    let entry = InherentEntry { id, payload };
    let mut r: Vec<InherentEntry> = Vec::new();
    r.push(entry);
    r
}

} // verus!
