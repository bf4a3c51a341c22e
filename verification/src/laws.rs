//! System-wide laws, stated and proved over the same specifications the
//! operations' contracts use.

use vstd::prelude::*;

use crate::store::spec_read_range;
use crate::vfs::VersionFs;

verus! {

/// One write-intent open of the target: it advances the version counter by
/// exactly one. This is precisely what `VersionFs::open` ensures of the
/// state whenever it is called on the target with write intent.
pub open spec fn write_open_step(pre: VersionFs, post: VersionFs) -> bool {
    post.version == pre.version + 1
}

/// Over any run of write-intent opens, the version counter climbs by exactly
/// one per open: it never decreases and never repeats. `trace` holds the
/// states the run passes through, each consecutive pair related by one open.
pub proof fn lemma_versions_strictly_increase(trace: Seq<VersionFs>)
    requires
        trace.len() >= 1,
        forall|i: int| 0 <= i < trace.len() - 1 ==> #[trigger] write_open_step(
            trace[i],
            trace[i + 1],
        ),
    ensures
        forall|i: int| 0 <= i < trace.len() ==> #[trigger] trace[i].version == trace[0].version
            + i,
        forall|i: int, j: int| 0 <= i < j < trace.len() ==> trace[i].version < trace[j].version,
    decreases trace.len(),
{
    if trace.len() > 1 {
        let prefix = trace.drop_last();
        assert forall|i: int| 0 <= i < prefix.len() - 1 implies #[trigger] write_open_step(
            prefix[i],
            prefix[i + 1],
        ) by {
            assert(write_open_step(trace[i], trace[i + 1]));
        }
        lemma_versions_strictly_increase(prefix);
        let k = trace.len() - 2;
        assert(write_open_step(trace[k], trace[k + 1]));
        assert forall|i: int| 0 <= i < trace.len() implies #[trigger] trace[i].version == trace[
            0
        ].version + i by {
            if i < trace.len() - 1 {
                assert(prefix[i].version == prefix[0].version + i);
            } else {
                assert(prefix[i - 1].version == prefix[0].version + i - 1);
            }
        }
    }
}

/// What any read delivers: never more than `size` bytes, never a byte from
/// beyond the content's end, each byte exactly the content's byte at
/// `offset + i`, and nothing at all once `offset` is at or past the end.
pub proof fn lemma_read_range_bounds(content: Seq<u8>, offset: nat, size: nat)
    ensures
        spec_read_range(content, offset, size).len() <= size,
        offset < content.len() ==> offset + spec_read_range(content, offset, size).len()
            <= content.len(),
        forall|i: int| 0 <= i < spec_read_range(content, offset, size).len()
            ==> #[trigger] spec_read_range(content, offset, size)[i] == content[offset + i],
        offset >= content.len() ==> spec_read_range(content, offset, size) == Seq::<u8>::empty(),
{
}

} // verus!
