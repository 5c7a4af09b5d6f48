use vstd::prelude::*;

verus! {

/// Relies on `git2::Status::IGNORED`: the flag that libgit2 sets on a path
/// that an ignore rule matches (`GIT_STATUS_IGNORED`, bit 14).
#[verifier::external_body]
fn ignored_flag() -> (r: u32)
    ensures
        r == 0x4000u32,
{
    git2::Status::IGNORED.bits()
}

/// An entry of a status scan counts towards dirtiness when it carries any
/// flag besides "ignored": a change in the index or the working tree, or an
/// untracked path. Untracked paths are local work too, so the snapshot that
/// a dirty copy gets must take them along.
pub open spec fn entry_is_dirty(bits: u32) -> bool {
    bits & !0x4000u32 != 0
}

/// The working copy is dirty when some entry of the scan is.
pub open spec fn scan_is_dirty(scan: Seq<u32>) -> bool {
    exists|i: int| 0 <= i < scan.len() && #[trigger] entry_is_dirty(scan[i])
}

/// Classifies a status scan, given as the flag bits of each entry.
pub fn is_dirty(statuses: &Vec<u32>) -> (r: bool)
    ensures
        r == scan_is_dirty(statuses@),
{
    let ignored = ignored_flag();
    let mut i: usize = 0;
    while i < statuses.len()
        invariant
            ignored == 0x4000u32,
            i <= statuses.len(),
            forall|k: int| 0 <= k < i ==> !#[trigger] entry_is_dirty(statuses@[k]),
        decreases statuses.len() - i,
    {
        if statuses[i] & !ignored != 0 {
            assert(entry_is_dirty(statuses@[i as int]));
            return true;
        }
        i = i + 1;
    }
    false
}

} // verus!
