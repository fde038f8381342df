//! Discovery of the conventional config file in ancestor directories.
//!
//! Starting from the working directory, each ancestor is asked in turn
//! whether it holds a file named `leptosfmt.toml` as a direct child; the
//! first hit wins and the walk stops at the filesystem root. Whether a
//! candidate exists is a fact about the filesystem, so the walk is a
//! state machine: it hands out one candidate path at a time and the
//! caller answers. The walk is bounded by the starting depth, so it
//! terminates whether or not anything is found.

use vstd::prelude::*;

verus! {

/// The views of a path's segments.
pub open spec fn seg_views(segments: Seq<String>) -> Seq<Seq<char>> {
    segments.map_values(|s: String| s@)
}

/// A directory path joined from its segments below the root: one `/`
/// before each segment, so the root itself is the empty sequence.
pub open spec fn spec_joined(segments: Seq<Seq<char>>) -> Seq<char>
    decreases segments.len(),
{
    if segments.len() == 0 {
        Seq::empty()
    } else {
        spec_joined(segments.drop_last()) + seq!['/'] + segments.last()
    }
}

/// The candidate config path checked in the directory with these
/// segments: the conventional file name as its direct child.
pub open spec fn spec_candidate(segments: Seq<Seq<char>>) -> Seq<char> {
    spec_joined(segments) + seq!['/'] + "leptosfmt.toml"@
}

/// The upward walk's state: the segments, below the root, of the
/// directory whose candidate is checked next.
pub struct DiscoveryWalk {
    pub segments: Vec<String>,
}

impl DiscoveryWalk {
    /// Starts the walk in the directory with these segments (the working
    /// directory, with the root itself as the empty vector).
    pub fn start(segments: Vec<String>) -> (w: Self)
        ensures
            w.segments@ == segments@,
    {
        DiscoveryWalk { segments }
    }

    /// The candidate config path in the walk's current directory.
    pub fn candidate(&self) -> (r: String)
        ensures
            r@ == spec_candidate(seg_views(self.segments@)),
    {
        let r = candidate_in(&self.segments, self.segments.len());
        proof {
            assert(seg_views(self.segments@).take(self.segments@.len() as int) =~= seg_views(
                self.segments@,
            ));
        }
        r
    }

    /// Steps to the parent directory; answers whether there was one.
    /// At the root there is nothing above and the walk is over.
    pub fn ascend(&mut self) -> (more: bool)
        ensures
            more == (old(self).segments@.len() > 0),
            more ==> final(self).segments@ == old(self).segments@.drop_last(),
            !more ==> final(self).segments@ == old(self).segments@,
    {
        if self.segments.len() > 0 {
            let _ = self.segments.pop();
            true
        } else {
            false
        }
    }
}

/// The candidate config path in the directory whose segments are the
/// first `count` of `segments`.
pub fn candidate_in(segments: &Vec<String>, count: usize) -> (r: String)
    requires
        count <= segments@.len(),
    ensures
        r@ == spec_candidate(seg_views(segments@).take(count as int)),
{
    let ghost views = seg_views(segments@);
    let mut r = String::new();
    let mut i: usize = 0;
    proof {
        reveal_strlit("/");
        assert(r@ =~= spec_joined(views.take(0)));
    }
    while i < count
        invariant
            0 <= i <= count <= segments@.len(),
            views == seg_views(segments@),
            views.len() == segments@.len(),
            r@ == spec_joined(views.take(i as int)),
        decreases count - i,
    {
        r.append("/");
        r.append(segments[i].as_str());
        proof {
            reveal_strlit("/");
            assert(views.take(i + 1).drop_last() =~= views.take(i as int));
            assert(views.take(i + 1).last() == views[i as int]);
            assert(r@ =~= spec_joined(views.take(i + 1)));
        }
        i = i + 1;
    }
    r.append("/leptosfmt.toml");
    proof {
        reveal_strlit("/");
        reveal_strlit("leptosfmt.toml");
        reveal_strlit("/leptosfmt.toml");
        assert("/leptosfmt.toml"@ =~= seq!['/'] + "leptosfmt.toml"@);
        assert(r@ =~= spec_candidate(views.take(count as int)));
    }
    r
}

/// The notice printed once when a config file was discovered.
pub fn discovery_notice(path: &str) -> (r: String)
    ensures
        r@ == "Discovered config at "@ + path@,
{
    let mut r = String::from_str("Discovered config at ");
    r.append(path);
    r
}

/// The whole discovery, run against given answers: `present[k]` says
/// whether the candidate of step `k` (the starting directory first, the
/// root last) exists as a file. Discovery from depth `D` checks at most
/// `D + 1` candidates and yields the first present one, or nothing when
/// no ancestor holds the file.
pub fn discover(start: &Vec<String>, present: &Vec<bool>) -> (r: Option<String>)
    requires
        present@.len() == start@.len() + 1,
    ensures
        r is None ==> forall|j: int| 0 <= j < present@.len() ==> !(#[trigger] present@[j]),
        r matches Some(p) ==> exists|i: int|
            0 <= i < present@.len() && #[trigger] present@[i]
                && (forall|j: int| 0 <= j < i ==> !present@[j])
                && p@ == spec_candidate(seg_views(start@).take(start@.len() - i)),
{
    let depth: usize = start.len();
    let mut k: usize = 0;
    loop
        invariant
            0 <= k <= depth,
            depth == start@.len(),
            present@.len() == depth + 1,
            forall|j: int| 0 <= j < k ==> !(#[trigger] present@[j]),
        decreases depth - k,
    {
        let cand = candidate_in(start, depth - k);
        if present[k] {
            proof {
                assert(0 <= k < present@.len() && present@[k as int] && (forall|j: int|
                    0 <= j < k ==> !present@[j]) && cand@ == spec_candidate(
                    seg_views(start@).take(start@.len() - (k as int))));
            }
            return Some(cand);
        }
        if k == depth {
            return None;
        }
        k = k + 1;
    }
}

} // verus!
