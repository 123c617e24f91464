//! Jobs and checkpoints of syndication.

use deterministic_bloom::const_size::BloomFilter;
use vstd::prelude::*;
use vstd::string::*;

verus! {

/// A request to syndicate the blocks of a counterpart sphere to the broader
/// IPFS network. `R` is the type of revisions, `C` that of sphere contexts.
pub struct SyndicationJob<R, C> {
    /// The revision of the local sphere to discover the counterpart sphere
    /// from. A revision that does not tell of the counterpart sphere is fine
    /// too, such as one of the counterpart sphere itself: the counterpart
    /// sphere is then discovered from the latest version of the local sphere.
    /// A checkpoint records this revision once all of the history up to the
    /// revision that was discovered has been syndicated.
    pub revision: R,
    /// The context of the local sphere, relative to the gateway.
    pub context: C,
}

/// The last spot in the history of a sphere that was successfully syndicated
/// to an IPFS node, and a Bloom filter populated by the addresses of all blocks
/// that have been syndicated.
pub struct SyndicationCheckpoint<R> {
    pub revision: R,
    pub syndicated_blocks: BloomFilter<256, 30>,
}

/// The slug of the checkpoint for the node called `identity`.
pub open spec fn checkpoint_slug(identity: Seq<char>) -> Seq<char> {
    "syndication/kubo/"@ + identity
}

/// The slug under which the checkpoint for an IPFS node is stored.
pub fn checkpoint_key(kubo_identity: &str) -> (key: String)
    ensures
        key@ == checkpoint_slug(kubo_identity@),
{
    let prefix: String = "syndication/kubo/".to_owned();
    prefix.concat(kubo_identity)
}

/// What is reported when the node at `ipfs_api` could not be identified.
pub fn identify_failure(ipfs_api: &str, error: &str) -> (message: String)
    ensures
        message@ == "Failed to identify an IPFS Kubo node at "@ + ipfs_api@ + ": "@ + error@,
{
    let message: String = "Failed to identify an IPFS Kubo node at ".to_owned();
    message.concat(ipfs_api).concat(": ").concat(error)
}

/// Different nodes have different checkpoints.
pub proof fn law_nodes_have_checkpoints_of_their_own(first: Seq<char>, second: Seq<char>)
    requires
        checkpoint_slug(first) == checkpoint_slug(second),
    ensures
        first == second,
{
    let prefix = "syndication/kubo/"@;
    let n = prefix.len() as int;
    assert(first =~= checkpoint_slug(first).skip(n));
    assert(second =~= checkpoint_slug(second).skip(n));
}

/// The slug of a checkpoint is the name of the node in the folder of Kubo
/// nodes, in full.
pub proof fn law_slug_holds_the_whole_name(identity: Seq<char>)
    ensures
        checkpoint_slug(identity).len() == 17 + identity.len(),
        checkpoint_slug(identity).take(17) == "syndication/kubo/"@,
        checkpoint_slug(identity).skip(17) == identity,
{
    reveal_strlit("syndication/kubo/");
    assert(checkpoint_slug(identity).take(17) =~= "syndication/kubo/"@);
    assert(checkpoint_slug(identity).skip(17) =~= identity);
}

} // verus!
