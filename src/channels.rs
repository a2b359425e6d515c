//! Restricting a probe's first hop to channels with chosen peers.
use vstd::prelude::*;

verus! {

/// An active local channel: its handle and the identifier of its remote peer.
pub struct ChannelInfo {
    pub chan_id: u64,
    pub remote_pubkey: String,
}

pub open spec fn is_listed(peers: Seq<String>, key: Seq<char>) -> bool {
    exists|j: int| 0 <= j < peers.len() && #[trigger] peers[j]@ == key
}

/// The handles of the channels whose remote peer is listed, in the order of
/// `channels`.
pub open spec fn selected_channel_ids(channels: Seq<ChannelInfo>, peers: Seq<String>) -> Seq<u64>
    decreases channels.len(),
{
    if channels.len() == 0 {
        Seq::empty()
    } else {
        let rest = selected_channel_ids(channels.drop_last(), peers);
        if is_listed(peers, channels.last().remote_pubkey@) {
            rest.push(channels.last().chan_id)
        } else {
            rest
        }
    }
}

fn is_listed_exec(peers: &Vec<String>, key: &String) -> (r: bool)
    ensures
        r == is_listed(peers@, key@),
{
    let mut i: usize = 0;
    while i < peers.len()
        invariant
            i <= peers@.len(),
            forall|j: int| 0 <= j < i ==> peers@[j]@ != key@,
        decreases peers@.len() - i,
    {
        if peers[i] == *key {
            return true;
        }
        i = i + 1;
    }
    false
}

/// The handles of the channels in `channels` whose remote peer is one of
/// `pubkeys`. No match gives an empty list, not an error.
pub fn filter_channels_from_pubkeys(channels: &Vec<ChannelInfo>, pubkeys: &Vec<String>) -> (r:
    Vec<u64>)
    ensures
        r@ == selected_channel_ids(channels@, pubkeys@),
{
    let mut r: Vec<u64> = Vec::new();
    let mut i: usize = 0;
    while i < channels.len()
        invariant
            i <= channels@.len(),
            r@ == selected_channel_ids(channels@.take(i as int), pubkeys@),
        decreases channels@.len() - i,
    {
        proof {
            assert(channels@.take(i + 1).drop_last() =~= channels@.take(i as int));
        }
        if is_listed_exec(pubkeys, &channels[i].remote_pubkey) {
            r.push(channels[i].chan_id);
        }
        i = i + 1;
    }
    proof {
        assert(channels@.take(channels@.len() as int) =~= channels@);
    }
    r
}

} // verus!
