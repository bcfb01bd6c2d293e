//! Keyserver peer records, and the aggregation of peer lists sampled from
//! several keyservers.

use vstd::prelude::*;

verus! {

/// One known keyserver peer.
#[derive(Clone, Debug, PartialEq, Eq)]
pub struct Peer {
    /// The peer's URL.
    pub url: String,
}

impl View for Peer {
    type V = Seq<char>;

    open spec fn view(&self) -> Seq<char> {
        self.url@
    }
}

/// A list of known keyserver peers.
#[derive(Clone, Debug, PartialEq, Eq)]
pub struct Peers {
    /// The peers, in the order they were given.
    pub peers: Vec<Peer>,
}

/// The concatenation of a sequence of peer-name lists, in order.
pub open spec fn spec_concat_peers(lists: Seq<Seq<Seq<char>>>) -> Seq<Seq<char>>
    decreases lists.len(),
{
    if lists.len() == 0 {
        Seq::empty()
    } else {
        lists[0] + spec_concat_peers(lists.drop_first())
    }
}

/// Appending one list appends its members.
proof fn lemma_concat_peers_push(lists: Seq<Seq<Seq<char>>>, x: Seq<Seq<char>>)
    ensures
        spec_concat_peers(lists.push(x)) == spec_concat_peers(lists) + x,
    decreases lists.len(),
{
    if lists.len() == 0 {
        assert(lists.push(x)[0] == x);
        assert(lists.push(x).drop_first() =~= Seq::<Seq<Seq<char>>>::empty());
        assert(spec_concat_peers(lists.push(x)) == x + spec_concat_peers(
            Seq::<Seq<Seq<char>>>::empty(),
        ));
        assert(x + Seq::<Seq<char>>::empty() =~= x);
        assert(Seq::<Seq<char>>::empty() + x =~= x);
    } else {
        lemma_concat_peers_push(lists.drop_first(), x);
        assert(lists.push(x).drop_first() =~= lists.drop_first().push(x));
        assert(lists.push(x)[0] == lists[0]);
        assert(spec_concat_peers(lists.push(x)) =~= (lists[0] + spec_concat_peers(
            lists.drop_first(),
        )) + x);
    }
}

/// The view of one peer list: each member's name.
pub open spec fn spec_peer_names(peers: Peers) -> Seq<Seq<char>> {
    peers.peers@.map_values(|p: Peer| p@)
}

/// Aggregate a collection of peer lists into a single one, keeping every
/// member in order.
#[verifier::loop_isolation(false)]
pub fn aggregate_peers(peers: Vec<Peers>) -> (r: Peers)
    ensures
        spec_peer_names(r) == spec_concat_peers(
            peers@.map_values(|ps: Peers| spec_peer_names(ps)),
        ),
{
    let ghost lists = peers@.map_values(|ps: Peers| spec_peer_names(ps));
    let n: usize = peers.len();
    let mut merged: Vec<Peer> = Vec::new();
    proof {
        assert(lists.take(0) =~= Seq::<Seq<Seq<char>>>::empty());
        assert(merged@.map_values(|p: Peer| p@) =~= spec_concat_peers(lists.take(0)));
    }
    for i in 0..n
        invariant
            merged@.map_values(|p: Peer| p@) == spec_concat_peers(lists.take(i as int)),
    {
        let m: usize = peers[i].peers.len();
        let ghost inner = spec_peer_names(peers@[i as int]);
        proof {
            assert(inner =~= lists[i as int]);
        }
        for j in 0..m
            invariant
                m == peers@[i as int].peers@.len(),
                inner == lists[i as int],
                merged@.map_values(|p: Peer| p@) == spec_concat_peers(lists.take(i as int))
                    + inner.take(j as int),
        {
            let ghost acc = merged@.map_values(|p: Peer| p@);
            merged.push(Peer { url: peers[i].peers[j].url.clone() });
            proof {
                assert(merged@.map_values(|p: Peer| p@) =~= acc.push(
                    peers@[i as int].peers@[j as int]@,
                ));
                assert(inner.take(j + 1) =~= inner.take(j as int).push(inner[j as int]));
                assert(merged@.map_values(|p: Peer| p@) =~= spec_concat_peers(lists.take(
                    i as int,
                )) + inner.take(j + 1));
            }
        }
        proof {
            assert(inner.take(m as int) =~= inner);
            lemma_concat_peers_push(lists.take(i as int), inner);
            assert(lists.take(i + 1) =~= lists.take(i as int).push(lists[i as int]));
        }
    }
    proof {
        assert(lists.take(n as int) =~= lists);
    }
    Peers { peers: merged }
}

} // verus!
