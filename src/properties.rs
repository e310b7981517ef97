//! The consistency predicates evaluated at every reached global state, and
//! the correlation of acknowledgements with requests.
use vstd::prelude::*;
use crate::message::{Msg, MsgView, RequestView};
use crate::model::Client;
use crate::document::lookup;
use crate::replica::{ack_of, ack_sends, sync_sends};

verus! {

/// All replica documents hold the same content. An actor's entry is `None`
/// when it is a client, which holds no document and agrees with everything.
pub open spec fn agree(docs: Seq<Option<Vec<u8>>>) -> bool {
    forall|i: int, j: int|
        0 <= i < docs.len() && 0 <= j < docs.len() && docs[i] is Some && docs[j] is Some
            ==> #[trigger] docs[i]->0@ == #[trigger] docs[j]->0@
}

/// No synchronisation traffic is in flight.
pub open spec fn no_internal(in_flight: Seq<Msg>) -> bool {
    forall|i: int| 0 <= i < in_flight.len() ==> !(#[trigger] in_flight[i]@).is_internal()
}

fn bytes_equal(a: &Vec<u8>, b: &Vec<u8>) -> (r: bool)
    ensures
        r == (a@ == b@),
{
    if a.len() != b.len() {
        return false;
    }
    let mut i: usize = 0;
    while i < a.len()
        invariant
            i <= a@.len(),
            a@.len() == b@.len(),
            forall|j: int| 0 <= j < i ==> a@[j] == b@[j],
        decreases a@.len() - i,
    {
        if a[i] != b[i] {
            return false;
        }
        i = i + 1;
    }
    assert(a@ =~= b@);
    true
}

/// Convergence: every replica's document content is the same. `docs` holds,
/// for each actor, its document content, or `None` for a client.
pub fn converged(docs: &Vec<Option<Vec<u8>>>) -> (r: bool)
    ensures
        r == agree(docs@),
{
    let mut first: usize = 0;
    while first < docs.len() && docs[first].is_none()
        invariant
            first <= docs@.len(),
            forall|j: int| 0 <= j < first ==> docs@[j] is None,
        decreases docs@.len() - first,
    {
        first = first + 1;
    }
    if first == docs.len() {
        return true;
    }
    let reference = match &docs[first] {
        Some(d) => d,
        None => {
            return true;
        },
    };
    let mut k: usize = first + 1;
    while k < docs.len()
        invariant
            first < k <= docs@.len(),
            docs@[first as int] == Some(*reference),
            forall|j: int| 0 <= j < first ==> docs@[j] is None,
            forall|j: int| 0 <= j < k && docs@[j] is Some ==> docs@[j]->0@ == reference@,
        decreases docs@.len() - k,
    {
        match &docs[k] {
            Some(d) => {
                if !bytes_equal(d, reference) {
                    assert(!(docs@[k as int]->0@ == docs@[first as int]->0@));
                    return false;
                }
            },
            None => {},
        }
        k = k + 1;
    }
    assert forall|i: int, j: int|
        0 <= i < docs@.len() && 0 <= j < docs@.len() && docs@[i] is Some && docs@[j] is Some
            implies #[trigger] docs@[i]->0@ == #[trigger] docs@[j]->0@ by {
        assert(docs@[i]->0@ == reference@);
    }
    true
}

/// Stable-state consistency: where no synchronisation message is in flight,
/// the replicas already agree. Pending client messages do not matter.
pub fn stable_consistent(in_flight: &Vec<Msg>, docs: &Vec<Option<Vec<u8>>>) -> (r: bool)
    ensures
        r == (no_internal(in_flight@) ==> agree(docs@)),
{
    let mut i: usize = 0;
    while i < in_flight.len()
        invariant
            i <= in_flight@.len(),
            forall|j: int| 0 <= j < i ==> !(#[trigger] in_flight@[j]@).is_internal(),
        decreases in_flight@.len() - i,
    {
        if in_flight[i].is_internal() {
            return true;
        }
        i = i + 1;
    }
    converged(docs)
}

/// The requests that a client sends at startup.
pub open spec fn start_stream(c: Client) -> Seq<RequestView> {
    c.start_requests().map_values(|p: (usize, RequestView)| p.1)
}

/// A client numbers its start requests apart: no two share an id.
pub proof fn lemma_start_ids_distinct(c: Client)
    ensures
        forall|i: int, j: int|
            0 <= i < start_stream(c).len() && 0 <= j < start_stream(c).len() && i != j
                ==> #[trigger] start_stream(c)[i].id() != #[trigger] start_stream(c)[j].id(),
{
    match c {
        Client::MapPutter(p) => {
            assert(p.values.len() == p.values@.len());
        },
        Client::ListInserter(p) => {
            assert(p.values.len() == p.values@.len());
        },
        _ => {},
    }
    assert forall|i: int| 0 <= i < start_stream(c).len() implies #[trigger] start_stream(c)[i].id()
        == i by {
        assert(start_stream(c)[i] == c.start_requests()[i].1);
    }
}

/// Acknowledgement correlation: whatever a replica sends back on the start
/// request at position `k` of client `c` goes to that client, and each
/// acknowledgement in it carries an id that matches that request and no
/// other request the client sent at startup.
pub proof fn lemma_ack_correlation(
    c: Client,
    k: int,
    acks: bool,
    src: usize,
    read: Option<Seq<char>>,
)
    requires
        0 <= k < start_stream(c).len(),
    ensures
        forall|m: int|
            0 <= m < ack_sends(acks, src, start_stream(c)[k], read).len() ==> {
                let s = #[trigger] ack_sends(acks, src, start_stream(c)[k], read)[m];
                &&& s.0 == src
                &&& s.1 is Response
                &&& forall|j: int|
                    0 <= j < start_stream(c).len() ==> (#[trigger] start_stream(c)[j].id()
                        == s.1->Response_0.id() <==> j == k)
            },
{
    let stream = start_stream(c);
    lemma_start_ids_distinct(c);
    let sent = ack_sends(acks, src, stream[k], read);
    if sent.len() > 0 {
        let a = ack_of(stream[k], read)->0;
        assert(a.id() == stream[k].id());
        assert(sent =~= seq![(src, MsgView::Response(a))]);
        assert forall|j: int| 0 <= j < stream.len() implies (#[trigger] stream[j].id() == a.id()
            <==> j == k) by {
            if j != k {
                assert(stream[j].id() != stream[k].id());
            }
        }
    }
}

/// The protocol adds no sync traffic of its own: where the document engine
/// generates nothing for any peer, a replica sends no sync message.
pub proof fn lemma_sync_quiet_when_nothing_generated(
    peers: Seq<usize>,
    generated: Seq<Option<Vec<u8>>>,
)
    requires
        forall|i: int| 0 <= i < generated.len() ==> #[trigger] generated[i] is None,
    ensures
        sync_sends(peers, generated).len() == 0,
    decreases generated.len(),
{
    if generated.len() > 0 && peers.len() > 0 {
        let g = generated.drop_last();
        assert forall|i: int| 0 <= i < g.len() implies #[trigger] g[i] is None by {
            assert(g[i] == generated[i]);
        }
        lemma_sync_quiet_when_nothing_generated(peers.drop_last(), g);
        assert(generated.last() is None);
    }
}

/// Deleting a key that was never set changes nothing: where the entries
/// hold no `k`, the entries after a replica handles a deletion of `k` (which
/// always succeeds, see `Replica::handle_request`) are the entries before.
pub proof fn lemma_delete_absent_key(entries: Map<Seq<char>, Seq<char>>, k: Seq<char>)
    requires
        !entries.contains_key(k),
    ensures
        entries.remove(k) == entries,
        lookup(entries.remove(k), k) is None,
{
    assert(entries.remove(k) =~= entries);
}

} // verus!
