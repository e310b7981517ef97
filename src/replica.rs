//! The replica's decisions. The document engine that a replica owns stays
//! with the caller: each decision takes the engine's answers as arguments and
//! returns the messages to send, as (recipient, message) pairs.
use vstd::prelude::*;
use crate::document::{change_decodes, lookup, sync_decodes, Document, EngineError};
use crate::message::{
    ClientMsg, InternalMsg, Msg, MsgView, Request, RequestView, Response, ResponseView,
};

verus! {

/// How a replica hands its local changes on to its peers; fixed per run.
#[derive(Clone, Copy, Debug, PartialEq, Eq, Hash)]
pub enum SyncMethod {
    /// Export the latest local change and broadcast it to every peer.
    Changes,
    /// Generate an incremental sync message for each peer.
    Messages,
}

/// One member of the cluster, with the fixed ids of all the others.
#[derive(Clone, Debug, PartialEq, Eq, Hash)]
pub struct Replica {
    pub id: usize,
    pub peers: Vec<usize>,
    pub sync_method: SyncMethod,
    /// Acknowledge every request to its sender.
    pub message_acks: bool,
}

/// The messages of a list of sends, each with its recipient.
pub open spec fn sends_view(s: Seq<(usize, Msg)>) -> Seq<(usize, MsgView)> {
    s.map_values(|p: (usize, Msg)| (p.0, p.1@))
}

/// A read's result with its text as a character sequence.
pub open spec fn text_view(read: Option<String>) -> Option<Seq<char>> {
    match read {
        Some(v) => Some(v@),
        None => None,
    }
}

/// What acknowledges `req`, where `read` is what a read found; a read that
/// found nothing is not acknowledged.
pub open spec fn ack_of(req: RequestView, read: Option<Seq<char>>) -> Option<ResponseView> {
    match req {
        RequestView::Put(id, _, _) => Some(ResponseView::PutOk(id)),
        RequestView::DeleteMap(id, _) => Some(ResponseView::DeleteOk(id)),
        RequestView::DeleteList(id, _) => Some(ResponseView::DeleteOk(id)),
        RequestView::Insert(id, _, _) => Some(ResponseView::InsertOk(id)),
        RequestView::Get(id, _) | RequestView::GetList(id, _) => match read {
            Some(v) => Some(ResponseView::GetOk(id, v)),
            None => None,
        },
    }
}

/// The acknowledgement sent back to `src`, if acknowledgements are on.
pub open spec fn ack_sends(
    acks: bool,
    src: usize,
    req: RequestView,
    read: Option<Seq<char>>,
) -> Seq<(usize, MsgView)> {
    match ack_of(req, read) {
        Some(a) => if acks {
            seq![(src, MsgView::Response(a))]
        } else {
            seq![]
        },
        None => seq![],
    }
}

/// An exported change, if there is one, to every peer in order.
pub open spec fn change_sends(peers: Seq<usize>, change: Option<Vec<u8>>) -> Seq<(usize, MsgView)> {
    match change {
        Some(c) => peers.map_values(|p: usize| (p, MsgView::SyncChange(c@))),
        None => seq![],
    }
}

/// The sync message generated for each peer, to that peer, in the order of
/// the peers; a peer for which nothing was generated gets nothing.
pub open spec fn sync_sends(peers: Seq<usize>, generated: Seq<Option<Vec<u8>>>) -> Seq<
    (usize, MsgView),
>
    decreases generated.len(),
{
    if generated.len() == 0 || peers.len() == 0 {
        seq![]
    } else {
        let before = sync_sends(peers.drop_last(), generated.drop_last());
        match generated.last() {
            Some(b) => before.push((peers.last(), MsgView::SyncMessage(b@))),
            None => before,
        }
    }
}

/// Everything a replica sends on a client request: the acknowledgement, then,
/// for a write, the dissemination of the strategy in force.
pub open spec fn request_sends(
    r: Replica,
    src: usize,
    req: RequestView,
    read: Option<Seq<char>>,
    change: Option<Vec<u8>>,
    generated: Seq<Option<Vec<u8>>>,
) -> Seq<(usize, MsgView)> {
    ack_sends(r.message_acks, src, req, read) + if !req.is_write() {
        seq![]
    } else {
        match r.sync_method {
            SyncMethod::Changes => change_sends(r.peers@, change),
            SyncMethod::Messages => sync_sends(r.peers@, generated),
        }
    }
}

fn bytes_copy(b: &Vec<u8>) -> (r: Vec<u8>)
    ensures
        r@ == b@,
{
    let mut r: Vec<u8> = Vec::new();
    let mut i: usize = 0;
    while i < b.len()
        invariant
            i <= b@.len(),
            r@ == b@.take(i as int),
        decreases b@.len() - i,
    {
        r.push(b[i]);
        i = i + 1;
        assert(r@ =~= b@.take(i as int));
    }
    assert(b@.take(b@.len() as int) =~= b@);
    r
}

impl Replica {
    /// The acknowledgement of a client request, sent back to `src` when
    /// acknowledgements are on. `read` is what the document holds under the
    /// request's key or index; only a read request looks at it, and a read
    /// that found nothing draws no reply.
    pub fn acknowledge(&self, src: usize, req: &Request, read: Option<String>) -> (sends: Vec<
        (usize, Msg),
    >)
        ensures
            sends_view(sends@) == ack_sends(self.message_acks, src, req@, text_view(read)),
    {
        let mut sends: Vec<(usize, Msg)> = Vec::new();
        if !self.message_acks {
            assert(sends_view(sends@) =~= seq![]);
            return sends;
        }
        let ack: Option<Response> = match req {
            Request::Put(id, _, _) => Some(Response::PutOk(*id)),
            Request::DeleteMap(id, _) => Some(Response::DeleteOk(*id)),
            Request::DeleteList(id, _) => Some(Response::DeleteOk(*id)),
            Request::Insert(id, _, _) => Some(Response::InsertOk(*id)),
            Request::Get(id, _) | Request::GetList(id, _) => match read {
                Some(v) => Some(Response::GetOk(*id, v)),
                None => None,
            },
        };
        match ack {
            Some(a) => {
                sends.push((src, Msg::Client(ClientMsg::Response(a))));
            },
            None => {},
        }
        assert(sends_view(sends@) =~= ack_sends(self.message_acks, src, req@, text_view(read)));
        sends
    }

    /// Change propagation: the exported change, if the mutation produced one,
    /// to every peer in order.
    pub fn broadcast_change(&self, change: Option<Vec<u8>>) -> (sends: Vec<(usize, Msg)>)
        ensures
            sends_view(sends@) == change_sends(self.peers@, change),
    {
        let ghost g = change;
        let mut sends: Vec<(usize, Msg)> = Vec::new();
        match change {
            Some(c) => {
                let mut i: usize = 0;
                while i < self.peers.len()
                    invariant
                        g == Some(c),
                        i <= self.peers@.len(),
                        sends@.len() == i,
                        sends_view(sends@) =~= change_sends(self.peers@, g).take(i as int),
                    decreases self.peers@.len() - i,
                {
                    let ghost before = sends@;
                    let m = Msg::Internal(InternalMsg::SyncChange(bytes_copy(&c)));
                    assert(m@ == MsgView::SyncChange(c@));
                    sends.push((self.peers[i], m));
                    assert(sends@ == before.push((self.peers@[i as int], m)));
                    assert(sends_view(sends@)[i as int] == (self.peers@[i as int], m@));
                    assert(change_sends(self.peers@, g)[i as int] == (self.peers@[i as int], m@));
                    i = i + 1;
                    assert(sends_view(sends@) =~= change_sends(self.peers@, g).take(i as int));
                }
                assert(change_sends(self.peers@, g).take(i as int) =~= change_sends(self.peers@, g));
            },
            None => {
                assert(sends_view(sends@) =~= seq![]);
            },
        }
        sends
    }

    /// Message-based sync: `generated[i]` is what the document engine
    /// generated for `peers[i]`; each message goes to its peer, in order,
    /// and a peer with nothing new gets nothing.
    pub fn send_sync_messages(&self, generated: Vec<Option<Vec<u8>>>) -> (sends: Vec<(usize, Msg)>)
        requires
            generated@.len() == self.peers@.len(),
        ensures
            sends_view(sends@) == sync_sends(self.peers@, generated@),
    {
        let mut sends: Vec<(usize, Msg)> = Vec::new();
        let mut i: usize = 0;
        while i < generated.len()
            invariant
                i <= generated@.len(),
                generated@.len() == self.peers@.len(),
                sends_view(sends@) =~= sync_sends(self.peers@.take(i as int), generated@.take(i as int)),
            decreases generated@.len() - i,
        {
            let ghost before = sends@;
            match &generated[i] {
                Some(b) => {
                    sends.push((self.peers[i], Msg::Internal(InternalMsg::SyncMessage(bytes_copy(b)))));
                },
                None => {},
            }
            i = i + 1;
            assert(self.peers@.take(i as int).drop_last() =~= self.peers@.take(i - 1));
            assert(generated@.take(i as int).drop_last() =~= generated@.take(i - 1));
            assert(sends_view(sends@) =~= sync_sends(self.peers@.take(i as int), generated@.take(i as int)));
        }
        assert(self.peers@.take(i as int) =~= self.peers@);
        assert(generated@.take(i as int) =~= generated@);
        sends
    }

    /// The reply to a peer's sync message: what the engine generated back
    /// for that peer, if anything.
    pub fn reply_sync(&self, src: usize, reply: Option<Vec<u8>>) -> (sends: Vec<(usize, Msg)>)
        ensures
            sends_view(sends@) == sync_sends(seq![src], seq![reply]),
    {
        let mut sends: Vec<(usize, Msg)> = Vec::new();
        match reply {
            Some(b) => {
                sends.push((src, Msg::Internal(InternalMsg::SyncMessage(b))));
            },
            None => {},
        }
        reveal_with_fuel(sync_sends, 2);
        assert(seq![src].drop_last() =~= Seq::<usize>::empty());
        assert(seq![reply].drop_last() =~= Seq::<Option<Vec<u8>>>::empty());
        assert(sends_view(sends@) =~= sync_sends(seq![src], seq![reply]));
        sends
    }

    /// Everything sent on a client request from `src`: the acknowledgement,
    /// then, for a write, the dissemination of the strategy in force. `read`
    /// is what the document holds for a read request; `change` is the change
    /// exported after the mutation; `generated[i]` is the sync message
    /// generated for `peers[i]` after it.
    pub fn on_request(
        &self,
        src: usize,
        req: &Request,
        read: Option<String>,
        change: Option<Vec<u8>>,
        generated: Vec<Option<Vec<u8>>>,
    ) -> (sends: Vec<(usize, Msg)>)
        requires
            req@.is_write() && self.sync_method == SyncMethod::Messages ==> generated@.len()
                == self.peers@.len(),
        ensures
            sends_view(sends@) == request_sends(*self, src, req@, text_view(read), change, generated@),
    {
        let mut sends = self.acknowledge(src, req, read);
        let ghost acked = sends@;
        if req.is_write() {
            let mut more = match self.sync_method {
                SyncMethod::Changes => self.broadcast_change(change),
                SyncMethod::Messages => self.send_sync_messages(generated),
            };
            let ghost rest = more@;
            sends.append(&mut more);
            assert(sends_view(sends@) =~= sends_view(acked) + sends_view(rest));
        } else {
            assert(sends_view(sends@) =~= sends_view(acked) + seq![]);
        }
        sends
    }

    /// The position of peer `id` among this replica's peers, if it is one.
    pub fn peer_index(&self, id: usize) -> (r: Option<usize>)
        ensures
            match r {
                Some(k) => k < self.peers@.len() && self.peers@[k as int] == id && forall|j: int|
                    0 <= j < k ==> self.peers@[j] != id,
                None => forall|j: int| 0 <= j < self.peers@.len() ==> self.peers@[j] != id,
            },
    {
        let mut k: usize = 0;
        while k < self.peers.len()
            invariant
                k <= self.peers@.len(),
                forall|j: int| 0 <= j < k ==> self.peers@[j] != id,
            decreases self.peers@.len() - k,
        {
            if self.peers[k] == id {
                return Some(k);
            }
            k = k + 1;
        }
        None
    }

    /// Handles a client request from `src` on this replica's document: applies
    /// it, then sends what `on_request` decides from what the engine answered:
    /// the read's result, the change exported after a write under change
    /// propagation, or the message generated for each peer under
    /// message-based sync.
    pub fn handle_request(&self, doc: &mut Document, src: usize, req: &Request) -> (r: Result<
        Vec<(usize, Msg)>,
        EngineError,
    >)
        requires
            old(doc).peer_count() == self.peers@.len(),
        ensures
            final(doc).peer_count() == old(doc).peer_count(),
            r matches Ok(sends) ==> exists|
                read: Option<Seq<char>>,
                change: Option<Vec<u8>>,
                generated: Seq<Option<Vec<u8>>>,
            |
                {
                    &&& generated.len() == self.peers@.len()
                    &&& req@.is_write() ==> read is None
                    &&& req@ matches RequestView::Get(_, k) ==> read == lookup(old(doc).entries(), k)
                    &&& sends_view(sends@) == request_sends(*self, src, req@, read, change, generated)
                },
            final(doc).is_list() == old(doc).is_list(),
            req@ is Put || req@ is DeleteMap || req@ is Get ==> r is Ok,
            r == Err::<Vec<(usize, Msg)>, EngineError>(EngineError::NotAList) <==> (
            req@.is_list_request() && !old(doc).is_list()),
            r matches Err(e) ==> e == EngineError::Refused || e == EngineError::NotAList,
            req@ matches RequestView::Put(_, k, v) ==> final(doc).entries() == old(doc).entries().insert(k, v),
            req@ matches RequestView::DeleteMap(_, k) ==> final(doc).entries() == old(doc).entries().remove(k),
            req@ is Get || req@.is_list_request() ==> final(doc).entries() == old(doc).entries(),
    {
        let read = doc.apply(req)?;
        let ghost applied = doc.entries();
        let ghost list_doc = doc.is_list();
        let mut change: Option<Vec<u8>> = None;
        let mut generated: Vec<Option<Vec<u8>>> = Vec::new();
        if req.is_write() {
            match self.sync_method {
                SyncMethod::Changes => {
                    change = doc.last_change();
                },
                SyncMethod::Messages => {
                    let mut p: usize = 0;
                    while p < self.peers.len()
                        invariant
                            p <= self.peers@.len(),
                            generated@.len() == p,
                            doc.peer_count() == self.peers@.len(),
                            doc.entries() == applied,
                            doc.is_list() == list_doc,
                        decreases self.peers@.len() - p,
                    {
                        generated.push(doc.generate_sync(p));
                        p = p + 1;
                    }
                },
            }
        }
        let ghost g = generated@;
        let ghost c = change;
        let ghost rd = text_view(read);
        let sends = self.on_request(src, req, read, change, generated);
        let ghost gg = if req@.is_write() && self.sync_method == SyncMethod::Messages {
            g
        } else {
            Seq::new(self.peers@.len(), |i: int| None)
        };
        assert(sends_view(sends@) == request_sends(*self, src, req@, rd, c, gg));
        Ok(sends)
    }

    /// Handles a sync message from `src`: applies it to the sync state kept
    /// for that peer, then replies with what the engine generates back, if
    /// anything. A sender that is not a peer is refused.
    pub fn handle_sync_message(&self, doc: &mut Document, src: usize, bytes: &Vec<u8>) -> (r: Result<
        Vec<(usize, Msg)>,
        EngineError,
    >)
        requires
            old(doc).peer_count() == self.peers@.len(),
        ensures
            final(doc).peer_count() == old(doc).peer_count(),
            r == Err::<Vec<(usize, Msg)>, EngineError>(EngineError::UnknownPeer) <==> !self.peers@.contains(src),
            r matches Ok(sends) ==> exists|reply: Option<Vec<u8>>|
                sends_view(sends@) == #[trigger] sync_sends(seq![src], seq![reply]),
            final(doc).is_list() == old(doc).is_list(),
            r == Err::<Vec<(usize, Msg)>, EngineError>(EngineError::Malformed) <==> (self.peers@.contains(src)
                && !sync_decodes(bytes@)),
            r matches Err(e) ==> e == EngineError::UnknownPeer || e == EngineError::Malformed || e
                == EngineError::Refused,
    {
        match self.peer_index(src) {
            None => {
                assert(!self.peers@.contains(src));
                Err(EngineError::UnknownPeer)
            },
            Some(p) => {
                assert(self.peers@.contains(src));
                match doc.receive_sync(p, bytes) {
                    Ok(()) => {},
                    Err(e) => {
                        return Err(e);
                    },
                }
                let reply = doc.generate_sync(p);
                Ok(self.reply_sync(src, reply))
            },
        }
    }

    /// Handles any delivery to this replica: a request, a peer's sync message
    /// or an exported change. Acknowledgements are not for replicas and are
    /// ignored.
    pub fn handle(&self, doc: &mut Document, src: usize, msg: &Msg) -> (r: Result<
        Vec<(usize, Msg)>,
        EngineError,
    >)
        requires
            old(doc).peer_count() == self.peers@.len(),
        ensures
            final(doc).peer_count() == old(doc).peer_count(),
            r matches Ok(sends) ==> match msg@ {
                MsgView::Request(req) => exists|
                    read: Option<Seq<char>>,
                    change: Option<Vec<u8>>,
                    generated: Seq<Option<Vec<u8>>>,
                |
                    {
                        &&& generated.len() == self.peers@.len()
                        &&& req.is_write() ==> read is None
                        &&& req matches RequestView::Get(_, k) ==> read == lookup(old(doc).entries(), k)
                        &&& sends_view(sends@) == request_sends(*self, src, req, read, change, generated)
                    },
                MsgView::SyncMessage(_) => exists|reply: Option<Vec<u8>>|
                    sends_view(sends@) == #[trigger] sync_sends(seq![src], seq![reply]),
                _ => sends@.len() == 0,
            },
            (msg@ is SyncMessage && !self.peers@.contains(src)) ==> r == Err::<
                Vec<(usize, Msg)>,
                EngineError,
            >(EngineError::UnknownPeer),
            msg@ is Response ==> r is Ok,
            final(doc).is_list() == old(doc).is_list(),
            msg@ matches MsgView::Request(req) ==> (req is Put || req is DeleteMap || req is Get ==> r is Ok),
            msg@ matches MsgView::Request(req) ==> (r == Err::<Vec<(usize, Msg)>, EngineError>(
                EngineError::NotAList) <==> (req.is_list_request() && !old(doc).is_list())),
            msg@ matches MsgView::Request(req) ==> (req matches RequestView::Put(_, k, v) ==> final(doc).entries()
                == old(doc).entries().insert(k, v)),
            msg@ matches MsgView::Request(req) ==> (req matches RequestView::DeleteMap(_, k) ==> final(doc).entries()
                == old(doc).entries().remove(k)),
            msg@ matches MsgView::SyncMessage(b) ==> (r == Err::<Vec<(usize, Msg)>, EngineError>(
                EngineError::Malformed) <==> (self.peers@.contains(src) && !sync_decodes(b))),
            msg@ matches MsgView::SyncChange(b) ==> (r == Err::<Vec<(usize, Msg)>, EngineError>(
                EngineError::Malformed) <==> !change_decodes(b)),
    {
        match msg {
            Msg::Client(ClientMsg::Request(req)) => self.handle_request(doc, src, req),
            Msg::Internal(InternalMsg::SyncMessage(bytes)) => self.handle_sync_message(doc, src, bytes),
            Msg::Internal(InternalMsg::SyncChange(bytes)) => {
                doc.apply_change(bytes)?;
                Ok(Vec::new())
            },
            Msg::Client(ClientMsg::Response(_)) => Ok(Vec::new()),
        }
    }
}

} // verus!
