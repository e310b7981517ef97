//! The actor kinds of the model under one dispatcher, and the assembly of
//! the cluster: a full mesh of replicas and the requested clients.
use vstd::prelude::*;
use crate::client::{
    requests_view, ListDeleter, ListInserter, MapSingleDeleter, MapSinglePutter,
};
use crate::message::{ClientMsg, Msg, MsgView, Request, RequestView, Response};
use crate::replica::{sends_view, Replica, SyncMethod};

verus! {

/// The kind of document that the replicas hold.
#[derive(Clone, Copy, Debug, PartialEq, Eq, Hash)]
pub enum ObjectType {
    KeyMap,
    List,
}

/// The client request generators.
#[derive(Clone, Debug, PartialEq, Eq, Hash)]
pub enum Client {
    MapPutter(MapSinglePutter),
    MapDeleter(MapSingleDeleter),
    ListInserter(ListInserter),
    ListDeleter(ListDeleter),
}

/// One actor of the model: a client or a replica, each with its own
/// configuration. A handler only ever sees its own kind's configuration.
#[derive(Clone, Debug, PartialEq, Eq, Hash)]
pub enum ModelActor {
    Client(Client),
    Replica(Replica),
}

impl Client {
    /// The requests sent at startup, each with its recipient.
    pub open spec fn start_requests(self) -> Seq<(usize, RequestView)> {
        match self {
            Client::MapPutter(c) => c.start_requests(),
            Client::MapDeleter(c) => c.start_requests(),
            Client::ListInserter(c) => c.start_requests(),
            Client::ListDeleter(c) => c.start_requests(),
        }
    }

    /// The requests that this client sends at startup.
    pub fn on_start(&self) -> (sends: Vec<(usize, Request)>)
        ensures
            requests_view(sends@) == self.start_requests(),
    {
        match self {
            Client::MapPutter(c) => c.on_start(),
            Client::MapDeleter(c) => c.on_start(),
            Client::ListInserter(c) => c.on_start(),
            Client::ListDeleter(c) => c.on_start(),
        }
    }
}

/// Requests wrapped in the shared envelope.
pub open spec fn as_messages(s: Seq<(usize, RequestView)>) -> Seq<(usize, MsgView)> {
    s.map_values(|p: (usize, RequestView)| (p.0, MsgView::Request(p.1)))
}

/// Whether a message belongs to the family that an actor of this kind
/// handles: clients take acknowledgements, replicas take requests and
/// synchronisation traffic.
pub open spec fn handles(actor: ModelActor, m: MsgView) -> bool {
    match actor {
        ModelActor::Client(_) => m is Response,
        ModelActor::Replica(_) => !(m is Response),
    }
}

impl Client {
    /// The requests that an acknowledgement draws from this client: a
    /// follow-up read after an acknowledged write or deletion, where asked for.
    pub fn on_msg(&self, resp: &Response) -> (sends: Vec<(usize, Request)>)
        ensures
            match self {
                Client::MapPutter(c) => c.on_msg_sends(resp@, sends@),
                Client::ListInserter(c) => c.on_msg_sends(resp@, sends@),
                Client::MapDeleter(c) => c.on_msg_sends(resp@, sends@),
                Client::ListDeleter(c) => c.on_msg_sends(resp@, sends@),
            },
    {
        match self {
            Client::MapPutter(c) => c.on_msg(resp),
            Client::ListInserter(c) => c.on_msg(resp),
            Client::MapDeleter(c) => c.on_msg(resp),
            Client::ListDeleter(c) => c.on_msg(resp),
        }
    }
}

impl ModelActor {
    /// The messages sent at startup: a client's requests; a replica starts
    /// with an empty document and sends nothing.
    pub fn on_start(&self) -> (sends: Vec<(usize, Msg)>)
        ensures
            sends_view(sends@) == match self {
                ModelActor::Client(c) => as_messages(c.start_requests()),
                ModelActor::Replica(_) => seq![],
            },
    {
        let mut sends: Vec<(usize, Msg)> = Vec::new();
        match self {
            ModelActor::Client(c) => {
                let mut reqs = c.on_start();
                let ghost all = as_messages(c.start_requests());
                while reqs.len() > 0
                    invariant
                        all == sends_view(sends@) + as_messages(requests_view(reqs@)),
                    decreases reqs@.len(),
                {
                    let ghost rest = reqs@;
                    let (dst, req) = reqs.remove(0);
                    sends.push((dst, Msg::Client(ClientMsg::Request(req))));
                    assert(as_messages(requests_view(rest)) =~= seq![(dst, MsgView::Request(req@))]
                        + as_messages(requests_view(reqs@)));
                    assert(all =~= sends_view(sends@) + as_messages(requests_view(reqs@)));
                }
                assert(all =~= sends_view(sends@));
            },
            ModelActor::Replica(_) => {
                assert(sends_view(sends@) =~= seq![]);
            },
        }
        sends
    }

    /// Whether a delivered message reaches this actor's handler. A message of
    /// the other family is dropped without effect.
    pub fn handles(&self, m: &Msg) -> (r: bool)
        ensures
            r == handles(*self, m@),
    {
        let is_response = match m {
            Msg::Client(ClientMsg::Response(_)) => true,
            _ => false,
        };
        match self {
            ModelActor::Client(_) => is_response,
            ModelActor::Replica(_) => !is_response,
        }
    }
}

/// The peers of replica `me` in a full mesh of `n`: every other replica, in
/// order of id.
pub open spec fn peers_of(n: nat, me: nat) -> Seq<usize> {
    Seq::new((n - 1) as nat, |k: int| (if k < me { k } else { k + 1 }) as usize)
}

fn peer_ids(n: usize, me: usize) -> (r: Vec<usize>)
    requires
        me < n,
    ensures
        r@ == peers_of(n as nat, me as nat),
{
    let mut r: Vec<usize> = Vec::new();
    let mut j: usize = 0;
    while j < n
        invariant
            me < n,
            j <= n,
            r@.len() == if j <= me { j as int } else { j - 1 },
            forall|k: int| 0 <= k < r@.len() ==> r@[k] == (if k < me { k } else { k + 1 }),
        decreases n - j,
    {
        if j != me {
            r.push(j);
        }
        j = j + 1;
    }
    assert(r@ =~= peers_of(n as nat, me as nat));
    r
}

fn texts_copy(v: &Vec<String>) -> (r: Vec<String>)
    ensures
        r@.len() == v@.len(),
        forall|i: int| 0 <= i < v@.len() ==> #[trigger] r@[i]@ == v@[i]@,
{
    let mut r: Vec<String> = Vec::new();
    let mut i: usize = 0;
    while i < v.len()
        invariant
            i <= v@.len(),
            r@.len() == i,
            forall|j: int| 0 <= j < i ==> #[trigger] r@[j]@ == v@[j]@,
        decreases v@.len() - i,
    {
        r.push(v[i].clone());
        i = i + 1;
    }
    r
}

/// The configuration of one run: how many actors of each kind, the
/// synchronisation strategy, the acknowledgement policy and the document
/// kind, with what the clients write.
///
/// A run checks one kind of document, so the document kind picks the
/// writing clients: `put_clients` putters on a map, `insert_clients`
/// inserters on a list. The other count is left unused, because its
/// requests would address a list that a map document lacks (refused by the
/// replica) or keys beside the list under test (not what the run checks).
pub struct ModelBuilder {
    pub put_clients: usize,
    pub delete_clients: usize,
    pub insert_clients: usize,
    pub servers: usize,
    pub sync_method: SyncMethod,
    pub message_acks: bool,
    pub object_type: ObjectType,
    /// Clients read back what they wrote once it is acknowledged.
    pub follow_up_gets: bool,
    /// The map key that map clients write and delete.
    pub key: String,
    /// The list index that list clients insert at and delete.
    pub index: usize,
    /// What each writing client writes, in order.
    pub values: Vec<String>,
    /// How many deletions each deleting client sends.
    pub delete_count: usize,
}

impl ModelBuilder {
    /// Whether `r` is replica `i` of this configuration.
    pub open spec fn is_replica(self, r: Replica, i: nat) -> bool {
        &&& r.id == i
        &&& r.peers@ == peers_of(self.servers as nat, i)
        &&& r.sync_method == self.sync_method
        &&& r.message_acks == self.message_acks
    }

    /// The writing clients of this configuration: putters on a map, inserters
    /// on a list.
    pub open spec fn is_writer(self, c: Client) -> bool {
        match self.object_type {
            ObjectType::KeyMap => c matches Client::MapPutter(p) && p.key@ == self.key@
                && p.values@.len() == self.values@.len()
                && (forall|i: int| 0 <= i < self.values@.len() ==> #[trigger] p.values@[i]@ == self.values@[i]@)
                && p.follow_up_gets == self.follow_up_gets,
            ObjectType::List => c matches Client::ListInserter(p) && p.index == self.index
                && p.values@.len() == self.values@.len()
                && (forall|i: int| 0 <= i < self.values@.len() ==> #[trigger] p.values@[i]@ == self.values@[i]@)
                && p.follow_up_gets == self.follow_up_gets,
        }
    }

    /// The deleting clients of this configuration.
    pub open spec fn is_deleter(self, c: Client) -> bool {
        match self.object_type {
            ObjectType::KeyMap => c matches Client::MapDeleter(d) && d.key@ == self.key@
                && d.request_count == self.delete_count && d.follow_up_gets == self.follow_up_gets,
            ObjectType::List => c matches Client::ListDeleter(d) && d.index == self.index
                && d.request_count == self.delete_count && d.follow_up_gets == self.follow_up_gets,
        }
    }

    /// How many writing clients the document kind asks for.
    pub open spec fn writers(self) -> nat {
        match self.object_type {
            ObjectType::KeyMap => self.put_clients as nat,
            ObjectType::List => self.insert_clients as nat,
        }
    }

    /// Replica `i` has id `i` and every other replica as a peer.
    pub fn replica(&self, i: usize) -> (r: Replica)
        requires
            i < self.servers,
        ensures
            self.is_replica(r, i as nat),
    {
        Replica {
            id: i,
            peers: peer_ids(self.servers, i),
            sync_method: self.sync_method,
            message_acks: self.message_acks,
        }
    }

    /// All actors of the run: the replicas, with ids `0..servers` in a full
    /// mesh, then the writing clients of the document kind, then the
    /// deleting clients.
    pub fn actors(&self) -> (actors: Vec<ModelActor>)
        ensures
            actors@.len() == self.servers + self.writers() + self.delete_clients,
            forall|i: int|
                0 <= i < self.servers ==> (#[trigger] actors@[i] matches ModelActor::Replica(r)
                    && self.is_replica(r, i as nat)),
            forall|i: int|
                self.servers <= i < self.servers + self.writers() ==> (
                #[trigger] actors@[i] matches ModelActor::Client(c) && self.is_writer(c)),
            forall|i: int|
                self.servers + self.writers() <= i < actors@.len() ==> (
                #[trigger] actors@[i] matches ModelActor::Client(c) && self.is_deleter(c)),
    {
        let mut actors: Vec<ModelActor> = Vec::new();
        let mut i: usize = 0;
        while i < self.servers
            invariant
                i <= self.servers,
                actors@.len() == i,
                forall|j: int|
                    0 <= j < i ==> (#[trigger] actors@[j] matches ModelActor::Replica(r)
                        && self.is_replica(r, j as nat)),
            decreases self.servers - i,
        {
            actors.push(ModelActor::Replica(self.replica(i)));
            i = i + 1;
        }
        let writers: usize = match self.object_type {
            ObjectType::KeyMap => self.put_clients,
            ObjectType::List => self.insert_clients,
        };
        let mut w: usize = 0;
        while w < writers
            invariant
                writers == self.writers(),
                w <= writers,
                actors@.len() == self.servers + w,
                forall|j: int|
                    0 <= j < self.servers ==> (#[trigger] actors@[j] matches ModelActor::Replica(r)
                        && self.is_replica(r, j as nat)),
                forall|j: int|
                    self.servers <= j < actors@.len() ==> (#[trigger] actors@[j] matches ModelActor::Client(c)
                        && self.is_writer(c)),
            decreases writers - w,
        {
            let c = match self.object_type {
                ObjectType::KeyMap => Client::MapPutter(
                    MapSinglePutter {
                        key: self.key.clone(),
                        values: texts_copy(&self.values),
                        follow_up_gets: self.follow_up_gets,
                    },
                ),
                ObjectType::List => Client::ListInserter(
                    ListInserter {
                        index: self.index,
                        values: texts_copy(&self.values),
                        follow_up_gets: self.follow_up_gets,
                    },
                ),
            };
            actors.push(ModelActor::Client(c));
            w = w + 1;
        }
        let mut d: usize = 0;
        while d < self.delete_clients
            invariant
                writers == self.writers(),
                d <= self.delete_clients,
                actors@.len() == self.servers + writers + d,
                forall|j: int|
                    0 <= j < self.servers ==> (#[trigger] actors@[j] matches ModelActor::Replica(r)
                        && self.is_replica(r, j as nat)),
                forall|j: int|
                    self.servers <= j < self.servers + writers ==> (
                    #[trigger] actors@[j] matches ModelActor::Client(c) && self.is_writer(c)),
                forall|j: int|
                    self.servers + writers <= j < actors@.len() ==> (
                    #[trigger] actors@[j] matches ModelActor::Client(c) && self.is_deleter(c)),
            decreases self.delete_clients - d,
        {
            let c = match self.object_type {
                ObjectType::KeyMap => Client::MapDeleter(
                    MapSingleDeleter {
                        key: self.key.clone(),
                        request_count: self.delete_count,
                        follow_up_gets: self.follow_up_gets,
                    },
                ),
                ObjectType::List => Client::ListDeleter(
                    ListDeleter {
                        index: self.index,
                        request_count: self.delete_count,
                        follow_up_gets: self.follow_up_gets,
                    },
                ),
            };
            actors.push(ModelActor::Client(c));
            d = d + 1;
        }
        actors
    }
}

} // verus!
