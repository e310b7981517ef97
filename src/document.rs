//! A replica's document: an automerge document, the list object that list
//! requests address, and one sync state per peer. The engine is opaque here;
//! each call into it goes through one of the small trusted functions below.
use vstd::prelude::*;
use automerge::sync::SyncDoc;
use automerge::transaction::Transactable;
use automerge::ReadDoc;
use crate::message::{Request, RequestView};
use crate::replica::text_view;
use crate::model::ObjectType;

verus! {

#[verifier::external_type_specification]
#[verifier::external_body]
pub struct ExAutoCommit(automerge::AutoCommit);

#[verifier::external_type_specification]
#[verifier::external_body]
pub struct ExObjId(automerge::ObjId);

#[verifier::external_type_specification]
#[verifier::external_body]
pub struct ExSyncState(automerge::sync::State);

#[verifier::external_type_specification]
#[verifier::external_body]
pub struct ExSyncMessage(automerge::sync::Message);

#[verifier::external_type_specification]
#[verifier::external_body]
pub struct ExChange(automerge::Change);

#[verifier::external_type_specification]
#[verifier::external_body]
pub struct ExAutomergeError(automerge::AutomergeError);

#[verifier::external_type_specification]
#[verifier::external_body]
pub struct ExLoadChangeError(automerge::LoadChangeError);

#[verifier::external_type_specification]
#[verifier::external_body]
pub struct ExReadMessageError(automerge::sync::ReadMessageError);

/// The string-valued entries of a document's root map: each key whose
/// current value is a string, with that string.
pub uninterp spec fn root_entries(d: automerge::AutoCommit) -> Map<Seq<char>, Seq<char>>;

/// Whether bytes decode as one automerge change.
pub uninterp spec fn change_decodes(b: Seq<u8>) -> bool;

/// Whether bytes decode as one automerge sync message.
pub uninterp spec fn sync_decodes(b: Seq<u8>) -> bool;

/// The encoding of the latest change made by a document's own actor, if any.
pub uninterp spec fn last_local_change(d: automerge::AutoCommit) -> Option<Seq<u8>>;

/// The encoding of the sync message that a document generates for the peer
/// of a sync state, if it has anything new for it.
pub uninterp spec fn next_sync_message(d: automerge::AutoCommit, s: automerge::sync::State) -> Option<Seq<u8>>;

/// Optional bytes as an optional byte sequence.
pub open spec fn bytes_view(b: Option<Vec<u8>>) -> Option<Seq<u8>> {
    match b {
        Some(v) => Some(v@),
        None => None,
    }
}

/// A root map with no string entries.
pub open spec fn no_entries() -> Map<Seq<char>, Seq<char>> {
    Map::empty()
}

/// What a map holds under a key, if anything.
pub open spec fn lookup(m: Map<Seq<char>, Seq<char>>, k: Seq<char>) -> Option<Seq<char>> {
    if m.contains_key(k) {
        Some(m[k])
    } else {
        None
    }
}

/// Where a value sits: under a key of the root map, or at an index of a list.
pub enum Place {
    Key(String),
    Index(usize),
}

/// Why a replica could not handle a delivery.
#[derive(Clone, Copy, Debug, PartialEq, Eq, Hash)]
pub enum EngineError {
    /// A synchronisation payload that does not decode.
    Malformed,
    /// The document engine refused an operation.
    Refused,
    /// A sync message from a replica that is not a peer.
    UnknownPeer,
    /// A list request on a map document.
    NotAList,
}

/// Relies on `AutoCommit::new`: a document with nothing in it.
#[verifier::external_body]
fn empty_engine() -> (r: automerge::AutoCommit)
    ensures
        root_entries(r) == no_entries(),
{
    automerge::AutoCommit::new()
}

/// Relies on `AutoCommit::with_actor` (with `ActorId::from` on the bytes):
/// the same document, making its changes as the given actor.
#[verifier::external_body]
fn engine_with_actor(doc: automerge::AutoCommit, actor: &Vec<u8>) -> (r: automerge::AutoCommit)
    ensures
        root_entries(r) == root_entries(doc),
{
    doc.with_actor(automerge::ActorId::from(actor.clone()))
}

/// Relies on `AutoCommit::fork`: a copy of the document, under a new actor.
#[verifier::external_body]
fn engine_fork(doc: &mut automerge::AutoCommit) -> (r: automerge::AutoCommit)
    ensures
        root_entries(r) == root_entries(*old(doc)),
        root_entries(*final(doc)) == root_entries(*old(doc)),
{
    doc.fork()
}

/// Relies on automerge's `Transactable::put_object` on the root map: a new
/// list under a string key always succeeds, and the key then holds no string.
#[verifier::external_body]
fn engine_put_list(doc: &mut automerge::AutoCommit, key: &String) -> (r: Result<
    automerge::ObjId,
    automerge::AutomergeError,
>)
    ensures
        r is Ok,
        root_entries(*final(doc)) == root_entries(*old(doc)).remove(key@),
{
    doc.put_object(automerge::ROOT, key.as_str(), automerge::ObjType::List)
}

/// Relies on `sync::State::new`: the sync state for a peer not yet heard from.
#[verifier::external_body]
fn new_sync_state() -> automerge::sync::State {
    automerge::sync::State::new()
}

/// Relies on `automerge::ROOT`: the id of a document's root map.
#[verifier::external_body]
fn root_obj() -> automerge::ObjId {
    automerge::ROOT
}

/// Relies on automerge's `Transactable::put` on the root map: a string value
/// under a string key always succeeds and replaces what the key held.
#[verifier::external_body]
fn engine_put(doc: &mut automerge::AutoCommit, key: &String, value: &String) -> (r: Result<
    (),
    automerge::AutomergeError,
>)
    ensures
        r is Ok,
        root_entries(*final(doc)) == root_entries(*old(doc)).insert(key@, value@),
{
    doc.put(automerge::ROOT, key.as_str(), value.as_str())
}

/// Relies on automerge's `Transactable::insert`: inserts a string into a
/// list; the root map's entries stay as they are.
#[verifier::external_body]
fn engine_insert(
    doc: &mut automerge::AutoCommit,
    list: &automerge::ObjId,
    index: usize,
    value: &String,
) -> (r: Result<(), automerge::AutomergeError>)
    ensures
        root_entries(*final(doc)) == root_entries(*old(doc)),
{
    doc.insert(list, index, value.as_str())
}

/// Relies on automerge's `Transactable::delete`: removes a key of the root
/// map (always successful), or an element of `list`, which leaves the root
/// map's entries as they are.
#[verifier::external_body]
fn engine_delete(doc: &mut automerge::AutoCommit, list: &automerge::ObjId, place: &Place) -> (r: Result<
    (),
    automerge::AutomergeError,
>)
    ensures
        place matches Place::Key(k) ==> r is Ok && root_entries(*final(doc)) == root_entries(*old(doc)).remove(k@),
        place is Index ==> root_entries(*final(doc)) == root_entries(*old(doc)),
{
    match place {
        Place::Key(k) => doc.delete(automerge::ROOT, k.as_str()),
        Place::Index(i) => doc.delete(list, *i),
    }
}

/// Relies on automerge's `ReadDoc::get` and `Value::as_str`: the string
/// under a key of the root map (always successful) or at an index of `list`.
#[verifier::external_body]
fn engine_get(doc: &automerge::AutoCommit, list: &automerge::ObjId, place: &Place) -> (r: Result<
    Option<String>,
    automerge::AutomergeError,
>)
    ensures
        place matches Place::Key(k) ==> r is Ok && text_view(r->Ok_0) == lookup(root_entries(*doc), k@),
{
    let found = match place {
        Place::Key(k) => doc.get(automerge::ROOT, k.as_str()),
        Place::Index(i) => doc.get(list, *i),
    };
    found.map(|v| v.and_then(|(v, _)| v.as_str().map(|s| s.to_string())))
}

/// Relies on automerge's `ReadDoc::length`: the number of elements of a list.
#[verifier::external_body]
fn engine_length(doc: &automerge::AutoCommit, obj: &automerge::ObjId) -> usize {
    doc.length(obj)
}

/// Relies on automerge's `AutoCommit::get_last_local_change` and
/// `Change::raw_bytes`: the encoded latest change of this document's actor.
/// Closing the pending transaction leaves the entries as they are.
#[verifier::external_body]
fn engine_last_change(doc: &mut automerge::AutoCommit) -> (r: Option<Vec<u8>>)
    ensures
        bytes_view(r) == last_local_change(*old(doc)),
        root_entries(*final(doc)) == root_entries(*old(doc)),
{
    doc.get_last_local_change().map(|c| c.raw_bytes().to_vec())
}

/// Relies on automerge's `Change::from_bytes`: decodes one change.
#[verifier::external_body]
fn change_from_bytes(bytes: &Vec<u8>) -> (r: Result<automerge::Change, automerge::LoadChangeError>)
    ensures
        r is Ok <==> change_decodes(bytes@),
{
    automerge::Change::from_bytes(bytes.clone())
}

/// Relies on automerge's `AutoCommit::apply_changes`: merges one change.
#[verifier::external_body]
fn engine_apply_change(
    doc: &mut automerge::AutoCommit,
    change: automerge::Change,
) -> Result<(), automerge::AutomergeError> {
    doc.apply_changes(vec![change])
}

/// Relies on automerge's `SyncDoc::generate_sync_message` and
/// `sync::Message::encode`: the next message for the peer of `state`, or
/// `None` when there is nothing new to send. The entries stay as they are.
#[verifier::external_body]
fn engine_generate_sync(
    doc: &mut automerge::AutoCommit,
    state: &mut automerge::sync::State,
) -> (r: Option<Vec<u8>>)
    ensures
        bytes_view(r) == next_sync_message(*old(doc), *old(state)),
        root_entries(*final(doc)) == root_entries(*old(doc)),
{
    doc.sync().generate_sync_message(state).map(|m| m.encode())
}

/// Relies on automerge's `SyncDoc::receive_sync_message`: applies a peer's message.
#[verifier::external_body]
fn engine_receive_sync(
    doc: &mut automerge::AutoCommit,
    state: &mut automerge::sync::State,
    message: automerge::sync::Message,
) -> Result<(), automerge::AutomergeError> {
    doc.sync().receive_sync_message(state, message)
}

/// Relies on automerge's `sync::Message::decode`: decodes one sync message.
#[verifier::external_body]
fn sync_message_from_bytes(bytes: &Vec<u8>) -> (r: Result<
    automerge::sync::Message,
    automerge::sync::ReadMessageError,
>)
    ensures
        r is Ok <==> sync_decodes(bytes@),
{
    automerge::sync::Message::decode(bytes.as_slice())
}

/// One replica's document with its sync state for each peer, in the order of
/// the replica's peers.
#[derive(Debug)]
pub struct Document {
    doc: automerge::AutoCommit,
    list: Option<automerge::ObjId>,
    peer_sync: Vec<automerge::sync::State>,
}

impl Document {
    /// How many peers the document keeps a sync state for.
    pub closed spec fn peer_count(&self) -> nat {
        self.peer_sync@.len()
    }

    /// Whether this is a list document, with a list that list requests address.
    pub closed spec fn is_list(&self) -> bool {
        self.list is Some
    }

    /// The string-valued entries of the root map.
    pub closed spec fn entries(&self) -> Map<Seq<char>, Seq<char>> {
        root_entries(self.doc)
    }

    /// The encoded latest change of this document's own actor, if any.
    pub closed spec fn last_local(&self) -> Option<Seq<u8>> {
        last_local_change(self.doc)
    }

    /// The sync message the document would generate now for peer `p`.
    pub closed spec fn sync_message_for(&self, p: int) -> Option<Seq<u8>> {
        next_sync_message(self.doc, self.peer_sync@[p])
    }

    /// A document over `doc`, holding list requests to `list` where it is a
    /// list document, with one sync state per peer.
    pub fn new(
        doc: automerge::AutoCommit,
        list: Option<automerge::ObjId>,
        peer_sync: Vec<automerge::sync::State>,
    ) -> (r: Document)
        ensures
            r.peer_count() == peer_sync@.len(),
            r.is_list() == list is Some,
            r.entries() == root_entries(doc),
    {
        Document { doc, list, peer_sync }
    }

    /// The empty document of replica `id`, with `peers` peers, of the given
    /// kind. A list document starts from one list, made under a shared base
    /// actor and under the key `list`, so that every replica's list is the
    /// same object; each replica then makes its changes under an actor of
    /// its own (its id in eight bytes).
    pub fn fresh(id: usize, peers: usize, object_type: ObjectType) -> (r: Document)
        ensures
            r.entries() == no_entries(),
            r.is_list() == (object_type == ObjectType::List),
            r.peer_count() == peers,
    {
        let mut base = engine_with_actor(empty_engine(), &vec![0xffu8]);
        let list = match object_type {
            ObjectType::KeyMap => None,
            ObjectType::List => match engine_put_list(&mut base, &String::from_str("list")) {
                Ok(l) => Some(l),
                Err(_) => None,
            },
        };
        let mut actor: Vec<u8> = Vec::new();
        let mut rest: usize = id;
        let mut k: usize = 0;
        while k < 8
            invariant
                k <= 8,
            decreases 8 - k,
        {
            actor.push((rest % 256) as u8);
            rest = rest / 256;
            k = k + 1;
        }
        let doc = engine_with_actor(engine_fork(&mut base), &actor);
        let mut peer_sync: Vec<automerge::sync::State> = Vec::new();
        let mut p: usize = 0;
        while p < peers
            invariant
                p <= peers,
                peer_sync@.len() == p,
            decreases peers - p,
        {
            peer_sync.push(new_sync_state());
            p = p + 1;
        }
        assert(root_entries(doc) =~= no_entries());
        Document { doc, list, peer_sync }
    }

    /// The automerge document.
    pub fn engine(&self) -> &automerge::AutoCommit {
        &self.doc
    }

    /// The list object that list requests address, in a list document.
    pub fn list_object(&self) -> &Option<automerge::ObjId> {
        &self.list
    }

    /// The sync state kept for each peer.
    pub fn sync_states(&self) -> &Vec<automerge::sync::State> {
        &self.peer_sync
    }

    /// Applies a request. A write changes the document; a read returns what
    /// it found. Map requests always succeed: a put sets the key, a delete
    /// removes it (an absent key stays absent), a read finds what the key
    /// holds. On a list document an insertion past the end appends, and a
    /// deletion or read past the end finds nothing; on a map document a list
    /// request is refused.
    pub fn apply(&mut self, req: &Request) -> (r: Result<Option<String>, EngineError>)
        ensures
            final(self).peer_count() == old(self).peer_count(),
            final(self).is_list() == old(self).is_list(),
            r matches Ok(found) ==> (req@.is_write() ==> found is None),
            req@ matches RequestView::Put(_, k, v) ==> r matches Ok(None) && final(self).entries()
                == old(self).entries().insert(k, v),
            req@ matches RequestView::DeleteMap(_, k) ==> r matches Ok(None)
                && final(self).entries() == old(self).entries().remove(k),
            req@ matches RequestView::Get(_, k) ==> r matches Ok(found) && text_view(found)
                == lookup(old(self).entries(), k) && final(self).entries() == old(self).entries(),
            req@.is_list_request() ==> final(self).entries() == old(self).entries(),
            r == Err::<Option<String>, EngineError>(EngineError::NotAList) <==> (
            req@.is_list_request() && !old(self).is_list()),
            r matches Err(e) ==> e == EngineError::Refused || e == EngineError::NotAList,
    {
        let root = root_obj();
        let done = match req {
            Request::Put(_, k, v) => engine_put(&mut self.doc, k, v),
            Request::DeleteMap(_, k) => engine_delete(&mut self.doc, &root, &Place::Key(k.clone())),
            Request::Get(_, k) => {
                return match engine_get(&self.doc, &root, &Place::Key(k.clone())) {
                    Ok(found) => Ok(found),
                    Err(_) => Err(EngineError::Refused),
                };
            },
            Request::Insert(_, i, v) => {
                let list = match &self.list {
                    Some(l) => l,
                    None => {
                        return Err(EngineError::NotAList);
                    },
                };
                let len = engine_length(&self.doc, list);
                let at = if *i < len {
                    *i
                } else {
                    len
                };
                engine_insert(&mut self.doc, list, at, v)
            },
            Request::DeleteList(_, i) => {
                let list = match &self.list {
                    Some(l) => l,
                    None => {
                        return Err(EngineError::NotAList);
                    },
                };
                if *i < engine_length(&self.doc, list) {
                    engine_delete(&mut self.doc, list, &Place::Index(*i))
                } else {
                    Ok(())
                }
            },
            Request::GetList(_, i) => {
                let list = match &self.list {
                    Some(l) => l,
                    None => {
                        return Err(EngineError::NotAList);
                    },
                };
                if *i < engine_length(&self.doc, list) {
                    return match engine_get(&self.doc, list, &Place::Index(*i)) {
                        Ok(found) => Ok(found),
                        Err(_) => Err(EngineError::Refused),
                    };
                }
                return Ok(None);
            },
        };
        match done {
            Ok(()) => Ok(None),
            Err(_) => Err(EngineError::Refused),
        }
    }

    /// The latest local change, encoded, if there is one.
    pub fn last_change(&mut self) -> (r: Option<Vec<u8>>)
        ensures
            bytes_view(r) == old(self).last_local(),
            final(self).peer_count() == old(self).peer_count(),
            final(self).is_list() == old(self).is_list(),
            final(self).entries() == old(self).entries(),
    {
        engine_last_change(&mut self.doc)
    }

    /// Merges an exported change; fails with `Malformed` exactly when the
    /// payload does not decode.
    pub fn apply_change(&mut self, bytes: &Vec<u8>) -> (r: Result<(), EngineError>)
        ensures
            final(self).peer_count() == old(self).peer_count(),
            final(self).is_list() == old(self).is_list(),
            r == Err::<(), EngineError>(EngineError::Malformed) <==> !change_decodes(bytes@),
            r matches Err(e) ==> e == EngineError::Malformed || e == EngineError::Refused,
    {
        let change = match change_from_bytes(bytes) {
            Ok(c) => c,
            Err(_) => {
                return Err(EngineError::Malformed);
            },
        };
        match engine_apply_change(&mut self.doc, change) {
            Ok(()) => Ok(()),
            Err(_) => Err(EngineError::Refused),
        }
    }

    /// The next sync message for peer `peer`, encoded, if there is one.
    pub fn generate_sync(&mut self, peer: usize) -> (r: Option<Vec<u8>>)
        requires
            peer < old(self).peer_count(),
        ensures
            bytes_view(r) == old(self).sync_message_for(peer as int),
            final(self).peer_count() == old(self).peer_count(),
            final(self).is_list() == old(self).is_list(),
            final(self).entries() == old(self).entries(),
    {
        let ghost before = self.peer_sync@;
        let mut state = self.peer_sync.remove(peer);
        assert(state == before[peer as int]);
        let message = engine_generate_sync(&mut self.doc, &mut state);
        self.peer_sync.insert(peer, state);
        message
    }

    /// Applies a sync message from peer `peer`; fails with `Malformed`
    /// exactly when the payload does not decode.
    pub fn receive_sync(&mut self, peer: usize, bytes: &Vec<u8>) -> (r: Result<(), EngineError>)
        requires
            peer < old(self).peer_count(),
        ensures
            final(self).peer_count() == old(self).peer_count(),
            final(self).is_list() == old(self).is_list(),
            r == Err::<(), EngineError>(EngineError::Malformed) <==> !sync_decodes(bytes@),
            r matches Err(e) ==> e == EngineError::Malformed || e == EngineError::Refused,
    {
        let message = match sync_message_from_bytes(bytes) {
            Ok(m) => m,
            Err(_) => {
                return Err(EngineError::Malformed);
            },
        };
        let mut state = self.peer_sync.remove(peer);
        let done = engine_receive_sync(&mut self.doc, &mut state, message);
        self.peer_sync.insert(peer, state);
        match done {
            Ok(()) => Ok(()),
            Err(_) => Err(EngineError::Refused),
        }
    }
}

} // verus!
