//! The messages exchanged between clients and replicas.
use vstd::prelude::*;

verus! {

/// Chosen by a client and echoed in the acknowledgement of its request.
pub type RequestId = usize;

/// A client request, addressed to one replica.
#[derive(Clone, Debug, PartialEq, Eq, PartialOrd, Ord, Hash)]
pub enum Request {
    /// Set `key` to `value` in a map document.
    Put(RequestId, String, String),
    /// Read `key` from a map document.
    Get(RequestId, String),
    /// Remove `key` from a map document.
    DeleteMap(RequestId, String),
    /// Insert `value` at `index` in a list document.
    Insert(RequestId, usize, String),
    /// Read the element at `index` of a list document.
    GetList(RequestId, usize),
    /// Remove the element at `index` of a list document.
    DeleteList(RequestId, usize),
}

/// A replica's acknowledgement of a client request.
#[derive(Clone, Debug, PartialEq, Eq, PartialOrd, Ord, Hash)]
pub enum Response {
    PutOk(RequestId),
    GetOk(RequestId, String),
    DeleteOk(RequestId),
    InsertOk(RequestId),
}

/// The client family: requests and their acknowledgements.
#[derive(Clone, Debug, PartialEq, Eq, PartialOrd, Ord, Hash)]
pub enum ClientMsg {
    Request(Request),
    Response(Response),
}

/// The replica-to-replica family; the payloads are opaque to the protocol.
#[derive(Clone, Debug, PartialEq, Eq, PartialOrd, Ord, Hash)]
pub enum InternalMsg {
    /// One round of the incremental two-party sync exchange.
    SyncMessage(Vec<u8>),
    /// One exported change, applied as it is.
    SyncChange(Vec<u8>),
}

/// The envelope shared by every actor of the model.
#[derive(Clone, Debug, PartialEq, Eq, PartialOrd, Ord, Hash)]
pub enum Msg {
    Client(ClientMsg),
    Internal(InternalMsg),
}

/// A request with its texts as character sequences.
pub enum RequestView {
    Put(RequestId, Seq<char>, Seq<char>),
    Get(RequestId, Seq<char>),
    DeleteMap(RequestId, Seq<char>),
    Insert(RequestId, usize, Seq<char>),
    GetList(RequestId, usize),
    DeleteList(RequestId, usize),
}

/// An acknowledgement with its text as a character sequence.
pub enum ResponseView {
    PutOk(RequestId),
    GetOk(RequestId, Seq<char>),
    DeleteOk(RequestId),
    InsertOk(RequestId),
}

/// A message of either family, payloads as byte sequences.
pub enum MsgView {
    Request(RequestView),
    Response(ResponseView),
    SyncMessage(Seq<u8>),
    SyncChange(Seq<u8>),
}

impl View for Request {
    type V = RequestView;

    open spec fn view(&self) -> RequestView {
        match self {
            Request::Put(id, k, v) => RequestView::Put(*id, k@, v@),
            Request::Get(id, k) => RequestView::Get(*id, k@),
            Request::DeleteMap(id, k) => RequestView::DeleteMap(*id, k@),
            Request::Insert(id, i, v) => RequestView::Insert(*id, *i, v@),
            Request::GetList(id, i) => RequestView::GetList(*id, *i),
            Request::DeleteList(id, i) => RequestView::DeleteList(*id, *i),
        }
    }
}

impl View for Response {
    type V = ResponseView;

    open spec fn view(&self) -> ResponseView {
        match self {
            Response::PutOk(id) => ResponseView::PutOk(*id),
            Response::GetOk(id, v) => ResponseView::GetOk(*id, v@),
            Response::DeleteOk(id) => ResponseView::DeleteOk(*id),
            Response::InsertOk(id) => ResponseView::InsertOk(*id),
        }
    }
}

impl View for Msg {
    type V = MsgView;

    open spec fn view(&self) -> MsgView {
        match self {
            Msg::Client(ClientMsg::Request(r)) => MsgView::Request(r@),
            Msg::Client(ClientMsg::Response(r)) => MsgView::Response(r@),
            Msg::Internal(InternalMsg::SyncMessage(b)) => MsgView::SyncMessage(b@),
            Msg::Internal(InternalMsg::SyncChange(b)) => MsgView::SyncChange(b@),
        }
    }
}

impl RequestView {
    /// The id that the request carries.
    pub open spec fn id(self) -> RequestId {
        match self {
            RequestView::Put(id, _, _) => id,
            RequestView::Get(id, _) => id,
            RequestView::DeleteMap(id, _) => id,
            RequestView::Insert(id, _, _) => id,
            RequestView::GetList(id, _) => id,
            RequestView::DeleteList(id, _) => id,
        }
    }

    /// Whether the request addresses a list.
    pub open spec fn is_list_request(self) -> bool {
        self is Insert || self is GetList || self is DeleteList
    }

    /// Whether the request mutates the document.
    pub open spec fn is_write(self) -> bool {
        !(self is Get || self is GetList)
    }
}

impl ResponseView {
    /// The id of the request acknowledged.
    pub open spec fn id(self) -> RequestId {
        match self {
            ResponseView::PutOk(id) => id,
            ResponseView::GetOk(id, _) => id,
            ResponseView::DeleteOk(id) => id,
            ResponseView::InsertOk(id) => id,
        }
    }
}

impl MsgView {
    /// Replica-to-replica synchronisation traffic.
    pub open spec fn is_internal(self) -> bool {
        self is SyncMessage || self is SyncChange
    }
}

impl Request {
    /// The id that the acknowledgement of this request carries.
    pub fn id(&self) -> (r: RequestId)
        ensures
            r == self@.id(),
    {
        match self {
            Request::Put(id, _, _) => *id,
            Request::Get(id, _) => *id,
            Request::DeleteMap(id, _) => *id,
            Request::Insert(id, _, _) => *id,
            Request::GetList(id, _) => *id,
            Request::DeleteList(id, _) => *id,
        }
    }

    /// Whether the request mutates the document (everything but a read).
    pub fn is_write(&self) -> (r: bool)
        ensures
            r == self@.is_write(),
    {
        match self {
            Request::Get(_, _) | Request::GetList(_, _) => false,
            _ => true,
        }
    }
}

impl Response {
    /// The id of the request that this acknowledges.
    pub fn id(&self) -> (r: RequestId)
        ensures
            r == self@.id(),
    {
        match self {
            Response::PutOk(id) => *id,
            Response::GetOk(id, _) => *id,
            Response::DeleteOk(id) => *id,
            Response::InsertOk(id) => *id,
        }
    }
}

impl Msg {
    /// Whether this is replica-to-replica synchronisation traffic.
    pub fn is_internal(&self) -> (r: bool)
        ensures
            r == self@.is_internal(),
    {
        match self {
            Msg::Internal(_) => true,
            Msg::Client(_) => false,
        }
    }
}

} // verus!
