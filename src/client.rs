//! Client actors: bounded request generators, stateless beyond their
//! configuration.
use vstd::prelude::*;
use crate::message::{Request, RequestView, Response, ResponseView};

verus! {

/// Every client addresses the first replica.
pub const TARGET_REPLICA: usize = 0;

/// A client strategy that just deletes a single key in a map.
#[derive(Clone, Debug, PartialEq, Eq, Hash)]
pub struct MapSingleDeleter {
    pub key: String,
    pub request_count: usize,
    /// Read the key back once a deletion is acknowledged.
    pub follow_up_gets: bool,
}

/// A client strategy that just deletes the first element in a list.
#[derive(Clone, Debug, PartialEq, Eq, Hash)]
pub struct ListDeleter {
    pub index: usize,
    pub request_count: usize,
    /// Read the index back once a deletion is acknowledged.
    pub follow_up_gets: bool,
}

/// A client strategy that writes each of `values` in turn to one key of a map.
#[derive(Clone, Debug, PartialEq, Eq, Hash)]
pub struct MapSinglePutter {
    pub key: String,
    pub values: Vec<String>,
    /// Read the key back once a write is acknowledged.
    pub follow_up_gets: bool,
}

/// A client strategy that inserts each of `values` in turn at one index of a list.
#[derive(Clone, Debug, PartialEq, Eq, Hash)]
pub struct ListInserter {
    pub index: usize,
    pub values: Vec<String>,
    /// Read the index back once an insert is acknowledged.
    pub follow_up_gets: bool,
}

/// The requests of a list of sends, each with its recipient.
pub open spec fn requests_view(s: Seq<(usize, Request)>) -> Seq<(usize, RequestView)> {
    s.map_values(|p: (usize, Request)| (p.0, p.1@))
}

impl MapSingleDeleter {
    /// What `on_msg` sends on `resp`: with follow-up reads on, the
    /// acknowledgement of deletion `id` (one that this client sent, and whose
    /// read number fits) draws a read numbered `id` past the deletions, to the
    /// target replica; anything else draws nothing.
    pub open spec fn on_msg_sends(self, resp: ResponseView, sends: Seq<(usize, Request)>) -> bool {
        let n = self.request_count as nat;
        match resp {
            ResponseView::DeleteOk(id) => if self.follow_up_gets && id < n && n + id <= usize::MAX {
                sends =~= seq![(TARGET_REPLICA, sends[0].1)] && sends[0].1@
                    == RequestView::Get((n + id) as usize, self.key@)
            } else {
                sends.len() == 0
            },
            _ => sends.len() == 0,
        }
    }

    /// The requests sent at startup, each with its recipient.
    pub open spec fn start_requests(self) -> Seq<(usize, RequestView)> {
        Seq::new(self.request_count as nat, |i: int| (TARGET_REPLICA, RequestView::DeleteMap(i as usize, self.key@)))
    }

    /// The requests sent at startup: `request_count` deletions of `key`,
    /// numbered from zero, all to the target replica.
    pub fn on_start(&self) -> (sends: Vec<(usize, Request)>)
        ensures
            requests_view(sends@) == self.start_requests(),
            sends@.len() == self.request_count,
            forall|i: int|
                0 <= i < sends@.len() ==> sends@[i].0 == TARGET_REPLICA && sends@[i].1@
                    == RequestView::DeleteMap(i as usize, self.key@),
    {
        let mut sends: Vec<(usize, Request)> = Vec::new();
        let mut i: usize = 0;
        while i < self.request_count
            invariant
                i <= self.request_count,
                sends@.len() == i,
                forall|j: int|
                    0 <= j < i ==> sends@[j].0 == TARGET_REPLICA && sends@[j].1@
                        == RequestView::DeleteMap(j as usize, self.key@),
            decreases self.request_count - i,
        {
            sends.push((TARGET_REPLICA, Request::DeleteMap(i, self.key.clone())));
            i = i + 1;
        }
        assert(requests_view(sends@) =~= self.start_requests());
        sends
    }

    /// The reaction to an acknowledgement: see `on_msg_sends`.
    pub fn on_msg(&self, resp: &Response) -> (sends: Vec<(usize, Request)>)
        ensures
            self.on_msg_sends(resp@, sends@),
    {
        let mut sends: Vec<(usize, Request)> = Vec::new();
        match resp {
            Response::DeleteOk(id) => {
                if self.follow_up_gets && *id < self.request_count && *id <= usize::MAX - self.request_count {
                    sends.push((TARGET_REPLICA, Request::Get(self.request_count + *id, self.key.clone())));
                }
            },
            _ => {},
        }
        sends
    }
}

impl ListDeleter {
    /// What `on_msg` sends on `resp`: with follow-up reads on, the
    /// acknowledgement of deletion `id` (one that this client sent, and whose
    /// read number fits) draws a read numbered `id` past the deletions, to the
    /// target replica; anything else draws nothing.
    pub open spec fn on_msg_sends(self, resp: ResponseView, sends: Seq<(usize, Request)>) -> bool {
        let n = self.request_count as nat;
        match resp {
            ResponseView::DeleteOk(id) => if self.follow_up_gets && id < n && n + id <= usize::MAX {
                sends =~= seq![(TARGET_REPLICA, sends[0].1)] && sends[0].1@
                    == RequestView::GetList((n + id) as usize, self.index)
            } else {
                sends.len() == 0
            },
            _ => sends.len() == 0,
        }
    }

    /// The requests sent at startup, each with its recipient.
    pub open spec fn start_requests(self) -> Seq<(usize, RequestView)> {
        Seq::new(self.request_count as nat, |i: int| (TARGET_REPLICA, RequestView::DeleteList(i as usize, self.index)))
    }

    /// The requests sent at startup: `request_count` deletions at `index`,
    /// numbered from zero, all to the target replica.
    pub fn on_start(&self) -> (sends: Vec<(usize, Request)>)
        ensures
            requests_view(sends@) == self.start_requests(),
            sends@.len() == self.request_count,
            forall|i: int|
                0 <= i < sends@.len() ==> sends@[i].0 == TARGET_REPLICA && sends@[i].1@
                    == RequestView::DeleteList(i as usize, self.index),
    {
        let mut sends: Vec<(usize, Request)> = Vec::new();
        let mut i: usize = 0;
        while i < self.request_count
            invariant
                i <= self.request_count,
                sends@.len() == i,
                forall|j: int|
                    0 <= j < i ==> sends@[j].0 == TARGET_REPLICA && sends@[j].1@
                        == RequestView::DeleteList(j as usize, self.index),
            decreases self.request_count - i,
        {
            sends.push((TARGET_REPLICA, Request::DeleteList(i, self.index)));
            i = i + 1;
        }
        assert(requests_view(sends@) =~= self.start_requests());
        sends
    }

    /// The reaction to an acknowledgement: see `on_msg_sends`.
    pub fn on_msg(&self, resp: &Response) -> (sends: Vec<(usize, Request)>)
        ensures
            self.on_msg_sends(resp@, sends@),
    {
        let mut sends: Vec<(usize, Request)> = Vec::new();
        match resp {
            Response::DeleteOk(id) => {
                if self.follow_up_gets && *id < self.request_count && *id <= usize::MAX - self.request_count {
                    sends.push((TARGET_REPLICA, Request::GetList(self.request_count + *id, self.index)));
                }
            },
            _ => {},
        }
        sends
    }
}

impl MapSinglePutter {
    /// What `on_msg` sends on `resp`: with follow-up reads on, the
    /// acknowledgement of request `id` (one that this client sent, and whose
    /// read number fits) draws a read numbered `id` past the writes, to the
    /// target replica; anything else draws nothing.
    pub open spec fn on_msg_sends(self, resp: ResponseView, sends: Seq<(usize, Request)>) -> bool {
        let n = self.values@.len();
        match resp {
            ResponseView::PutOk(id) => if self.follow_up_gets && id < n && n + id <= usize::MAX {
                sends =~= seq![(TARGET_REPLICA, sends[0].1)] && sends[0].1@
                    == RequestView::Get((n + id) as usize, self.key@)
            } else {
                sends.len() == 0
            },
            _ => sends.len() == 0,
        }
    }

    /// The requests sent at startup, each with its recipient.
    pub open spec fn start_requests(self) -> Seq<(usize, RequestView)> {
        Seq::new(self.values@.len(), |i: int| (TARGET_REPLICA, RequestView::Put(i as usize, self.key@, self.values@[i]@)))
    }

    /// The requests sent at startup: one write of each value, in order,
    /// numbered from zero, all to the target replica.
    pub fn on_start(&self) -> (sends: Vec<(usize, Request)>)
        ensures
            requests_view(sends@) == self.start_requests(),
            sends@.len() == self.values@.len(),
            forall|i: int|
                0 <= i < sends@.len() ==> sends@[i].0 == TARGET_REPLICA && sends@[i].1@
                    == RequestView::Put(i as usize, self.key@, self.values@[i]@),
    {
        let mut sends: Vec<(usize, Request)> = Vec::new();
        let mut i: usize = 0;
        while i < self.values.len()
            invariant
                i <= self.values@.len(),
                sends@.len() == i,
                forall|j: int|
                    0 <= j < i ==> sends@[j].0 == TARGET_REPLICA && sends@[j].1@
                        == RequestView::Put(j as usize, self.key@, self.values@[j]@),
            decreases self.values@.len() - i,
        {
            sends.push((TARGET_REPLICA, Request::Put(i, self.key.clone(), self.values[i].clone())));
            i = i + 1;
        }
        assert(requests_view(sends@) =~= self.start_requests());
        sends
    }

    /// The reaction to an acknowledgement. With follow-up reads on, the
    /// acknowledgement of write `id` (one that this client sent, and whose
    /// read number fits) is answered
    /// by a read of the key, numbered `id` past the writes; anything else
    /// draws no request.
    pub fn on_msg(&self, resp: &Response) -> (sends: Vec<(usize, Request)>)
        ensures
            self.on_msg_sends(resp@, sends@),
    {
        let mut sends: Vec<(usize, Request)> = Vec::new();
        match resp {
            Response::PutOk(id) => {
                if self.follow_up_gets && *id < self.values.len() && *id <= usize::MAX - self.values.len() {
                    sends.push((TARGET_REPLICA, Request::Get(self.values.len() + *id, self.key.clone())));
                }
            },
            _ => {},
        }
        sends
    }
}

impl ListInserter {
    /// What `on_msg` sends on `resp`: with follow-up reads on, the
    /// acknowledgement of request `id` (one that this client sent, and whose
    /// read number fits) draws a read numbered `id` past the writes, to the
    /// target replica; anything else draws nothing.
    pub open spec fn on_msg_sends(self, resp: ResponseView, sends: Seq<(usize, Request)>) -> bool {
        let n = self.values@.len();
        match resp {
            ResponseView::InsertOk(id) => if self.follow_up_gets && id < n && n + id <= usize::MAX {
                sends =~= seq![(TARGET_REPLICA, sends[0].1)] && sends[0].1@
                    == RequestView::GetList((n + id) as usize, self.index)
            } else {
                sends.len() == 0
            },
            _ => sends.len() == 0,
        }
    }

    /// The requests sent at startup, each with its recipient.
    pub open spec fn start_requests(self) -> Seq<(usize, RequestView)> {
        Seq::new(self.values@.len(), |i: int| (TARGET_REPLICA, RequestView::Insert(i as usize, self.index, self.values@[i]@)))
    }

    /// The requests sent at startup: one insertion of each value, in order,
    /// numbered from zero, all to the target replica.
    pub fn on_start(&self) -> (sends: Vec<(usize, Request)>)
        ensures
            requests_view(sends@) == self.start_requests(),
            sends@.len() == self.values@.len(),
            forall|i: int|
                0 <= i < sends@.len() ==> sends@[i].0 == TARGET_REPLICA && sends@[i].1@
                    == RequestView::Insert(i as usize, self.index, self.values@[i]@),
    {
        let mut sends: Vec<(usize, Request)> = Vec::new();
        let mut i: usize = 0;
        while i < self.values.len()
            invariant
                i <= self.values@.len(),
                sends@.len() == i,
                forall|j: int|
                    0 <= j < i ==> sends@[j].0 == TARGET_REPLICA && sends@[j].1@
                        == RequestView::Insert(j as usize, self.index, self.values@[j]@),
            decreases self.values@.len() - i,
        {
            sends.push((TARGET_REPLICA, Request::Insert(i, self.index, self.values[i].clone())));
            i = i + 1;
        }
        assert(requests_view(sends@) =~= self.start_requests());
        sends
    }

    /// The reaction to an acknowledgement. With follow-up reads on, the
    /// acknowledgement of insert `id` (one that this client sent, and whose
    /// read number fits) is answered
    /// by a read of the index, numbered `id` past the inserts; anything else
    /// draws no request.
    pub fn on_msg(&self, resp: &Response) -> (sends: Vec<(usize, Request)>)
        ensures
            self.on_msg_sends(resp@, sends@),
    {
        let mut sends: Vec<(usize, Request)> = Vec::new();
        match resp {
            Response::InsertOk(id) => {
                if self.follow_up_gets && *id < self.values.len() && *id <= usize::MAX - self.values.len() {
                    sends.push((TARGET_REPLICA, Request::GetList(self.values.len() + *id, self.index)));
                }
            },
            _ => {},
        }
        sends
    }
}

} // verus!
