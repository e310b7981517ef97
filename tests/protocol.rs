use replica_model::client::{ListDeleter, ListInserter, MapSingleDeleter, MapSinglePutter};
use replica_model::message::{ClientMsg, InternalMsg, Msg, Request, Response};
use replica_model::model::{Client, ModelActor, ModelBuilder, ObjectType};
use replica_model::properties::{converged, stable_consistent};
use replica_model::replica::{Replica, SyncMethod};

fn s(t: &str) -> String {
    t.to_string()
}

fn replica(acks: bool, method: SyncMethod) -> Replica {
    Replica { id: 0, peers: vec![1, 2], sync_method: method, message_acks: acks }
}

fn response(r: Response) -> Msg {
    Msg::Client(ClientMsg::Response(r))
}

#[test]
fn map_deleter_sends_numbered_deletes_to_first_replica() {
    let c = MapSingleDeleter { key: s("key"), request_count: 3, follow_up_gets: false };
    let sends = c.on_start();
    assert_eq!(
        sends,
        vec![
            (0, Request::DeleteMap(0, s("key"))),
            (0, Request::DeleteMap(1, s("key"))),
            (0, Request::DeleteMap(2, s("key"))),
        ]
    );
}

#[test]
fn deleter_with_no_requests_sends_nothing() {
    let c = MapSingleDeleter { key: s("key"), request_count: 0, follow_up_gets: false };
    assert!(c.on_start().is_empty());
    let l = ListDeleter { index: 4, request_count: 0, follow_up_gets: false };
    assert!(l.on_start().is_empty());
}

#[test]
fn list_deleter_sends_numbered_deletes() {
    let c = ListDeleter { index: 0, request_count: 2, follow_up_gets: false };
    assert_eq!(c.on_start(), vec![(0, Request::DeleteList(0, 0)), (0, Request::DeleteList(1, 0))]);
}

#[test]
fn putter_writes_values_in_order() {
    let c = MapSinglePutter { key: s("key"), values: vec![s("v1"), s("v2")], follow_up_gets: false };
    assert_eq!(
        c.on_start(),
        vec![(0, Request::Put(0, s("key"), s("v1"))), (0, Request::Put(1, s("key"), s("v2")))]
    );
}

#[test]
fn inserter_inserts_values_in_order() {
    let c = ListInserter { index: 0, values: vec![s("a"), s("b")], follow_up_gets: true };
    assert_eq!(
        c.on_start(),
        vec![(0, Request::Insert(0, 0, s("a"))), (0, Request::Insert(1, 0, s("b")))]
    );
}

#[test]
fn putter_follow_up_read_after_ack() {
    let c = MapSinglePutter { key: s("key"), values: vec![s("v1"), s("v2")], follow_up_gets: true };
    assert_eq!(c.on_msg(&Response::PutOk(1)), vec![(0, Request::Get(3, s("key")))]);
    assert!(c.on_msg(&Response::PutOk(2)).is_empty());
    assert!(c.on_msg(&Response::GetOk(0, s("v1"))).is_empty());
    let quiet = MapSinglePutter { key: s("key"), values: vec![s("v1")], follow_up_gets: false };
    assert!(quiet.on_msg(&Response::PutOk(0)).is_empty());
}

#[test]
fn inserter_follow_up_read_after_ack() {
    let c = ListInserter { index: 2, values: vec![s("a")], follow_up_gets: true };
    assert_eq!(c.on_msg(&Response::InsertOk(0)), vec![(0, Request::GetList(1, 2))]);
    assert!(c.on_msg(&Response::DeleteOk(0)).is_empty());
}

#[test]
fn request_ids_and_kinds() {
    assert_eq!(Request::Insert(7, 1, s("x")).id(), 7);
    assert!(Request::DeleteList(1, 0).is_write());
    assert!(!Request::Get(2, s("k")).is_write());
    assert!(!Request::GetList(2, 0).is_write());
    assert_eq!(Response::GetOk(5, s("v")).id(), 5);
    assert!(Msg::Internal(InternalMsg::SyncChange(vec![1])).is_internal());
    assert!(!response(Response::PutOk(0)).is_internal());
}

#[test]
fn acknowledgements_echo_the_request_id() {
    let r = replica(true, SyncMethod::Changes);
    assert_eq!(r.acknowledge(9, &Request::Put(4, s("k"), s("v")), None), vec![(9, response(Response::PutOk(4)))]);
    assert_eq!(r.acknowledge(9, &Request::DeleteMap(5, s("k")), None), vec![(9, response(Response::DeleteOk(5)))]);
    assert_eq!(r.acknowledge(9, &Request::DeleteList(6, 0), None), vec![(9, response(Response::DeleteOk(6)))]);
    assert_eq!(r.acknowledge(9, &Request::Insert(7, 0, s("v")), None), vec![(9, response(Response::InsertOk(7)))]);
    assert_eq!(
        r.acknowledge(9, &Request::Get(8, s("k")), Some(s("v"))),
        vec![(9, response(Response::GetOk(8, s("v"))))]
    );
}

#[test]
fn read_miss_is_silent() {
    let r = replica(true, SyncMethod::Messages);
    assert!(r.acknowledge(3, &Request::Get(0, s("key")), None).is_empty());
    assert!(r.acknowledge(3, &Request::GetList(0, 0), None).is_empty());
}

#[test]
fn no_acknowledgements_when_off() {
    let r = replica(false, SyncMethod::Changes);
    assert!(r.acknowledge(3, &Request::Put(0, s("k"), s("v")), None).is_empty());
    assert!(r.acknowledge(3, &Request::Get(0, s("k")), Some(s("v"))).is_empty());
}

#[test]
fn change_goes_to_every_peer() {
    let r = replica(false, SyncMethod::Changes);
    let c = Msg::Internal(InternalMsg::SyncChange(vec![1, 2, 3]));
    assert_eq!(r.broadcast_change(Some(vec![1, 2, 3])), vec![(1, c.clone()), (2, c)]);
    assert!(r.broadcast_change(None).is_empty());
}

#[test]
fn sync_messages_go_only_where_generated() {
    let r = Replica { id: 1, peers: vec![0, 2, 3], sync_method: SyncMethod::Messages, message_acks: false };
    let sends = r.send_sync_messages(vec![Some(vec![7]), None, Some(vec![8, 9])]);
    assert_eq!(
        sends,
        vec![
            (0, Msg::Internal(InternalMsg::SyncMessage(vec![7]))),
            (3, Msg::Internal(InternalMsg::SyncMessage(vec![8, 9]))),
        ]
    );
    assert!(r.send_sync_messages(vec![None, None, None]).is_empty());
}

#[test]
fn sync_reply_goes_back_to_sender() {
    let r = replica(false, SyncMethod::Messages);
    assert_eq!(r.reply_sync(2, Some(vec![5])), vec![(2, Msg::Internal(InternalMsg::SyncMessage(vec![5])))]);
    assert!(r.reply_sync(2, None).is_empty());
}

#[test]
fn write_is_acknowledged_then_broadcast() {
    let r = replica(true, SyncMethod::Changes);
    let sends = r.on_request(5, &Request::Put(0, s("key"), s("v1")), None, Some(vec![4]), vec![]);
    let c = Msg::Internal(InternalMsg::SyncChange(vec![4]));
    assert_eq!(sends, vec![(5, response(Response::PutOk(0))), (1, c.clone()), (2, c)]);
}

#[test]
fn write_under_message_sync_sends_generated_messages() {
    let r = replica(false, SyncMethod::Messages);
    let sends = r.on_request(5, &Request::DeleteMap(0, s("key")), None, None, vec![None, Some(vec![1])]);
    assert_eq!(sends, vec![(2, Msg::Internal(InternalMsg::SyncMessage(vec![1])))]);
}

#[test]
fn read_is_not_disseminated() {
    let r = replica(true, SyncMethod::Changes);
    let sends = r.on_request(5, &Request::Get(3, s("key")), Some(s("v2")), Some(vec![4]), vec![]);
    assert_eq!(sends, vec![(5, response(Response::GetOk(3, s("v2"))))]);
}

#[test]
fn converged_compares_replicas_only() {
    assert!(converged(&vec![]));
    assert!(converged(&vec![None, None]));
    assert!(converged(&vec![Some(vec![1, 2]), None, Some(vec![1, 2])]));
    assert!(!converged(&vec![Some(vec![1, 2]), None, Some(vec![1, 3])]));
    assert!(!converged(&vec![Some(vec![1]), Some(vec![1, 0])]));
}

#[test]
fn stable_consistency_waits_for_sync_traffic() {
    let apart = vec![Some(vec![1]), Some(vec![2])];
    let in_flight = vec![Msg::Internal(InternalMsg::SyncMessage(vec![0]))];
    assert!(stable_consistent(&in_flight, &apart));
    let client_only = vec![Msg::Client(ClientMsg::Request(Request::Put(0, s("k"), s("v"))))];
    assert!(!stable_consistent(&client_only, &apart));
    assert!(!stable_consistent(&vec![], &apart));
}

#[test]
fn deleting_an_unset_key_keeps_replicas_agreeing() {
    // Both replicas hold the same empty document; a delete of an absent key
    // reads back as a miss, which draws no reply.
    let r = replica(true, SyncMethod::Messages);
    assert!(r.acknowledge(2, &Request::Get(1, s("key")), None).is_empty());
    let docs = vec![Some(vec![]), Some(vec![]), None];
    assert!(stable_consistent(&vec![], &docs));
}

#[test]
fn acknowledgement_matches_one_request_of_the_stream() {
    let c = MapSinglePutter { key: s("key"), values: vec![s("v1"), s("v2"), s("v3")], follow_up_gets: false };
    let reqs = c.on_start();
    let r = replica(true, SyncMethod::Changes);
    for (k, (_, req)) in reqs.iter().enumerate() {
        let acks = r.acknowledge(7, req, None);
        assert_eq!(acks.len(), 1);
        let id = match &acks[0].1 {
            Msg::Client(ClientMsg::Response(a)) => a.id(),
            _ => panic!("not an acknowledgement"),
        };
        let matching: Vec<usize> = (0..reqs.len()).filter(|j| reqs[*j].1.id() == id).collect();
        assert_eq!(matching, vec![k]);
        assert_eq!(acks[0].0, 7);
    }
}

fn builder(object_type: ObjectType) -> ModelBuilder {
    ModelBuilder {
        put_clients: 1,
        delete_clients: 2,
        insert_clients: 3,
        servers: 3,
        sync_method: SyncMethod::Changes,
        message_acks: true,
        object_type,
        follow_up_gets: false,
        key: s("key"),
        index: 0,
        values: vec![s("v1"), s("v2")],
        delete_count: 1,
    }
}

#[test]
fn model_builds_full_mesh_then_clients() {
    let actors = builder(ObjectType::KeyMap).actors();
    assert_eq!(actors.len(), 6);
    assert_eq!(
        actors[1],
        ModelActor::Replica(Replica { id: 1, peers: vec![0, 2], sync_method: SyncMethod::Changes, message_acks: true })
    );
    assert_eq!(
        actors[3],
        ModelActor::Client(Client::MapPutter(MapSinglePutter {
            key: s("key"),
            values: vec![s("v1"), s("v2")],
            follow_up_gets: false,
        }))
    );
    assert_eq!(
        actors[5],
        ModelActor::Client(Client::MapDeleter(MapSingleDeleter { key: s("key"), request_count: 1, follow_up_gets: false }))
    );
}

#[test]
fn list_model_uses_list_clients() {
    let b = builder(ObjectType::List);
    let actors = b.actors();
    assert_eq!(actors.len(), 8);
    assert_eq!(b.replica(0).peers, vec![1, 2]);
    assert!(matches!(actors[3], ModelActor::Client(Client::ListInserter(_))));
    assert!(matches!(actors[7], ModelActor::Client(Client::ListDeleter(_))));
}

#[test]
fn dispatcher_routes_by_kind() {
    let client = ModelActor::Client(Client::MapDeleter(MapSingleDeleter { key: s("key"), request_count: 1, follow_up_gets: false }));
    let rep = ModelActor::Replica(replica(false, SyncMethod::Changes));
    assert_eq!(client.on_start(), vec![(0, Msg::Client(ClientMsg::Request(Request::DeleteMap(0, s("key")))))]);
    assert!(rep.on_start().is_empty());
    let sync = Msg::Internal(InternalMsg::SyncChange(vec![1]));
    let ack = response(Response::DeleteOk(0));
    assert!(!client.handles(&sync));
    assert!(client.handles(&ack));
    assert!(rep.handles(&sync));
    assert!(!rep.handles(&ack));
}

#[test]
fn client_dispatch_of_acknowledgements() {
    let putter = Client::MapPutter(MapSinglePutter { key: s("k"), values: vec![s("v")], follow_up_gets: true });
    assert_eq!(putter.on_msg(&Response::PutOk(0)), vec![(0, Request::Get(1, s("k")))]);
    let deleter = Client::MapDeleter(MapSingleDeleter { key: s("k"), request_count: 1, follow_up_gets: false });
    assert!(deleter.on_msg(&Response::DeleteOk(0)).is_empty());
    let reading = Client::MapDeleter(MapSingleDeleter { key: s("k"), request_count: 2, follow_up_gets: true });
    assert_eq!(reading.on_msg(&Response::DeleteOk(1)), vec![(0, Request::Get(3, s("k")))]);
    assert!(reading.on_msg(&Response::DeleteOk(2)).is_empty());
    assert!(reading.on_msg(&Response::PutOk(0)).is_empty());
    let list = ListDeleter { index: 1, request_count: 1, follow_up_gets: true };
    assert_eq!(list.on_msg(&Response::DeleteOk(0)), vec![(0, Request::GetList(1, 1))]);
}

#[test]
fn peer_positions() {
    let r = Replica { id: 2, peers: vec![0, 1, 3], sync_method: SyncMethod::Messages, message_acks: false };
    assert_eq!(r.peer_index(3), Some(2));
    assert_eq!(r.peer_index(0), Some(0));
    assert_eq!(r.peer_index(2), None);
}
