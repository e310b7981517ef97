use std::collections::VecDeque;

use automerge::transaction::Transactable;
use automerge::{sync, ActorId, AutoCommit, ObjType, ROOT};
use replica_model::client::MapSingleDeleter;
use replica_model::client::MapSinglePutter;
use replica_model::document::{Document, EngineError};
use replica_model::message::{ClientMsg, InternalMsg, Msg, Request};
use replica_model::model::{ModelBuilder, ObjectType, ModelActor};
use replica_model::properties::stable_consistent;
use replica_model::replica::{Replica, SyncMethod};

fn map_doc(id: u8, peers: usize) -> Document {
    let doc = AutoCommit::new().with_actor(ActorId::from(vec![id]));
    Document::new(doc, None, vec![sync::State::new(); peers])
}

fn list_docs(n: usize) -> Vec<Document> {
    let mut base = AutoCommit::new().with_actor(ActorId::from(vec![0xff]));
    let list = base.put_object(ROOT, "list", ObjType::List).unwrap();
    (0..n)
        .map(|i| {
            let doc = base.fork().with_actor(ActorId::from(vec![i as u8]));
            Document::new(doc, Some(list.clone()), vec![sync::State::new(); n - 1])
        })
        .collect()
}

fn cluster(n: usize, method: SyncMethod, acks: bool) -> (Vec<Replica>, Vec<Document>) {
    let b = ModelBuilder {
        put_clients: 0,
        delete_clients: 0,
        insert_clients: 0,
        servers: n,
        sync_method: method,
        message_acks: acks,
        object_type: ObjectType::KeyMap,
        follow_up_gets: false,
        key: "key".to_string(),
        index: 0,
        values: vec![],
        delete_count: 0,
    };
    let replicas: Vec<Replica> = b
        .actors()
        .into_iter()
        .map(|a| match a {
            ModelActor::Replica(r) => r,
            ModelActor::Client(_) => panic!("no clients asked for"),
        })
        .collect();
    let docs = (0..n).map(|i| map_doc(i as u8, n - 1)).collect();
    (replicas, docs)
}

/// Delivers in order until nothing is in flight; returns what reached
/// actors that are not replicas.
fn deliver_all(
    replicas: &[Replica],
    docs: &mut [Document],
    queue: &mut VecDeque<(usize, usize, Msg)>,
) -> Vec<(usize, Msg)> {
    let mut outside = Vec::new();
    let mut steps = 0;
    while let Some((src, dst, msg)) = queue.pop_front() {
        steps += 1;
        assert!(steps < 1000, "delivery does not quiesce");
        if dst >= replicas.len() {
            outside.push((dst, msg));
            continue;
        }
        let sends = replicas[dst].handle(&mut docs[dst], src, &msg).unwrap();
        for (to, m) in sends {
            queue.push_back((dst, to, m));
        }
    }
    outside
}

fn read(doc: &mut Document, key: &str) -> Option<String> {
    doc.apply(&Request::Get(99, key.to_string())).unwrap()
}

fn put_scenario(target: usize) {
    let (replicas, mut docs) = cluster(2, SyncMethod::Changes, false);
    let client = MapSinglePutter { key: "key".to_string(), values: vec!["v1".to_string(), "v2".to_string()], follow_up_gets: false };
    let mut queue: VecDeque<(usize, usize, Msg)> = client
        .on_start()
        .into_iter()
        .map(|(_, r)| (2, target, Msg::Client(ClientMsg::Request(r))))
        .collect();
    let outside = deliver_all(&replicas, &mut docs, &mut queue);
    assert!(outside.is_empty());
    assert_eq!(read(&mut docs[0], "key"), Some("v2".to_string()));
    assert_eq!(read(&mut docs[1], "key"), Some("v2".to_string()));
}

#[test]
fn two_puts_converge_on_the_second_value() {
    put_scenario(0);
    put_scenario(1);
}

#[test]
fn deleting_a_never_set_key_under_message_sync() {
    let (replicas, mut docs) = cluster(2, SyncMethod::Messages, false);
    let client = MapSingleDeleter { key: "key".to_string(), request_count: 1, follow_up_gets: false };
    let mut queue: VecDeque<(usize, usize, Msg)> = client
        .on_start()
        .into_iter()
        .map(|(to, r)| (2, to, Msg::Client(ClientMsg::Request(r))))
        .collect();
    deliver_all(&replicas, &mut docs, &mut queue);
    assert_eq!(read(&mut docs[0], "key"), None);
    assert_eq!(read(&mut docs[1], "key"), None);
    let contents = vec![Some(vec![]), Some(vec![]), None];
    assert!(stable_consistent(&vec![], &contents));
}

#[test]
fn message_sync_converges_and_quiesces() {
    let (replicas, mut docs) = cluster(3, SyncMethod::Messages, true);
    let mut queue = VecDeque::new();
    queue.push_back((3, 0, Msg::Client(ClientMsg::Request(Request::Put(0, "a".to_string(), "x".to_string())))));
    queue.push_back((4, 2, Msg::Client(ClientMsg::Request(Request::Put(0, "b".to_string(), "y".to_string())))));
    let outside = deliver_all(&replicas, &mut docs, &mut queue);
    assert_eq!(outside.len(), 2);
    for d in docs.iter_mut() {
        assert_eq!(read(d, "a"), Some("x".to_string()));
        assert_eq!(read(d, "b"), Some("y".to_string()));
    }
    for (i, d) in docs.iter_mut().enumerate() {
        for p in 0..2 {
            assert_eq!(d.generate_sync(p), None, "replica {} still has news for its peer {}", i, p);
        }
    }
}

#[test]
fn applying_a_change_twice_changes_nothing() {
    let mut a = map_doc(1, 1);
    let mut b = map_doc(2, 1);
    a.apply(&Request::Put(0, "k".to_string(), "v".to_string())).unwrap();
    let change = a.last_change().expect("a write yields a change");
    b.apply_change(&change).unwrap();
    let once = b.engine().clone().get_heads();
    b.apply_change(&change).unwrap();
    assert_eq!(b.engine().clone().get_heads(), once);
    assert_eq!(read(&mut b, "k"), Some("v".to_string()));
}

#[test]
fn malformed_payloads_are_rejected() {
    let (replicas, mut docs) = cluster(2, SyncMethod::Messages, false);
    let junk = vec![1, 2, 3];
    assert_eq!(docs[0].apply_change(&junk), Err(EngineError::Malformed));
    assert_eq!(
        replicas[0].handle(&mut docs[0], 1, &Msg::Internal(InternalMsg::SyncMessage(junk.clone()))),
        Err(EngineError::Malformed)
    );
    assert_eq!(
        replicas[0].handle(&mut docs[0], 7, &Msg::Internal(InternalMsg::SyncMessage(junk))),
        Err(EngineError::UnknownPeer)
    );
}

#[test]
fn list_requests_on_a_map_document_are_refused() {
    let mut d = map_doc(1, 0);
    assert_eq!(d.apply(&Request::Insert(0, 0, "x".to_string())), Err(EngineError::NotAList));
}

#[test]
fn list_documents_share_one_list() {
    let replicas = vec![
        Replica { id: 0, peers: vec![1], sync_method: SyncMethod::Changes, message_acks: false },
        Replica { id: 1, peers: vec![0], sync_method: SyncMethod::Changes, message_acks: false },
    ];
    let mut docs = list_docs(2);
    let mut queue = VecDeque::new();
    queue.push_back((2, 0, Msg::Client(ClientMsg::Request(Request::Insert(0, 5, "a".to_string())))));
    queue.push_back((2, 0, Msg::Client(ClientMsg::Request(Request::Insert(1, 0, "b".to_string())))));
    queue.push_back((2, 1, Msg::Client(ClientMsg::Request(Request::DeleteList(0, 9)))));
    deliver_all(&replicas, &mut docs, &mut queue);
    for d in docs.iter_mut() {
        assert_eq!(d.apply(&Request::GetList(0, 0)).unwrap(), Some("b".to_string()));
        assert_eq!(d.apply(&Request::GetList(1, 1)).unwrap(), Some("a".to_string()));
        assert_eq!(d.apply(&Request::GetList(2, 2)).unwrap(), None);
    }
}

#[test]
fn read_reply_carries_the_value() {
    let r = Replica { id: 0, peers: vec![], sync_method: SyncMethod::Changes, message_acks: true };
    let mut d = map_doc(1, 0);
    r.handle(&mut d, 5, &Msg::Client(ClientMsg::Request(Request::Put(0, "k".to_string(), "v".to_string())))).unwrap();
    let sends = r.handle(&mut d, 5, &Msg::Client(ClientMsg::Request(Request::Get(1, "k".to_string())))).unwrap();
    assert_eq!(
        sends,
        vec![(5, Msg::Client(ClientMsg::Response(replica_model::message::Response::GetOk(1, "v".to_string()))))]
    );
}

#[test]
fn map_requests_on_a_list_document() {
    let mut docs = list_docs(1);
    let d = &mut docs[0];
    assert_eq!(d.apply(&Request::Put(0, "k".to_string(), "v".to_string())), Ok(None));
    assert_eq!(read(d, "k"), Some("v".to_string()));
    assert_eq!(d.apply(&Request::DeleteMap(1, "k".to_string())), Ok(None));
    assert_eq!(read(d, "k"), None);
}

#[test]
fn last_change_and_sync_message_are_absent_on_a_fresh_document() {
    let mut d = map_doc(3, 1);
    assert_eq!(d.last_change(), None);
    assert_eq!(read(&mut d, "missing"), None);
    d.apply(&Request::DeleteMap(0, "missing".to_string())).unwrap();
    assert_eq!(read(&mut d, "missing"), None);
}

#[test]
fn fresh_documents_start_empty_and_share_the_list() {
    let mut m = Document::fresh(0, 1, ObjectType::KeyMap);
    assert_eq!(read(&mut m, "key"), None);
    assert_eq!(m.sync_states().len(), 1);
    assert_eq!(m.apply(&Request::Insert(0, 0, "x".to_string())), Err(EngineError::NotAList));
    let replicas = vec![
        Replica { id: 0, peers: vec![1], sync_method: SyncMethod::Messages, message_acks: false },
        Replica { id: 1, peers: vec![0], sync_method: SyncMethod::Messages, message_acks: false },
    ];
    let mut docs = vec![Document::fresh(0, 1, ObjectType::List), Document::fresh(1, 1, ObjectType::List)];
    let mut queue = VecDeque::new();
    queue.push_back((2, 0, Msg::Client(ClientMsg::Request(Request::Insert(0, 0, "a".to_string())))));
    queue.push_back((2, 1, Msg::Client(ClientMsg::Request(Request::Insert(0, 0, "b".to_string())))));
    deliver_all(&replicas, &mut docs, &mut queue);
    let first: Vec<Option<String>> = (0..2).map(|i| docs[0].apply(&Request::GetList(9, i)).unwrap()).collect();
    let second: Vec<Option<String>> = (0..2).map(|i| docs[1].apply(&Request::GetList(9, i)).unwrap()).collect();
    assert_eq!(first, second);
    assert!(first.iter().all(|v| v.is_some()));
}
