use dash_relay::static_cache::{gen_key, shard_of, StaticDownstream};
use dash_relay::relay::{egress_status, ingest_action, IngestAction, Lookup, Method, SimpleIngester};

#[test]
fn method_gate_of_the_ingester() {
    assert!(matches!(ingest_action(Method::Post), IngestAction::Respond(405)));
    assert!(matches!(ingest_action(Method::Delete), IngestAction::Respond(200)));
    assert!(matches!(ingest_action(Method::Get), IngestAction::Respond(405)));
    assert!(matches!(ingest_action(Method::Other), IngestAction::Respond(405)));
    assert!(matches!(ingest_action(Method::Put), IngestAction::Ingest));
}

#[test]
fn egress_statuses() {
    assert_eq!(egress_status(Lookup::Missing), 404);
    assert_eq!(egress_status(Lookup::Found), 200);
    assert_eq!(egress_status(Lookup::Failed), 500);
}

#[test]
fn simple_ingester_builds() {
    let _ = SimpleIngester::new();
}

#[test]
fn static_cache_keys_and_shards() {
    assert_eq!(gen_key(1, 0, 12), "/stream-1/0/12.m4s");
    assert_eq!(shard_of(17, 4), 1);
    let mut d = StaticDownstream::from(bytes::Bytes::from_static(b"seg"));
    assert_eq!(&d.poll_next().unwrap()[..], b"seg");
    assert!(d.poll_next().is_none());
}
