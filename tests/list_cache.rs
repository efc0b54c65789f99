use bytes::Bytes;
use dash_relay::cache_map::CacheMap;
use dash_relay::list_cache::Cell;
use dash_relay::list_downstream::{ListDownstream, ListPoll};
use dash_relay::relay::ListIngester;
use std::sync::{Arc, Mutex};

fn frame(p: ListPoll) -> Vec<u8> {
    match p {
        ListPoll::Frame(b) => b.to_vec(),
        ListPoll::End => panic!("unexpected end"),
        ListPoll::Pending => panic!("unexpected pending"),
    }
}

fn is_end(p: &ListPoll) -> bool {
    matches!(p, ListPoll::End)
}

fn is_pending(p: &ListPoll) -> bool {
    matches!(p, ListPoll::Pending)
}

/// Polls until the reader parks or ends; returns the bytes and whether it ended.
fn drain(reader: &mut ListDownstream, cell: &Cell) -> (Vec<u8>, bool) {
    let mut out = Vec::new();
    loop {
        match reader.poll_next(cell) {
            ListPoll::Frame(b) => out.extend_from_slice(&b),
            ListPoll::End => return (out, true),
            ListPoll::Pending => return (out, false),
        }
    }
}

#[test]
fn zero_copy_fan_out_two_readers() {
    let ingester = ListIngester::new(false);
    let mut cell = Cell::new();
    let mut first = ListDownstream::new();
    let mut second = ListDownstream::new();
    assert!(is_pending(&first.poll_next(&cell)));
    assert!(is_pending(&second.poll_next(&cell)));

    let ab = Bytes::from_static(b"AB");
    ingester.ingest_frame(&mut cell, ab.clone());
    let got = first.poll_next(&cell);
    match &got {
        ListPoll::Frame(b) => assert_eq!(b.as_ptr(), ab.as_ptr()),
        _ => panic!("expected a frame"),
    }
    assert_eq!(frame(got), b"AB");
    ingester.ingest_frame(&mut cell, Bytes::from_static(b"CD"));
    ingester.finish(&mut cell);

    assert_eq!(frame(first.poll_next(&cell)), b"CD");
    assert!(is_end(&first.poll_next(&cell)));
    assert!(is_end(&first.poll_next(&cell)));

    assert_eq!(frame(second.poll_next(&cell)), b"AB");
    assert_eq!(frame(second.poll_next(&cell)), b"CD");
    assert!(is_end(&second.poll_next(&cell)));
}

#[test]
fn copying_ingester_stores_private_copies() {
    let ingester = ListIngester::new(true);
    let mut cell = Cell::new();
    let data = Bytes::from_static(b"XYZ");
    ingester.ingest_frame(&mut cell, data.clone());
    let mut reader = ListDownstream::new();
    match reader.poll_next(&cell) {
        ListPoll::Frame(b) => {
            assert_eq!(&b[..], b"XYZ");
            assert_ne!(b.as_ptr(), data.as_ptr());
        }
        _ => panic!("expected a frame"),
    }
}

#[test]
fn empty_ingest_is_immediately_complete() {
    let ingester = ListIngester::new(false);
    let mut cell = Cell::new();
    ingester.finish(&mut cell);
    let mut reader = ListDownstream::new();
    assert!(is_end(&reader.poll_next(&cell)));
}

#[test]
fn late_reader_reads_everything() {
    let ingester = ListIngester::new(false);
    let mut map: CacheMap<Arc<Mutex<Cell>>> = CacheMap::new();
    let path = "/s/1/2.m4s";
    assert!(map.insert_if_absent(path, Arc::new(Mutex::new(Cell::new()))));
    let cell = map.get(path).unwrap().clone();
    ingester.ingest_frame(&mut cell.lock().unwrap(), Bytes::from_static(b"HEL"));
    ingester.ingest_frame(&mut cell.lock().unwrap(), Bytes::from_static(b"LO"));
    ingester.finish(&mut cell.lock().unwrap());
    let held = map.get(path).unwrap().clone();
    assert!(map.remove(path).is_some());
    assert!(map.get(path).is_none());
    drop(cell);

    let mut reader = ListDownstream::new();
    let (bytes, ended) = drain(&mut reader, &held.lock().unwrap());
    assert_eq!(bytes, b"HELLO");
    assert!(ended);
}

#[test]
fn stuck_upstream_reader_parks() {
    let ingester = ListIngester::new(false);
    let mut cell = Cell::new();
    ingester.ingest_frame(&mut cell, Bytes::from_static(b"A"));
    let mut reader = ListDownstream::new();
    assert_eq!(frame(reader.poll_next(&cell)), b"A");
    for _ in 0..3 {
        assert!(is_pending(&reader.poll_next(&cell)));
    }
    drop(reader);
    ingester.ingest_frame(&mut cell, Bytes::from_static(b"B"));
    assert_eq!(cell.list().len(), 2);
}

#[test]
fn readers_joining_at_any_point_agree() {
    let ingester = ListIngester::new(false);
    let mut cell = Cell::new();
    let mut readers: Vec<ListDownstream> = Vec::new();
    let mut outputs: Vec<Vec<u8>> = Vec::new();
    for i in 0..20u8 {
        readers.push(ListDownstream::new());
        outputs.push(Vec::new());
        ingester.ingest_frame(&mut cell, Bytes::from(vec![i, i + 1]));
        for (r, out) in readers.iter_mut().zip(outputs.iter_mut()).step_by(2) {
            out.extend(drain(r, &cell).0);
        }
    }
    ingester.finish(&mut cell);
    let mut expected = Vec::new();
    for i in 0..20u8 {
        expected.extend_from_slice(&[i, i + 1]);
    }
    for (r, out) in readers.iter_mut().zip(outputs.iter_mut()) {
        let (rest, ended) = drain(r, &cell);
        out.extend(rest);
        assert!(ended);
        assert_eq!(*out, expected);
    }
}

#[test]
fn tail_and_nodes_of_the_list() {
    let mut cell = Cell::new();
    assert!(cell.tail().is_none());
    cell.append(Some(Bytes::from_static(b"one")));
    cell.append(None);
    assert_eq!(cell.tail().unwrap().value.as_ref().unwrap(), &Bytes::from_static(b"one"));
    assert!(cell.list().node(1).unwrap().value.is_none());
    assert!(cell.list().node(2).is_none());
}

#[test]
fn cache_map_holds_one_cell_per_path() {
    let mut map: CacheMap<u32> = CacheMap::new();
    assert!(map.get("/never/written").is_none());
    assert!(map.insert_if_absent("/a", 1));
    assert!(!map.insert_if_absent("/a", 2));
    assert_eq!(map.get("/a"), Some(&1));
    assert!(map.insert_if_absent("/b", 3));
    assert_eq!(map.remove("/a"), Some(1));
    assert_eq!(map.remove("/a"), None);
    assert_eq!(map.get("/b"), Some(&3));
    assert!(map.insert_if_absent("/a", 4));
    assert_eq!(map.get("/a"), Some(&4));
}

#[test]
fn cache_map_get_or_insert_keeps_the_first_cell() {
    let mut map: CacheMap<u32> = CacheMap::new();
    assert_eq!(*map.get_or_insert("/a", 1), 1);
    assert_eq!(*map.get_or_insert("/a", 2), 1);
    assert_eq!(map.remove("/a"), Some(1));
    assert_eq!(*map.get_or_insert("/a", 3), 3);
}
