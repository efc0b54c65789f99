use bytes::Bytes;
use dash_relay::coalesce::Coalescer;
use dash_relay::map_cache::Cell;
use dash_relay::map_downstream::{CellDownstream, MapPoll};

fn frame(p: MapPoll) -> Vec<u8> {
    match p {
        MapPoll::Frame(b) => b.to_vec(),
        MapPoll::End => panic!("unexpected end"),
        MapPoll::Truncated => panic!("unexpected truncation"),
        MapPoll::Pending => panic!("unexpected pending"),
    }
}

#[test]
fn coalescing_reader_started_before_first_chunk() {
    let mut cell = Cell::new();
    let mut buffer = Coalescer::new(0);
    let mut reader = CellDownstream::new();
    assert!(matches!(reader.poll_next(&cell), MapPoll::Pending));

    cell.set_data(buffer.push(&Bytes::from_static(b"AB")), false);
    assert_eq!(frame(reader.poll_next(&cell)), b"AB");
    assert!(matches!(reader.poll_next(&cell), MapPoll::Pending));
    cell.set_data(buffer.push(&Bytes::from_static(b"CD")), false);
    cell.set_data(buffer.snapshot(), true);
    assert_eq!(frame(reader.poll_next(&cell)), b"CD");
    assert!(matches!(reader.poll_next(&cell), MapPoll::End));
    assert_eq!(reader.bytes_sent(), 4);
}

#[test]
fn coalescing_joins_chunks_between_polls() {
    let mut cell = Cell::new();
    let mut buffer = Coalescer::new(16);
    let mut early = CellDownstream::new();
    cell.set_data(buffer.push(&Bytes::from_static(b"AB")), false);
    let mut late = CellDownstream::new();
    cell.set_data(buffer.push(&Bytes::from_static(b"CD")), false);
    assert_eq!(frame(early.poll_next(&cell)), b"ABCD");
    cell.set_data(buffer.snapshot(), true);
    assert!(matches!(early.poll_next(&cell), MapPoll::End));
    assert_eq!(frame(late.poll_next(&cell)), b"ABCD");
    assert!(matches!(late.poll_next(&cell), MapPoll::End));
}

#[test]
fn published_buffers_grow_by_prefix() {
    let mut buffer = Coalescer::new(0);
    let first = buffer.push(&Bytes::from_static(b"AB"));
    let second = buffer.push(&Bytes::from_static(b"CD"));
    let last = buffer.snapshot();
    assert_eq!(&first[..], b"AB");
    assert_eq!(&second[..2], &first[..]);
    assert_eq!(&second[..], b"ABCD");
    assert_eq!(last, second);
}

#[test]
fn empty_map_ingest_is_immediately_complete() {
    let mut cell = Cell::new();
    let buffer = Coalescer::new(0);
    cell.set_data(buffer.snapshot(), true);
    let mut reader = CellDownstream::new();
    assert!(matches!(reader.poll_next(&cell), MapPoll::End));
    assert!(cell.completed());
}

#[test]
fn fresh_cell_has_nothing_to_read() {
    let cell = Cell::new();
    let mut reader = CellDownstream::new();
    assert!(matches!(reader.poll_next(&cell), MapPoll::Pending));
    assert!(cell.data().is_none());
}

#[test]
fn shrinking_buffer_is_reported() {
    let mut cell = Cell::new();
    cell.set_data(Bytes::from_static(b"HELLO"), false);
    let mut reader = CellDownstream::new();
    assert_eq!(frame(reader.poll_next(&cell)), b"HELLO");
    cell.set_data(Bytes::from_static(b"HE"), false);
    assert!(matches!(reader.poll_next(&cell), MapPoll::Truncated));
}

#[test]
fn late_map_reader_reads_final_buffer() {
    let mut cell = Cell::new();
    let mut buffer = Coalescer::new(0);
    for part in [&b"HE"[..], &b"LL"[..], &b"O"[..]] {
        cell.set_data(buffer.push(&Bytes::copy_from_slice(part)), false);
    }
    cell.set_data(buffer.snapshot(), true);
    let mut reader = CellDownstream::new();
    assert_eq!(frame(reader.poll_next(&cell)), b"HELLO");
    assert!(matches!(reader.poll_next(&cell), MapPoll::End));
}
