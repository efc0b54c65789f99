use dash_relay::metadata::FileMetadata;
use dash_relay::recorder::{begin_upload, finish_upload, is_inactive, record_chunk, upload_start, upload_status, UploadStart};
use dash_relay::relay::Method;
use dash_relay::stream::Stream;

fn record(stream: &mut Stream, path: &str, start_ms: u32, chunks: &[(u32, usize)]) -> String {
    let params = match upload_start(Method::Put, path) {
        UploadStart::Record(p) => p,
        UploadStart::Respond(s) => panic!("refused with {}", s),
    };
    let (name, mut meta) = begin_upload(stream, &params, path.to_string(), start_ms);
    for &(t, size) in chunks {
        record_chunk(&mut meta, t, size);
    }
    finish_upload(stream, &params, meta);
    name
}

#[test]
fn recorder_round_trip_two_qualities() {
    let mut stream = Stream::new("s".to_string());
    assert_eq!(record(&mut stream, "/s/index.mpd", 0, &[(0, 10)]), "s/manifests/0_index.mpd");
    for q in 0..2u32 {
        record(&mut stream, &format!("/s/{}/init.m4s", q), 1 + q, &[(0, 5)]);
    }
    let mut t = 10;
    for n in 1..=3u32 {
        for q in 0..2u32 {
            let name = record(&mut stream, &format!("/s/{}/{}.m4s", q, n), t, &[(0, 100), (7, 50)]);
            assert_eq!(name, format!("s/{}/{}_{}.m4s", q, n, n));
            t += 20;
        }
    }
    let meta = stream.export_metadata();
    assert_eq!(meta.name, "s");
    assert_eq!(meta.manifests.len(), 1);
    assert_eq!(meta.representations.len(), 2);
    let mut last_offset = 0;
    for (q, rep) in meta.representations.iter().enumerate() {
        assert_eq!(rep.idx, q as u32);
        let init = rep.init.as_ref().unwrap();
        assert_eq!(init.segment, None);
        assert_eq!(init.file_name, format!("s/{}/0_init.m4s", q));
        assert_eq!(rep.segments.len(), 3);
        let mut previous = 0;
        for (i, seg) in rep.segments.iter().enumerate() {
            assert_eq!(seg.segment, Some(i as u32 + 1));
            assert!(seg.time_offset > previous);
            previous = seg.time_offset;
            assert_eq!(seg.size, 150);
            assert_eq!(seg.chunks, vec![(0, 0, 100), (7, 100, 50)]);
        }
        last_offset = last_offset.max(previous);
    }
    assert_eq!(last_offset, 110);
}

#[test]
fn recorder_method_gate() {
    assert!(matches!(upload_start(Method::Delete, "/s/1/1.m4s"), UploadStart::Respond(200)));
    assert!(matches!(upload_start(Method::Post, "/s/1/1.m4s"), UploadStart::Respond(405)));
    assert!(matches!(upload_start(Method::Put, "/s"), UploadStart::Respond(400)));
    assert_eq!(upload_status(true), 200);
    assert_eq!(upload_status(false), 500);
}

#[test]
fn sequence_numbers_per_quality_and_stream() {
    let mut stream = Stream::new("x".to_string());
    assert_eq!(stream.next_number(), 0);
    assert_eq!(stream.next_number(), 1);
    assert_eq!(stream.representation(4).next_number(), 0);
    assert_eq!(stream.representation(4).next_number(), 1);
    assert_eq!(stream.representation(5).next_number(), 0);
    assert_eq!(stream.next_number(), 2);
    stream.update_last_write(1234);
    assert_eq!(stream.last_write(), 1234);
    assert_eq!(stream.id(), "x");
}

#[test]
fn file_metadata_chunks_add_up() {
    let mut meta = FileMetadata::new(7, "/p".to_string(), "f".to_string(), Some(3));
    meta.add_chunk(0, 0, 10);
    meta.add_chunk(5, 10, 20);
    assert_eq!(meta.size, 30);
    assert_eq!(meta.chunks, vec![(0, 0, 10), (5, 10, 20)]);
    let copy = meta.duplicate();
    assert_eq!(copy.chunks, meta.chunks);
    assert_eq!(copy.path, "/p");
    assert_eq!(copy.time_offset, 7);
}

#[test]
fn representation_keeps_segment_order() {
    let mut stream = Stream::new("x".to_string());
    let rep = stream.representation(1);
    rep.add_file(FileMetadata::new(1, "a".to_string(), "a".to_string(), Some(1)));
    rep.add_file(FileMetadata::new(2, "b".to_string(), "b".to_string(), Some(2)));
    rep.set_init(FileMetadata::new(0, "i".to_string(), "i".to_string(), None));
    let segments = stream.representation(1).segments();
    assert_eq!(segments.iter().map(|f| f.path.clone()).collect::<Vec<_>>(), vec!["a", "b"]);
    assert_eq!(stream.representation(1).init().unwrap().path, "i");
}

#[test]
fn inactivity() {
    assert!(is_inactive(10_000, 4_000, 5_000));
    assert!(!is_inactive(9_000, 4_000, 5_000));
    assert!(!is_inactive(1_000, 4_000, 5_000));
}
