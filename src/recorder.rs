//! The recorder's handling of one upload: which requests are recorded, the
//! name a file is stored under, the record of its chunks, and where the
//! finished record goes in its stream.

use vstd::prelude::*;
use crate::metadata::{FileMetadata, FileMetadataView};
use crate::relay::{Method, STATUS_BAD_REQUEST, STATUS_INTERNAL_SERVER_ERROR, STATUS_METHOD_NOT_ALLOWED, STATUS_OK};
use crate::request::{RequestParams, filename_of, params_of};
use crate::stream::{Representation, Stream, rep_position};

verus! {

/// What the recorder does with a request.
pub enum UploadStart {
    /// Answer at once with this status.
    Respond(u16),
    /// Record the body as the upload these parameters name.
    Record(RequestParams),
}

/// `DELETE` is acknowledged, anything but `PUT` refused, and a `PUT` whose
/// path names no upload is a bad request.
pub fn upload_start(method: Method, path: &str) -> (r: UploadStart)
    requires
        path@.len() < usize::MAX,
    ensures
        method == Method::Delete ==> (r matches UploadStart::Respond(s) && s == STATUS_OK),
        method != Method::Delete && method != Method::Put ==> (r matches UploadStart::Respond(s)
            && s == STATUS_METHOD_NOT_ALLOWED),
        method == Method::Put ==> match params_of(path@) {
            Ok(t) => r matches UploadStart::Record(p) && p.spec_tuple() == t,
            Err(_) => r matches UploadStart::Respond(s) && s == STATUS_BAD_REQUEST,
        },
{
    match method {
        Method::Delete => UploadStart::Respond(STATUS_OK),
        Method::Put => match RequestParams::from_path(path) {
            Ok(params) => UploadStart::Record(params),
            Err(_) => UploadStart::Respond(STATUS_BAD_REQUEST),
        },
        _ => UploadStart::Respond(STATUS_METHOD_NOT_ALLOWED),
    }
}

/// The sequence number an upload draws: from its quality, or from the stream
/// when it names none.
pub open spec fn drawn_number(stream: Stream, quality: Option<u32>) -> u32 {
    match quality {
        None => stream.counter_spec(),
        Some(q) => {
            let i = rep_position(stream.representations_spec(), q);
            if i >= 0 {
                stream.representations_spec()[i].1.counter_spec()
            } else {
                0
            }
        },
    }
}

/// The counter value after `n` is handed out; counters wrap.
pub open spec fn next_count(n: u32) -> u32 {
    if n == u32::MAX {
        0
    } else {
        (n + 1) as u32
    }
}

/// Where quality `q` stands after `Stream::representation(q)`, whatever the
/// caller then does to it.
proof fn lemma_positions_after_representation(reps: Seq<(u32, Representation)>, q: u32)
    ensures
        -1 <= rep_position(reps, q) < reps.len(),
        rep_position(reps, q) >= 0 ==> reps[rep_position(reps, q)].0 == q,
        rep_position(reps, q) >= 0 ==> forall|x: Representation| #[trigger] rep_position(
            reps.update(rep_position(reps, q), (q, x)),
            q,
        ) == rep_position(reps, q),
        rep_position(reps, q) < 0 ==> forall|x: Representation| #[trigger] rep_position(
            reps.push((q, x)),
            q,
        ) == reps.len(),
{
    crate::stream::lemma_rep_position_bounds(reps, q);
    if rep_position(reps, q) >= 0 {
        assert forall|x: Representation| #[trigger] rep_position(
            reps.update(rep_position(reps, q), (q, x)),
            q,
        ) == rep_position(reps, q) by {
            lemma_rep_position_update(reps, q, x);
        }
    } else {
        assert forall|x: Representation| #[trigger] rep_position(reps.push((q, x)), q)
            == reps.len() by {
            assert(reps.push((q, x)).drop_last() =~= reps);
        }
    }
}

/// Draws the upload's sequence number and opens its record, which starts
/// `time_offset` ms after the stream did. Returns the storage name and the
/// record.
pub fn begin_upload(stream: &mut Stream, params: &RequestParams, path: String, time_offset: u32) -> (r: (
    String,
    FileMetadata,
))
    ensures
        r.0@ == filename_of(
            params.stream_name@,
            params.quality_idx,
            params.segment,
            params.is_manifest,
            drawn_number(*old(stream), params.quality_idx),
        ),
        r.1@ == (path@, r.0@, params.segment, time_offset, 0usize, Seq::<(u32, usize, usize)>::empty()),
        final(stream).manifests_spec() == old(stream).manifests_spec(),
        params.quality_idx is None ==> final(stream).counter_spec() == next_count(
            old(stream).counter_spec(),
        ) && final(stream).representations_spec() == old(stream).representations_spec(),
        params.quality_idx is Some ==> {
            let q = params.quality_idx->Some_0;
            let reps = final(stream).representations_spec();
            let i = rep_position(reps, q);
            &&& final(stream).counter_spec() == old(stream).counter_spec()
            &&& 0 <= i < reps.len()
            &&& reps[i].1.counter_spec() == next_count(drawn_number(*old(stream), params.quality_idx))
        },
{
    proof {
        if let Some(q) = params.quality_idx {
            lemma_positions_after_representation(old(stream).representations_spec(), q);
        }
    }
    let seq = match params.quality_idx {
        None => stream.next_number(),
        Some(q) => stream.representation(q).next_number(),
    };
    let filename = params.format_filename(seq);
    let meta = FileMetadata::new(time_offset, path, filename.clone(), params.segment);
    (filename, meta)
}

/// Records a chunk of `size` bytes received `time_offset` ms into the upload,
/// placed right after the bytes received before it.
pub fn record_chunk(meta: &mut FileMetadata, time_offset: u32, size: usize)
    requires
        old(meta).size + size <= usize::MAX,
    ensures
        final(meta).chunks@ == old(meta).chunks@.push((time_offset, old(meta).size, size)),
        final(meta).size == old(meta).size + size,
        final(meta).path == old(meta).path,
        final(meta).file_name == old(meta).file_name,
        final(meta).segment == old(meta).segment,
        final(meta).time_offset == old(meta).time_offset,
{
    let offset = meta.size;
    meta.add_chunk(time_offset, offset, size);
}

/// Files the finished record: manifests in order, the initialization segment
/// of a quality in its place, media segments after the earlier ones.
pub fn finish_upload(stream: &mut Stream, params: &RequestParams, meta: FileMetadata)
    ensures
        params.is_manifest ==> final(stream).manifests_spec() == old(stream).manifests_spec().push(meta@)
            && final(stream).representations_spec() == old(stream).representations_spec(),
        !params.is_manifest && params.quality_idx is None ==> final(stream).manifests_spec()
            == old(stream).manifests_spec() && final(stream).representations_spec()
            == old(stream).representations_spec(),
        !params.is_manifest && params.quality_idx is Some ==> {
            let q = params.quality_idx->Some_0;
            let reps = final(stream).representations_spec();
            let i = rep_position(reps, q);
            &&& final(stream).manifests_spec() == old(stream).manifests_spec()
            &&& 0 <= i < reps.len()
            &&& if params.is_init {
                reps[i].1.init_spec() == Some(meta@)
            } else {
                reps[i].1.segments_spec().len() > 0 && reps[i].1.segments_spec().last() == meta@
            }
        },
{
    if params.is_manifest {
        stream.add_manifest(meta);
    } else if let Some(q) = params.quality_idx {
        proof {
            lemma_positions_after_representation(old(stream).representations_spec(), q);
        }
        let representation = stream.representation(q);
        if params.is_init {
            representation.set_init(meta);
        } else {
            representation.add_file(meta);
        }
    }
}

proof fn lemma_rep_position_update(reps: Seq<(u32, Representation)>, q: u32, x: Representation)
    requires
        rep_position(reps, q) >= 0,
    ensures
        rep_position(reps.update(rep_position(reps, q), (q, x)), q) == rep_position(reps, q),
    decreases reps.len(),
{
    let i = rep_position(reps, q);
    let updated = reps.update(i, (q, x));
    if reps.last().0 != q {
        lemma_rep_position_update(reps.drop_last(), q, x);
        crate::stream::lemma_rep_position_bounds(reps.drop_last(), q);
        assert(updated.drop_last() =~= reps.drop_last().update(i, (q, x)));
    }
}

/// The status of the answer once the upload has been stored, or has failed to be.
pub fn upload_status(stored: bool) -> (r: u16)
    ensures
        r == if stored {
            STATUS_OK
        } else {
            STATUS_INTERNAL_SERVER_ERROR
        },
{
    if stored {
        STATUS_OK
    } else {
        STATUS_INTERNAL_SERVER_ERROR
    }
}

/// A stream is inactive once more than `timeout_ms` passed since its last
/// chunk; a last write stamped after `elapsed_ms` counts as no time passed.
pub fn is_inactive(elapsed_ms: u64, last_write_ms: u64, timeout_ms: u64) -> (r: bool)
    ensures
        r == (elapsed_ms > last_write_ms && elapsed_ms - last_write_ms > timeout_ms),
{
    elapsed_ms > last_write_ms && elapsed_ms - last_write_ms > timeout_ms
}

} // verus!
