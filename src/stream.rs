//! What the recorder knows of one stream while it is being uploaded: its
//! manifests, its qualities with their initialization and media segments, and
//! the counters that number the uploads.

use vstd::prelude::*;
use crate::metadata::{
    FileMetadata, FileMetadataView, RepresentationMetadata, StreamMetadata, duplicate_files,
    files_view, option_file_view,
};

verus! {

/// One quality variant of a stream.
pub struct Representation {
    counter: u32,
    init: Option<FileMetadata>,
    segments: Vec<FileMetadata>,
}

impl Representation {
    pub closed spec fn counter_spec(&self) -> u32 {
        self.counter
    }

    pub closed spec fn init_spec(&self) -> Option<FileMetadataView> {
        option_file_view(self.init)
    }

    pub closed spec fn segments_spec(&self) -> Seq<FileMetadataView> {
        files_view(self.segments@)
    }

    pub open spec fn is_fresh(&self) -> bool {
        self.counter_spec() == 0 && self.init_spec() is None && self.segments_spec()
            == Seq::<FileMetadataView>::empty()
    }

    pub fn new() -> (r: Representation)
        ensures
            r.is_fresh(),
    {
        let r = Representation { init: None, counter: 0, segments: Vec::new() };
        assert(r.segments_spec() =~= Seq::<FileMetadataView>::empty());
        r
    }

    /// Hands out the next sequence number of this quality; the counter wraps.
    pub fn next_number(&mut self) -> (r: u32)
        ensures
            r == old(self).counter_spec(),
            final(self).counter_spec() == (if r == u32::MAX {
                0
            } else {
                (r + 1) as u32
            }),
            final(self).init_spec() == old(self).init_spec(),
            final(self).segments_spec() == old(self).segments_spec(),
    {
        let r = self.counter;
        self.counter = if r == u32::MAX {
            0
        } else {
            r + 1
        };
        r
    }

    /// Records the initialization segment, replacing an earlier one.
    pub fn set_init(&mut self, file: FileMetadata)
        ensures
            final(self).init_spec() == Some(file@),
            final(self).counter_spec() == old(self).counter_spec(),
            final(self).segments_spec() == old(self).segments_spec(),
    {
        self.init = Some(file);
    }

    /// Records a media segment after the ones recorded before.
    pub fn add_file(&mut self, file: FileMetadata)
        ensures
            final(self).segments_spec() == old(self).segments_spec().push(file@),
            final(self).counter_spec() == old(self).counter_spec(),
            final(self).init_spec() == old(self).init_spec(),
    {
        let ghost before = self.segments@;
        self.segments.push(file);
        assert(files_view(self.segments@) =~= files_view(before).push(file@));
    }

    /// Copies of the media segments recorded so far, in order.
    pub fn segments(&self) -> (r: Vec<FileMetadata>)
        ensures
            files_view(r@) == self.segments_spec(),
    {
        duplicate_files(&self.segments)
    }

    /// A copy of the initialization segment's record.
    pub fn init(&self) -> (r: Option<FileMetadata>)
        ensures
            option_file_view(r) == self.init_spec(),
    {
        match &self.init {
            Some(f) => Some(f.duplicate()),
            None => None,
        }
    }
}

/// The last position in `reps` that holds quality `idx`, or -1.
pub open spec fn rep_position(reps: Seq<(u32, Representation)>, idx: u32) -> int
    decreases reps.len(),
{
    if reps.len() == 0 {
        -1
    } else if reps.last().0 == idx {
        reps.len() - 1
    } else {
        rep_position(reps.drop_last(), idx)
    }
}

pub proof fn lemma_rep_position_bounds(reps: Seq<(u32, Representation)>, idx: u32)
    ensures
        -1 <= rep_position(reps, idx) < reps.len(),
        rep_position(reps, idx) >= 0 ==> reps[rep_position(reps, idx)].0 == idx,
    decreases reps.len(),
{
    if reps.len() > 0 && reps.last().0 != idx {
        lemma_rep_position_bounds(reps.drop_last(), idx);
    }
}

/// The metadata of one quality, as exported.
pub open spec fn representation_export(idx: u32, rep: Representation) -> (
    u32,
    Option<FileMetadataView>,
    Seq<FileMetadataView>,
) {
    (idx, rep.init_spec(), rep.segments_spec())
}

pub open spec fn representation_metadata_view(m: RepresentationMetadata) -> (
    u32,
    Option<FileMetadataView>,
    Seq<FileMetadataView>,
) {
    (m.idx, option_file_view(m.init), files_view(m.segments@))
}

/// One content stream with its quality variants.
pub struct Stream {
    id: String,
    /// Milliseconds from the stream's start to its last received chunk.
    last_write: u64,
    manifests: Vec<FileMetadata>,
    representations: Vec<(u32, Representation)>,
    counter: u32,
}

impl Stream {
    pub closed spec fn id_spec(&self) -> Seq<char> {
        self.id@
    }

    pub closed spec fn last_write_spec(&self) -> u64 {
        self.last_write
    }

    pub closed spec fn counter_spec(&self) -> u32 {
        self.counter
    }

    pub closed spec fn manifests_spec(&self) -> Seq<FileMetadataView> {
        files_view(self.manifests@)
    }

    /// The qualities in the order they were first named.
    pub closed spec fn representations_spec(&self) -> Seq<(u32, Representation)> {
        self.representations@
    }

    pub fn new(id: String) -> (r: Stream)
        ensures
            r.id_spec() == id@,
            r.last_write_spec() == 0,
            r.counter_spec() == 0,
            r.manifests_spec() == Seq::<FileMetadataView>::empty(),
            r.representations_spec() == Seq::<(u32, Representation)>::empty(),
    {
        let r = Stream {
            id,
            counter: 0,
            last_write: 0,
            manifests: Vec::new(),
            representations: Vec::new(),
        };
        assert(r.manifests_spec() =~= Seq::<FileMetadataView>::empty());
        r
    }

    pub fn id(&self) -> (r: &String)
        ensures
            r@ == self.id_spec(),
    {
        &self.id
    }

    pub fn last_write(&self) -> (r: u64)
        ensures
            r == self.last_write_spec(),
    {
        self.last_write
    }

    /// Hands out the next sequence number of the stream; the counter wraps.
    pub fn next_number(&mut self) -> (r: u32)
        ensures
            r == old(self).counter_spec(),
            final(self).counter_spec() == (if r == u32::MAX {
                0
            } else {
                (r + 1) as u32
            }),
            final(self).id_spec() == old(self).id_spec(),
            final(self).last_write_spec() == old(self).last_write_spec(),
            final(self).manifests_spec() == old(self).manifests_spec(),
            final(self).representations_spec() == old(self).representations_spec(),
    {
        let r = self.counter;
        self.counter = if r == u32::MAX {
            0
        } else {
            r + 1
        };
        r
    }

    /// The quality `idx` of the stream, added fresh if it was not known.
    pub fn representation(&mut self, idx: u32) -> (r: &mut Representation)
        ensures
            final(self).id_spec() == old(self).id_spec(),
            final(self).last_write_spec() == old(self).last_write_spec(),
            final(self).counter_spec() == old(self).counter_spec(),
            final(self).manifests_spec() == old(self).manifests_spec(),
            ({
                let reps = old(self).representations_spec();
                let i = rep_position(reps, idx);
                if i >= 0 {
                    &&& *r == reps[i].1
                    &&& final(self).representations_spec() == reps.update(i, (idx, *final(r)))
                } else {
                    &&& r.is_fresh()
                    &&& final(self).representations_spec() == reps.push((idx, *final(r)))
                }
            }),
    {
        let ghost reps = self.representations@;
        let mut i: usize = self.representations.len();
        assert(reps.take(i as int) =~= reps);
        while i > 0 && self.representations[i - 1].0 != idx
            invariant
                i <= reps.len(),
                reps == self.representations@,
                rep_position(reps, idx) == rep_position(reps.take(i as int), idx),
            decreases i,
        {
            assert(reps.take(i as int).drop_last() =~= reps.take(i - 1));
            i = i - 1;
        }
        proof {
            lemma_rep_position_bounds(reps, idx);
            if i > 0 {
                assert(reps.take(i as int).last() == reps[i - 1]);
            }
        }
        if i == 0 {
            self.representations.push((idx, Representation::new()));
            let last = self.representations.len() - 1;
            &mut self.representations[last].1
        } else {
            &mut self.representations[i - 1].1
        }
    }

    /// Records a manifest upload after the earlier ones.
    pub fn add_manifest(&mut self, file: FileMetadata)
        ensures
            final(self).manifests_spec() == old(self).manifests_spec().push(file@),
            final(self).id_spec() == old(self).id_spec(),
            final(self).last_write_spec() == old(self).last_write_spec(),
            final(self).counter_spec() == old(self).counter_spec(),
            final(self).representations_spec() == old(self).representations_spec(),
    {
        let ghost before = self.manifests@;
        self.manifests.push(file);
        assert(files_view(self.manifests@) =~= files_view(before).push(file@));
    }

    /// Notes that a chunk arrived `elapsed_ms` after the stream started.
    pub fn update_last_write(&mut self, elapsed_ms: u64)
        ensures
            final(self).last_write_spec() == elapsed_ms,
            final(self).id_spec() == old(self).id_spec(),
            final(self).counter_spec() == old(self).counter_spec(),
            final(self).manifests_spec() == old(self).manifests_spec(),
            final(self).representations_spec() == old(self).representations_spec(),
    {
        self.last_write = elapsed_ms;
    }

    /// A snapshot of everything recorded, qualities in the order they were
    /// first named and files in upload order.
    pub fn export_metadata(&self) -> (r: StreamMetadata)
        ensures
            r.name@ == self.id_spec(),
            files_view(r.manifests@) == self.manifests_spec(),
            r.representations@.len() == self.representations_spec().len(),
            forall|i: int|
                0 <= i < r.representations@.len() ==> representation_metadata_view(
                    #[trigger] r.representations@[i],
                ) == representation_export(
                    self.representations_spec()[i].0,
                    self.representations_spec()[i].1,
                ),
    {
        let mut representations: Vec<RepresentationMetadata> = Vec::new();
        let mut i: usize = 0;
        while i < self.representations.len()
            invariant
                i <= self.representations@.len(),
                representations@.len() == i,
                forall|k: int|
                    0 <= k < i ==> representation_metadata_view(#[trigger] representations@[k])
                        == representation_export(
                        self.representations@[k].0,
                        self.representations@[k].1,
                    ),
            decreases self.representations@.len() - i,
        {
            let (idx, rep) = (&self.representations[i].0, &self.representations[i].1);
            let meta = RepresentationMetadata { idx: *idx, init: rep.init(), segments: rep.segments() };
            representations.push(meta);
            i = i + 1;
        }
        StreamMetadata {
            name: self.id.clone(),
            manifests: duplicate_files(&self.manifests),
            representations,
        }
    }
}

} // verus!
