//! The records the recorder keeps of a stream and writes out as its manifest
//! of uploads: one record per uploaded file, with the chunks it arrived in.

use vstd::prelude::*;

verus! {

/// The timing and placement of the chunks of one file:
/// (time offset in ms, byte offset, size in bytes).
pub type ChunkRecord = (u32, usize, usize);

/// Metadata for one uploaded file.
pub struct FileMetadata {
    pub path: String,
    pub file_name: String,
    /// The segment number; `None` for an initialization segment or a manifest.
    pub segment: Option<u32>,
    /// Milliseconds from the start of the stream.
    pub time_offset: u32,
    /// Total size in bytes.
    pub size: usize,
    pub chunks: Vec<ChunkRecord>,
}

pub type FileMetadataView = (Seq<char>, Seq<char>, Option<u32>, u32, usize, Seq<ChunkRecord>);

impl View for FileMetadata {
    type V = FileMetadataView;

    open spec fn view(&self) -> FileMetadataView {
        (self.path@, self.file_name@, self.segment, self.time_offset, self.size, self.chunks@)
    }
}

pub open spec fn files_view(files: Seq<FileMetadata>) -> Seq<FileMetadataView> {
    files.map_values(|f: FileMetadata| f@)
}

pub open spec fn option_file_view(f: Option<FileMetadata>) -> Option<FileMetadataView> {
    match f {
        Some(f) => Some(f@),
        None => None,
    }
}

/// The total size of the recorded chunks.
pub open spec fn chunks_size(chunks: Seq<ChunkRecord>) -> int
    decreases chunks.len(),
{
    if chunks.len() == 0 {
        0
    } else {
        chunks_size(chunks.drop_last()) + chunks.last().2
    }
}

impl FileMetadata {
    /// A record with no chunks yet.
    pub fn new(offset: u32, path: String, file_name: String, segment: Option<u32>) -> (r:
        FileMetadata)
        ensures
            r@ == (path@, file_name@, segment, offset, 0usize, Seq::<ChunkRecord>::empty()),
    {
        FileMetadata { file_name, path, segment, chunks: Vec::new(), time_offset: offset, size: 0 }
    }

    /// Records a chunk and adds its size to the total.
    pub fn add_chunk(&mut self, time_offset: u32, byte_offset: usize, size: usize)
        requires
            old(self).size + size <= usize::MAX,
        ensures
            final(self).chunks@ == old(self).chunks@.push((time_offset, byte_offset, size)),
            final(self).size == old(self).size + size,
            final(self).path == old(self).path,
            final(self).file_name == old(self).file_name,
            final(self).segment == old(self).segment,
            final(self).time_offset == old(self).time_offset,
    {
        self.chunks.push((time_offset, byte_offset, size));
        self.size = self.size + size;
    }

    /// An independent copy of the record.
    pub fn duplicate(&self) -> (r: FileMetadata)
        ensures
            r@ == self@,
    {
        let mut chunks: Vec<ChunkRecord> = Vec::new();
        let mut i: usize = 0;
        while i < self.chunks.len()
            invariant
                i <= self.chunks@.len(),
                chunks@ == self.chunks@.take(i as int),
            decreases self.chunks@.len() - i,
        {
            chunks.push(self.chunks[i]);
            assert(chunks@ =~= self.chunks@.take(i + 1));
            i = i + 1;
        }
        assert(chunks@ =~= self.chunks@);
        FileMetadata {
            path: self.path.clone(),
            file_name: self.file_name.clone(),
            segment: self.segment,
            time_offset: self.time_offset,
            size: self.size,
            chunks,
        }
    }
}

/// Copies of all records, in order.
pub fn duplicate_files(files: &Vec<FileMetadata>) -> (r: Vec<FileMetadata>)
    ensures
        files_view(r@) == files_view(files@),
{
    let mut out: Vec<FileMetadata> = Vec::new();
    let mut i: usize = 0;
    while i < files.len()
        invariant
            i <= files@.len(),
            out@.len() == i,
            forall|k: int| 0 <= k < i ==> (#[trigger] out@[k])@ == files@[k]@,
        decreases files@.len() - i,
    {
        let copy = files[i].duplicate();
        out.push(copy);
        i = i + 1;
    }
    assert(files_view(out@) =~= files_view(files@));
    out
}

/// Metadata for one quality of a stream.
pub struct RepresentationMetadata {
    pub idx: u32,
    pub init: Option<FileMetadata>,
    pub segments: Vec<FileMetadata>,
}

/// Metadata for a whole stream, as written next to its files.
pub struct StreamMetadata {
    pub name: String,
    pub manifests: Vec<FileMetadata>,
    pub representations: Vec<RepresentationMetadata>,
}

} // verus!
