//! Blob uploads: chunks received for an image, put together when the upload
//! completes.

use vstd::prelude::*;
use vstd::string::*;

use crate::containers::error::{error_code_message, Error, ErrorCode};
use crate::containers::name::{Name, NameView};
use crate::containers::storage::{chunk_key, chunk_key_text};
use crate::guid::{is_uuid_char, random_uuid, Guid, GuidView};
use crate::text::{decimal, usize_to_decimal, find_char, first_index, last_index, lemma_first_index_unique,
    lemma_last_index_unique, parse_usize, rfind_char, substring, usize_text};

verus! {

/// A chunk of an upload: the byte range it covers, where it is stored, and,
/// while it is being received, its content.
#[derive(Debug)]
pub struct UploadChunk {
    start_range: usize,
    end_range: usize,
    storage_key: Option<String>,
    content: Vec<u8>,
}

/// The abstract value of an [`UploadChunk`].
pub struct UploadChunkView {
    pub start_range: usize,
    pub end_range: usize,
    pub storage_key: Option<Seq<char>>,
    pub content: Seq<u8>,
}

impl View for UploadChunk {
    type V = UploadChunkView;

    closed spec fn view(&self) -> UploadChunkView {
        UploadChunkView {
            start_range: self.start_range,
            end_range: self.end_range,
            storage_key: self.storage_key.deep_view(),
            content: self.content@,
        }
    }
}

/// A request header as the upload logic reads it.
pub enum HeaderText {
    /// The header is not in the request.
    Absent,
    /// The header is there but is not visible ASCII text.
    NotText,
    /// The header's text.
    Text(String),
}

/// The part of a `Content-Range` value before its first `-` (all of it
/// without `-`).
pub open spec fn range_start_text(v: Seq<char>) -> Seq<char> {
    if v.contains('-') {
        v.subrange(0, first_index(v, '-'))
    } else {
        v
    }
}

/// The part of a `Content-Range` value after its last `-` (all of it
/// without `-`).
pub open spec fn range_end_text(v: Seq<char>) -> Seq<char> {
    if v.contains('-') {
        v.subrange(last_index(v, '-') + 1, v.len() as int)
    } else {
        v
    }
}

/// The headers that a chunk is read from hold numbers where they are read:
/// a textual `Content-Length` is a number, and so are both ends of a textual
/// `Content-Range` that comes with one.
pub open spec fn chunk_headers_readable(content_length: HeaderText, content_range: HeaderText) -> bool {
    match content_length {
        HeaderText::Text(cl) => {
            &&& usize_text(cl@) is Some
            &&& content_range matches HeaderText::Text(v) ==> {
                &&& usize_text(range_start_text(v@)) is Some
                &&& usize_text(range_end_text(v@)) is Some
            }
        },
        _ => true,
    }
}

/// Splits a `Content-Range` value into its two ends.
fn range_ends(v: &str) -> (r: (String, String))
    ensures
        r.0@ == range_start_text(v@),
        r.1@ == range_end_text(v@),
{
    match find_char(v, '-') {
        Some(first) => {
            let last = match rfind_char(v, '-') {
                Some(k) => k,
                None => first,
            };
            proof {
                lemma_first_index_unique(v@, '-', first as int);
                lemma_last_index_unique(v@, '-', last as int);
            }
            let n = v.unicode_len();
            (substring(v, 0, first), substring(v, last + 1, n))
        },
        None => (String::from_str(v), String::from_str(v)),
    }
}

impl UploadChunk {
    /// A chunk over the given byte range, not stored yet.
    pub fn new(start_range: usize, end_range: usize, content: Vec<u8>) -> (r: UploadChunk)
        ensures
            r@.start_range == start_range,
            r@.end_range == end_range,
            r@.storage_key == None::<Seq<char>>,
            r@.content == content@,
    {
        UploadChunk { start_range, end_range, storage_key: None, content }
    }

    /// A stored chunk over the given byte range, without content.
    pub fn stored(start_range: usize, end_range: usize, storage_key: Option<String>) -> (r: UploadChunk)
        ensures
            r@.start_range == start_range,
            r@.end_range == end_range,
            r@.storage_key == storage_key.deep_view(),
            r@.content == Seq::<u8>::empty(),
    {
        UploadChunk { start_range, end_range, storage_key, content: Vec::new() }
    }

    /// Where the chunk is stored, once it is.
    pub fn storage_key(&self) -> (r: Option<&String>)
        ensures
            match r {
                Some(k) => self@.storage_key == Some(k@),
                None => self@.storage_key is None,
            },
    {
        self.storage_key.as_ref()
    }

    /// The first byte offset that the chunk covers.
    pub fn start_range(&self) -> (r: usize)
        ensures
            r == self@.start_range,
    {
        self.start_range
    }

    /// The end of the byte range that the chunk covers.
    pub fn end_range(&self) -> (r: usize)
        ensures
            r == self@.end_range,
    {
        self.end_range
    }

    /// Takes the content out of the chunk, leaving it empty.
    pub fn take_content(&mut self) -> (r: Vec<u8>)
        ensures
            r@ == old(self)@.content,
            final(self)@.content == Seq::<u8>::empty(),
            final(self)@.start_range == old(self)@.start_range,
            final(self)@.end_range == old(self)@.end_range,
            final(self)@.storage_key == old(self)@.storage_key,
    {
        let mut taken: Vec<u8> = Vec::new();
        std::mem::swap(&mut taken, &mut self.content);
        taken
    }

    /// Reads a chunk from its request: the byte range comes from
    /// `Content-Range` (`start-end`), or is `0` to `Content-Length` without
    /// that header. A missing `Content-Length`, or a header that is not
    /// text, is refused as unsupported.
    pub fn from_request(content_length: HeaderText, content_range: HeaderText, body: Vec<u8>) -> (r: Result<UploadChunk, Error>)
        requires
            chunk_headers_readable(content_length, content_range),
        ensures
            match content_length {
                HeaderText::Absent => r matches Err(e) && e@.code == ErrorCode::Unsupported
                    && e@.message == "Content-Length header is missing"@,
                HeaderText::NotText => r matches Err(e) && e@.code == ErrorCode::Unsupported
                    && e@.message == error_code_message(ErrorCode::Unsupported),
                HeaderText::Text(cl) => match content_range {
                    HeaderText::Absent => r matches Ok(c) && c@.start_range == 0 && c@.end_range
                        == usize_text(cl@)->0 && c@.storage_key is None && c@.content == body@,
                    HeaderText::NotText => r matches Err(e) && e@.code == ErrorCode::Unsupported
                        && e@.message == error_code_message(ErrorCode::Unsupported),
                    HeaderText::Text(v) => r matches Ok(c) && c@.start_range == usize_text(
                        range_start_text(v@),
                    )->0 && c@.end_range == usize_text(range_end_text(v@))->0
                        && c@.storage_key is None && c@.content == body@,
                },
            },
    {
        let length = match content_length {
            HeaderText::Absent => {
                return Err(Error::new(ErrorCode::Unsupported, "Content-Length header is missing"));
            },
            HeaderText::NotText => {
                return Err(Error::from_code(ErrorCode::Unsupported));
            },
            HeaderText::Text(cl) => match parse_usize(cl.as_str()) {
                Some(n) => n,
                None => {
                    return Err(Error::from_code(ErrorCode::Unsupported));
                },
            },
        };
        match content_range {
            HeaderText::Absent => Ok(UploadChunk::new(0, length, body)),
            HeaderText::NotText => Err(Error::from_code(ErrorCode::Unsupported)),
            HeaderText::Text(v) => {
                let (start_text, end_text) = range_ends(v.as_str());
                let start = match parse_usize(start_text.as_str()) {
                    Some(n) => n,
                    None => {
                        return Err(Error::from_code(ErrorCode::Unsupported));
                    },
                };
                let end = match parse_usize(end_text.as_str()) {
                    Some(n) => n,
                    None => {
                        return Err(Error::from_code(ErrorCode::Unsupported));
                    },
                };
                Ok(UploadChunk::new(start, end, body))
            },
        }
    }
}

/// An upload in progress: the image it is for, the chunks received so far
/// and the offset that the latest chunk ended at.
#[derive(Debug)]
pub struct Upload {
    id: Guid,
    rev: Option<String>,
    image: Name,
    chunks: Vec<UploadChunk>,
    latest_offset: usize,
}

/// The abstract value of an [`Upload`].
pub struct UploadView {
    pub id: GuidView,
    pub rev: Option<Seq<char>>,
    pub image: NameView,
    pub chunks: Seq<UploadChunkView>,
    pub latest_offset: usize,
}

impl View for Upload {
    type V = UploadView;

    closed spec fn view(&self) -> UploadView {
        UploadView {
            id: self.id@,
            rev: self.rev.deep_view(),
            image: self.image@,
            chunks: self.chunks@.map_values(|c: UploadChunk| c@),
            latest_offset: self.latest_offset,
        }
    }
}

/// `order` lists every chunk once, by increasing start offset.
pub open spec fn is_offset_order(chunks: Seq<UploadChunkView>, order: Seq<usize>) -> bool {
    &&& order.len() == chunks.len()
    &&& order.no_duplicates()
    &&& forall|i: int| 0 <= i < order.len() ==> #[trigger] order[i] < chunks.len()
    &&& forall|i: int, j: int|
        0 <= i < j < order.len() ==> chunks[order[i] as int].start_range <= chunks[order[j] as int].start_range
}

/// The upload that adding chunk `c` to `u` makes: the chunk, stored under
/// the chunk key of its start offset, comes last, and the offset moves to
/// the chunk's end.
pub open spec fn with_chunk(u: UploadView, c: UploadChunkView) -> UploadView {
    UploadView {
        chunks: u.chunks.push(UploadChunkView { storage_key: Some(chunk_key_text(u.id.id, c.start_range)), ..c }),
        latest_offset: c.end_range,
        ..u
    }
}

/// The upload that adding the chunks `cs` to `u`, in their order, makes.
pub open spec fn with_chunks(u: UploadView, cs: Seq<UploadChunkView>) -> UploadView
    decreases cs.len(),
{
    if cs.len() == 0 {
        u
    } else {
        with_chunk(with_chunks(u, cs.drop_last()), cs.last())
    }
}

/// After a run of chunks is added to an upload, its offset is the end of
/// the last chunk added (not the largest end), or what it was when none was
/// added (0 for a started upload); the upload keeps its id, revision and
/// image, and holds one more chunk for each added.
pub proof fn lemma_latest_offset_after_run(u: UploadView, cs: Seq<UploadChunkView>)
    ensures
        with_chunks(u, cs).latest_offset == if cs.len() == 0 {
            u.latest_offset
        } else {
            cs.last().end_range
        },
        with_chunks(u, cs).id == u.id,
        with_chunks(u, cs).rev == u.rev,
        with_chunks(u, cs).image == u.image,
        with_chunks(u, cs).chunks.len() == u.chunks.len() + cs.len(),
    decreases cs.len(),
{
    if cs.len() > 0 {
        lemma_latest_offset_after_run(u, cs.drop_last());
    }
}

/// Every chunk is stored.
pub open spec fn all_chunks_stored(chunks: Seq<UploadChunkView>) -> bool {
    forall|i: int| 0 <= i < chunks.len() ==> (#[trigger] chunks[i]).storage_key is Some
}

impl Upload {
    /// The guid of the upload with the given id.
    pub fn build_guid(uuid: &str) -> (r: Guid)
        ensures
            r@.partition == Some("upload"@),
            r@.id == uuid@,
    {
        proof {
            reveal_strlit("upload");
        }
        Guid::partitioned("upload", uuid)
    }

    /// A new upload for an image, under a random id, without chunks.
    pub fn start(image: Name) -> (r: Upload)
        ensures
            r@.id.partition == Some("upload"@),
            r@.id.id.len() == 36,
            forall|i: int| 0 <= i < r@.id.id.len() ==> is_uuid_char(#[trigger] r@.id.id[i]),
            r@.rev == None::<Seq<char>>,
            r@.image == image@,
            r@.chunks == Seq::<UploadChunkView>::empty(),
            r@.latest_offset == 0,
    {
        let uuid = random_uuid();
        let id = Upload::build_guid(uuid.as_str());
        let r = Upload { id, rev: None, image, chunks: Vec::new(), latest_offset: 0 };
        assert(r@.chunks =~= Seq::<UploadChunkView>::empty());
        r
    }

    /// An upload made of stored parts.
    pub fn from_parts(id: Guid, rev: Option<String>, image: Name, chunks: Vec<UploadChunk>, latest_offset: usize) -> (r: Upload)
        ensures
            r@.id == id@,
            r@.rev == rev.deep_view(),
            r@.image == image@,
            r@.chunks == chunks@.map_values(|c: UploadChunk| c@),
            r@.latest_offset == latest_offset,
    {
        Upload { id, rev, image, chunks, latest_offset }
    }

    /// The guid of the upload.
    pub fn id(&self) -> (r: &Guid)
        ensures
            r@ == self@.id,
    {
        &self.id
    }

    /// The revision of the stored document, once stored.
    pub fn rev(&self) -> (r: Option<String>)
        ensures
            r.deep_view() == self@.rev,
    {
        match &self.rev {
            Some(v) => Some(v.clone()),
            None => None,
        }
    }

    /// Records the revision of the stored document.
    pub fn set_rev(&mut self, rev: String)
        ensures
            final(self)@.rev == Some(rev@),
            final(self)@.id == old(self)@.id,
            final(self)@.image == old(self)@.image,
            final(self)@.chunks == old(self)@.chunks,
            final(self)@.latest_offset == old(self)@.latest_offset,
    {
        self.rev = Some(rev);
    }

    /// The image the upload is for.
    pub fn image(&self) -> (r: &Name)
        ensures
            r@ == self@.image,
    {
        &self.image
    }

    /// The chunks received so far.
    pub fn chunks(&self) -> (r: &Vec<UploadChunk>)
        ensures
            r@.map_values(|c: UploadChunk| c@) == self@.chunks,
    {
        &self.chunks
    }

    /// The offset that the latest chunk ended at.
    pub fn latest_offset(&self) -> (r: usize)
        ensures
            r == self@.latest_offset,
    {
        self.latest_offset
    }

    /// Adds a received chunk: it is stored under the chunk key of its start
    /// offset, and the upload's offset moves to the chunk's end.
    pub fn add_chunk(&mut self, chunk: UploadChunk) -> (r: &mut Self)
        ensures
            r@.id == old(self)@.id,
            r@.rev == old(self)@.rev,
            r@.image == old(self)@.image,
            r@ == with_chunk(old(self)@, chunk@),
            r@.latest_offset == chunk@.end_range,
            r@.chunks == old(self)@.chunks.push(
                UploadChunkView {
                    storage_key: Some(chunk_key_text(old(self)@.id.id, chunk@.start_range)),
                    ..chunk@
                },
            ),
            *final(self) == *final(r),
    {
        let mut chunk = chunk;
        let key = chunk_key(self.id.id(), chunk.start_range);
        chunk.storage_key = Some(key);
        self.latest_offset = chunk.end_range;
        let ghost before = self.chunks@;
        self.chunks.push(chunk);
        assert(self.chunks@.map_values(|c: UploadChunk| c@) =~= before.map_values(
            |c: UploadChunk| c@,
        ).push(chunk@));
        self
    }

    /// The chunks by increasing start offset: the position of each chunk in
    /// `chunks`, listed in that order.
    pub fn chunk_order(&self) -> (r: Vec<usize>)
        ensures
            is_offset_order(self@.chunks, r@),
    {
        let n = self.chunks.len();
        let ghost chunks = self@.chunks;
        let mut order: Vec<usize> = Vec::new();
        let mut i: usize = 0;
        while i < n
            invariant
                n == self.chunks.len(),
                chunks == self@.chunks,
                chunks.len() == n,
                i <= n,
                order@.len() == i,
                order@.no_duplicates(),
                forall|k: int| 0 <= k < order@.len() ==> #[trigger] order@[k] < i,
                forall|a: int, b: int|
                    0 <= a < b < order@.len() ==> chunks[order@[a] as int].start_range
                        <= chunks[order@[b] as int].start_range,
            decreases n - i,
        {
            let start = self.chunks[i].start_range;
            assert(chunks[i as int].start_range == start);
            let mut j: usize = 0;
            while j < order.len() && self.chunks[order[j]].start_range <= start
                invariant
                    n == self.chunks.len(),
                    chunks == self@.chunks,
                    chunks.len() == n,
                    i < n,
                    chunks[i as int].start_range == start,
                    j <= order@.len(),
                    forall|k: int| 0 <= k < order@.len() ==> #[trigger] order@[k] < i,
                    forall|k: int| 0 <= k < j ==> chunks[order@[k] as int].start_range <= start,
                decreases order@.len() - j,
            {
                assert(chunks[order@[j as int] as int].start_range == self.chunks[order[j as int] as int].start_range);
                j = j + 1;
            }
            proof {
                if j < order@.len() {
                    assert(chunks[order@[j as int] as int].start_range > start);
                }
            }
            let ghost prev = order@;
            order.insert(j, i);
            proof {
                lemma_insert_keeps_order(chunks, prev, j as int, i);
            }
            i = i + 1;
        }
        order
    }

    /// The storage keys of the chunks in the given order.
    pub fn chunk_keys_in(&self, order: &Vec<usize>) -> (r: Vec<String>)
        requires
            all_chunks_stored(self@.chunks),
            forall|i: int| 0 <= i < order@.len() ==> #[trigger] order@[i] < self@.chunks.len(),
        ensures
            r@.len() == order@.len(),
            forall|i: int|
                0 <= i < order@.len() ==> Some((#[trigger] r@[i])@)
                    == self@.chunks[order@[i] as int].storage_key,
    {
        let n = order.len();
        let mut keys: Vec<String> = Vec::new();
        let mut i: usize = 0;
        while i < n
            invariant
                n == order@.len(),
                i <= n,
                all_chunks_stored(self@.chunks),
                forall|k: int| 0 <= k < order@.len() ==> #[trigger] order@[k] < self@.chunks.len(),
                keys@.len() == i,
                forall|k: int|
                    0 <= k < i ==> Some((#[trigger] keys@[k])@) == self@.chunks[order@[k] as int].storage_key,
            decreases n - i,
        {
            let c = &self.chunks[order[i]];
            assert(self@.chunks[order@[i as int] as int] == c@);
            assert(self@.chunks[order@[i as int] as int].storage_key is Some);
            let key = match &c.storage_key {
                Some(k) => k.clone(),
                None => String::new(),
            };
            keys.push(key);
            i = i + 1;
        }
        keys
    }
}

/// Inserting chunk `x` at the first position whose chunk starts after it
/// keeps the order sorted and without repetitions.
proof fn lemma_insert_keeps_order(chunks: Seq<UploadChunkView>, prev: Seq<usize>, j: int, x: usize)
    requires
        0 <= j <= prev.len(),
        x < chunks.len(),
        prev.no_duplicates(),
        forall|k: int| 0 <= k < prev.len() ==> #[trigger] prev[k] < x,
        forall|a: int, b: int|
            0 <= a < b < prev.len() ==> chunks[prev[a] as int].start_range <= chunks[prev[b] as int].start_range,
        forall|k: int| 0 <= k < j ==> chunks[prev[k] as int].start_range <= chunks[x as int].start_range,
        j < prev.len() ==> chunks[prev[j] as int].start_range > chunks[x as int].start_range,
    ensures
        prev.insert(j, x).no_duplicates(),
        forall|k: int| 0 <= k < prev.insert(j, x).len() ==> #[trigger] prev.insert(j, x)[k] < x + 1,
        forall|a: int, b: int|
            0 <= a < b < prev.insert(j, x).len() ==> chunks[prev.insert(j, x)[a] as int].start_range
                <= chunks[prev.insert(j, x)[b] as int].start_range,
{
    let q = prev.insert(j, x);
    assert(q.len() == prev.len() + 1);
    assert forall|k: int| 0 <= k < q.len() implies #[trigger] q[k] < x + 1 by {
        if k < j {
            assert(q[k] == prev[k]);
        } else if k > j {
            assert(q[k] == prev[k - 1]);
        }
    }
    assert forall|a: int, b: int| 0 <= a < q.len() && 0 <= b < q.len() && a != b implies q[a] != q[b] by {
        if a < j && b < j {
            assert(q[a] == prev[a] && q[b] == prev[b]);
        } else if a > j && b > j {
            assert(q[a] == prev[a - 1] && q[b] == prev[b - 1]);
        } else if a < j && b > j {
            assert(q[a] == prev[a] && q[b] == prev[b - 1]);
        } else if a > j && b < j {
            assert(q[a] == prev[a - 1] && q[b] == prev[b]);
        } else if a == j {
            if b < j {
                assert(q[b] == prev[b]);
            } else {
                assert(q[b] == prev[b - 1]);
            }
        } else {
            if a < j {
                assert(q[a] == prev[a]);
            } else {
                assert(q[a] == prev[a - 1]);
            }
        }
    }
    assert forall|a: int, b: int| 0 <= a < b < q.len() implies chunks[q[a] as int].start_range
        <= chunks[q[b] as int].start_range by {
        if b < j {
            assert(q[a] == prev[a] && q[b] == prev[b]);
        } else if a > j {
            assert(q[a] == prev[a - 1] && q[b] == prev[b - 1]);
        } else if a < j && b > j {
            assert(q[a] == prev[a] && q[b] == prev[b - 1]);
            assert(chunks[prev[j] as int].start_range > chunks[x as int].start_range);
            if b - 1 > j {
                assert(chunks[prev[j] as int].start_range <= chunks[prev[b - 1] as int].start_range);
            }
        } else if a == j {
            assert(q[a] == x);
            assert(q[b] == prev[b - 1]);
            assert(chunks[prev[j] as int].start_range > chunks[x as int].start_range);
            if b - 1 > j {
                assert(chunks[prev[j] as int].start_range <= chunks[prev[b - 1] as int].start_range);
            }
        } else {
            assert(b == j);
            assert(q[a] == prev[a]);
            assert(q[b] == x);
        }
    }
}

/// The bytes of the parts one after the other.
pub open spec fn concat_all(parts: Seq<Seq<u8>>) -> Seq<u8>
    decreases parts.len(),
{
    if parts.len() == 0 {
        Seq::empty()
    } else {
        concat_all(parts.drop_last()) + parts.last()
    }
}

/// The blob that completes an upload: the contents of its stored chunks,
/// in the order given, followed by the content of the final chunk.
pub fn assemble_blob(parts: Vec<Vec<u8>>, last: Vec<u8>) -> (r: Vec<u8>)
    ensures
        r@ == concat_all(parts@.map_values(|p: Vec<u8>| p@)) + last@,
{
    let mut buf: Vec<u8> = Vec::new();
    let mut parts = parts;
    let ghost all = parts@.map_values(|p: Vec<u8>| p@);
    let n = parts.len();
    let mut i: usize = 0;
    while i < n
        invariant
            n == parts.len(),
            i <= n,
            all == parts@.map_values(|p: Vec<u8>| p@),
            buf@ == concat_all(all.take(i as int)),
        decreases n - i,
    {
        let ghost before = buf@;
        let mut part = parts[i].clone();
        assert(part@ == all[i as int]);
        buf.append(&mut part);
        assert(all.take(i + 1).drop_last() =~= all.take(i as int));
        assert(buf@ =~= concat_all(all.take(i + 1)));
        i = i + 1;
    }
    assert(all.take(n as int) =~= all);
    let mut last = last;
    let ghost last_bytes = last@;
    buf.append(&mut last);
    assert(buf@ =~= concat_all(all) + last_bytes);
    buf
}

/// The upload found under an id; `BlobUploadUnknown` when there is none.
pub fn upload_found(found: Option<Upload>) -> (r: Result<Upload, Error>)
    ensures
        match found {
            Some(u) => r matches Ok(x) && x@ == u@,
            None => r matches Err(e) && e@.code == ErrorCode::BlobUploadUnknown && e@.message
                == error_code_message(ErrorCode::BlobUploadUnknown),
        },
{
    match found {
        Some(u) => Ok(u),
        None => Err(Error::from_code(ErrorCode::BlobUploadUnknown)),
    }
}

/// The `Range` header that tells how much of an upload was received:
/// `bytes=0-<latest offset>`.
pub fn range_header(upload: &Upload) -> (r: String)
    ensures
        r@ == "bytes=0-"@ + decimal(upload@.latest_offset as nat),
{
    let offset = usize_to_decimal(upload.latest_offset());
    String::from_str("bytes=0-").concat(offset.as_str())
}

} // verus!
