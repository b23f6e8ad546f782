//! Completing a blob upload: its stored chunks are fetched in the order of
//! their start offsets and deleted one by one, the blob made of them and
//! the final chunk is stored, and the upload is deleted.

use vstd::prelude::*;

use crate::containers::error::{error_code_message, Error, ErrorCode, ErrorView};
use crate::containers::storage::{blob_key, blob_key_text};
use crate::containers::upload::{
    all_chunks_stored, assemble_blob, concat_all, is_offset_order, Upload, UploadChunkView, UploadView,
};

verus! {

/// Where the completion of an upload stands.
#[derive(Debug)]
pub enum Completion {
    /// Nothing done yet.
    Start,
    /// The chunk stored under `keys[next]` is being fetched; `parts` holds
    /// the contents of the chunks before it.
    Fetching { keys: Vec<String>, next: usize, parts: Vec<Vec<u8>> },
    /// The chunk stored under `keys[next]` is being deleted; `parts` holds
    /// the contents of the chunks up to it.
    Deleting { keys: Vec<String>, next: usize, parts: Vec<Vec<u8>> },
    /// The blob is being stored.
    Storing,
    /// The upload is being deleted.
    DeletingUpload,
    /// Finished.
    Done,
}

/// What the completion of an upload is told.
#[derive(Debug)]
pub enum CompletionEvent {
    /// The completion begins.
    Started,
    /// The content of the chunk asked for, if the store holds it.
    ChunkFetched { content: Result<Option<Vec<u8>>, Error> },
    /// Whether the chunk was deleted.
    ChunkDeleted { outcome: Result<(), Error> },
    /// Whether the blob was stored.
    BlobStored { outcome: Result<(), Error> },
    /// Whether the upload was deleted.
    UploadDeleted { outcome: Result<(), Error> },
}

/// What the completion of an upload asks for next.
#[derive(Debug)]
pub enum CompletionAction {
    /// Fetch the chunk stored under this key.
    FetchChunk { key: String },
    /// Delete the chunk stored under this key.
    DeleteChunk { key: String },
    /// Store the blob under this key.
    StoreBlob { key: String, content: Vec<u8> },
    /// Delete the upload.
    DeleteUpload,
    /// The completion is over.
    Finish { result: Result<(), Error> },
}

/// The contents held so far, as byte sequences.
pub open spec fn parts_view(parts: Vec<Vec<u8>>) -> Seq<Seq<u8>> {
    parts@.map_values(|p: Vec<u8>| p@)
}

/// `keys` are the storage keys of the chunks, listed by increasing start
/// offset.
pub open spec fn keys_in_offset_order(chunks: Seq<UploadChunkView>, keys: Seq<Seq<char>>) -> bool {
    exists|order: Seq<usize>|
        #[trigger] is_offset_order(chunks, order) && keys.len() == order.len() && forall|i: int|
            0 <= i < keys.len() ==> Some(#[trigger] keys[i]) == chunks[order[i] as int].storage_key
}

/// Whether the completion in `state` waits for `event`.
pub open spec fn completion_expects(state: Completion, event: CompletionEvent) -> bool {
    match state {
        Completion::Start => event is Started,
        Completion::Fetching { .. } => event is ChunkFetched,
        Completion::Deleting { .. } => event is ChunkDeleted,
        Completion::Storing => event is BlobStored,
        Completion::DeletingUpload => event is UploadDeleted,
        Completion::Done => false,
    }
}

/// The completion is over with `result`.
pub open spec fn completion_finishes(next: Completion, action: CompletionAction, result: Result<(), ErrorView>) -> bool {
    &&& next is Done
    &&& action matches CompletionAction::Finish { result: r } && match (r, result) {
        (Ok(()), Ok(())) => true,
        (Err(x), Err(e)) => x@ == e,
        _ => false,
    }
}

/// The error of a chunk that the store does not hold.
pub open spec fn blob_unknown() -> ErrorView {
    ErrorView { code: ErrorCode::BlobUnknown, message: error_code_message(ErrorCode::BlobUnknown) }
}

/// Where the completion goes once the chunks before `keys[next]` are
/// fetched (their contents in `parts`) and deleted: it fetches the next
/// chunk, or, when none is left, stores the blob made of the parts and
/// the final chunk under the key of the digest.
pub open spec fn completion_goes_on(
    keys: Seq<Seq<char>>,
    next: int,
    parts: Seq<Seq<u8>>,
    digest: Seq<char>,
    last: Seq<u8>,
    state: Completion,
    action: CompletionAction,
) -> bool {
    if next < keys.len() {
        &&& state matches Completion::Fetching { keys: k, next: n, parts: p } && k.deep_view() == keys && n == next
            && parts_view(p) == parts
        &&& action matches CompletionAction::FetchChunk { key } && key@ == keys[next]
    } else {
        &&& state is Storing
        &&& action matches CompletionAction::StoreBlob { key, content } && key@ == blob_key_text(digest) && content@
            == concat_all(parts) + last
    }
}

/// Where the completion of `upload` goes from `state` on `event`, as
/// `(next, action)`. Each chunk is fetched and then deleted before the
/// next one, by increasing start offset; a chunk the store does not hold
/// fails the completion with `BlobUnknown`; then the blob is stored, and
/// the upload is deleted; any failure of the store ends it.
pub open spec fn completion_outcome(
    upload: UploadView,
    digest: Seq<char>,
    last: Seq<u8>,
    state: Completion,
    event: CompletionEvent,
    next: Completion,
    action: CompletionAction,
) -> bool {
    match state {
        Completion::Start => exists|keys: Seq<Seq<char>>|
            #[trigger] keys_in_offset_order(upload.chunks, keys) && completion_goes_on(
                keys,
                0,
                Seq::empty(),
                digest,
                last,
                next,
                action,
            ),
        Completion::Fetching { keys, next: i, parts } => match event {
            CompletionEvent::ChunkFetched { content } => if i < keys.len() {
                match content {
                    Err(e) => completion_finishes(next, action, Err(e@)),
                    Ok(None) => completion_finishes(next, action, Err(blob_unknown())),
                    Ok(Some(c)) => {
                        &&& next matches Completion::Deleting { keys: k, next: n, parts: p } && k.deep_view()
                            == keys.deep_view() && n == i && parts_view(p) == parts_view(parts).push(c@)
                        &&& action matches CompletionAction::DeleteChunk { key } && key@ == keys.deep_view()[i as int]
                    },
                }
            } else {
                next is Done && action is Finish
            },
            _ => true,
        },
        Completion::Deleting { keys, next: i, parts } => match event {
            CompletionEvent::ChunkDeleted { outcome } => match outcome {
                Err(e) => completion_finishes(next, action, Err(e@)),
                Ok(()) => if i < keys.len() {
                    completion_goes_on(keys.deep_view(), i + 1, parts_view(parts), digest, last, next, action)
                } else {
                    next is Done && action is Finish
                },
            },
            _ => true,
        },
        Completion::Storing => match event {
            CompletionEvent::BlobStored { outcome } => match outcome {
                Err(e) => completion_finishes(next, action, Err(e@)),
                Ok(()) => next is DeletingUpload && action is DeleteUpload,
            },
            _ => true,
        },
        Completion::DeletingUpload => match event {
            CompletionEvent::UploadDeleted { outcome } => match outcome {
                Err(e) => completion_finishes(next, action, Err(e@)),
                Ok(()) => completion_finishes(next, action, Ok(())),
            },
            _ => true,
        },
        Completion::Done => true,
    }
}

impl Completion {
    /// Whether the completion waits for `event`.
    pub fn expects(&self, event: &CompletionEvent) -> (r: bool)
        ensures
            r == completion_expects(*self, *event),
    {
        match (self, event) {
            (Completion::Start, CompletionEvent::Started) => true,
            (Completion::Fetching { .. }, CompletionEvent::ChunkFetched { .. }) => true,
            (Completion::Deleting { .. }, CompletionEvent::ChunkDeleted { .. }) => true,
            (Completion::Storing, CompletionEvent::BlobStored { .. }) => true,
            (Completion::DeletingUpload, CompletionEvent::UploadDeleted { .. }) => true,
            _ => false,
        }
    }
}

/// Goes on once the chunks before `keys[next]` are fetched and deleted.
fn go_on(keys: Vec<String>, next: usize, parts: Vec<Vec<u8>>, digest: &str, last: &Vec<u8>) -> (r: (
    Completion,
    CompletionAction,
))
    ensures
        completion_goes_on(keys.deep_view(), next as int, parts_view(parts), digest@, last@, r.0, r.1),
{
    if next < keys.len() {
        let key = keys[next].clone();
        (Completion::Fetching { keys, next, parts }, CompletionAction::FetchChunk { key })
    } else {
        let content = assemble_blob(parts, last.clone());
        (Completion::Storing, CompletionAction::StoreBlob { key: blob_key(digest), content })
    }
}

/// One step of completing `upload` with the blob of the given digest and
/// the content `last` of its final chunk: from where it stands and what it
/// is told, where it stands next and what it asks for.
pub fn completion_step(
    upload: &Upload,
    digest: &str,
    last: &Vec<u8>,
    state: Completion,
    event: CompletionEvent,
) -> (r: (Completion, CompletionAction))
    requires
        all_chunks_stored(upload@.chunks),
        completion_expects(state, event),
    ensures
        completion_outcome(upload@, digest@, last@, state, event, r.0, r.1),
{
    let unexpected = Error::from_code(ErrorCode::BlobUploadInvalid);
    match state {
        Completion::Start => {
            let order = upload.chunk_order();
            let keys = upload.chunk_keys_in(&order);
            let ghost kv = keys.deep_view();
            let parts: Vec<Vec<u8>> = Vec::new();
            assert(parts_view(parts) =~= Seq::<Seq<u8>>::empty());
            let r = go_on(keys, 0, parts, digest, last);
            proof {
                assert(is_offset_order(upload@.chunks, order@));
                assert forall|i: int| 0 <= i < kv.len() implies Some(#[trigger] kv[i])
                    == upload@.chunks[order@[i] as int].storage_key by {
                    assert(kv[i] == keys@[i]@);
                }
                assert(keys_in_offset_order(upload@.chunks, kv));
            }
            r
        },
        Completion::Fetching { keys, next, parts } => match event {
            CompletionEvent::ChunkFetched { content } => {
                if next < keys.len() {
                    match content {
                        Err(e) => (Completion::Done, CompletionAction::Finish { result: Err(e) }),
                        Ok(None) => (
                            Completion::Done,
                            CompletionAction::Finish { result: Err(Error::from_code(ErrorCode::BlobUnknown)) },
                        ),
                        Ok(Some(c)) => {
                            let key = keys[next].clone();
                            let mut parts = parts;
                            let ghost before = parts_view(parts);
                            parts.push(c);
                            assert(parts_view(parts) =~= before.push(c@));
                            (Completion::Deleting { keys, next, parts }, CompletionAction::DeleteChunk { key })
                        },
                    }
                } else {
                    (Completion::Done, CompletionAction::Finish { result: Err(unexpected) })
                }
            },
            _ => (Completion::Done, CompletionAction::Finish { result: Err(unexpected) }),
        },
        Completion::Deleting { keys, next, parts } => match event {
            CompletionEvent::ChunkDeleted { outcome } => match outcome {
                Err(e) => (Completion::Done, CompletionAction::Finish { result: Err(e) }),
                Ok(()) => {
                    if next < keys.len() {
                        go_on(keys, next + 1, parts, digest, last)
                    } else {
                        (Completion::Done, CompletionAction::Finish { result: Err(unexpected) })
                    }
                },
            },
            _ => (Completion::Done, CompletionAction::Finish { result: Err(unexpected) }),
        },
        Completion::Storing => match event {
            CompletionEvent::BlobStored { outcome } => match outcome {
                Err(e) => (Completion::Done, CompletionAction::Finish { result: Err(e) }),
                Ok(()) => (Completion::DeletingUpload, CompletionAction::DeleteUpload),
            },
            _ => (Completion::Done, CompletionAction::Finish { result: Err(unexpected) }),
        },
        Completion::DeletingUpload => match event {
            CompletionEvent::UploadDeleted { outcome } => match outcome {
                Err(e) => (Completion::Done, CompletionAction::Finish { result: Err(e) }),
                Ok(()) => (Completion::Done, CompletionAction::Finish { result: Ok(()) }),
            },
            _ => (Completion::Done, CompletionAction::Finish { result: Err(unexpected) }),
        },
        Completion::Done => (Completion::Done, CompletionAction::Finish { result: Err(unexpected) }),
    }
}

/// The chunk contents of `store`, by key, without those under `keys`.
pub open spec fn without_keys(store: Map<Seq<char>, Seq<u8>>, keys: Seq<Seq<char>>) -> Map<Seq<char>, Seq<u8>> {
    Map::new(|k: Seq<char>| store.dom().contains(k) && !keys.contains(k), |k: Seq<char>| store[k])
}

/// The contents that `store` holds under `keys`, in order.
pub open spec fn contents_under(store: Map<Seq<char>, Seq<u8>>, keys: Seq<Seq<char>>) -> Seq<Seq<u8>> {
    keys.map_values(|k: Seq<char>| store[k])
}

/// What holds of a completion of `upload` in `state`, against the chunk
/// store `store`, which held `store0` when it began: the keys are those of
/// the chunks by increasing start offset; every chunk before the current
/// one was fetched from `store0` and has been deleted; the current one, once
/// fetched, is still there.
pub open spec fn completion_invariant(
    upload: UploadView,
    store0: Map<Seq<char>, Seq<u8>>,
    store: Map<Seq<char>, Seq<u8>>,
    state: Completion,
) -> bool {
    match state {
        Completion::Start => store == store0,
        Completion::Fetching { keys, next, parts } => {
            let kv = keys.deep_view();
            &&& keys_in_offset_order(upload.chunks, kv)
            &&& next < kv.len()
            &&& parts_view(parts) == contents_under(store0, kv.take(next as int))
            &&& forall|i: int| 0 <= i < next ==> store0.dom().contains(#[trigger] kv[i])
            &&& store == without_keys(store0, kv.take(next as int))
        },
        Completion::Deleting { keys, next, parts } => {
            let kv = keys.deep_view();
            &&& keys_in_offset_order(upload.chunks, kv)
            &&& next < kv.len()
            &&& parts_view(parts) == contents_under(store0, kv.take(next + 1))
            &&& forall|i: int| 0 <= i <= next ==> store0.dom().contains(#[trigger] kv[i])
            &&& store == without_keys(store0, kv.take(next as int))
            &&& store.dom().contains(kv[next as int])
        },
        _ => true,
    }
}

/// The store answers the completion in `state` with `event`: a fetched
/// chunk is the content it holds under the key asked for, and it holds
/// none there when the chunk is not found.
pub open spec fn answered_from(store: Map<Seq<char>, Seq<u8>>, state: Completion, event: CompletionEvent) -> bool {
    match state {
        Completion::Fetching { keys, next, .. } => match event {
            CompletionEvent::ChunkFetched { content } => match content {
                Ok(Some(c)) => store.dom().contains(keys.deep_view()[next as int]) && c@ == store[keys.deep_view()[
                    next as int]],
                Ok(None) => !store.dom().contains(keys.deep_view()[next as int]),
                Err(_) => true,
            },
            _ => true,
        },
        _ => true,
    }
}

/// The store once `event` has answered the completion in `state`: a
/// deleted chunk is gone.
pub open spec fn store_after(store: Map<Seq<char>, Seq<u8>>, state: Completion, event: CompletionEvent) -> Map<
    Seq<char>,
    Seq<u8>,
> {
    match state {
        Completion::Deleting { keys, next, .. } => match event {
            CompletionEvent::ChunkDeleted { outcome: Ok(()) } => store.remove(keys.deep_view()[next as int]),
            _ => store,
        },
        _ => store,
    }
}

/// Completing an upload against a chunk store keeps `completion_invariant`;
/// and the blob it stores is made of the contents that the store held
/// under the keys of the upload's chunks, by increasing start offset,
/// followed by the final chunk, once every one of those chunks has been
/// deleted.
pub proof fn lemma_completion_step(
    upload: UploadView,
    digest: Seq<char>,
    last: Seq<u8>,
    store0: Map<Seq<char>, Seq<u8>>,
    store: Map<Seq<char>, Seq<u8>>,
    state: Completion,
    event: CompletionEvent,
    next: Completion,
    action: CompletionAction,
)
    requires
        completion_expects(state, event),
        completion_outcome(upload, digest, last, state, event, next, action),
        completion_invariant(upload, store0, store, state),
        answered_from(store, state, event),
    ensures
        completion_invariant(upload, store0, store_after(store, state, event), next),
        action matches CompletionAction::StoreBlob { key, content } ==> key@ == blob_key_text(digest)
            && exists|keys: Seq<Seq<char>>|
            #[trigger] keys_in_offset_order(upload.chunks, keys) && content@ == concat_all(
                contents_under(store0, keys),
            ) + last && forall|i: int|
                0 <= i < keys.len() ==> !store_after(store, state, event).dom().contains(#[trigger] keys[i]),
{
    match state {
        Completion::Start => {
            let keys = choose|keys: Seq<Seq<char>>|
                #[trigger] keys_in_offset_order(upload.chunks, keys) && completion_goes_on(
                    keys,
                    0,
                    Seq::empty(),
                    digest,
                    last,
                    next,
                    action,
                );
            assert(keys.take(0) =~= Seq::<Seq<char>>::empty());
            assert(contents_under(store0, keys.take(0)) =~= Seq::<Seq<u8>>::empty());
            assert(without_keys(store0, keys.take(0)) =~= store0);
            if keys.len() == 0 {
                assert(contents_under(store0, keys) =~= Seq::<Seq<u8>>::empty());
            }
        },
        Completion::Fetching { keys, next: n, parts } => {
            let kv = keys.deep_view();
            if let CompletionEvent::ChunkFetched { content: Ok(Some(c)) } = event {
                let k = kv[n as int];
                assert(!kv.take(n as int).contains(k));
                assert(store0.dom().contains(k) && store[k] == store0[k]);
                assert(contents_under(store0, kv.take(n + 1)) =~= contents_under(store0, kv.take(n as int)).push(
                    store0[k],
                ));
                assert forall|i: int| 0 <= i <= n implies store0.dom().contains(#[trigger] kv[i]) by {
                    if i < n {
                        assert(kv[i] == kv[i]);
                    }
                }
            }
        },
        Completion::Deleting { keys, next: n, parts } => {
            let kv = keys.deep_view();
            if let CompletionEvent::ChunkDeleted { outcome: Ok(()) } = event {
                let after = store.remove(kv[n as int]);
                assert(kv.take(n + 1) =~= kv.take(n as int).push(kv[n as int]));
                let t = kv.take(n as int);
                let t1 = kv.take(n + 1);
                assert forall|k: Seq<char>| #[trigger] t1.contains(k) <==> (t.contains(k) || k == kv[n as int]) by {
                    if t1.contains(k) {
                        let j = choose|j: int| 0 <= j < t1.len() && t1[j] == k;
                        if j < n {
                            assert(t[j] == k);
                        }
                    }
                    if t.contains(k) {
                        let j = choose|j: int| 0 <= j < t.len() && t[j] == k;
                        assert(t1[j] == k);
                    }
                    if k == kv[n as int] {
                        assert(t1[n as int] == k);
                    }
                }
                assert(after =~= without_keys(store0, t1));
                if n + 1 < kv.len() {
                    assert forall|i: int| 0 <= i < n + 1 implies store0.dom().contains(#[trigger] kv[i]) by {
                        if i < n + 1 {
                            assert(kv[i] == kv[i]);
                        }
                    }
                } else {
                    assert(kv.take(n + 1) =~= kv);
                    assert forall|i: int| 0 <= i < kv.len() implies !after.dom().contains(#[trigger] kv[i]) by {
                        assert(kv.take(n + 1).contains(kv[i]));
                    }
                }
            }
        },
        _ => {},
    }
}

} // verus!
