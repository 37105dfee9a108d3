//! The pipeline of one collection: every page that arrives becomes one
//! compressed object, numbered by the order of arrival.
//!
//! The pipeline neither fetches nor uploads. It takes each page as it
//! arrives, says what to upload, and keeps count of what became of it.

use vstd::prelude::*;
use vstd::string::StringSliceAdditionalSpecFns;
use vstd::utf8::encode_utf8;
use crate::key::key_text;
use crate::key::object_key;
use crate::key::DateView;
use crate::key::RunDate;
use crate::store::error::StoreError;
use crate::store::object::ObjectToUpload;
use crate::store::object::ObjectToUploadBuilder;

verus! {

#[verifier::external_type_specification]
#[verifier::external_body]
pub struct ExValue(serde_json::Value);

/// The JSON text of an array of `records`, as `serde_json::to_string` writes
/// it; `None` where it reports an error.
pub uninterp spec fn json_text(records: Seq<serde_json::Value>) -> Option<Seq<char>>;

/// Whether a fresh `flate2::write::GzEncoder` over an empty `Vec`, at
/// `flate2::Compression::default()`, takes all of `data` in `write_all`
/// without an error.
pub uninterp spec fn gzip_written(data: Seq<u8>) -> bool;

/// The gzip stream that `flate2::write::GzEncoder::finish` hands out once
/// such an encoder has taken `data`; `None` where it reports an error.
pub uninterp spec fn gzip_of(data: Seq<u8>) -> Option<Seq<u8>>;

/// Calls `serde_json::to_string` on the records. Trusted: the result is the
/// text named by `json_text`, `None` where the call reports an error.
#[verifier::external_body]
fn records_to_json(records: &Vec<serde_json::Value>) -> (r: Option<String>)
    ensures
        r is Some <==> json_text(records@) is Some,
        r matches Some(text) ==> Some(text@) == json_text(records@),
{
    serde_json::to_string(records).ok()
}

/// Runs `data` through a `flate2::write::GzEncoder` over an empty `Vec` at
/// `flate2::Compression::default()`: `new`, `write_all`, `finish`. Trusted:
/// the result is the stream named by `gzip_of`, and an error tells which of
/// the two calls reported one, as `gzip_written` and `gzip_of` name it.
#[verifier::external_body]
fn gzip(data: &[u8]) -> (r: Result<Vec<u8>, ChunkError>)
    ensures
        r is Ok <==> (gzip_written(data@) && gzip_of(data@) is Some),
        r matches Ok(stream) ==> Some(stream@) == gzip_of(data@),
        r matches Err(e) ==> (e is Write <==> !gzip_written(data@)),
        r matches Err(e) ==> (e is Finish <==> gzip_written(data@)),
{
    let mut encoder = flate2::write::GzEncoder::new(Vec::new(), flate2::Compression::default());
    match std::io::Write::write_all(&mut encoder, data) {
        Err(_) => Err(ChunkError::Write),
        Ok(()) => match encoder.finish() {
            Ok(stream) => Ok(stream),
            Err(_) => Err(ChunkError::Finish),
        },
    }
}

/// Why a page gave no object to upload.
#[derive(Clone, Copy, Debug, PartialEq, Eq, Structural)]
pub enum ChunkError {
    /// The records could not be written as JSON.
    Serialize,
    /// The compressor did not take the JSON.
    Write,
    /// The compressor did not finish its stream.
    Finish,
}

/// How many pages the channel between the source and the pipeline holds.
/// It is the one throttle of a collection: the source runs at most this
/// many pages ahead of the page that is being encoded and uploaded.
pub const PAGES_IN_FLIGHT: usize = 1;

/// Where the pipeline of a collection stands.
#[derive(Clone, Copy, Debug, PartialEq, Eq, Structural)]
pub enum CollectionState {
    /// The collection is being opened.
    Connecting,
    /// Pages arrive.
    Streaming,
    /// Every page has arrived.
    Done,
    /// The collection could not be opened or fetched.
    Failed,
}

/// What became of a collection.
#[derive(Clone, Debug, PartialEq, Eq)]
pub enum BackupOutcome {
    /// The source delivered the collection: so many documents.
    Processed(u64),
    /// The source could not open or deliver it.
    Failed(String),
}

/// An object to store, and where.
#[derive(Clone, Debug, PartialEq, Eq)]
pub struct Upload {
    pub key: String,
    pub object: ObjectToUpload,
}

/// The media type of every uploaded object: `application/json`.
pub open spec fn json_media_type() -> Seq<char> {
    seq!['a', 'p', 'p', 'l', 'i', 'c', 'a', 't', 'i', 'o', 'n', '/', 'j', 's', 'o', 'n']
}

/// The length that the store is told for a body of `len` bytes.
pub open spec fn length_told(len: nat) -> Option<i64> {
    if len <= i64::MAX {
        Some(len as i64)
    } else {
        None
    }
}

/// What compressing `data` gives: the stream, or the step that failed.
pub open spec fn compressed(data: Seq<u8>) -> Result<Seq<u8>, ChunkError> {
    if !gzip_written(data) {
        Err(ChunkError::Write)
    } else {
        match gzip_of(data) {
            Some(stream) => Ok(stream),
            None => Err(ChunkError::Finish),
        }
    }
}

/// What a page gives once it is written as a JSON array and compressed: the
/// gzip stream of the UTF-8 text, or the step that failed.
pub open spec fn encoding_of(records: Seq<serde_json::Value>) -> Result<Seq<u8>, ChunkError> {
    match json_text(records) {
        None => Err(ChunkError::Serialize),
        Some(text) => compressed(encode_utf8(text)),
    }
}

/// Whether `encoded` is what encoding gives, as `expected` says it.
pub open spec fn is_encoding(
    encoded: Result<Vec<u8>, ChunkError>,
    expected: Result<Seq<u8>, ChunkError>,
) -> bool {
    match (encoded, expected) {
        (Ok(body), Ok(stream)) => body@ == stream,
        (Err(e), Err(step)) => e == step,
        _ => false,
    }
}

/// Writes the records of a page as a JSON array and compresses it.
pub fn encode_page(records: &Vec<serde_json::Value>) -> (encoded: Result<Vec<u8>, ChunkError>)
    ensures
        is_encoding(encoded, encoding_of(records@)),
{
    match records_to_json(records) {
        None => Err(ChunkError::Serialize),
        Some(text) => gzip(text.as_str().as_bytes()),
    }
}

/// The pipeline of one collection.
#[derive(Debug)]
pub struct Pipeline {
    prefix: String,
    date: RunDate,
    suffix: String,
    collection: String,
    next_chunk: u64,
    uploaded: u64,
    dropped: u64,
    state: CollectionState,
}

/// A pipeline as plain values.
pub struct PipelineView {
    pub prefix: Seq<char>,
    pub date: DateView,
    pub suffix: Seq<char>,
    pub collection: Seq<char>,
    /// The number of the next page, which is the count of pages that arrived.
    pub next_chunk: nat,
    /// Objects handed out for upload and not yet reported.
    pub pending: nat,
    /// Objects reported as stored.
    pub uploaded: nat,
    /// Pages lost: not encoded, or not stored.
    pub dropped: nat,
    pub state: CollectionState,
}

impl PipelineView {
    /// The pipeline of `collection` before it is opened.
    pub open spec fn start(
        prefix: Seq<char>,
        date: DateView,
        suffix: Seq<char>,
        collection: Seq<char>,
    ) -> PipelineView {
        PipelineView {
            prefix,
            date,
            suffix,
            collection,
            next_chunk: 0,
            pending: 0,
            uploaded: 0,
            dropped: 0,
            state: CollectionState::Connecting,
        }
    }

    /// Every page that arrived is stored, lost, or on its way.
    pub open spec fn accounted(self) -> bool {
        self.pending + self.uploaded + self.dropped == self.next_chunk
    }

    /// The pipeline once the collection is open.
    pub open spec fn opened(self) -> PipelineView {
        if self.state is Connecting {
            PipelineView { state: CollectionState::Streaming, ..self }
        } else {
            self
        }
    }

    /// The key of the page that arrives next.
    pub open spec fn next_key(self) -> Seq<char> {
        key_text(self.prefix, self.date, self.suffix, self.collection, self.next_chunk)
    }

    /// The pipeline after a page arrived, encoded or not. While pages arrive
    /// each takes the next number, whatever becomes of it.
    pub open spec fn after_page(self, encoded: bool) -> PipelineView {
        if self.state is Streaming {
            if encoded {
                PipelineView {
                    next_chunk: self.next_chunk + 1,
                    pending: self.pending + 1,
                    ..self
                }
            } else {
                PipelineView {
                    next_chunk: self.next_chunk + 1,
                    dropped: self.dropped + 1,
                    ..self
                }
            }
        } else {
            self
        }
    }

    /// The pipeline after an upload was reported, stored or not. A report
    /// that no upload is waiting for changes nothing.
    pub open spec fn after_upload(self, stored: bool) -> PipelineView {
        if self.pending == 0 {
            self
        } else if stored {
            PipelineView {
                pending: (self.pending - 1) as nat,
                uploaded: self.uploaded + 1,
                ..self
            }
        } else {
            PipelineView {
                pending: (self.pending - 1) as nat,
                dropped: self.dropped + 1,
                ..self
            }
        }
    }

    /// The pipeline after the source is through with the collection,
    /// delivered or not. What is closed stays as it is.
    pub open spec fn closed(self, delivered: bool) -> PipelineView {
        if self.state is Done || self.state is Failed {
            self
        } else if delivered {
            PipelineView { state: CollectionState::Done, ..self }
        } else {
            PipelineView { state: CollectionState::Failed, ..self }
        }
    }
}

impl PipelineView {
    /// The pipeline after pages arrived one after the other; `encoded` says
    /// of each whether it was encoded.
    pub open spec fn after_pages(self, encoded: Seq<bool>) -> PipelineView
        decreases encoded.len(),
    {
        if encoded.len() == 0 {
            self
        } else {
            self.after_pages(encoded.drop_last()).after_page(encoded.last())
        }
    }
}

/// Whether `upload` stores `body` as the page numbered next in `pipeline`.
pub open spec fn is_upload_of(upload: Upload, pipeline: PipelineView, body: Seq<u8>) -> bool {
    &&& upload.key@ == pipeline.next_key()
    &&& upload.object.body@ == body
    &&& upload.object.content_length == length_told(body.len())
    &&& upload.object.content_type matches Some(media)
    &&& media@ == json_media_type()
}

/// What the source's answer at the end makes of the collection.
pub open spec fn outcome_of(fetched: Result<u64, String>) -> BackupOutcome {
    match fetched {
        Ok(count) => BackupOutcome::Processed(count),
        Err(reason) => BackupOutcome::Failed(reason),
    }
}

impl View for Pipeline {
    type V = PipelineView;

    closed spec fn view(&self) -> PipelineView {
        PipelineView {
            prefix: self.prefix@,
            date: self.date@,
            suffix: self.suffix@,
            collection: self.collection@,
            next_chunk: self.next_chunk as nat,
            pending: (self.next_chunk - self.uploaded - self.dropped) as nat,
            uploaded: self.uploaded as nat,
            dropped: self.dropped as nat,
            state: self.state,
        }
    }
}

impl Pipeline {
    #[verifier::type_invariant]
    spec fn counted(self) -> bool {
        self.uploaded + self.dropped <= self.next_chunk
    }

    /// The pipeline of `collection` in the run of `date`, not yet open.
    pub fn new(prefix: &str, date: RunDate, suffix: &str, collection: &str) -> (pipeline: Pipeline)
        ensures
            pipeline@ == PipelineView::start(prefix@, date@, suffix@, collection@),
    {
        Pipeline {
            prefix: prefix.to_owned(),
            date,
            suffix: suffix.to_owned(),
            collection: collection.to_owned(),
            next_chunk: 0,
            uploaded: 0,
            dropped: 0,
            state: CollectionState::Connecting,
        }
    }

    /// The collection is open: pages may arrive.
    pub fn opened(&mut self)
        ensures
            final(self)@ == old(self)@.opened(),
    {
        proof {
            use_type_invariant(&*self);
        }
        if let CollectionState::Connecting = self.state {
            self.state = CollectionState::Streaming;
        }
    }

    /// Takes the page that arrived, already encoded or failed, and says what
    /// to upload for it, if anything. While pages arrive the page takes the
    /// next number whether it was encoded or not, so a lost page leaves a gap
    /// in the keys.
    pub fn plan_chunk(&mut self, encoded: Result<Vec<u8>, ChunkError>) -> (upload: Option<Upload>)
        requires
            old(self)@.next_chunk < u64::MAX,
        ensures
            final(self)@ == old(self)@.after_page(encoded is Ok),
            upload is Some <==> old(self)@.state is Streaming && encoded is Ok,
            upload matches Some(u) ==> is_upload_of(u, old(self)@, encoded->Ok_0@),
    {
        proof {
            use_type_invariant(&*self);
        }
        match self.state {
            CollectionState::Streaming => {},
            _ => {
                return None;
            },
        }
        let chunk = self.next_chunk;
        self.next_chunk = chunk + 1;
        match encoded {
            Err(_) => {
                self.dropped = self.dropped + 1;
                None
            },
            Ok(body) => {
                let key = object_key(
                    self.prefix.as_str(),
                    &self.date,
                    self.suffix.as_str(),
                    self.collection.as_str(),
                    chunk,
                );
                let len = body.len();
                let content_length = if len as u64 <= i64::MAX as u64 {
                    Some(len as i64)
                } else {
                    None
                };
                proof {
                    reveal_strlit("application/json");
                    assert("application/json"@ =~= json_media_type());
                }
                let object = ObjectToUploadBuilder::from_vecu8(body).content_length(
                    content_length,
                ).content_type(Some("application/json".to_owned())).build();
                Some(Upload { key, object })
            },
        }
    }

    /// Takes the page that arrived: encodes its records and plans the upload.
    /// An upload is due exactly when pages are arriving and the page could be
    /// encoded.
    pub fn accept_page(&mut self, records: &Vec<serde_json::Value>) -> (upload: Option<Upload>)
        requires
            old(self)@.next_chunk < u64::MAX,
        ensures
            upload is Some <==> old(self)@.state is Streaming && encoding_of(records@) is Ok,
            final(self)@ == old(self)@.after_page(encoding_of(records@) is Ok),
            upload matches Some(u) ==> is_upload_of(u, old(self)@, encoding_of(records@)->Ok_0),
    {
        proof {
            use_type_invariant(&*self);
        }
        if let CollectionState::Streaming = self.state {
            let encoded = encode_page(records);
            self.plan_chunk(encoded)
        } else {
            None
        }
    }

    /// Takes the report of an upload: the object is stored, or the page is
    /// lost. The collection goes on either way.
    pub fn upload_finished(&mut self, result: &Result<(), StoreError>)
        ensures
            final(self)@ == old(self)@.after_upload(result is Ok),
    {
        proof {
            use_type_invariant(&*self);
        }
        if self.next_chunk - self.uploaded - self.dropped == 0 {
            return ;
        }
        match result {
            Ok(()) => {
                self.uploaded = self.uploaded + 1;
            },
            Err(_) => {
                self.dropped = self.dropped + 1;
            },
        }
    }

    /// The source is through with the collection: with the number of
    /// documents it delivered, or with the reason why it could not open or
    /// deliver it. Lost pages do not change what became of the collection.
    pub fn close(&mut self, fetched: Result<u64, String>) -> (outcome: BackupOutcome)
        ensures
            final(self)@ == old(self)@.closed(fetched is Ok),
            outcome == outcome_of(fetched),
    {
        proof {
            use_type_invariant(&*self);
        }
        let open = match self.state {
            CollectionState::Connecting => true,
            CollectionState::Streaming => true,
            _ => false,
        };
        match fetched {
            Ok(count) => {
                if open {
                    self.state = CollectionState::Done;
                }
                BackupOutcome::Processed(count)
            },
            Err(reason) => {
                if open {
                    self.state = CollectionState::Failed;
                }
                BackupOutcome::Failed(reason)
            },
        }
    }

    /// Where the pipeline stands.
    pub fn state(&self) -> (state: CollectionState)
        ensures
            state == self@.state,
    {
        self.state
    }

    /// How many pages have arrived; the next one takes this number.
    pub fn chunks_seen(&self) -> (n: u64)
        ensures
            n == self@.next_chunk,
            self@.accounted(),
    {
        proof {
            use_type_invariant(self);
        }
        self.next_chunk
    }

    /// How many objects are reported as stored.
    pub fn chunks_uploaded(&self) -> (n: u64)
        ensures
            n == self@.uploaded,
            self@.accounted(),
    {
        proof {
            use_type_invariant(self);
        }
        self.uploaded
    }

    /// How many pages are lost.
    pub fn chunks_dropped(&self) -> (n: u64)
        ensures
            n == self@.dropped,
            self@.accounted(),
    {
        proof {
            use_type_invariant(self);
        }
        self.dropped
    }
}

/// While pages arrive the number of a page is its place in the order of
/// arrival: after so many pages the next number is so many further, whether
/// the pages before were encoded or not, and the key parts stay the same.
pub proof fn lemma_pages_numbered_by_arrival(pipeline: PipelineView, encoded: Seq<bool>)
    requires
        pipeline.state is Streaming,
    ensures
        pipeline.after_pages(encoded).next_chunk == pipeline.next_chunk + encoded.len(),
        pipeline.after_pages(encoded).state is Streaming,
        pipeline.after_pages(encoded).prefix == pipeline.prefix,
        pipeline.after_pages(encoded).date == pipeline.date,
        pipeline.after_pages(encoded).suffix == pipeline.suffix,
        pipeline.after_pages(encoded).collection == pipeline.collection,
        pipeline.accounted() ==> pipeline.after_pages(encoded).accounted(),
    decreases encoded.len(),
{
    if encoded.len() > 0 {
        lemma_pages_numbered_by_arrival(pipeline, encoded.drop_last());
    }
}

/// No two pages of a collection get the same key: pages that arrive at
/// different places of the order are stored under different keys.
pub proof fn lemma_page_keys_differ(
    pipeline: PipelineView,
    encoded: Seq<bool>,
    earlier: int,
    later: int,
)
    requires
        pipeline.state is Streaming,
        0 <= earlier < later <= encoded.len(),
    ensures
        pipeline.after_pages(encoded.take(earlier)).next_key() != pipeline.after_pages(
            encoded.take(later),
        ).next_key(),
{
    lemma_pages_numbered_by_arrival(pipeline, encoded.take(earlier));
    lemma_pages_numbered_by_arrival(pipeline, encoded.take(later));
    let a = pipeline.after_pages(encoded.take(earlier));
    let b = pipeline.after_pages(encoded.take(later));
    if a.next_key() == b.next_key() {
        crate::key::lemma_keys_unique_in_run(
            pipeline.prefix,
            pipeline.date,
            pipeline.suffix,
            pipeline.collection,
            a.next_chunk,
            pipeline.collection,
            b.next_chunk,
        );
    }
}

/// Lost pages do not change what becomes of a collection: the outcome at the
/// end is what the source answered, whatever was encoded or stored before.
pub proof fn lemma_outcome_ignores_lost_pages(
    pipeline: PipelineView,
    encoded: Seq<bool>,
    delivered: bool,
)
    requires
        pipeline.state is Streaming,
    ensures
        pipeline.after_pages(encoded).closed(delivered).state == pipeline.closed(delivered).state,
{
    lemma_pages_numbered_by_arrival(pipeline, encoded);
}

} // verus!
