//! The resource store: one named, independently locked, file-backed text
//! document (`settings` or `profiles`). A read of a missing or unreadable
//! backing file falls back to the canonical empty document; a write replaces
//! the whole document and a write failure is surfaced, never swallowed.
//!
//! The store never caches: its whole state is the state of the backing file,
//! held here as the outcome that a read of that file would observe. The
//! unverified shell performs the actual file-system calls and feeds their
//! outcomes to the functions below.

use vstd::prelude::*;

verus! {

/// What one attempt to read the backing file observed.
pub enum ReadOutcome {
    /// The file exists and its full contents were read as text.
    Present(String),
    /// The file does not exist: a valid initial state, not an error.
    Missing,
    /// The file exists but could not be read.
    Unreadable,
}

/// What one attempt to replace the backing file's contents observed.
pub enum WriteOutcome {
    /// The new contents were written in full.
    Done,
    /// The write failed; the text describes the underlying cause.
    Failed(String),
}

/// A write that could not be completed, fatal to the one request that
/// issued it.
#[derive(Debug)]
pub struct WriteError {
    pub cause: String,
}

/// The canonical empty document: what a document with no data yet reads as.
pub open spec fn empty_document() -> Seq<char> {
    "{}"@
}

/// The document text a read outcome denotes: the file's contents when they
/// could be read, the canonical empty document otherwise.
pub open spec fn spec_document_of(outcome: ReadOutcome) -> Seq<char> {
    match outcome {
        ReadOutcome::Present(s) => s@,
        ReadOutcome::Missing => empty_document(),
        ReadOutcome::Unreadable => empty_document(),
    }
}

/// The canonical empty document as an owned value.
pub fn empty_document_text() -> (r: String)
    ensures
        r@ == empty_document(),
{
    "{}".to_owned()
}

/// The read-fallback rule: a present file's full contents are the document;
/// a missing or unreadable file reads as the empty document, never an error.
pub fn document_of(outcome: &ReadOutcome) -> (r: String)
    ensures
        r@ == spec_document_of(*outcome),
{
    match outcome {
        ReadOutcome::Present(s) => s.clone(),
        ReadOutcome::Missing => empty_document_text(),
        ReadOutcome::Unreadable => empty_document_text(),
    }
}

/// The write-failure rule: a completed write is acknowledged; a failed write
/// is surfaced to the caller with its cause, never swallowed (deliberately
/// asymmetric with reads, which fall back instead of failing).
pub fn write_result(outcome: WriteOutcome) -> (r: Result<(), WriteError>)
    ensures
        r is Ok <==> outcome is Done,
        outcome matches WriteOutcome::Failed(m) ==> (r matches Err(e) && e.cause@ == m@),
{
    match outcome {
        WriteOutcome::Done => Ok(()),
        WriteOutcome::Failed(m) => Err(WriteError { cause: m }),
    }
}

/// One named resource document. Each instance stands for exactly one backing
/// file and is guarded by its own lock in the shell, so its operations are
/// linearized; `backing` is the state of that one file.
pub struct ResourceStore {
    backing: ReadOutcome,
}

impl ResourceStore {
    /// Whether the backing file has never been created.
    pub closed spec fn is_fresh(self) -> bool {
        self.backing is Missing
    }

    /// Whether the backing file exists.
    pub closed spec fn file_exists(self) -> bool {
        !(self.backing is Missing)
    }

    /// The document this store currently denotes.
    pub closed spec fn document(self) -> Seq<char> {
        spec_document_of(self.backing)
    }

    /// The store after a completed write of `data`.
    pub closed spec fn spec_set(self, data: String) -> ResourceStore {
        ResourceStore { backing: ReadOutcome::Present(data) }
    }

    /// A store over a fresh application-data directory: no backing file yet,
    /// and none is created.
    pub fn new() -> (r: ResourceStore)
        ensures
            r.is_fresh(),
            !r.file_exists(),
            r.document() == empty_document(),
    {
        ResourceStore { backing: ReadOutcome::Missing }
    }

    /// A store attached to whatever backing state an earlier instance left
    /// behind (a process restart: new instance, same file).
    pub fn attach(backing: ReadOutcome) -> (r: ResourceStore)
        ensures
            r.document() == spec_document_of(backing),
            r.file_exists() <==> !(backing is Missing),
    {
        ResourceStore { backing }
    }

    /// Read the document: the backing file's full contents, or the empty
    /// document when the file is missing or unreadable. Never fails, never
    /// creates or changes the file.
    pub fn get(&self) -> (r: String)
        ensures
            r@ == self.document(),
    {
        document_of(&self.backing)
    }

    /// Replace the document with `data`, writing through immediately: the
    /// store afterwards denotes exactly `data`, nothing cached, nothing kept
    /// of the prior contents.
    pub fn set(&mut self, data: String)
        ensures
            *final(self) == old(self).spec_set(data),
            final(self).document() == data@,
            final(self).file_exists(),
    {
        self.backing = ReadOutcome::Present(data);
    }
}

/// Law: reads are idempotent. Two reads of one store with no intervening
/// write denote the identical text, because a read never changes the store.
pub proof fn lemma_get_idempotent(s: ResourceStore, first: Seq<char>, second: Seq<char>)
    requires
        first == s.document(),
        second == s.document(),
    ensures
        first == second,
{
}

/// Law: round trip. A completed write of any text `data` followed by a read
/// returns exactly `data`, including the empty document itself.
pub proof fn lemma_set_then_get(s: ResourceStore, data: String)
    ensures
        s.spec_set(data).document() == data@,
{
}

/// Law: missing file. A store over a fresh data directory reads as the
/// canonical empty document, and the backing file still does not exist.
pub proof fn lemma_fresh_reads_empty(s: ResourceStore)
    requires
        s.is_fresh(),
    ensures
        s.document() == empty_document(),
        !s.file_exists(),
{
}

} // verus!
