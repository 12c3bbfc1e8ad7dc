//! The run-time session: one shared record holding the handle to the native
//! rendering library and the currently loaded document, if any.
//!
//! The application keeps one `SessionState` behind its lock and owns the
//! loaded documents in an indexed table beside the native library handle;
//! commands refer to a document by an opaque token rather than by a direct
//! reference, so no document can outlive the handle.  Parsing a file is the
//! native library's work, done by the caller outside the lock's critical
//! section's logic; its outcome is the event this state machine consumes.

use vstd::prelude::*;

verus! {

/// How the native library's attempt to parse a document ended.
#[derive(Clone, Copy, Debug, PartialEq, Eq, Structural)]
pub enum ParseOutcome {
    /// The file parsed; the caller registered the document in its table
    /// under this token.
    Parsed(u64),
    /// No file exists at the given path.
    NotFound,
    /// The file exists but could not be parsed.
    ParseFailed,
    /// The file parsed as something other than a supported document format.
    UnsupportedFormat,
}

/// What a `load` command reports back to the GUI layer.
#[derive(Clone, Copy, Debug, PartialEq, Eq, Structural)]
pub enum LoadResult {
    /// The document was loaded and is now the session's current document;
    /// the previous document's token, if one was loaded, is handed back so
    /// the caller can release its resources.
    Loaded(Option<u64>),
    /// No file exists at the given path; the session is unchanged.
    NotFound,
    /// The file could not be parsed; the session is unchanged.
    ParseFailed,
    /// The file is not a supported document format; the session is
    /// unchanged.
    UnsupportedFormat,
}

/// The shared session record: the process-wide native library handle and
/// the token of the currently loaded document, if any.
///
/// The session is `Empty` when no document is loaded and `Loaded`
/// afterwards; the only transition is `load`, which on success replaces the
/// current document and never touches the handle.
#[derive(Clone, Copy, Debug, PartialEq, Eq, Structural)]
pub struct SessionState {
    /// The token of the process's one native library handle, fixed for the
    /// session's whole lifetime.
    pub handle: u64,
    /// The token of the currently loaded document, or `None` in the `Empty`
    /// state.
    pub doc: Option<u64>,
}

/// The full effect of one `load` call on the session: a parsed document
/// replaces the current one; any failure leaves the session exactly as it
/// was.
pub open spec fn spec_load(s: SessionState, outcome: ParseOutcome) -> SessionState {
    match outcome {
        ParseOutcome::Parsed(token) => SessionState { handle: s.handle, doc: Some(token) },
        _ => s,
    }
}

impl SessionState {
    /// Whether no document is loaded.
    pub open spec fn is_empty(self) -> bool {
        self.doc is None
    }

    /// Whether a document is loaded.
    pub open spec fn is_loaded(self) -> bool {
        self.doc is Some
    }

    /// Creates the session at startup, once the native library handle
    /// exists: no document is loaded yet.
    pub fn new(handle: u64) -> (s: SessionState)
        ensures
            s.handle == handle,
            s.is_empty(),
    {
        SessionState { handle, doc: None }
    }

    /// Applies one parse outcome to the session.
    ///
    /// On success the new document replaces the previous one — in
    /// particular the `Empty` session becomes `Loaded` — and the previous
    /// document's token is handed back for release.  On any failure the
    /// session, its current document included, is left untouched, and the
    /// failure is reported to the caller rather than aborting the process.
    /// The library handle is never changed.
    pub fn load(&mut self, outcome: ParseOutcome) -> (r: LoadResult)
        ensures
            *final(self) == spec_load(*old(self), outcome),
            final(self).handle == old(self).handle,
            match outcome {
                ParseOutcome::Parsed(token) => {
                    &&& r == LoadResult::Loaded(old(self).doc)
                    &&& final(self).doc == Some(token)
                    &&& final(self).is_loaded()
                },
                ParseOutcome::NotFound => {
                    &&& r == LoadResult::NotFound
                    &&& *final(self) == *old(self)
                },
                ParseOutcome::ParseFailed => {
                    &&& r == LoadResult::ParseFailed
                    &&& *final(self) == *old(self)
                },
                ParseOutcome::UnsupportedFormat => {
                    &&& r == LoadResult::UnsupportedFormat
                    &&& *final(self) == *old(self)
                },
            },
    {
        match outcome {
            ParseOutcome::Parsed(token) => {
                let previous = self.doc;
                self.doc = Some(token);
                LoadResult::Loaded(previous)
            },
            ParseOutcome::NotFound => LoadResult::NotFound,
            ParseOutcome::ParseFailed => LoadResult::ParseFailed,
            ParseOutcome::UnsupportedFormat => LoadResult::UnsupportedFormat,
        }
    }
}

/// Load calls on one session serialize: the lock admits them one at a time,
/// so after two calls the state is the full effect of the second applied to
/// the full effect of the first.  The final document reflects exactly one
/// call in full — the second call's document where it succeeded, otherwise
/// exactly the state the first call left — never a mixture, and neither
/// call moves the handle.
pub proof fn lemma_loads_serialize(s: SessionState, o1: ParseOutcome, o2: ParseOutcome)
    ensures
        spec_load(spec_load(s, o1), o2).handle == s.handle,
        (o2 matches ParseOutcome::Parsed(token) ==> spec_load(spec_load(s, o1), o2).doc == Some(
            token,
        )),
        !(o2 is Parsed) ==> spec_load(spec_load(s, o1), o2) == spec_load(s, o1),
{
}

} // verus!
