//! The capture engine: fetch-then-persist with a tracked file model.
//!
//! The engine owns the destination path and tracks, as `content`, what the
//! destination file holds once the binary has applied the engine's writes.
//! `persist` renders the line to write — the caption followed by a single
//! newline — and fixes the tracked content to exactly that line: the file
//! is always fully overwritten, never appended to. `snapshot` composes a
//! fetch result with `persist`; a failed fetch changes nothing, so stale
//! but valid output is preferred over corrupting the file.

use vstd::prelude::*;
use vstd::string::StringExecFns;
use crate::probe::ProbeError;

verus! {

/// The destination file's whole content after persisting `text`: the text
/// followed by a single newline.
pub open spec fn rendered(text: Seq<char>) -> Seq<char> {
    text.push('\n')
}

/// What a persist does to the file content: the new line replaces whatever
/// stood there before.
pub open spec fn persist_transition(before: Option<Seq<char>>, text: Seq<char>) -> Option<
    Seq<char>,
> {
    Some(rendered(text))
}

/// What a snapshot does to the file content: overwrite on a successful
/// fetch, leave it untouched on a failed one.
pub open spec fn snapshot_transition(
    before: Option<Seq<char>>,
    fetch: Result<Seq<char>, ProbeError>,
) -> Option<Seq<char>> {
    match fetch {
        Ok(text) => persist_transition(before, text),
        Err(_) => before,
    }
}

/// The content a fetch result carries, at the specification level.
pub open spec fn fetch_view(fetch: Result<String, ProbeError>) -> Result<Seq<char>, ProbeError> {
    match fetch {
        Ok(text) => Ok(text@),
        Err(e) => Err(e),
    }
}

/// Overwrite, never append: whatever the file held before, persisting `a`
/// and then `b` leaves exactly `b` followed by one newline — the same
/// content as persisting `b` alone.
pub proof fn lemma_idempotent_overwrite(before: Option<Seq<char>>, a: Seq<char>, b: Seq<char>)
    ensures
        persist_transition(persist_transition(before, a), b) == persist_transition(before, b),
        persist_transition(persist_transition(before, a), b) == Some(rendered(b)),
{
}

/// A snapshot whose fetch failed is a no-op: the file content afterwards
/// equals the content before, whatever the failure was.
pub proof fn lemma_snapshot_noop_on_fetch_failure(before: Option<Seq<char>>, e: ProbeError)
    ensures
        snapshot_transition(before, Err(e)) == before,
{
}

/// Owns the destination path and the tracked content of the destination
/// file. The accessibility connection behind the engine is managed by the
/// scheduler's machine, which guarantees its single teardown.
pub struct Engine {
    destination: String,
    content: Option<String>,
}

impl Engine {
    /// Path of the destination file.
    pub closed spec fn destination_model(self) -> Seq<char> {
        self.destination@
    }

    /// Content of the destination file after the engine's writes; `None`
    /// until the first persist, when the file has not been touched.
    pub closed spec fn content_model(self) -> Option<Seq<char>> {
        match self.content {
            Some(line) => Some(line@),
            None => None,
        }
    }

    /// A fresh engine for the given destination; nothing written yet.
    pub fn new(destination: String) -> (e: Engine)
        ensures
            e.destination_model() == destination@,
            e.content_model() is None,
    {
        Engine { destination, content: None }
    }

    /// Renders the caption as the line to write — the text followed by a
    /// single newline — and fixes the tracked file content to exactly that
    /// line, discarding whatever stood there before.
    pub fn persist(&mut self, text: &str) -> (line: String)
        ensures
            line@ == rendered(text@),
            final(self).content_model() == persist_transition(
                old(self).content_model(),
                text@,
            ),
            final(self).destination_model() == old(self).destination_model(),
    {
        let mut line: String = text.to_owned();
        line.append("\n");
        proof {
            reveal_strlit("\n");
            assert(line@ =~= rendered(text@));
        }
        self.content = Some(line.clone());
        line
    }

    /// One capture cycle given the probe's fetch result: on success the
    /// rendered line is persisted and returned for the binary to write; on
    /// failure the error is passed back and nothing changes.
    pub fn snapshot(&mut self, fetch: Result<String, ProbeError>) -> (r: Result<String, ProbeError>)
        ensures
            final(self).content_model() == snapshot_transition(
                old(self).content_model(),
                fetch_view(fetch),
            ),
            final(self).destination_model() == old(self).destination_model(),
            fetch matches Ok(text) ==> (r matches Ok(line) && line@ == rendered(text@)),
            fetch matches Err(e) ==> r == Err::<String, ProbeError>(e),
    {
        match fetch {
            Ok(text) => {
                let line = self.persist(text.as_str());
                Ok(line)
            },
            Err(e) => Err(e),
        }
    }

    /// The destination path the engine was built with.
    pub fn destination(&self) -> (d: &String)
        ensures
            d@ == self.destination_model(),
    {
        &self.destination
    }

    /// The tracked content of the destination file, if the engine has
    /// written at all.
    pub fn current_content(&self) -> (c: &Option<String>)
        ensures
            c is Some <==> self.content_model() is Some,
            c matches Some(line) ==> self.content_model() == Some(line@),
    {
        &self.content
    }
}

} // verus!
