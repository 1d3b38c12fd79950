//! The one place through which every outgoing message passes: a buffer that
//! only ever holds whole lines.
//!
//! Responses to commands and match data that is sent unasked share one
//! outgoing stream. Whoever writes to the stream holds the outbox for the
//! time it takes to put a message in, take the pending text out, write it
//! and flush. Since a message enters the outbox as one whole line or not at
//! all, no two messages ever share a line, whatever order the writers come
//! in.

use vstd::prelude::*;

use crate::framing::{frame, is_one_line, is_whole, lemma_lines_of_append, lines_of};
use crate::json::json_text;
use crate::responses::{GamepackResponse, ResponseView};
use crate::runner::{line_for, response_line};
use crate::types::MatchDataMessage;
use crate::wire::responses::encode_response;

verus! {

/// Outgoing text that is not written yet. It is made of whole lines.
#[derive(Debug)]
pub struct Outbox {
    pending: String,
}

impl Outbox {
    #[verifier::type_invariant]
    spec fn holds_whole_lines(&self) -> bool {
        is_whole(self.pending@)
    }

    /// The text that is not written yet.
    pub closed spec fn stream(&self) -> Seq<char> {
        self.pending@
    }

    /// The messages that are not written yet, each as its compact JSON
    /// text, first to last.
    pub open spec fn lines(&self) -> Seq<Seq<char>> {
        lines_of(self.stream())
    }

    /// An outbox with nothing in it.
    pub fn new() -> (r: Outbox)
        ensures
            r.stream() == Seq::<char>::empty(),
    {
        Outbox { pending: String::new() }
    }

    /// Whether nothing is waiting to be written.
    pub fn is_empty(&self) -> (r: bool)
        ensures
            r == (self.stream().len() == 0),
    {
        self.pending.as_str().is_empty()
    }

    /// Puts one whole line behind what is waiting.
    fn push_line(&mut self, line: String)
        requires
            is_one_line(line@),
        ensures
            final(self).stream() == old(self).stream() + line@,
            final(self).lines() == old(self).lines().push(line@.drop_last()),
    {
        proof {
            use_type_invariant(&*self);
            lemma_lines_of_append(self.pending@, line@.drop_last());
            assert(frame(line@.drop_last()) =~= line@);
        }
        let mut pending = String::new();
        core::mem::swap(&mut self.pending, &mut pending);
        pending.append(line.as_str());
        core::mem::swap(&mut self.pending, &mut pending);
    }

    /// Puts a response behind what is waiting, as one line. A response that
    /// cannot be written as JSON is dropped, and the outbox stays as it is.
    pub fn push(&mut self, response: &GamepackResponse) -> (written: bool)
        ensures
            written == (json_text(encode_response(response@)) is Some),
            written ==> final(self).stream() == old(self).stream() + line_for(response@)->Some_0,
            written ==> final(self).lines() == old(self).lines().push(
                json_text(encode_response(response@))->Some_0,
            ),
            !written ==> final(self).stream() == old(self).stream(),
    {
        match response_line(response) {
            Some(line) => {
                proof {
                    let text = json_text(encode_response(response@))->Some_0;
                    assert(line@.drop_last() =~= text);
                }
                self.push_line(line);
                true
            },
            None => false,
        }
    }

    /// Puts a match data message behind what is waiting, as the one line of
    /// the `WriteMatchData` response that holds it.
    pub fn push_match_data(&mut self, message: MatchDataMessage) -> (written: bool)
        ensures
            written == (json_text(
                encode_response(ResponseView::WriteMatchData { message: message@ }),
            ) is Some),
            written ==> final(self).stream() == old(self).stream() + line_for(
                ResponseView::WriteMatchData { message: message@ },
            )->Some_0,
            written ==> final(self).lines() == old(self).lines().push(
                json_text(
                    encode_response(ResponseView::WriteMatchData { message: message@ }),
                )->Some_0,
            ),
            !written ==> final(self).stream() == old(self).stream(),
    {
        let response = GamepackResponse::WriteMatchData { message };
        self.push(&response)
    }

    /// Takes out the text that is waiting, to write it and flush. The text
    /// is made of whole lines; nothing is left waiting.
    pub fn take(&mut self) -> (out: String)
        ensures
            out@ == old(self).stream(),
            is_whole(out@),
            final(self).stream() == Seq::<char>::empty(),
    {
        proof {
            use_type_invariant(&*self);
        }
        let mut out = String::new();
        core::mem::swap(&mut self.pending, &mut out);
        out
    }
}

impl Default for Outbox {
    fn default() -> (r: Self)
        ensures
            r.stream() == Seq::<char>::empty(),
    {
        Outbox::new()
    }
}

} // verus!
