//! The state of an interactive conversion session.
//!
//! The interface hands each conversion to a worker and learns of its outcome
//! later. Every conversion that is started gets a ticket; only the outcome that
//! carries the ticket of the latest conversion is shown, so the outcome of a
//! conversion that a newer one replaced is never observed.

use vstd::prelude::*;
use crate::codec::Encoding;
use crate::i18n::{Caption, Language, caption_spec, t};

verus! {

/// What the interface converts: typed text, or a file.
#[derive(Clone, Copy, Debug, PartialEq, Eq, Structural)]
pub enum TransMode {
    Text,
    File,
}

/// The session state behind the interface.
pub struct CodeTranserApp {
    pub lang: Language,
    pub mode: TransMode,
    pub from: Encoding,
    pub to: Encoding,
    pub input_text: String,
    pub output_text: String,
    pub input_file: Option<String>,
    pub output_file: Option<String>,
    pub status: String,
    /// The ticket of the conversion whose outcome is awaited, if any.
    pub pending: Option<u64>,
    /// The ticket that the next conversion gets.
    pub next_ticket: u64,
}

/// A text conversion handed to a worker.
pub struct TextJob {
    pub ticket: u64,
    pub input: String,
    pub from: Encoding,
    pub to: Encoding,
}

/// A file conversion handed to a worker.
pub struct FileJob {
    pub ticket: u64,
    pub input: String,
    pub output: String,
    pub from: Encoding,
    pub to: Encoding,
}

/// The ticket that follows `t`.
pub open spec fn ticket_after(t: u64) -> u64 {
    if t == u64::MAX {
        0
    } else {
        (t + 1) as u64
    }
}

/// The status shown when a file conversion is asked for without both paths.
pub open spec fn missing_paths_spec() -> Seq<char> {
    "Please select input and output files"@
}

/// The status that reports a finished file conversion.
pub open spec fn file_status_spec(outcome: Result<(), Seq<char>>, output: Seq<char>) -> Seq<char> {
    match outcome {
        Ok(_) => "Transcode finished: "@ + output,
        Err(e) => "Error: "@ + e,
    }
}

/// Relies on std's `format!`: the two strings written one after the other.
#[verifier::external_body]
fn concat(a: &str, b: &str) -> (r: String)
    ensures
        r@ == a@ + b@,
{
    format!("{}{}", a, b)
}

/// The status message for the outcome of a file conversion that wrote `output`.
pub fn file_status(outcome: &Result<(), String>, output: &str) -> (r: String)
    ensures
        r@ == file_status_spec(
            match outcome {
                Ok(_) => Ok(()),
                Err(e) => Err(e@),
            },
            output@,
        ),
{
    match outcome {
        Ok(_) => concat("Transcode finished: ", output),
        Err(e) => concat("Error: ", e.as_str()),
    }
}

fn next_ticket_of(t: u64) -> (r: u64)
    ensures
        r == ticket_after(t),
{
    if t == u64::MAX {
        0
    } else {
        t + 1
    }
}

impl CodeTranserApp {
    /// The text that an outcome delivered in the current mode lands in.
    pub open spec fn shown(self) -> Seq<char> {
        match self.mode {
            TransMode::Text => self.output_text@,
            TransMode::File => self.status@,
        }
    }

    /// The state after a conversion was started, as far as the tickets go.
    pub open spec fn started(self) -> CodeTranserApp {
        CodeTranserApp {
            pending: Some(self.next_ticket),
            next_ticket: ticket_after(self.next_ticket),
            ..self
        }
    }

    /// Whether an outcome with `ticket` is the one awaited.
    pub open spec fn awaits(self, ticket: u64) -> bool {
        self.pending == Some(ticket)
    }

    /// The state after the outcome `result` of conversion `ticket` arrived.
    pub open spec fn delivered(self, ticket: u64, result: String) -> CodeTranserApp {
        if self.awaits(ticket) {
            match self.mode {
                TransMode::Text => CodeTranserApp { output_text: result, pending: None, ..self },
                TransMode::File => CodeTranserApp { status: result, pending: None, ..self },
            }
        } else {
            self
        }
    }

    /// Starts a conversion of the typed text with the selected codecs.
    pub fn start_text(&mut self) -> (job: TextJob)
        ensures
            *final(self) == old(self).started(),
            job.ticket == old(self).next_ticket,
            job.input@ == old(self).input_text@,
            job.from == old(self).from,
            job.to == old(self).to,
    {
        let job = TextJob {
            ticket: self.next_ticket,
            input: self.input_text.clone(),
            from: self.from,
            to: self.to,
        };
        self.pending = Some(self.next_ticket);
        self.next_ticket = next_ticket_of(self.next_ticket);
        job
    }

    /// Starts a conversion of the selected input file into the selected output
    /// file. Without both paths nothing starts and the status says so.
    pub fn start_file(&mut self) -> (job: Option<FileJob>)
        ensures
            match (old(self).input_file, old(self).output_file) {
                (Some(i), Some(o)) => {
                    &&& job is Some
                    &&& job->Some_0.ticket == old(self).next_ticket
                    &&& job->Some_0.input@ == i@
                    &&& job->Some_0.output@ == o@
                    &&& job->Some_0.from == old(self).from
                    &&& job->Some_0.to == old(self).to
                    &&& final(self).status@ == caption_spec(Caption::Transcoding, old(self).lang)
                    &&& *final(self) == (CodeTranserApp {
                        status: final(self).status,
                        ..old(self).started()
                    })
                },
                _ => {
                    &&& job is None
                    &&& final(self).status@ == missing_paths_spec()
                    &&& *final(self) == (CodeTranserApp { status: final(self).status, ..*old(self) })
                },
            },
    {
        match (&self.input_file, &self.output_file) {
            (Some(i), Some(o)) => {
                let job = FileJob {
                    ticket: self.next_ticket,
                    input: i.clone(),
                    output: o.clone(),
                    from: self.from,
                    to: self.to,
                };
                self.status = t(Caption::Transcoding, self.lang).to_owned();
                self.pending = Some(self.next_ticket);
                self.next_ticket = next_ticket_of(self.next_ticket);
                Some(job)
            },
            _ => {
                self.status = "Please select input and output files".to_owned();
                None
            },
        }
    }

    /// Takes the outcome `result` of conversion `ticket`: it is shown, in the
    /// output text or the status as the current mode says, only when it is the
    /// outcome awaited; any other is dropped.
    pub fn deliver(&mut self, ticket: u64, result: String)
        ensures
            *final(self) == old(self).delivered(ticket, result),
    {
        if self.pending == Some(ticket) {
            match self.mode {
                TransMode::Text => self.output_text = result,
                TransMode::File => self.status = result,
            }
            self.pending = None;
        }
    }
}

impl Default for CodeTranserApp {
    /// A fresh session: Chinese captions, text mode, UTF-8 to GBK, nothing typed,
    /// no file chosen, no conversion awaited.
    fn default() -> (r: Self)
        ensures
            r.lang == Language::Zh,
            r.mode == TransMode::Text,
            r.from == Encoding::Utf8,
            r.to == Encoding::Gbk,
            r.input_text@ == Seq::<char>::empty(),
            r.output_text@ == Seq::<char>::empty(),
            r.input_file is None,
            r.output_file is None,
            r.status@ == caption_spec(Caption::StatusNone, Language::Zh),
            r.pending is None,
            r.next_ticket == 0,
    {
        CodeTranserApp {
            lang: Language::Zh,
            mode: TransMode::Text,
            from: Encoding::Utf8,
            to: Encoding::Gbk,
            input_text: String::new(),
            output_text: String::new(),
            input_file: None,
            output_file: None,
            status: t(Caption::StatusNone, Language::Zh).to_owned(),
            pending: None,
            next_ticket: 0,
        }
    }
}

/// When a second conversion starts before the outcome of the first arrived, the
/// outcome of the first is never shown, whether it arrives before or after that
/// of the second, and the outcome of the second is.
pub proof fn lemma_latest_outcome_shown(app: CodeTranserApp, first: String, second: String)
    ensures
        ({
            let t1 = app.next_ticket;
            let s = app.started().started();
            let t2 = app.started().next_ticket;
            &&& t1 != t2
            &&& s.delivered(t1, first) == s
            &&& s.delivered(t2, second).shown() == second@
            &&& s.delivered(t2, second).delivered(t1, first) == s.delivered(t2, second)
        }),
{
}

} // verus!
