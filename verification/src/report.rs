use vstd::prelude::*;
use vstd::string::{StrSliceExecFns, StringExecFns};

use crate::codec::ArchiveEntry;

verus! {

/// The structured outcome of one pipeline run, created fresh per invocation
/// and handed once to the caller that renders it.
pub struct ExecutionResult {
    /// Everything the compile step printed; empty when there was none.
    pub compile_log: String,
    /// Everything the run step printed before it ended or was cancelled.
    pub run_log: String,
    /// Whether the run was cancelled by the timeout.
    pub timed_out: bool,
    /// Requested output paths that were downloaded, with their bytes.
    pub files: Vec<ArchiveEntry>,
    /// Requested output paths absent from the container filesystem.
    pub missing: Vec<String>,
}

/// A named text file attached to a rendered reply.
pub struct LogAttachment {
    pub name: String,
    pub text: String,
}

impl View for LogAttachment {
    type V = (Seq<char>, Seq<char>);

    open spec fn view(&self) -> (Seq<char>, Seq<char>) {
        (self.name@, self.text@)
    }
}

impl DeepView for LogAttachment {
    type V = (Seq<char>, Seq<char>);

    open spec fn deep_view(&self) -> (Seq<char>, Seq<char>) {
        self.view()
    }
}

/// A rendered reply: the message text, the overflow log files, and the
/// downloaded artifacts.
pub struct Rendered {
    pub message: String,
    pub log_attachments: Vec<LogAttachment>,
    pub file_attachments: Vec<ArchiveEntry>,
}

/// Display budget for the message text, in characters; a longer result is
/// replaced by a placeholder and attached as files instead.
pub const RESULT_LIMIT_CHARS: usize = 1000;

/// The body text before any length policy: the run log alone when the
/// compile log is empty, otherwise both logs, labeled.
pub open spec fn spec_body_text(compile: Seq<char>, run: Seq<char>) -> Seq<char> {
    if compile.len() == 0 {
        run
    } else {
        "Compilation log:\n"@ + compile + "\nExecution log:\n"@ + run
    }
}

/// The message before the file-not-found notes: exactly `Timeout` for a
/// timed-out run, suppressing all buffered content; otherwise the body text,
/// or the fixed placeholder when the body text reaches the display budget.
pub open spec fn spec_base_message(res: ExecutionResult) -> Seq<char> {
    if res.timed_out {
        "Timeout"@
    } else if spec_body_text(res.compile_log@, res.run_log@).len() >= RESULT_LIMIT_CHARS {
        "Result log out of length."@
    } else {
        spec_body_text(res.compile_log@, res.run_log@)
    }
}

/// The note appended for each requested path that was not found.
pub open spec fn spec_notes(missing: Seq<Seq<char>>) -> Seq<char>
    decreases missing.len(),
{
    if missing.len() == 0 {
        Seq::empty()
    } else {
        spec_notes(missing.drop_last()) + "\nFile not found: `"@ + missing.last() + "`"@
    }
}

/// Whether the rendered reply overflows the display budget and moves the raw
/// buffers into attachments instead.
pub open spec fn spec_overflows(res: ExecutionResult) -> bool {
    !res.timed_out && spec_body_text(res.compile_log@, res.run_log@).len() >= RESULT_LIMIT_CHARS
}

/// The overflow log files: the raw run buffer, and the raw compile buffer
/// when there was a compile log, byte for byte.
pub open spec fn spec_log_attachments(res: ExecutionResult) -> Seq<(Seq<char>, Seq<char>)> {
    if spec_overflows(res) {
        if res.compile_log@.len() == 0 {
            seq![("result_log.txt"@, res.run_log@)]
        } else {
            seq![("result_log.txt"@, res.run_log@), ("compile_log.txt"@, res.compile_log@)]
        }
    } else {
        Seq::empty()
    }
}

/// Renders an execution result: the message per the timeout and length
/// policies, the file-not-found notes, the overflow log files, and the
/// downloaded artifacts unchanged.
pub fn format_result(res: &ExecutionResult) -> (r: Rendered)
    ensures
        r.message@ == spec_base_message(*res) + spec_notes(res.missing.deep_view()),
        r.log_attachments.deep_view() == spec_log_attachments(*res),
        r.file_attachments.deep_view() == res.files.deep_view(),
{
    let mut message: String;
    let mut log_attachments: Vec<LogAttachment> = Vec::new();
    if res.timed_out {
        message = String::from_str("Timeout");
    } else {
        let mut body = String::new();
        if res.compile_log.as_str().is_empty() {
            body.append(res.run_log.as_str());
        } else {
            body.append("Compilation log:\n");
            body.append(res.compile_log.as_str());
            body.append("\nExecution log:\n");
            body.append(res.run_log.as_str());
        }
        if body.as_str().unicode_len() >= RESULT_LIMIT_CHARS {
            message = String::from_str("Result log out of length.");
            log_attachments.push(
                LogAttachment {
                    name: String::from_str("result_log.txt"),
                    text: res.run_log.clone(),
                },
            );
            if !res.compile_log.as_str().is_empty() {
                log_attachments.push(
                    LogAttachment {
                        name: String::from_str("compile_log.txt"),
                        text: res.compile_log.clone(),
                    },
                );
            }
        } else {
            message = body;
        }
    }
    proof {
        assert(message@ == spec_base_message(*res));
        assert(log_attachments.deep_view() =~= spec_log_attachments(*res));
    }
    let n = res.missing.len();
    for i in 0..n
        invariant
            n == res.missing.len(),
            message@ == spec_base_message(*res) + spec_notes(res.missing.deep_view().take(i as int)),
            log_attachments.deep_view() == spec_log_attachments(*res),
    {
        message.append("\nFile not found: `");
        message.append(res.missing[i].as_str());
        message.append("`");
        proof {
            let ghost taken = res.missing.deep_view().take(i + 1);
            assert(taken.drop_last() =~= res.missing.deep_view().take(i as int));
            assert(taken.last() == res.missing.deep_view()[i as int]);
        }
    }
    proof {
        assert(res.missing.deep_view().take(n as int) =~= res.missing.deep_view());
    }
    let file_attachments = clone_entries(&res.files);
    Rendered { message, log_attachments, file_attachments }
}

/// Law: a timed-out run renders as exactly `Timeout`, whatever partial
/// content the buffers hold, as long as no file-not-found note is appended.
pub proof fn lemma_timeout_message(res: ExecutionResult)
    requires
        res.timed_out,
        res.missing.deep_view().len() == 0,
    ensures
        spec_base_message(res) + spec_notes(res.missing.deep_view()) == "Timeout"@,
{
    assert(spec_base_message(res) + spec_notes(res.missing.deep_view()) =~= "Timeout"@);
}

/// Law: a result whose body text reaches the display budget renders as the
/// fixed placeholder, and the raw run buffer — and the raw compile buffer,
/// when there is one — is attached unchanged.
pub proof fn lemma_overflow_attached(res: ExecutionResult)
    requires
        !res.timed_out,
        res.missing.deep_view().len() == 0,
        spec_body_text(res.compile_log@, res.run_log@).len() >= RESULT_LIMIT_CHARS,
    ensures
        spec_base_message(res) + spec_notes(res.missing.deep_view())
            == "Result log out of length."@,
        spec_log_attachments(res)[0] == ("result_log.txt"@, res.run_log@),
        res.compile_log@.len() > 0 ==> spec_log_attachments(res)[1] == (
            "compile_log.txt"@,
            res.compile_log@,
        ),
{
    assert(spec_base_message(res) + spec_notes(res.missing.deep_view())
        =~= "Result log out of length."@);
}

/// A copy of the downloaded artifacts, value for value.
fn clone_entries(entries: &Vec<ArchiveEntry>) -> (r: Vec<ArchiveEntry>)
    ensures
        r.deep_view() == entries.deep_view(),
{
    let r = entries.clone();
    proof {
        assert forall|i: int| 0 <= i < entries.len() implies r.deep_view()[i]
            == entries.deep_view()[i] by {
            assert(cloned::<ArchiveEntry>(entries[i], r[i]));
        }
        assert(r.deep_view() =~= entries.deep_view());
    }
    r
}

} // verus!
