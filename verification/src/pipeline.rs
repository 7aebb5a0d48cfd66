use vstd::prelude::*;
use vstd::utf8::encode_utf8;

use crate::codec::{packed_archive, simple_path, ArchiveEntry};
use crate::container::{attachment_archive, spec_source_file_name, spec_source_path, Container};
use crate::errors::{CodecError, ExecError};
use crate::language::Language;
use crate::report::ExecutionResult;
use crate::template::spec_render_args;

verus! {

/// One submission: the resolved profile, the source text, the attachments to
/// place verbatim, the output paths to collect afterwards, and the run
/// timeout.
pub struct Request {
    pub profile: Language,
    pub source: String,
    pub attachments: Vec<ArchiveEntry>,
    pub requested_paths: Vec<String>,
    pub timeout_ms: u64,
}

/// Where one pipeline run stands. `Done` and `Failed` are terminal.
#[derive(Clone, Copy, Debug)]
pub enum Phase {
    /// Waiting for a container from the pool or the daemon.
    Acquire,
    /// Attachment `next` is being uploaded.
    UploadAttachments { next: usize },
    /// The source archive is being uploaded; this upload also starts the
    /// container.
    UploadSource,
    /// The compile step is running and being drained.
    Compile,
    /// The run step is running, raced against the timeout.
    Run,
    /// Requested output path `next` is being downloaded.
    Collect { next: usize },
    /// The container is being removed; always reached once a container
    /// exists, whatever happened before.
    Teardown,
    /// Finished with a result.
    Done,
    /// Finished with a fatal error.
    Failed,
}

/// What the surrounding program reports back after performing an action.
pub enum PipelineEvent {
    /// A container is ready, bound to a profile with the requested image.
    Acquired { container: Container },
    /// Acquiring, uploading, or starting an exec session failed fatally.
    StepFailed { error: ExecError },
    /// The issued upload completed.
    Uploaded,
    /// The compile step's stream ended; `log` is everything it printed.
    CompileFinished { log: String },
    /// The run step's drain finished, naturally or cancelled by the timeout.
    RunFinished { log: String, timed_out: bool },
    /// The issued download produced the path's bytes.
    Downloaded { bytes: Vec<u8> },
    /// The requested path was absent; recoverable, the sweep of the
    /// remaining paths goes on.
    DownloadFailed,
    /// The container was removed.
    Stopped,
    /// Removing the container failed; swallowed, never surfaced.
    StopFailed,
}

/// What the pipeline asks the surrounding program to do next.
pub enum PipelineAction {
    /// Acquire a container for the request's profile, via the pool.
    AcquireContainer,
    /// Start the container if needed and upload this archive rooted at `/`.
    Upload { archive: Vec<u8> },
    /// Start the compile exec session and drain it to completion.
    StartCompile { args: Vec<String> },
    /// Start the run exec session, drain it, and race it against the
    /// timeout.
    StartRun { args: Vec<String>, timeout_ms: u64 },
    /// Download a tar stream rooted at `path` and unpack its single entry.
    Download { path: String },
    /// Force-remove the container.
    Stop,
    /// Terminal: hand the result to the caller that renders it.
    Finish { result: ExecutionResult },
    /// Terminal: report a fatal error.
    Fail { error: ExecError },
}

/// One pipeline run: the request, the phase, the container once acquired,
/// and the buffers the result is built from.
pub struct Pipeline {
    pub request: Request,
    pub phase: Phase,
    pub container: Option<Container>,
    pub compile_log: String,
    pub run_log: String,
    pub timed_out: bool,
    pub files: Vec<ArchiveEntry>,
    pub missing: Vec<String>,
    pub failure: Option<ExecError>,
}

/// The result a finished pipeline hands over: its buffers, verbatim.
pub open spec fn spec_result(p: Pipeline) -> ExecutionResult {
    ExecutionResult {
        compile_log: p.compile_log,
        run_log: p.run_log,
        timed_out: p.timed_out,
        files: p.files,
        missing: p.missing,
    }
}

impl Pipeline {
    /// The acquired container is bound to a profile with the requested
    /// image.
    pub open spec fn container_ok(self) -> bool {
        &&& self.container matches Some(c) && (c@.language matches Some(l) && l.image
            == self.request.profile@.image)
    }

    /// The phase's bookkeeping is consistent: a container is at hand from
    /// the first upload through teardown, indices are in range, and no
    /// failure is recorded before one happened.
    pub open spec fn wf(self) -> bool {
        match self.phase {
            Phase::Acquire => self.container is None && self.failure is None,
            Phase::UploadAttachments { next } => self.container_ok() && next
                < self.request.attachments.len() && self.failure is None,
            Phase::UploadSource => self.container_ok() && self.failure is None,
            Phase::Compile => self.container_ok() && self.failure is None,
            Phase::Run => self.container_ok() && self.failure is None,
            Phase::Collect { next } => self.container_ok() && next
                < self.request.requested_paths.len(),
            Phase::Teardown => self.container_ok(),
            Phase::Done => true,
            Phase::Failed => true,
        }
    }
}

/// Which events may answer which phase.
pub open spec fn event_fits(p: Pipeline, ev: PipelineEvent) -> bool {
    match p.phase {
        Phase::Acquire => match ev {
            PipelineEvent::Acquired { container } => container@.language matches Some(l) && l.image
                == p.request.profile@.image,
            PipelineEvent::StepFailed { .. } => true,
            _ => false,
        },
        Phase::UploadAttachments { .. } => ev matches PipelineEvent::Uploaded || ev
            matches PipelineEvent::StepFailed { .. },
        Phase::UploadSource => ev matches PipelineEvent::Uploaded || ev
            matches PipelineEvent::StepFailed { .. },
        Phase::Compile => ev matches PipelineEvent::CompileFinished { .. } || ev
            matches PipelineEvent::StepFailed { .. },
        Phase::Run => ev matches PipelineEvent::RunFinished { .. } || ev
            matches PipelineEvent::StepFailed { .. },
        Phase::Collect { .. } => ev matches PipelineEvent::Downloaded { .. } || ev
            matches PipelineEvent::DownloadFailed,
        Phase::Teardown => ev matches PipelineEvent::Stopped || ev
            matches PipelineEvent::StopFailed,
        Phase::Done => false,
        Phase::Failed => false,
    }
}

/// After `pre`, upload slot `next` was issued: the archive for attachment
/// `next`, or — past the last attachment — the source archive. A rejected
/// path records `UploadFailed` and moves to teardown instead.
pub open spec fn uploads_issued(pre: Pipeline, next: int, post: Pipeline, a: PipelineAction) -> bool {
    if next < pre.request.attachments.len() {
        let att = pre.request.attachments.deep_view()[next];
        if simple_path(att.0) {
            &&& post == Pipeline { phase: Phase::UploadAttachments { next: next as usize }, ..pre }
            &&& (a matches PipelineAction::Upload { archive } && packed_archive(
                archive@,
                seq![att],
            ))
        } else {
            &&& post == Pipeline {
                phase: Phase::Teardown,
                failure: Some(ExecError::UploadFailed),
                ..pre
            }
            &&& a is Stop
        }
    } else {
        let c = pre.container->Some_0;
        if simple_path(spec_source_path(c@)) {
            &&& post == Pipeline { phase: Phase::UploadSource, ..pre }
            &&& (a matches PipelineAction::Upload { archive } && packed_archive(
                archive@,
                seq![(spec_source_path(c@), encode_utf8(pre.request.source@))],
            ))
        } else {
            &&& post == Pipeline {
                phase: Phase::Teardown,
                failure: Some(ExecError::UploadFailed),
                ..pre
            }
            &&& a is Stop
        }
    }
}

/// After `pre`, the run step was started and raced against the timeout.
pub open spec fn run_started(pre: Pipeline, post: Pipeline, a: PipelineAction) -> bool {
    let c = pre.container->Some_0;
    &&& post == Pipeline { phase: Phase::Run, ..pre }
    &&& (a matches PipelineAction::StartRun { args, timeout_ms } && args.deep_view()
        == spec_render_args(c@.language->Some_0.run_command, spec_source_file_name(c@))
        && timeout_ms == pre.request.timeout_ms)
}

/// After `pre`, collection began: the first requested path was asked for, or
/// — with nothing requested — teardown began.
pub open spec fn collect_entered(pre: Pipeline, post: Pipeline, a: PipelineAction) -> bool {
    if pre.request.requested_paths.len() == 0 {
        &&& post == Pipeline { phase: Phase::Teardown, ..pre }
        &&& a is Stop
    } else {
        &&& post == Pipeline { phase: Phase::Collect { next: 0 }, ..pre }
        &&& (a matches PipelineAction::Download { path } && path@
            == pre.request.requested_paths.deep_view()[0])
    }
}

/// After `pre`, the answer for requested path `next` was recorded — its
/// bytes as an artifact, or a file-not-found note — and the next path was
/// asked for, or teardown began past the last one.
pub open spec fn collect_advanced(
    pre: Pipeline,
    next: int,
    got: Option<Vec<u8>>,
    post: Pipeline,
    a: PipelineAction,
) -> bool {
    let paths = pre.request.requested_paths.deep_view();
    &&& post.request == pre.request
    &&& post.container == pre.container
    &&& post.compile_log == pre.compile_log
    &&& post.run_log == pre.run_log
    &&& post.timed_out == pre.timed_out
    &&& post.failure == pre.failure
    &&& match got {
        Some(bytes) => post.files.deep_view() == pre.files.deep_view().push(
            (paths[next], bytes@),
        ) && post.missing == pre.missing,
        None => post.missing.deep_view() == pre.missing.deep_view().push(paths[next])
            && post.files == pre.files,
    }
    &&& if next + 1 < paths.len() {
        &&& post.phase == (Phase::Collect { next: (next + 1) as usize })
        &&& (a matches PipelineAction::Download { path } && path@ == paths[next + 1])
    } else {
        &&& post.phase is Teardown
        &&& a is Stop
    }
}

/// After teardown answered — removed or not, the outcome is the same — the
/// run ends: with the recorded fatal error, or with the result built from
/// the buffers, untouched by how teardown went.
pub open spec fn teardown_finished(pre: Pipeline, post: Pipeline, a: PipelineAction) -> bool {
    match pre.failure {
        Some(e) => {
            &&& post == Pipeline { phase: Phase::Failed, ..pre }
            &&& a == (PipelineAction::Fail { error: e })
        },
        None => {
            &&& post.phase is Done
            &&& post.request == pre.request
            &&& (a matches PipelineAction::Finish { result } && result == spec_result(pre))
        },
    }
}

/// Law: a failed removal — as of a container already gone — is recoverable:
/// the event is accepted in teardown, it leads through the same relation as
/// a successful removal, and an otherwise clean run still finishes with its
/// result untouched.
pub proof fn lemma_stop_failure_swallowed(p: Pipeline, post: Pipeline, a: PipelineAction)
    requires
        p.phase is Teardown,
    ensures
        event_fits(p, PipelineEvent::StopFailed),
        p.failure is None && teardown_finished(p, post, a) ==> post.phase is Done && (a
            matches PipelineAction::Finish { result } && result == spec_result(p)),
{
}

impl Pipeline {
    /// A fresh run for one request; the first action acquires a container.
    pub fn new(request: Request) -> (p: Self)
        ensures
            p.request == request,
            p.phase is Acquire,
            p.container is None,
            p.compile_log@ == Seq::<char>::empty(),
            p.run_log@ == Seq::<char>::empty(),
            !p.timed_out,
            p.files.deep_view() == Seq::<(Seq<char>, Seq<u8>)>::empty(),
            p.missing.deep_view() == Seq::<Seq<char>>::empty(),
            p.failure is None,
            p.wf(),
    {
        let p = Pipeline {
            request,
            phase: Phase::Acquire,
            container: None,
            compile_log: String::new(),
            run_log: String::new(),
            timed_out: false,
            files: Vec::new(),
            missing: Vec::new(),
            failure: None,
        };
        proof {
            assert(p.files.deep_view() =~= Seq::<(Seq<char>, Seq<u8>)>::empty());
            assert(p.missing.deep_view() =~= Seq::<Seq<char>>::empty());
        }
        p
    }

    /// The opening move of a run.
    pub fn start(&self) -> (a: PipelineAction)
        requires
            self.phase is Acquire,
        ensures
            a is AcquireContainer,
    {
        PipelineAction::AcquireContainer
    }

    /// Advances the run by one event and says what to do next. Every path
    /// that holds a container leads through `Teardown` before `Done` or
    /// `Failed`, so the container is always removed; and how teardown went
    /// never changes the result.
    pub fn step(&mut self, event: PipelineEvent) -> (a: PipelineAction)
        requires
            old(self).wf(),
            event_fits(*old(self), event),
        ensures
            final(self).wf(),
            final(self).request == old(self).request,
            final(self).phase is Done ==> old(self).phase is Teardown,
            (a matches PipelineAction::Fail { .. }) ==> (old(self).phase is Acquire || old(
                self,
            ).phase is Teardown),
            match (old(self).phase, event) {
                (Phase::Acquire, PipelineEvent::Acquired { container }) => uploads_issued(
                    Pipeline { container: Some(container), ..*old(self) },
                    0,
                    *final(self),
                    a,
                ),
                (Phase::Acquire, PipelineEvent::StepFailed { error }) => *final(self) == (Pipeline {
                    phase: Phase::Failed,
                    ..*old(self)
                }) && a == (PipelineAction::Fail { error }),
                (Phase::UploadAttachments { next }, PipelineEvent::Uploaded) => uploads_issued(
                    *old(self),
                    next + 1,
                    *final(self),
                    a,
                ),
                (Phase::UploadSource, PipelineEvent::Uploaded) => {
                    let c = old(self).container->Some_0;
                    match c@.language->Some_0.compile_command {
                        Some(t) => {
                            &&& *final(self) == (Pipeline { phase: Phase::Compile, ..*old(self) })
                            &&& (a matches PipelineAction::StartCompile { args }
                                && args.deep_view() == spec_render_args(
                                t,
                                spec_source_file_name(c@),
                            ))
                        },
                        None => run_started(*old(self), *final(self), a),
                    }
                },
                (Phase::Compile, PipelineEvent::CompileFinished { log }) => run_started(
                    Pipeline { compile_log: log, ..*old(self) },
                    *final(self),
                    a,
                ),
                (Phase::Run, PipelineEvent::RunFinished { log, timed_out }) => collect_entered(
                    Pipeline { run_log: log, timed_out, ..*old(self) },
                    *final(self),
                    a,
                ),
                (Phase::Collect { next }, PipelineEvent::Downloaded { bytes }) => collect_advanced(
                    *old(self),
                    next as int,
                    Some(bytes),
                    *final(self),
                    a,
                ),
                (Phase::Collect { next }, PipelineEvent::DownloadFailed) => collect_advanced(
                    *old(self),
                    next as int,
                    None,
                    *final(self),
                    a,
                ),
                (Phase::Teardown, PipelineEvent::Stopped) => teardown_finished(
                    *old(self),
                    *final(self),
                    a,
                ),
                (Phase::Teardown, PipelineEvent::StopFailed) => teardown_finished(
                    *old(self),
                    *final(self),
                    a,
                ),
                (_, PipelineEvent::StepFailed { error }) => *final(self) == (Pipeline {
                    phase: Phase::Teardown,
                    failure: Some(error),
                    ..*old(self)
                }) && a is Stop,
                _ => true,
            },
    {
        let phase = self.phase;
        match (phase, event) {
            (Phase::Acquire, PipelineEvent::Acquired { container }) => {
                self.container = Some(container);
                self.issue_upload(0)
            },
            (Phase::Acquire, PipelineEvent::StepFailed { error }) => {
                self.phase = Phase::Failed;
                PipelineAction::Fail { error }
            },
            (Phase::UploadAttachments { next }, PipelineEvent::Uploaded) => self.issue_upload(
                next + 1,
            ),
            (Phase::UploadSource, PipelineEvent::Uploaded) => {
                let compile = match &self.container {
                    Some(c) => c.compile_args(),
                    None => None,
                };
                match compile {
                    Some(args) => {
                        self.phase = Phase::Compile;
                        PipelineAction::StartCompile { args }
                    },
                    None => self.start_run(),
                }
            },
            (Phase::Compile, PipelineEvent::CompileFinished { log }) => {
                self.compile_log = log;
                self.start_run()
            },
            (Phase::Run, PipelineEvent::RunFinished { log, timed_out }) => {
                self.run_log = log;
                self.timed_out = timed_out;
                self.enter_collect()
            },
            (Phase::Collect { next }, PipelineEvent::Downloaded { bytes }) => {
                let path = self.request.requested_paths[next].clone();
                self.files.push(ArchiveEntry { path, payload: bytes });
                proof {
                    assert(self.files.deep_view() =~= old(self).files.deep_view().push(
                        (old(self).request.requested_paths.deep_view()[next as int], bytes@),
                    ));
                }
                self.advance_collect(next)
            },
            (Phase::Collect { next }, PipelineEvent::DownloadFailed) => {
                let path = self.request.requested_paths[next].clone();
                self.missing.push(path);
                proof {
                    assert(self.missing.deep_view() =~= old(self).missing.deep_view().push(
                        old(self).request.requested_paths.deep_view()[next as int],
                    ));
                }
                self.advance_collect(next)
            },
            (Phase::Teardown, PipelineEvent::Stopped) => self.finish_teardown(),
            (Phase::Teardown, PipelineEvent::StopFailed) => self.finish_teardown(),
            (_, PipelineEvent::StepFailed { error }) => {
                self.phase = Phase::Teardown;
                self.failure = Some(error);
                PipelineAction::Stop
            },
            _ => {
                proof {
                    assert(false);
                }
                PipelineAction::Stop
            },
        }
    }

    /// Issues upload slot `next`: an attachment, or the source past the last
    /// attachment.
    fn issue_upload(&mut self, next: usize) -> (a: PipelineAction)
        requires
            old(self).container_ok(),
            old(self).failure is None,
            next <= old(self).request.attachments.len(),
        ensures
            final(self).wf(),
            uploads_issued(*old(self), next as int, *final(self), a),
            !(final(self).phase is Done),
            !(a matches PipelineAction::Fail { .. }),
            final(self).request == old(self).request,
    {
        if next < self.request.attachments.len() {
            let r = attachment_archive(
                &self.request.attachments[next].payload,
                &self.request.attachments[next].path,
            );
            match r {
                Ok(archive) => {
                    self.phase = Phase::UploadAttachments { next };
                    PipelineAction::Upload { archive }
                },
                Err(_) => {
                    self.phase = Phase::Teardown;
                    self.failure = Some(ExecError::UploadFailed);
                    PipelineAction::Stop
                },
            }
        } else {
            let r = match &self.container {
                Some(c) => c.source_archive(self.request.source.as_str()),
                None => Err(CodecError::InvalidPath),
            };
            match r {
                Ok(archive) => {
                    self.phase = Phase::UploadSource;
                    PipelineAction::Upload { archive }
                },
                Err(_) => {
                    self.phase = Phase::Teardown;
                    self.failure = Some(ExecError::UploadFailed);
                    PipelineAction::Stop
                },
            }
        }
    }

    /// Starts the run step, raced against the request's timeout.
    fn start_run(&mut self) -> (a: PipelineAction)
        requires
            old(self).container_ok(),
        ensures
            run_started(*old(self), *final(self), a),
    {
        let args = match &self.container {
            Some(c) => c.run_args(),
            None => Vec::new(),
        };
        self.phase = Phase::Run;
        PipelineAction::StartRun { args, timeout_ms: self.request.timeout_ms }
    }

    /// Begins collecting the requested output paths, or tears down at once
    /// when none were requested.
    fn enter_collect(&mut self) -> (a: PipelineAction)
        requires
            old(self).container_ok(),
        ensures
            collect_entered(*old(self), *final(self), a),
            final(self).wf(),
            !(final(self).phase is Done),
            !(a matches PipelineAction::Fail { .. }),
    {
        if self.request.requested_paths.len() == 0 {
            self.phase = Phase::Teardown;
            PipelineAction::Stop
        } else {
            self.phase = Phase::Collect { next: 0 };
            PipelineAction::Download { path: self.request.requested_paths[0].clone() }
        }
    }

    /// Moves on to the requested path after `next`, or to teardown past the
    /// last one.
    fn advance_collect(&mut self, next: usize) -> (a: PipelineAction)
        requires
            old(self).container_ok(),
            next < old(self).request.requested_paths.len(),
        ensures
            final(self).request == old(self).request,
            final(self).container == old(self).container,
            final(self).compile_log == old(self).compile_log,
            final(self).run_log == old(self).run_log,
            final(self).timed_out == old(self).timed_out,
            final(self).files == old(self).files,
            final(self).missing == old(self).missing,
            final(self).failure == old(self).failure,
            final(self).wf(),
            !(final(self).phase is Done),
            !(a matches PipelineAction::Fail { .. }),
            if next + 1 < old(self).request.requested_paths.len() {
                final(self).phase == (Phase::Collect { next: (next + 1) as usize }) && (a
                    matches PipelineAction::Download { path } && path@
                    == old(self).request.requested_paths.deep_view()[next + 1])
            } else {
                final(self).phase is Teardown && a is Stop
            },
    {
        if next + 1 < self.request.requested_paths.len() {
            self.phase = Phase::Collect { next: next + 1 };
            PipelineAction::Download { path: self.request.requested_paths[next + 1].clone() }
        } else {
            self.phase = Phase::Teardown;
            PipelineAction::Stop
        }
    }

    /// Ends the run after teardown answered, successfully or not.
    fn finish_teardown(&mut self) -> (a: PipelineAction)
        ensures
            teardown_finished(*old(self), *final(self), a),
            final(self).wf(),
            final(self).request == old(self).request,
    {
        match self.failure {
            Some(e) => {
                self.phase = Phase::Failed;
                PipelineAction::Fail { error: e }
            },
            None => {
                self.phase = Phase::Done;
                let mut compile_log = String::new();
                core::mem::swap(&mut compile_log, &mut self.compile_log);
                let mut run_log = String::new();
                core::mem::swap(&mut run_log, &mut self.run_log);
                let mut files: Vec<ArchiveEntry> = Vec::new();
                core::mem::swap(&mut files, &mut self.files);
                let mut missing: Vec<String> = Vec::new();
                core::mem::swap(&mut missing, &mut self.missing);
                let result = ExecutionResult {
                    compile_log,
                    run_log,
                    timed_out: self.timed_out,
                    files,
                    missing,
                };
                PipelineAction::Finish { result }
            },
        }
    }
}

} // verus!
