use dockerbot::codec::{unpack_single, ArchiveEntry};
use dockerbot::container::{fresh_container_name, Container};
use dockerbot::errors::ExecError;
use dockerbot::language::Language;
use dockerbot::pipeline::{Pipeline, PipelineAction, PipelineEvent, Request};
use dockerbot::report::format_result;
use dockerbot::template::{CommandTemplate, PathTemplate, TemplatePiece};

fn python_profile() -> Language {
    Language {
        name: String::from("Python"),
        code: vec![String::from("python")],
        extension: String::from("py"),
        path: PathTemplate {
            pieces: vec![TemplatePiece::Lit(String::from("tmp/")), TemplatePiece::FileName],
        },
        run_command: CommandTemplate {
            args: vec![TemplatePiece::Lit(String::from("python")), TemplatePiece::FileName],
        },
        compile_command: None,
        image: String::from("python:3"),
    }
}

fn c_profile() -> Language {
    Language {
        name: String::from("C"),
        code: vec![String::from("c")],
        extension: String::from("c"),
        path: PathTemplate { pieces: vec![TemplatePiece::FileName] },
        run_command: CommandTemplate { args: vec![TemplatePiece::Lit(String::from("./out"))] },
        compile_command: Some(CommandTemplate {
            args: vec![
                TemplatePiece::Lit(String::from("gcc")),
                TemplatePiece::FileName,
                TemplatePiece::Lit(String::from("-o")),
                TemplatePiece::Lit(String::from("out")),
            ],
        }),
        image: String::from("gcc:latest"),
    }
}

fn container_for(profile: &Language) -> Container {
    Container {
        id: String::from("cid-0123"),
        name: fresh_container_name(),
        language: Some(profile.clone()),
    }
}

fn request(profile: Language, source: &str) -> Request {
    Request {
        profile,
        source: String::from(source),
        attachments: vec![],
        requested_paths: vec![],
        timeout_ms: 120_000,
    }
}

#[test]
fn scenario_plain_run_without_compile_section() {
    let profile = python_profile();
    let container = container_for(&profile);
    let mut p = Pipeline::new(request(profile, "print(2+2)"));
    assert!(matches!(p.start(), PipelineAction::AcquireContainer));

    let a = p.step(PipelineEvent::Acquired { container });
    let archive = match a {
        PipelineAction::Upload { archive } => archive,
        _ => panic!("expected the source upload"),
    };
    assert_eq!(unpack_single(&archive).unwrap(), b"print(2+2)".to_vec());

    let a = p.step(PipelineEvent::Uploaded);
    match a {
        PipelineAction::StartRun { args, timeout_ms } => {
            assert_eq!(args[0], "python");
            assert!(args[1].starts_with("dockerbot-"));
            assert!(args[1].ends_with(".py"));
            assert_eq!(timeout_ms, 120_000);
        },
        _ => panic!("a profile without a compile step goes straight to the run"),
    }

    let a = p.step(PipelineEvent::RunFinished { log: String::from("4\n"), timed_out: false });
    assert!(matches!(a, PipelineAction::Stop));

    let a = p.step(PipelineEvent::Stopped);
    let result = match a {
        PipelineAction::Finish { result } => result,
        _ => panic!("a clean run finishes with a result"),
    };
    assert!(result.run_log.contains('4'));
    assert!(!result.timed_out);
    let rendered = format_result(&result);
    assert_eq!(rendered.message, "4\n");
    assert!(!rendered.message.contains("Compilation log"));
}

#[test]
fn scenario_compile_error_still_shows_both_sections() {
    let profile = c_profile();
    let container = container_for(&profile);
    let mut p = Pipeline::new(request(profile, "int main( { return 0; }"));

    let a = p.step(PipelineEvent::Acquired { container });
    assert!(matches!(a, PipelineAction::Upload { .. }));

    let a = p.step(PipelineEvent::Uploaded);
    match a {
        PipelineAction::StartCompile { args } => {
            assert_eq!(args[0], "gcc");
            assert_eq!(args[2], "-o");
        },
        _ => panic!("a profile with a compile step compiles first"),
    }

    let a = p.step(PipelineEvent::CompileFinished {
        log: String::from("main.c:1: error: expected ')'"),
    });
    assert!(matches!(a, PipelineAction::StartRun { .. }));

    let a = p.step(PipelineEvent::RunFinished { log: String::new(), timed_out: false });
    assert!(matches!(a, PipelineAction::Stop));

    let result = match p.step(PipelineEvent::Stopped) {
        PipelineAction::Finish { result } => result,
        _ => panic!("a clean run finishes with a result"),
    };
    assert!(!result.compile_log.is_empty());
    let rendered = format_result(&result);
    assert!(rendered.message.contains("Compilation log:"));
    assert!(rendered.message.contains("expected ')'"));
    assert!(rendered.message.contains("Execution log:"));
}

#[test]
fn timed_out_run_reports_timeout() {
    let profile = python_profile();
    let container = container_for(&profile);
    let mut p = Pipeline::new(request(profile, "while True: pass"));
    p.step(PipelineEvent::Acquired { container });
    p.step(PipelineEvent::Uploaded);
    let a = p.step(PipelineEvent::RunFinished {
        log: String::from("partial output"),
        timed_out: true,
    });
    assert!(matches!(a, PipelineAction::Stop));
    let result = match p.step(PipelineEvent::Stopped) {
        PipelineAction::Finish { result } => result,
        _ => panic!("a timed-out run still finishes with a result"),
    };
    assert!(result.timed_out);
    assert_eq!(format_result(&result).message, "Timeout");
}

#[test]
fn teardown_failure_is_swallowed() {
    let profile = python_profile();
    let container = container_for(&profile);
    let mut p = Pipeline::new(request(profile, "print('x')"));
    p.step(PipelineEvent::Acquired { container });
    p.step(PipelineEvent::Uploaded);
    p.step(PipelineEvent::RunFinished { log: String::from("x\n"), timed_out: false });
    let result = match p.step(PipelineEvent::StopFailed) {
        PipelineAction::Finish { result } => result,
        _ => panic!("a failed removal must not change the outcome"),
    };
    assert_eq!(result.run_log, "x\n");
    assert!(!result.timed_out);
}

#[test]
fn acquire_failure_fails_without_teardown() {
    let mut p = Pipeline::new(request(python_profile(), "print('x')"));
    let a = p.step(PipelineEvent::StepFailed { error: ExecError::ContainerCreateFailed });
    match a {
        PipelineAction::Fail { error } => assert_eq!(error, ExecError::ContainerCreateFailed),
        _ => panic!("an acquire failure is fatal and reported directly"),
    }
}

#[test]
fn exec_failure_still_tears_down() {
    let profile = python_profile();
    let container = container_for(&profile);
    let mut p = Pipeline::new(request(profile, "print('x')"));
    p.step(PipelineEvent::Acquired { container });
    let a = p.step(PipelineEvent::StepFailed { error: ExecError::ExecFailed });
    assert!(matches!(a, PipelineAction::Stop));
    match p.step(PipelineEvent::Stopped) {
        PipelineAction::Fail { error } => assert_eq!(error, ExecError::ExecFailed),
        _ => panic!("the failure surfaces after teardown"),
    }
}

#[test]
fn attachments_upload_before_the_source() {
    let profile = python_profile();
    let container = container_for(&profile);
    let mut req = request(profile, "open('data.csv')");
    req.attachments = vec![ArchiveEntry {
        path: String::from("data.csv"),
        payload: b"a,b\n1,2\n".to_vec(),
    }];
    let mut p = Pipeline::new(req);
    let a = p.step(PipelineEvent::Acquired { container });
    let archive = match a {
        PipelineAction::Upload { archive } => archive,
        _ => panic!("the attachment uploads first"),
    };
    assert_eq!(unpack_single(&archive).unwrap(), b"a,b\n1,2\n".to_vec());
    let a = p.step(PipelineEvent::Uploaded);
    assert!(matches!(a, PipelineAction::Upload { .. }));
}

#[test]
fn bad_attachment_path_fails_upload_and_tears_down() {
    let profile = python_profile();
    let container = container_for(&profile);
    let mut req = request(profile, "print('x')");
    req.attachments = vec![ArchiveEntry {
        path: String::from("../escape"),
        payload: b"nope".to_vec(),
    }];
    let mut p = Pipeline::new(req);
    let a = p.step(PipelineEvent::Acquired { container });
    assert!(matches!(a, PipelineAction::Stop));
    match p.step(PipelineEvent::Stopped) {
        PipelineAction::Fail { error } => assert_eq!(error, ExecError::UploadFailed),
        _ => panic!("a rejected upload surfaces after teardown"),
    }
}

#[test]
fn requested_paths_are_collected_and_missing_noted() {
    let profile = python_profile();
    let container = container_for(&profile);
    let mut req = request(profile, "print('x')");
    req.requested_paths = vec![String::from("out.png"), String::from("gone.txt")];
    let mut p = Pipeline::new(req);
    p.step(PipelineEvent::Acquired { container });
    p.step(PipelineEvent::Uploaded);
    let a = p.step(PipelineEvent::RunFinished { log: String::from("ok"), timed_out: false });
    match a {
        PipelineAction::Download { path } => assert_eq!(path, "out.png"),
        _ => panic!("collection starts with the first requested path"),
    }
    let a = p.step(PipelineEvent::Downloaded { bytes: vec![1, 2, 3] });
    match a {
        PipelineAction::Download { path } => assert_eq!(path, "gone.txt"),
        _ => panic!("collection goes on with the next path"),
    }
    let a = p.step(PipelineEvent::DownloadFailed);
    assert!(matches!(a, PipelineAction::Stop));
    let result = match p.step(PipelineEvent::Stopped) {
        PipelineAction::Finish { result } => result,
        _ => panic!("a missing file never aborts the run"),
    };
    assert_eq!(result.files.len(), 1);
    assert_eq!(result.files[0].path, "out.png");
    assert_eq!(result.files[0].payload, vec![1, 2, 3]);
    assert_eq!(result.missing, vec![String::from("gone.txt")]);
    let rendered = format_result(&result);
    assert!(rendered.message.contains("File not found: `gone.txt`"));
}
