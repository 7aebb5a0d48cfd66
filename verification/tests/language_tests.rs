use dockerbot::language::{Config, Language, CREATE_STOP_GRACE_SECONDS, MEMORY_LIMIT_BYTES};
use dockerbot::template::{CommandTemplate, PathTemplate, TemplatePiece};

fn python() -> Language {
    Language {
        name: String::from("Python"),
        code: vec![String::from("python"), String::from("py")],
        extension: String::from("py"),
        path: PathTemplate { pieces: vec![TemplatePiece::FileName] },
        run_command: CommandTemplate {
            args: vec![TemplatePiece::Lit(String::from("python")), TemplatePiece::FileName],
        },
        compile_command: None,
        image: String::from("python:3"),
    }
}

fn c_lang() -> Language {
    Language {
        name: String::from("C"),
        code: vec![String::from("c")],
        extension: String::from("c"),
        path: PathTemplate {
            pieces: vec![TemplatePiece::Lit(String::from("src/")), TemplatePiece::FileName],
        },
        run_command: CommandTemplate { args: vec![TemplatePiece::Lit(String::from("./out"))] },
        compile_command: Some(CommandTemplate {
            args: vec![
                TemplatePiece::Lit(String::from("gcc")),
                TemplatePiece::FileName,
                TemplatePiece::Lit(String::from("-o")),
                TemplatePiece::Lit(String::from("out")),
            ],
        }),
        image: String::from("gcc:latest"),
    }
}

#[test]
fn path_template_renders_by_concatenation() {
    let lang = c_lang();
    assert_eq!(lang.get_path(String::from("main.c")), "src/main.c");
}

#[test]
fn run_command_substitutes_whole_argument() {
    let lang = python();
    let args = lang.get_run_command(String::from("snippet with spaces.py"));
    assert_eq!(args, vec![String::from("python"), String::from("snippet with spaces.py")]);
}

#[test]
fn compile_command_absent_means_no_compile_step() {
    let lang = python();
    assert!(lang.get_compile_command(String::from("x.py")).is_none());
}

#[test]
fn compile_command_renders_argument_vector() {
    let lang = c_lang();
    let args = lang.get_compile_command(String::from("main.c")).unwrap();
    assert_eq!(
        args,
        vec![String::from("gcc"), String::from("main.c"), String::from("-o"), String::from("out")]
    );
}

#[test]
fn container_options_request_isolation() {
    let opts = python().get_container_option();
    assert_eq!(opts.image, "python:3");
    assert!(opts.tty);
    assert!(opts.network_disabled);
    assert_eq!(opts.shell_command, vec![String::from("/bin/sh")]);
    assert_eq!(opts.memory_limit_bytes, MEMORY_LIMIT_BYTES);
    assert_eq!(opts.memory_limit_bytes, 1024 * 1024 * 1024);
    assert_eq!(opts.stop_timeout_seconds, CREATE_STOP_GRACE_SECONDS);
}

#[test]
fn get_language_finds_by_alias() {
    let config = Config {
        token: String::from("example-token"),
        prefix: String::from("!"),
        languages: vec![python(), c_lang()],
        owner: 7,
    };
    let found = config.get_language(&String::from("py")).unwrap();
    assert_eq!(found.name, "Python");
    let found = config.get_language(&String::from("c")).unwrap();
    assert_eq!(found.name, "C");
}

#[test]
fn get_language_unknown_alias_is_none() {
    let config = Config {
        token: String::from("example-token"),
        prefix: String::from("!"),
        languages: vec![python()],
        owner: 7,
    };
    assert!(config.get_language(&String::from("cobol")).is_none());
}

#[test]
fn get_language_returns_first_match() {
    let mut second = python();
    second.name = String::from("Python-alt");
    let config = Config {
        token: String::from("example-token"),
        prefix: String::from("!"),
        languages: vec![python(), second],
        owner: 7,
    };
    assert_eq!(config.get_language(&String::from("python")).unwrap().name, "Python");
}
