use farce_sandbox::outcome::{compile_outcome, respond, stdout_log, SandboxError};
use farce_sandbox::problem::{manifest_path, scaffold_path, submission_path, Function};
use farce_sandbox::staging::{
    artifact_files, artifact_path, build_id, compile_args, dep_info_path, manifest_line,
    replace_dots,
};

#[test]
fn build_id_from_directory_name() {
    assert_eq!(build_id(".tmpAb3xYz"), "user_tmpAb3xYz");
    assert_eq!(build_id("a.b.c"), "usera_b_c");
    assert_eq!(build_id(""), "user");
}

#[test]
fn distinct_directories_distinct_ids() {
    assert_ne!(build_id(".tmpAAAAAA"), build_id(".tmpAAAAAB"));
}

#[test]
fn manifest_line_names_package() {
    assert_eq!(manifest_line("user_tmp1"), "name = \"user_tmp1\"\n");
}

#[test]
fn compiler_arguments() {
    assert_eq!(
        compile_args("/srv/target"),
        vec!["build", "--release", "--target", "wasm32-wasip1", "--target-dir", "/srv/target"]
    );
}

#[test]
fn artifact_locations() {
    assert_eq!(artifact_path("target", "user_x"), "target/wasm32-wasip1/release/user_x.wasm");
    assert_eq!(dep_info_path("target", "user_x"), "target/wasm32-wasip1/release/user_x.d");
    assert_eq!(
        artifact_files("t", "u"),
        vec![String::from("t/wasm32-wasip1/release/u.wasm"), String::from("t/wasm32-wasip1/release/u.d")]
    );
}

#[test]
fn catalog_names_and_paths() {
    assert_eq!(Function::Arbitrary.name(), "arbitrary");
    assert_eq!(Function::from_name("prime"), Some(Function::Prime));
    assert_eq!(Function::from_name("decode"), Some(Function::Decode));
    assert_eq!(Function::from_name("nope"), None);
    assert_eq!(Function::Param.template_dir(), "templates/param");
    assert_eq!(scaffold_path(Function::Decode), "templates/decode/src/scaffold.rs");
    assert_eq!(submission_path(Function::Param), None);
    assert_eq!(submission_path(Function::Prime), Some("src/boilerplate.rs"));
    assert_eq!(submission_path(Function::Arbitrary), Some("src/scaffold.rs"));
    assert_eq!(submission_path(Function::Decode), Some("src/scaffold.rs"));
    assert_eq!(manifest_path(), "Cargo.toml");
    assert!(Function::Param.takes_parameter());
    assert!(!Function::Arbitrary.takes_parameter());
}

#[test]
fn compilation_failure_is_reported() {
    assert!(compile_outcome(true, b"warning").is_ok());
    let err = compile_outcome(false, b"error[E0425]: cannot find value").unwrap_err();
    assert_eq!(
        err,
        SandboxError::CompilationFailed(String::from("error[E0425]: cannot find value"))
    );
    let log = respond(Err(err)).log.unwrap();
    assert!(log.starts_with("Error: Compilation failed:"));
}

#[test]
fn lossy_diagnostics() {
    let err = compile_outcome(false, &[b'a', 0xff, b'b']).unwrap_err();
    assert_eq!(err, SandboxError::CompilationFailed(String::from("a\u{FFFD}b")));
}

#[test]
fn error_logs() {
    assert_eq!(SandboxError::MissingParameter.log_line(), "Error: Param function called without passing a parameter.");
    assert_eq!(SandboxError::GuestTrap(String::from("boom")).log_line(), "Error: boom");
    assert_eq!(SandboxError::UnknownProblem.describe(), "unknown problem");
    let r = respond(Err(SandboxError::OutOfFuel));
    assert_eq!(r.log.as_deref(), Some("Instruction maximum exceeded. Aborted execution to avoid DOS."));
    assert!(r.out.is_none());
}

#[test]
fn stdout_policy() {
    assert_eq!(stdout_log(b""), Some(String::new()));
    assert_eq!(stdout_log(b"printed"), None);
}

#[test]
fn live_workspaces_get_distinct_ids() {
    let a = tempfile::tempdir().unwrap();
    let b = tempfile::tempdir().unwrap();
    let name_a = a.path().file_name().unwrap().to_str().unwrap().to_string();
    let name_b = b.path().file_name().unwrap().to_str().unwrap().to_string();
    assert!(!name_a.contains('_') && !name_b.contains('_'));
    let id_a = build_id(&name_a);
    let id_b = build_id(&name_b);
    assert_ne!(id_a, id_b);
    assert!(id_a.starts_with("user") && !id_a.contains('.'));
}

#[test]
fn dots_become_underscores() {
    assert_eq!(replace_dots("a.b..c"), "a_b__c");
    assert_eq!(replace_dots("é.ü"), "é_ü");
    assert_eq!(replace_dots(""), "");
    assert_eq!(replace_dots("plain"), "plain");
}
