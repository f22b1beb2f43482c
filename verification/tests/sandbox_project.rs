use app_core::llm::{generate_code_with_research, Dependency};
use app_core::sandbox::{cargo_manifest, classify_build, run_in_sandbox, SandboxFault, MANIFEST_HEAD};

fn dep(name: &str, features: &[&str]) -> Dependency {
    Dependency { name: name.to_string(), features: features.iter().map(|f| f.to_string()).collect() }
}

#[test]
fn manifest_without_dependencies_is_the_header() {
    assert_eq!(
        cargo_manifest(&[]),
        "[package]\nname = \"sandbox\"\nversion = \"0.1.0\"\nedition = \"2024\"\n\n[dependencies]\n"
    );
    assert_eq!(cargo_manifest(&[]), MANIFEST_HEAD);
}

#[test]
fn manifest_has_one_line_per_dependency_in_order() {
    let deps = vec![dep("serde", &["derive", "rc"]), dep("left-pad", &[]), dep("tokio", &["full"])];
    assert_eq!(
        cargo_manifest(&deps),
        "[package]\nname = \"sandbox\"\nversion = \"0.1.0\"\nedition = \"2024\"\n\n[dependencies]\nserde = { version = \"*\", features = [\"derive\", \"rc\"] }\nleft-pad = { version = \"*\", features = [] }\ntokio = { version = \"*\", features = [\"full\"] }\n"
    );
}

#[test]
fn manifest_for_left_pad_has_exactly_one_entry_with_no_features() {
    let artifact = generate_code_with_research(Some(
        "{\"dependencies\":[{\"name\":\"left-pad\",\"features\":[]}],\"code\":\"fn main(){}\"}",
    ))
    .unwrap();
    let project = run_in_sandbox(&artifact.code, &artifact.dependencies);
    assert_eq!(project.source, "fn main(){}");
    let lines: Vec<&str> = project.manifest.lines().collect();
    let at = lines.iter().position(|l| *l == "[dependencies]").unwrap();
    assert_eq!(&lines[at + 1..], ["left-pad = { version = \"*\", features = [] }"]);
}

#[test]
fn source_is_kept_verbatim() {
    let code = "fn main() {\n\tprintln!(\"{:?}\", 1);\n}\n\n";
    let project = run_in_sandbox(code, &[]);
    assert_eq!(project.source, code);
}

#[test]
fn passed_build_has_no_diagnostics() {
    let outcome = classify_build(true, b"warning: unused variable".to_vec()).unwrap();
    assert!(outcome.success);
    assert_eq!(outcome.output, "");
}

#[test]
fn failed_build_carries_standard_error() {
    let outcome = classify_build(false, "error[E0425]: cannot find value `x` — né".as_bytes().to_vec())
        .unwrap();
    assert!(!outcome.success);
    assert_eq!(outcome.output, "error[E0425]: cannot find value `x` — né");
}

#[test]
fn failed_build_with_empty_standard_error_is_still_a_failure() {
    let outcome = classify_build(false, Vec::new()).unwrap();
    assert!(!outcome.success);
    assert_eq!(outcome.output, "");
}

#[test]
fn unreadable_diagnostics_are_a_sandbox_fault() {
    let fault = classify_build(false, vec![0x66, 0xff, 0xfe]).unwrap_err();
    assert_eq!(fault, SandboxFault::ReadDiagnostics);
}

#[test]
fn unreadable_bytes_do_not_matter_when_the_build_passed() {
    let outcome = classify_build(true, vec![0xff]).unwrap();
    assert!(outcome.success);
    assert_eq!(outcome.output, "");
}

#[test]
fn faults_are_worded() {
    assert_eq!(SandboxFault::CreateDirectory.message(), "Failed to create temp directory");
    assert_eq!(SandboxFault::CreateSourceDirectory.message(), "Failed to create src directory");
    assert_eq!(SandboxFault::WriteManifest.message(), "Failed to write dynamic Cargo.toml");
    assert_eq!(SandboxFault::WriteSource.message(), "Failed to write main.rs");
    assert_eq!(SandboxFault::LaunchBuild.message(), "Failed to execute cargo build");
    assert_eq!(SandboxFault::ReadDiagnostics.message(), "Failed to read stderr from cargo build");
}
