//! The build validator's own part: the project that is put on disk for a
//! generated program, and what a finished build means. Creating the
//! directory, writing the files and running the build tool are the caller's.

use vstd::prelude::*;
use vstd::string::StringExecFns;
use vstd::utf8::{decode_utf8, valid_utf8};
pub use crate::llm::Dependency;
use crate::llm::{dependency_views, DependencyView};
use crate::text::{joined, text_of_bytes, texts};

verus! {

/// The verdict of one validation: whether the build passed, and the build
/// tool's diagnostics where it did not.
#[derive(Debug)]
pub struct SandboxResult {
    pub success: bool,
    pub output: String,
}

/// The model of a [`SandboxResult`].
pub struct BuildOutcome {
    pub success: bool,
    pub diagnostics: Seq<char>,
}

impl View for SandboxResult {
    type V = BuildOutcome;

    open spec fn view(&self) -> BuildOutcome {
        BuildOutcome { success: self.success, diagnostics: self.output@ }
    }
}

/// The step of a validation at which the machine, not the program, failed.
#[derive(Debug, Clone, Copy, PartialEq, Eq, Structural)]
pub enum SandboxFault {
    CreateDirectory,
    CreateSourceDirectory,
    WriteManifest,
    WriteSource,
    LaunchBuild,
    ReadDiagnostics,
}

/// The two files of the project that is built.
#[derive(Debug)]
pub struct SandboxProject {
    /// Contents of `Cargo.toml`.
    pub manifest: String,
    /// Contents of `src/main.rs`.
    pub source: String,
}

/// The manifest up to and including the header of the dependency table.
pub const MANIFEST_HEAD: &'static str =
    "[package]\nname = \"sandbox\"\nversion = \"0.1.0\"\nedition = \"2024\"\n\n[dependencies]\n";

/// `feature` between double quotes.
pub open spec fn quoted(feature: Seq<char>) -> Seq<char> {
    "\""@ + feature + "\""@
}

/// The features of one dependency as the items of a TOML array: each quoted,
/// in the order given, separated by a comma and a space.
pub open spec fn feature_items(features: Seq<Seq<char>>) -> Seq<char> {
    joined(Seq::new(features.len(), |i: int| quoted(features[i])), ", "@)
}

/// The manifest line of one dependency: any version, the features verbatim.
pub open spec fn dependency_line(dep: DependencyView) -> Seq<char> {
    dep.name + " = { version = \"*\", features = ["@ + feature_items(dep.features) + "] }\n"@
}

/// The manifest lines of `deps`, one per dependency, in the order given.
pub open spec fn dependency_lines(deps: Seq<DependencyView>) -> Seq<char>
    decreases deps.len(),
{
    if deps.len() == 0 {
        Seq::empty()
    } else {
        dependency_lines(deps.drop_last()) + dependency_line(deps.last())
    }
}

/// The whole manifest for `deps`.
pub open spec fn manifest_text(deps: Seq<DependencyView>) -> Seq<char> {
    MANIFEST_HEAD@ + dependency_lines(deps)
}

fn feature_list(features: &Vec<String>) -> (r: String)
    ensures
        r@ == feature_items(texts(features@)),
{
    let mut out = String::new();
    let ghost items = Seq::new(features.len() as nat, |i: int| quoted(texts(features@)[i]));
    let mut i: usize = 0;
    while i < features.len()
        invariant
            i <= features.len(),
            items == Seq::new(features.len() as nat, |i: int| quoted(texts(features@)[i])),
            out@ == joined(items.take(i as int), ", "@),
        decreases features.len() - i,
    {
        let ghost next = items.take(i + 1);
        assert(next.drop_last() =~= items.take(i as int));
        assert(next.last() == quoted(features@[i as int]@));
        if i > 0 {
            out.append(", ");
        }
        out.append("\"");
        out.append(features[i].as_str());
        out.append("\"");
        assert(out@ =~= joined(next, ", "@));
        i = i + 1;
    }
    assert(items.take(features.len() as int) =~= items);
    assert(items =~= Seq::new(
        texts(features@).len(),
        |i: int| quoted(texts(features@)[i]),
    ));
    out
}

/// Writes the manifest of the sandbox project: the fixed package header, then
/// exactly the dependencies given, each at any version with its features.
pub fn cargo_manifest(dependencies: &[Dependency]) -> (r: String)
    ensures
        r@ == manifest_text(dependency_views(dependencies@)),
{
    let mut out = String::from_str(MANIFEST_HEAD);
    let ghost deps = dependency_views(dependencies@);
    let mut i: usize = 0;
    while i < dependencies.len()
        invariant
            i <= dependencies.len(),
            deps == dependency_views(dependencies@),
            out@ == MANIFEST_HEAD@ + dependency_lines(deps.take(i as int)),
        decreases dependencies.len() - i,
    {
        let ghost next = deps.take(i + 1);
        assert(next.drop_last() =~= deps.take(i as int));
        assert(next.last() == dependencies@[i as int]@);
        let dep = &dependencies[i];
        let features = feature_list(&dep.features);
        out.append(dep.name.as_str());
        out.append(" = { version = \"*\", features = [");
        out.append(features.as_str());
        out.append("] }\n");
        assert(out@ =~= MANIFEST_HEAD@ + dependency_lines(next));
        i = i + 1;
    }
    assert(deps.take(dependencies.len() as int) =~= deps);
    out
}

/// Prepares the validation of a program: the project to build for it and its
/// declared dependencies, made of the manifest for exactly those dependencies
/// and the program verbatim. The caller puts the two files into a fresh
/// directory of its own, builds there, removes the directory whatever came of
/// the build, and has the build classified by [`classify_build`].
pub fn run_in_sandbox(code: &str, dependencies: &[Dependency]) -> (r: SandboxProject)
    ensures
        r.manifest@ == manifest_text(dependency_views(dependencies@)),
        r.source@ == code@,
{
    SandboxProject { manifest: cargo_manifest(dependencies), source: String::from_str(code) }
}

/// What a finished build means: it passed iff the build tool left with
/// status zero, and then there are no diagnostics. A failed build's
/// diagnostics are its standard error; where that is not UTF-8 the validation
/// itself has failed.
pub open spec fn build_verdict(exit_success: bool, stderr: Seq<u8>) -> Result<
    BuildOutcome,
    SandboxFault,
> {
    if exit_success {
        Ok(BuildOutcome { success: true, diagnostics: Seq::empty() })
    } else if valid_utf8(stderr) {
        Ok(BuildOutcome { success: false, diagnostics: decode_utf8(stderr) })
    } else {
        Err(SandboxFault::ReadDiagnostics)
    }
}

/// Classifies a finished build. `exit_success` is whether the build tool left
/// with status zero, `stderr` what it wrote to standard error.
pub fn classify_build(exit_success: bool, stderr: Vec<u8>) -> (r: Result<
    SandboxResult,
    SandboxFault,
>)
    ensures
        match r {
            Ok(outcome) => build_verdict(exit_success, stderr@) == Ok::<
                BuildOutcome,
                SandboxFault,
            >(outcome@),
            Err(fault) => build_verdict(exit_success, stderr@) == Err::<
                BuildOutcome,
                SandboxFault,
            >(fault),
        },
{
    if exit_success {
        Ok(SandboxResult { success: true, output: String::new() })
    } else {
        match text_of_bytes(stderr) {
            Some(output) => Ok(SandboxResult { success: false, output }),
            None => Err(SandboxFault::ReadDiagnostics),
        }
    }
}

/// What a sandbox fault says in words.
pub open spec fn fault_message(fault: SandboxFault) -> Seq<char> {
    match fault {
        SandboxFault::CreateDirectory => "Failed to create temp directory"@,
        SandboxFault::CreateSourceDirectory => "Failed to create src directory"@,
        SandboxFault::WriteManifest => "Failed to write dynamic Cargo.toml"@,
        SandboxFault::WriteSource => "Failed to write main.rs"@,
        SandboxFault::LaunchBuild => "Failed to execute cargo build"@,
        SandboxFault::ReadDiagnostics => "Failed to read stderr from cargo build"@,
    }
}

impl SandboxFault {
    /// What went wrong, in words.
    pub fn message(&self) -> (r: &'static str)
        ensures
            r@ == fault_message(*self),
    {
        match self {
            SandboxFault::CreateDirectory => "Failed to create temp directory",
            SandboxFault::CreateSourceDirectory => "Failed to create src directory",
            SandboxFault::WriteManifest => "Failed to write dynamic Cargo.toml",
            SandboxFault::WriteSource => "Failed to write main.rs",
            SandboxFault::LaunchBuild => "Failed to execute cargo build",
            SandboxFault::ReadDiagnostics => "Failed to read stderr from cargo build",
        }
    }
}

} // verus!
