//! The fixed texts of a build: the project manifest, the toolchain's command
//! lines, and the places inside a workspace that a build touches.

use vstd::prelude::*;
use vstd::string::StringExecFns;
use crate::model::texts_of;

verus! {

/// The manifest up to the project name.
pub const MANIFEST_HEAD: &'static str = "[package]\nname = \"";

/// The manifest after the project name: a dynamic-library target, the
/// contract SDK, and a release profile that favours small code.
pub const MANIFEST_TAIL: &'static str = "\"\nversion = \"0.1.0\"\nedition = \"2021\"\n\n[lib]\ncrate-type = [\"cdylib\"]\n\n[dependencies]\nnear-sdk = \"5.5.0\"\nborsh = { version = \"1.0\", features = [\"derive\"] }\n\n[profile.release]\ncodegen-units = 1\nopt-level = \"z\"\nlto = true\ndebug = false\npanic = \"abort\"\noverflow-checks = true\n";

/// The platform that contracts are compiled for.
pub const TARGET: &'static str = "wasm32-unknown-unknown";

/// The manifest of a project called `name`: the name is inserted as it is.
pub open spec fn manifest_text(name: Seq<char>) -> Seq<char> {
    MANIFEST_HEAD@ + name + MANIFEST_TAIL@
}

/// Writes out the manifest of a project called `name`.
pub fn manifest_for(name: &str) -> (text: String)
    ensures
        text@ == manifest_text(name@),
{
    String::from_str(MANIFEST_HEAD).concat(name).concat(MANIFEST_TAIL)
}

/// The character that stands for `c` in the name of a binary: a hyphen
/// becomes an underscore, everything else stays.
pub open spec fn binary_char(c: char) -> char {
    if c == '-' {
        '_'
    } else {
        c
    }
}

/// A project name as the toolchain spells it in the name of the binary.
pub open spec fn binary_stem(name: Seq<char>) -> Seq<char> {
    Seq::new(name.len(), |i: int| binary_char(name[i]))
}

/// The file name of the binary built from a project called `name`.
pub open spec fn artifact_name(name: Seq<char>) -> Seq<char> {
    binary_stem(name) + ".wasm"@
}

/// Replaces every hyphen of `name` by an underscore.
///
/// Trusted: calls `str::replace` with the one-character patterns `"-"` and
/// `"_"`.  Matches of a one-character pattern cannot overlap, so the result
/// has the characters of `name` in order, each hyphen exchanged.
#[verifier::external_body]
fn hyphens_to_underscores(name: &str) -> (stem: String)
    ensures
        stem@ == binary_stem(name@),
{
    name.replace("-", "_")
}

/// Spells the file name of the binary built from a project called `name`.
pub fn artifact_file_name(name: &str) -> (file: String)
    ensures
        file@ == artifact_name(name@),
{
    hyphens_to_underscores(name).concat(".wasm")
}

/// Where the manifest goes, relative to the workspace root.
pub open spec fn manifest_path() -> Seq<Seq<char>> {
    seq!["Cargo.toml"@]
}

/// Where the submitted source goes, relative to the workspace root.
pub open spec fn source_path() -> Seq<Seq<char>> {
    seq!["src"@, "lib.rs"@]
}

/// Where the binary of a project called `name` is expected after a build,
/// relative to the workspace root.
pub open spec fn artifact_path(name: Seq<char>) -> Seq<Seq<char>> {
    seq!["target"@, TARGET@, "release"@, artifact_name(name)]
}

/// The manifest's place as path components.
pub fn manifest_location() -> (path: Vec<String>)
    ensures
        texts_of(path@) == manifest_path(),
{
    let mut path: Vec<String> = Vec::new();
    path.push(String::from_str("Cargo.toml"));
    assert(texts_of(path@) =~= manifest_path());
    path
}

/// The source file's place as path components.
pub fn source_location() -> (path: Vec<String>)
    ensures
        texts_of(path@) == source_path(),
{
    let mut path: Vec<String> = Vec::new();
    path.push(String::from_str("src"));
    path.push(String::from_str("lib.rs"));
    assert(texts_of(path@) =~= source_path());
    path
}

/// The expected binary's place as path components.
pub fn artifact_location(name: &str) -> (path: Vec<String>)
    ensures
        texts_of(path@) == artifact_path(name@),
{
    let mut path: Vec<String> = Vec::new();
    path.push(String::from_str("target"));
    path.push(String::from_str(TARGET));
    path.push(String::from_str("release"));
    path.push(artifact_file_name(name));
    assert(texts_of(path@) =~= artifact_path(name@));
    path
}

/// A subprocess to run: all of it is fixed before launch.
pub struct Invocation {
    /// The program to start.
    pub program: String,
    /// Its arguments, in order.
    pub args: Vec<String>,
    /// Whether it runs with the workspace root as its working directory.
    pub in_workspace: bool,
}

/// A subprocess over character sequences.
pub ghost struct InvocationView {
    pub program: Seq<char>,
    pub args: Seq<Seq<char>>,
    pub in_workspace: bool,
}

impl View for Invocation {
    type V = InvocationView;

    open spec fn view(&self) -> InvocationView {
        InvocationView {
            program: self.program@,
            args: texts_of(self.args@),
            in_workspace: self.in_workspace,
        }
    }
}

/// Scaffolding: a library project called `name`, made in the workspace.
pub open spec fn scaffold_command(name: Seq<char>) -> InvocationView {
    InvocationView {
        program: "cargo"@,
        args: seq!["init"@, "--name"@, name, "--lib"@],
        in_workspace: true,
    }
}

/// Hygiene: drop whatever build cache the workspace holds.
pub open spec fn clean_command() -> InvocationView {
    InvocationView { program: "cargo"@, args: seq!["clean"@], in_workspace: true }
}

/// Preparation: make the target platform available to the toolchain.
pub open spec fn target_command() -> InvocationView {
    InvocationView {
        program: "rustup"@,
        args: seq!["target"@, "add"@, TARGET@],
        in_workspace: false,
    }
}

/// The build proper: a release build for the target platform.
pub open spec fn build_command() -> InvocationView {
    InvocationView {
        program: "cargo"@,
        args: seq!["build"@, "--target"@, TARGET@, "--release"@],
        in_workspace: true,
    }
}

/// The scaffolding invocation for a project called `name`.
pub fn scaffold_invocation(name: &str) -> (inv: Invocation)
    ensures
        inv@ == scaffold_command(name@),
{
    let mut args: Vec<String> = Vec::new();
    args.push(String::from_str("init"));
    args.push(String::from_str("--name"));
    args.push(String::from_str(name));
    args.push(String::from_str("--lib"));
    assert(texts_of(args@) =~= scaffold_command(name@).args);
    Invocation { program: String::from_str("cargo"), args, in_workspace: true }
}

/// The cache-clearing invocation.
pub fn clean_invocation() -> (inv: Invocation)
    ensures
        inv@ == clean_command(),
{
    let mut args: Vec<String> = Vec::new();
    args.push(String::from_str("clean"));
    assert(texts_of(args@) =~= clean_command().args);
    Invocation { program: String::from_str("cargo"), args, in_workspace: true }
}

/// The invocation that installs the target platform.
pub fn target_invocation() -> (inv: Invocation)
    ensures
        inv@ == target_command(),
{
    let mut args: Vec<String> = Vec::new();
    args.push(String::from_str("target"));
    args.push(String::from_str("add"));
    args.push(String::from_str(TARGET));
    assert(texts_of(args@) =~= target_command().args);
    Invocation { program: String::from_str("rustup"), args, in_workspace: false }
}

/// The build invocation.
pub fn build_invocation() -> (inv: Invocation)
    ensures
        inv@ == build_command(),
{
    let mut args: Vec<String> = Vec::new();
    args.push(String::from_str("build"));
    args.push(String::from_str("--target"));
    args.push(String::from_str(TARGET));
    args.push(String::from_str("--release"));
    assert(texts_of(args@) =~= build_command().args);
    Invocation { program: String::from_str("cargo"), args, in_workspace: true }
}

} // verus!
