//! The commands that a run hands to `git` and `cargo`.

use vstd::prelude::*;
use vstd::string::*;
use crate::layout::{
    manifest_path, package_name, source_dir, spec_manifest_path, spec_package_name,
    spec_source_dir,
};
use crate::request::BuildRequest;
use crate::runtime::Runtime;

verus! {

/// A program to start, its arguments, and the directory to start it in.
/// Without a directory it starts where the run itself was started.
#[derive(Clone, Debug, PartialEq, Eq)]
pub struct Invocation {
    pub program: String,
    pub args: Vec<String>,
    pub dir: Option<String>,
}

/// What an [`Invocation`] holds, as plain text.
pub struct InvocationView {
    pub program: Seq<char>,
    pub args: Seq<Seq<char>>,
    pub dir: Option<Seq<char>>,
}

/// The texts of a list of strings, in order.
pub open spec fn texts(v: Seq<String>) -> Seq<Seq<char>> {
    Seq::new(v.len(), |i: int| v[i]@)
}

impl View for Invocation {
    type V = InvocationView;

    open spec fn view(&self) -> InvocationView {
        InvocationView {
            program: self.program@,
            args: texts(self.args@),
            dir: match self.dir {
                Some(d) => Some(d@),
                None => None,
            },
        }
    }
}

/// `git clone <address> <clone directory>`, from where the run started.
pub open spec fn spec_clone_command(v: Runtime) -> InvocationView {
    InvocationView {
        program: "git"@,
        args: seq!["clone"@, v.spec_github(), spec_source_dir(v)],
        dir: None,
    }
}

/// `git fetch --all`, inside the clone.
pub open spec fn spec_fetch_command(v: Runtime) -> InvocationView {
    InvocationView {
        program: "git"@,
        args: seq!["fetch"@, "--all"@],
        dir: Some(spec_source_dir(v)),
    }
}

/// `git checkout <target>`, inside the clone.
pub open spec fn spec_checkout_command(v: Runtime, target: Seq<char>) -> InvocationView {
    InvocationView {
        program: "git"@,
        args: seq!["checkout"@, target],
        dir: Some(spec_source_dir(v)),
    }
}

/// `cargo clean --release --manifest-path <manifest> -p <package>`,
/// inside the clone: it removes what an earlier build of the runtime
/// package left, and nothing else.
pub open spec fn spec_clean_command(v: Runtime) -> InvocationView {
    InvocationView {
        program: "cargo"@,
        args: seq![
            "clean"@,
            "--release"@,
            "--manifest-path"@,
            spec_manifest_path(v),
            "-p"@,
            spec_package_name(v),
        ],
        dir: Some(spec_source_dir(v)),
    }
}

/// `cargo b --release --manifest-path <manifest> --features evm-tracing`,
/// inside the clone.
pub open spec fn spec_build_command(v: Runtime) -> InvocationView {
    InvocationView {
        program: "cargo"@,
        args: seq![
            "b"@,
            "--release"@,
            "--manifest-path"@,
            spec_manifest_path(v),
            "--features"@,
            "evm-tracing"@,
        ],
        dir: Some(spec_source_dir(v)),
    }
}

/// The command that clones the chain's repository.
pub fn clone_command(runtime: Runtime) -> (c: Invocation)
    ensures
        c@ == spec_clone_command(runtime),
{
    let mut args: Vec<String> = Vec::new();
    args.push(String::from_str("clone"));
    args.push(runtime.github());
    args.push(source_dir(runtime));
    assert(texts(args@) =~= spec_clone_command(runtime).args);
    Invocation { program: String::from_str("git"), args, dir: None }
}

/// The command that fetches every remote of the clone.
pub fn fetch_command(runtime: Runtime) -> (c: Invocation)
    ensures
        c@ == spec_fetch_command(runtime),
{
    let mut args: Vec<String> = Vec::new();
    args.push(String::from_str("fetch"));
    args.push(String::from_str("--all"));
    assert(texts(args@) =~= spec_fetch_command(runtime).args);
    Invocation { program: String::from_str("git"), args, dir: Some(source_dir(runtime)) }
}

/// The command that checks out the request's target in the clone.
pub fn checkout_command(request: &BuildRequest) -> (c: Invocation)
    ensures
        c@ == spec_checkout_command(request.runtime, request.target@),
{
    let mut args: Vec<String> = Vec::new();
    args.push(String::from_str("checkout"));
    args.push(request.target.clone());
    assert(texts(args@) =~= spec_checkout_command(request.runtime, request.target@).args);
    Invocation { program: String::from_str("git"), args, dir: Some(source_dir(request.runtime)) }
}

/// The command that removes what an earlier build of the runtime package
/// left.
pub fn clean_command(runtime: Runtime) -> (c: Invocation)
    ensures
        c@ == spec_clean_command(runtime),
{
    let mut args: Vec<String> = Vec::new();
    args.push(String::from_str("clean"));
    args.push(String::from_str("--release"));
    args.push(String::from_str("--manifest-path"));
    args.push(manifest_path(runtime));
    args.push(String::from_str("-p"));
    args.push(package_name(runtime));
    assert(texts(args@) =~= spec_clean_command(runtime).args);
    Invocation { program: String::from_str("cargo"), args, dir: Some(source_dir(runtime)) }
}

/// The command that builds the runtime with tracing switched on.
pub fn build_command(runtime: Runtime) -> (c: Invocation)
    ensures
        c@ == spec_build_command(runtime),
{
    let mut args: Vec<String> = Vec::new();
    args.push(String::from_str("b"));
    args.push(String::from_str("--release"));
    args.push(String::from_str("--manifest-path"));
    args.push(manifest_path(runtime));
    args.push(String::from_str("--features"));
    args.push(String::from_str("evm-tracing"));
    assert(texts(args@) =~= spec_build_command(runtime).args);
    Invocation { program: String::from_str("cargo"), args, dir: Some(source_dir(runtime)) }
}

} // verus!
