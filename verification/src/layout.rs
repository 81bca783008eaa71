//! Where things lie: the clone, the build's output, and the files that a
//! run leaves behind. Every path is relative to the directory the run
//! was started in, and is fixed by the chain and the target alone.

use vstd::prelude::*;
use vstd::string::*;
use crate::request::BuildRequest;
use crate::runtime::Runtime;

verus! {

/// The directory that holds the clone of the chain's repository.
pub open spec fn spec_source_dir(v: Runtime) -> Seq<char> {
    "build/"@ + v.spec_repository()
}

/// The manifest of the runtime package, relative to the clone.
pub open spec fn spec_manifest_path(v: Runtime) -> Seq<char> {
    v.spec_path() + "/Cargo.toml"@
}

/// The name of the runtime package.
pub open spec fn spec_package_name(v: Runtime) -> Seq<char> {
    v.spec_lowercase_name() + "-runtime"@
}

/// Where the build leaves the compiled runtime.
pub open spec fn spec_built_wasm_path(v: Runtime) -> Seq<char> {
    "build/"@ + v.spec_repository() + "/target/release/wbuild/"@ + v.spec_lowercase_name()
        + "-runtime/"@ + v.spec_lowercase_name() + "_runtime.compact.compressed.wasm"@
}

/// The directory that collects the compiled runtimes of a chain.
pub open spec fn spec_wasms_dir(v: Runtime) -> Seq<char> {
    "overridden-runtimes/"@ + v.spec_lowercase_name() + "/wasms"@
}

/// The directory that collects the digests of a chain's runtimes.
pub open spec fn spec_digests_dir(v: Runtime) -> Seq<char> {
    "overridden-runtimes/"@ + v.spec_lowercase_name() + "/digests"@
}

/// The name, without extension, of what a run produces.
pub open spec fn spec_artifact_name(v: Runtime, target: Seq<char>) -> Seq<char> {
    v.spec_lowercase_name() + "-"@ + target + "-tracing-runtime"@
}

/// Where the compiled runtime is kept.
pub open spec fn spec_wasm_path(v: Runtime, target: Seq<char>) -> Seq<char> {
    spec_wasms_dir(v) + "/"@ + spec_artifact_name(v, target) + ".compact.compressed.wasm"@
}

/// Where the digest of the compiled runtime is kept.
pub open spec fn spec_digest_path(v: Runtime, target: Seq<char>) -> Seq<char> {
    spec_digests_dir(v) + "/"@ + spec_artifact_name(v, target) + ".json"@
}

/// The directory that holds the clone of the chain's repository.
pub fn source_dir(runtime: Runtime) -> (s: String)
    ensures
        s@ == spec_source_dir(runtime),
{
    String::from_str("build/").concat(runtime.repository())
}

/// The manifest of the runtime package, relative to the clone.
pub fn manifest_path(runtime: Runtime) -> (s: String)
    ensures
        s@ == spec_manifest_path(runtime),
{
    runtime.path().concat("/Cargo.toml")
}

/// The name of the runtime package.
pub fn package_name(runtime: Runtime) -> (s: String)
    ensures
        s@ == spec_package_name(runtime),
{
    runtime.lowercase_name().concat("-runtime")
}

/// Where the build leaves the compiled runtime.
pub fn built_wasm_path(runtime: Runtime) -> (s: String)
    ensures
        s@ == spec_built_wasm_path(runtime),
{
    let lowercase_name = runtime.lowercase_name();
    String::from_str("build/").concat(runtime.repository()).concat(
        "/target/release/wbuild/",
    ).concat(lowercase_name.as_str()).concat("-runtime/").concat(lowercase_name.as_str()).concat(
        "_runtime.compact.compressed.wasm",
    )
}

/// The directory that collects the compiled runtimes of a chain.
pub fn wasms_dir(runtime: Runtime) -> (s: String)
    ensures
        s@ == spec_wasms_dir(runtime),
{
    let lowercase_name = runtime.lowercase_name();
    String::from_str("overridden-runtimes/").concat(lowercase_name.as_str()).concat("/wasms")
}

/// The directory that collects the digests of a chain's runtimes.
pub fn digests_dir(runtime: Runtime) -> (s: String)
    ensures
        s@ == spec_digests_dir(runtime),
{
    let lowercase_name = runtime.lowercase_name();
    String::from_str("overridden-runtimes/").concat(lowercase_name.as_str()).concat("/digests")
}

/// The name, without extension, of what a run produces.
pub fn artifact_name(request: &BuildRequest) -> (s: String)
    ensures
        s@ == spec_artifact_name(request.runtime, request.target@),
{
    request.runtime.lowercase_name().concat("-").concat(request.target.as_str()).concat(
        "-tracing-runtime",
    )
}

/// Where the compiled runtime is kept.
pub fn wasm_path(request: &BuildRequest) -> (s: String)
    ensures
        s@ == spec_wasm_path(request.runtime, request.target@),
{
    let name = artifact_name(request);
    wasms_dir(request.runtime).concat("/").concat(name.as_str()).concat(".compact.compressed.wasm")
}

/// Where the digest of the compiled runtime is kept.
pub fn digest_path(request: &BuildRequest) -> (s: String)
    ensures
        s@ == spec_digest_path(request.runtime, request.target@),
{
    let name = artifact_name(request);
    digests_dir(request.runtime).concat("/").concat(name.as_str()).concat(".json")
}

/// Two requests for the same chain and target name the same files: a
/// run that is repeated writes where the first one wrote.
pub proof fn same_request_same_paths(a: BuildRequest, b: BuildRequest)
    requires
        a.runtime == b.runtime,
        a.target@ == b.target@,
    ensures
        spec_source_dir(a.runtime) == spec_source_dir(b.runtime),
        spec_built_wasm_path(a.runtime) == spec_built_wasm_path(b.runtime),
        spec_artifact_name(a.runtime, a.target@) == spec_artifact_name(b.runtime, b.target@),
        spec_wasm_path(a.runtime, a.target@) == spec_wasm_path(b.runtime, b.target@),
        spec_digest_path(a.runtime, a.target@) == spec_digest_path(b.runtime, b.target@),
{
}

} // verus!
