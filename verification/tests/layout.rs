use runtime_overrider::layout::{
    artifact_name, built_wasm_path, digest_path, digests_dir, manifest_path, package_name,
    source_dir, wasm_path, wasms_dir,
};
use runtime_overrider::request::BuildRequest;
use runtime_overrider::runtime::Runtime;

fn request(runtime: Runtime, target: &str) -> BuildRequest {
    BuildRequest { runtime, target: String::from(target) }
}

#[test]
fn pangolin_tag_artifact_name() {
    let r = request(Runtime::Pangolin, "v1.2.3");
    assert_eq!(artifact_name(&r), "pangolin-v1.2.3-tracing-runtime");
}

#[test]
fn pangolin_tag_wasm_destination() {
    let r = request(Runtime::Pangolin, "v1.2.3");
    assert_eq!(
        wasm_path(&r),
        "overridden-runtimes/pangolin/wasms/pangolin-v1.2.3-tracing-runtime.compact.compressed.wasm"
    );
}

#[test]
fn pangolin_tag_digest_destination() {
    let r = request(Runtime::Pangolin, "v1.2.3");
    assert_eq!(
        digest_path(&r),
        "overridden-runtimes/pangolin/digests/pangolin-v1.2.3-tracing-runtime.json"
    );
}

#[test]
fn source_directories() {
    assert_eq!(source_dir(Runtime::Darwinia), "build/darwinia");
    assert_eq!(source_dir(Runtime::Crab), "build/darwinia");
    assert_eq!(source_dir(Runtime::Pangoro), "build/darwinia-common");
    assert_eq!(source_dir(Runtime::Pangolin), "build/darwinia-common");
}

#[test]
fn manifests() {
    assert_eq!(manifest_path(Runtime::Darwinia), "runtime/darwinia/Cargo.toml");
    assert_eq!(manifest_path(Runtime::Crab), "runtime/crab/Cargo.toml");
    assert_eq!(manifest_path(Runtime::Pangoro), "node/runtime/pangoro/Cargo.toml");
    assert_eq!(manifest_path(Runtime::Pangolin), "node/runtime/pangolin/Cargo.toml");
}

#[test]
fn package_names() {
    assert_eq!(package_name(Runtime::Darwinia), "darwinia-runtime");
    assert_eq!(package_name(Runtime::Crab), "crab-runtime");
    assert_eq!(package_name(Runtime::Pangoro), "pangoro-runtime");
    assert_eq!(package_name(Runtime::Pangolin), "pangolin-runtime");
}

#[test]
fn build_outputs() {
    assert_eq!(
        built_wasm_path(Runtime::Darwinia),
        "build/darwinia/target/release/wbuild/darwinia-runtime/darwinia_runtime.compact.compressed.wasm"
    );
    assert_eq!(
        built_wasm_path(Runtime::Crab),
        "build/darwinia/target/release/wbuild/crab-runtime/crab_runtime.compact.compressed.wasm"
    );
    assert_eq!(
        built_wasm_path(Runtime::Pangoro),
        "build/darwinia-common/target/release/wbuild/pangoro-runtime/pangoro_runtime.compact.compressed.wasm"
    );
    assert_eq!(
        built_wasm_path(Runtime::Pangolin),
        "build/darwinia-common/target/release/wbuild/pangolin-runtime/pangolin_runtime.compact.compressed.wasm"
    );
}

#[test]
fn output_directories() {
    assert_eq!(wasms_dir(Runtime::Darwinia), "overridden-runtimes/darwinia/wasms");
    assert_eq!(digests_dir(Runtime::Darwinia), "overridden-runtimes/darwinia/digests");
    assert_eq!(wasms_dir(Runtime::Crab), "overridden-runtimes/crab/wasms");
    assert_eq!(digests_dir(Runtime::Crab), "overridden-runtimes/crab/digests");
    assert_eq!(wasms_dir(Runtime::Pangoro), "overridden-runtimes/pangoro/wasms");
    assert_eq!(digests_dir(Runtime::Pangoro), "overridden-runtimes/pangoro/digests");
    assert_eq!(wasms_dir(Runtime::Pangolin), "overridden-runtimes/pangolin/wasms");
    assert_eq!(digests_dir(Runtime::Pangolin), "overridden-runtimes/pangolin/digests");
}

#[test]
fn default_branch_outputs() {
    let r = request(Runtime::Crab, "main");
    assert_eq!(artifact_name(&r), "crab-main-tracing-runtime");
    assert_eq!(
        wasm_path(&r),
        "overridden-runtimes/crab/wasms/crab-main-tracing-runtime.compact.compressed.wasm"
    );
    assert_eq!(digest_path(&r), "overridden-runtimes/crab/digests/crab-main-tracing-runtime.json");
}

#[test]
fn target_is_used_as_it_is() {
    let r = request(Runtime::Darwinia, "Feature/X y");
    assert_eq!(artifact_name(&r), "darwinia-Feature/X y-tracing-runtime");
    let empty = request(Runtime::Darwinia, "");
    assert_eq!(artifact_name(&empty), "darwinia--tracing-runtime");
    assert_eq!(digest_path(&empty), "overridden-runtimes/darwinia/digests/darwinia--tracing-runtime.json");
}

#[test]
fn repeated_request_names_the_same_files() {
    let first = request(Runtime::Pangoro, "release-2");
    let again = request(Runtime::Pangoro, "release-2");
    assert_eq!(artifact_name(&first), artifact_name(&again));
    assert_eq!(wasm_path(&first), wasm_path(&again));
    assert_eq!(digest_path(&first), digest_path(&again));
    assert_eq!(wasm_path(&first), wasm_path(&first));
    assert_eq!(source_dir(first.runtime), source_dir(again.runtime));
    assert_eq!(built_wasm_path(first.runtime), built_wasm_path(again.runtime));
}

#[test]
fn different_targets_name_different_files() {
    let one = request(Runtime::Pangoro, "a");
    let other = request(Runtime::Pangoro, "b");
    assert_ne!(wasm_path(&one), wasm_path(&other));
    assert_ne!(digest_path(&one), digest_path(&other));
}
