use runtime_overrider::request::{BuildRequest, DEFAULT_TARGET};
use runtime_overrider::runtime::Runtime;
use runtime_overrider::text::{lowers_to, to_lower};

fn all() -> Vec<Runtime> {
    vec![Runtime::Darwinia, Runtime::Crab, Runtime::Pangoro, Runtime::Pangolin]
}

#[test]
fn names_are_the_variant_names() {
    assert_eq!(Runtime::Darwinia.name(), "Darwinia");
    assert_eq!(Runtime::Crab.name(), "Crab");
    assert_eq!(Runtime::Pangoro.name(), "Pangoro");
    assert_eq!(Runtime::Pangolin.name(), "Pangolin");
}

#[test]
fn name_is_the_debug_form() {
    for runtime in all() {
        assert_eq!(runtime.name(), format!("{:?}", runtime));
    }
}

#[test]
fn lowercase_names() {
    assert_eq!(Runtime::Darwinia.lowercase_name(), "darwinia");
    assert_eq!(Runtime::Crab.lowercase_name(), "crab");
    assert_eq!(Runtime::Pangoro.lowercase_name(), "pangoro");
    assert_eq!(Runtime::Pangolin.lowercase_name(), "pangolin");
}

#[test]
fn lowercase_name_is_name_lowercased() {
    for runtime in all() {
        assert_eq!(runtime.lowercase_name(), runtime.name().to_ascii_lowercase());
    }
}

#[test]
fn repositories() {
    assert_eq!(Runtime::Darwinia.repository(), "darwinia");
    assert_eq!(Runtime::Crab.repository(), "darwinia");
    assert_eq!(Runtime::Pangoro.repository(), "darwinia-common");
    assert_eq!(Runtime::Pangolin.repository(), "darwinia-common");
}

#[test]
fn github_addresses() {
    assert_eq!(Runtime::Darwinia.github(), "https://github.com/darwinia-network/darwinia");
    assert_eq!(Runtime::Crab.github(), "https://github.com/darwinia-network/darwinia");
    assert_eq!(Runtime::Pangoro.github(), "https://github.com/darwinia-network/darwinia-common");
    assert_eq!(Runtime::Pangolin.github(), "https://github.com/darwinia-network/darwinia-common");
}

#[test]
fn package_directories() {
    assert_eq!(Runtime::Darwinia.path(), "runtime/darwinia");
    assert_eq!(Runtime::Crab.path(), "runtime/crab");
    assert_eq!(Runtime::Pangoro.path(), "node/runtime/pangoro");
    assert_eq!(Runtime::Pangolin.path(), "node/runtime/pangolin");
}

#[test]
fn registry_entries_are_not_empty() {
    for runtime in all() {
        assert!(!runtime.repository().is_empty());
        assert!(!runtime.github().is_empty());
        assert!(!runtime.path().is_empty());
    }
}

#[test]
fn from_name_reads_each_chain() {
    assert_eq!(Runtime::from_name("darwinia"), Some(Runtime::Darwinia));
    assert_eq!(Runtime::from_name("crab"), Some(Runtime::Crab));
    assert_eq!(Runtime::from_name("pangoro"), Some(Runtime::Pangoro));
    assert_eq!(Runtime::from_name("pangolin"), Some(Runtime::Pangolin));
}

#[test]
fn from_name_ignores_ascii_case() {
    assert_eq!(Runtime::from_name("Darwinia"), Some(Runtime::Darwinia));
    assert_eq!(Runtime::from_name("CRAB"), Some(Runtime::Crab));
    assert_eq!(Runtime::from_name("pAnGoRo"), Some(Runtime::Pangoro));
    assert_eq!(Runtime::from_name("PANGOLIn"), Some(Runtime::Pangolin));
}

#[test]
fn from_name_round_trips() {
    for runtime in all() {
        assert_eq!(Runtime::from_name(&runtime.name()), Some(runtime));
        assert_eq!(Runtime::from_name(&runtime.lowercase_name()), Some(runtime));
    }
}

#[test]
fn from_name_refuses_what_is_no_chain() {
    assert_eq!(Runtime::from_name(""), None);
    assert_eq!(Runtime::from_name("polkadot"), None);
    assert_eq!(Runtime::from_name("POLKADOT"), None);
    assert_eq!(Runtime::from_name("darwini"), None);
    assert_eq!(Runtime::from_name("darwiniaa"), None);
    assert_eq!(Runtime::from_name(" crab"), None);
    assert_eq!(Runtime::from_name("crab "), None);
    assert_eq!(Runtime::from_name("pangol\u{131}n"), None);
    assert_eq!(Runtime::from_name("darwinia-common"), None);
}

#[test]
fn from_args_takes_the_target_as_it_is() {
    let request = BuildRequest::from_args("Pangolin", Some(String::from("v1.2.3")));
    assert_eq!(
        request,
        Some(BuildRequest { runtime: Runtime::Pangolin, target: String::from("v1.2.3") })
    );
    let odd = BuildRequest::from_args("crab", Some(String::from(" --weird ref/\u{e9} ")));
    assert_eq!(
        odd,
        Some(BuildRequest { runtime: Runtime::Crab, target: String::from(" --weird ref/\u{e9} ") })
    );
    let empty = BuildRequest::from_args("crab", Some(String::new()));
    assert_eq!(empty, Some(BuildRequest { runtime: Runtime::Crab, target: String::new() }));
}

#[test]
fn from_args_defaults_to_main() {
    assert_eq!(DEFAULT_TARGET, "main");
    let request = BuildRequest::from_args("DARWINIA", None);
    assert_eq!(
        request,
        Some(BuildRequest { runtime: Runtime::Darwinia, target: String::from("main") })
    );
}

#[test]
fn from_args_refuses_an_unknown_chain() {
    assert_eq!(BuildRequest::from_args("kusama", Some(String::from("main"))), None);
    assert_eq!(BuildRequest::from_args("KUSAMA", None), None);
    assert_eq!(BuildRequest::from_args("", None), None);
}

#[test]
fn to_lower_moves_ascii_capitals_only() {
    assert_eq!(to_lower('A'), 'a');
    assert_eq!(to_lower('M'), 'm');
    assert_eq!(to_lower('Z'), 'z');
    assert_eq!(to_lower('a'), 'a');
    assert_eq!(to_lower('z'), 'z');
    assert_eq!(to_lower('@'), '@');
    assert_eq!(to_lower('['), '[');
    assert_eq!(to_lower('0'), '0');
    assert_eq!(to_lower('-'), '-');
    assert_eq!(to_lower('\u{c9}'), '\u{c9}');
    assert_eq!(to_lower('\u{10ffff}'), '\u{10ffff}');
}

#[test]
fn to_lower_agrees_with_std() {
    let mut code: u32 = 0;
    while code < 0x250 {
        if let Some(c) = char::from_u32(code) {
            assert_eq!(to_lower(c), c.to_ascii_lowercase());
        }
        code += 1;
    }
}

#[test]
fn lowers_to_compares_the_lowered_text() {
    assert!(lowers_to("", ""));
    assert!(lowers_to("Crab", "crab"));
    assert!(lowers_to("crab", "crab"));
    assert!(lowers_to("CRAB-9", "crab-9"));
    assert!(!lowers_to("crab", "Crab"));
    assert!(!lowers_to("crab", "cra"));
    assert!(!lowers_to("cra", "crab"));
    assert!(!lowers_to("crab", "crib"));
    assert!(lowers_to("\u{c9}T\u{c9}", "\u{c9}t\u{c9}"));
    assert!(!lowers_to("\u{c9}T\u{c9}", "\u{e9}t\u{e9}"));
}
