use contract_compiler::catalog::{get_templates, health_check, COUNTER_CODE, HELLO_WORLD_CODE};
use contract_compiler::manifest::{
    artifact_file_name, artifact_location, build_invocation, clean_invocation, manifest_for,
    manifest_location, scaffold_invocation, source_location, target_invocation,
};

#[test]
fn manifest_names_the_project_and_fixes_the_rest() {
    let expected = "[package]\nname = \"hello-world\"\nversion = \"0.1.0\"\nedition = \"2021\"\n\n[lib]\ncrate-type = [\"cdylib\"]\n\n[dependencies]\nnear-sdk = \"5.5.0\"\nborsh = { version = \"1.0\", features = [\"derive\"] }\n\n[profile.release]\ncodegen-units = 1\nopt-level = \"z\"\nlto = true\ndebug = false\npanic = \"abort\"\noverflow-checks = true\n";
    assert_eq!(manifest_for("hello-world"), expected);
}

#[test]
fn manifest_inserts_the_name_unescaped() {
    let text = manifest_for("a\"b\nc");
    assert!(text.starts_with("[package]\nname = \"a\"b\nc\"\nversion = \"0.1.0\"\n"));
    assert!(text.ends_with("overflow-checks = true\n"));
}

#[test]
fn manifest_of_empty_name() {
    assert!(manifest_for("").starts_with("[package]\nname = \"\"\nversion"));
}

#[test]
fn artifact_name_replaces_hyphens() {
    assert_eq!(artifact_file_name("hello-world"), "hello_world.wasm");
}

#[test]
fn artifact_name_replaces_every_hyphen() {
    assert_eq!(artifact_file_name("-a--b-"), "_a__b_.wasm");
}

#[test]
fn artifact_name_keeps_other_characters() {
    assert_eq!(artifact_file_name("broken"), "broken.wasm");
    assert_eq!(artifact_file_name("my_contract.v2"), "my_contract.v2.wasm");
    assert_eq!(artifact_file_name("é-ü"), "é_ü.wasm");
}

#[test]
fn artifact_name_of_empty_name() {
    assert_eq!(artifact_file_name(""), ".wasm");
}

#[test]
fn locations_inside_the_workspace() {
    assert_eq!(manifest_location(), vec!["Cargo.toml".to_string()]);
    assert_eq!(source_location(), vec!["src".to_string(), "lib.rs".to_string()]);
    assert_eq!(
        artifact_location("hello-world"),
        vec![
            "target".to_string(),
            "wasm32-unknown-unknown".to_string(),
            "release".to_string(),
            "hello_world.wasm".to_string()
        ]
    );
}

#[test]
fn scaffold_command_line() {
    let inv = scaffold_invocation("hello-world");
    assert_eq!(inv.program, "cargo");
    assert_eq!(inv.args, vec!["init", "--name", "hello-world", "--lib"]);
    assert!(inv.in_workspace);
}

#[test]
fn clean_command_line() {
    let inv = clean_invocation();
    assert_eq!(inv.program, "cargo");
    assert_eq!(inv.args, vec!["clean"]);
    assert!(inv.in_workspace);
}

#[test]
fn target_command_line() {
    let inv = target_invocation();
    assert_eq!(inv.program, "rustup");
    assert_eq!(inv.args, vec!["target", "add", "wasm32-unknown-unknown"]);
    assert!(!inv.in_workspace);
}

#[test]
fn build_command_line() {
    let inv = build_invocation();
    assert_eq!(inv.program, "cargo");
    assert_eq!(inv.args, vec!["build", "--target", "wasm32-unknown-unknown", "--release"]);
    assert!(inv.in_workspace);
}

#[test]
fn health_is_fixed() {
    let first = health_check();
    assert_eq!(first.status, "healthy");
    assert_eq!(first.service, "NEAR Contract Compiler");
    let second = health_check();
    assert_eq!(second.status, first.status);
    assert_eq!(second.service, first.service);
}

#[test]
fn catalog_lists_two_examples() {
    let templates = get_templates();
    assert_eq!(templates.len(), 2);
    assert_eq!(templates[0].name, "Hello World");
    assert_eq!(templates[0].description, "Simple greeting contract");
    assert_eq!(templates[0].code, HELLO_WORLD_CODE);
    assert_eq!(templates[1].name, "Counter");
    assert_eq!(templates[1].description, "Simple counter with increment/decrement");
    assert_eq!(templates[1].code, COUNTER_CODE);
}

#[test]
fn catalog_sources_are_complete() {
    assert!(HELLO_WORLD_CODE.starts_with("use near_sdk::borsh::{BorshDeserialize, BorshSerialize};\nuse near_sdk::{env, near_bindgen, AccountId};\n"));
    assert!(HELLO_WORLD_CODE.contains("pub fn set_greeting(&mut self, message: String) {"));
    assert!(HELLO_WORLD_CODE.ends_with("format!(\"{}, {}!\", self.greeting, account)\n    }\n}"));
    assert!(COUNTER_CODE.contains("pub struct Counter {\n    value: i32,\n}"));
    assert!(COUNTER_CODE.ends_with("env::log_str(&format!(\"Counter set to: {}\", self.value));\n    }\n}"));
}
