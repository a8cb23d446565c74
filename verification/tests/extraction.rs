use subalfred::extract::{extract_runtime_version, ExtractError};
use subalfred::version::VersionField;

fn sample_source() -> String {
    let mut text = String::new();
    text.push_str("// runtime declaration\n");
    text.push_str("pub const VERSION: RuntimeVersion = RuntimeVersion {\n");
    text.push_str("\tspec_name: create_runtime_str!(\"node\"),\n");
    text.push_str("\timpl_name: create_runtime_str!(\"node\"),\n");
    text.push_str("\tauthoring_version: 10,\n");
    text.push_str("\tspec_version: 9180,\n");
    text.push_str("\timpl_version: 0,\n");
    text.push_str("\ttransaction_version: 14,\n");
    text.push_str("};\n");
    text.push_str("pub fn something_else() {}\n");
    text
}

#[test]
fn extracts_all_six_fields() {
    let version = extract_runtime_version(sample_source().as_bytes()).expect("extraction succeeds");
    assert_eq!(version.spec_name, b"node");
    assert_eq!(version.impl_name, b"node");
    assert_eq!(version.authoring_version, 10);
    assert_eq!(version.spec_version, 9180);
    assert_eq!(version.impl_version, 0);
    assert_eq!(version.transaction_version, 14);
}

#[test]
fn text_without_version_block_is_not_found() {
    let text = "pub fn main() { let x = 1; }";
    assert!(matches!(
        extract_runtime_version(text.as_bytes()),
        Err(ExtractError::NotFound)
    ));
}

#[test]
fn unclosed_version_block_is_not_found() {
    let text = "pub const VERSION: RuntimeVersion = RuntimeVersion {";
    assert!(matches!(
        extract_runtime_version(text.as_bytes()),
        Err(ExtractError::NotFound)
    ));
}

#[test]
fn missing_field_is_reported_by_name() {
    let text = sample_source().replace("spec_version", "spec_noversion");
    assert!(matches!(
        extract_runtime_version(text.as_bytes()),
        Err(ExtractError::FieldNotFound(VersionField::SpecVersion))
    ));
}

#[test]
fn missing_string_field_is_reported_by_name() {
    let text = sample_source().replace("impl_name: create_runtime_str!(\"node\"),\n", "");
    assert!(matches!(
        extract_runtime_version(text.as_bytes()),
        Err(ExtractError::FieldNotFound(VersionField::ImplName))
    ));
}

#[test]
fn overflowing_integer_field_is_malformed() {
    let text = sample_source().replace("authoring_version: 10", "authoring_version: 99999999999");
    assert!(matches!(
        extract_runtime_version(text.as_bytes()),
        Err(ExtractError::MalformedInteger(VersionField::AuthoringVersion))
    ));
}

#[test]
fn largest_fitting_integer_is_accepted() {
    let text = sample_source().replace("spec_version: 9180", "spec_version: 4294967295");
    let version = extract_runtime_version(text.as_bytes()).expect("extraction succeeds");
    assert_eq!(version.spec_version, u32::MAX);
}

#[test]
fn first_version_block_wins() {
    let mut text = sample_source();
    text.push_str("pub const VERSION: RuntimeVersion = RuntimeVersion {\n");
    text.push_str("\tspec_name: create_runtime_str!(\"other\"),\n");
    text.push_str("};\n");
    let version = extract_runtime_version(text.as_bytes()).expect("extraction succeeds");
    assert_eq!(version.spec_name, b"node");
}
