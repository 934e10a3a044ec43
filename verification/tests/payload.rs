use lonis::payload::{payload_attr_key, PayloadAttrKey};
use lonis::payload::{payload_input_error, tuple_variant_error};
use lonis::capabilities::{Capabilities, DerivedCapabilities, OutputMode, SchemaVersion};
use lonis::payload::{
    payload_kind_name, payload_schema_id, render_human_default, to_snake_case,
    validate_namespace,
};

#[test]
fn namespaced_kind_names() {
    assert_eq!(payload_kind_name(Some("karpal"), "Search"), "karpal.search");
    assert_eq!(
        payload_kind_name(Some("karpal"), "Capability"),
        "karpal.capability"
    );
    assert_eq!(payload_kind_name(Some("karpal"), "Ready"), "karpal.ready");
}

#[test]
fn schema_ids_carry_the_namespaced_kind() {
    let kind = payload_kind_name(Some("karpal"), "Search");
    assert_eq!(payload_schema_id(&kind), "lonis.block/karpal.search/v1");
}

#[test]
fn render_human_defaults_to_kind_plus_debug() {
    let kind = payload_kind_name(Some("karpal"), "Ready");
    let rendered = render_human_default(&kind, "Ready");
    assert!(rendered.contains("karpal.ready"));
    assert!(rendered.contains("Ready"));
    assert_eq!(rendered, "karpal.ready: Ready");
}

#[test]
fn no_namespace_uses_bare_variant_name() {
    let kind = payload_kind_name(None, "Fetch");
    assert_eq!(kind, "fetch");
    assert_eq!(payload_schema_id(&kind), "lonis.block/fetch/v1");
}

#[test]
fn snake_case_splits_words() {
    assert_eq!(to_snake_case("SearchResults"), "search_results");
    assert_eq!(to_snake_case("Ready"), "ready");
    assert_eq!(to_snake_case("already_snake"), "already_snake");
    assert_eq!(to_snake_case("HTTPCall"), "h_t_t_p_call");
    assert_eq!(to_snake_case(""), "");
}

#[test]
fn namespace_must_be_canonical() {
    assert!(validate_namespace(None).is_ok());
    assert!(validate_namespace(Some("karpal")).is_ok());
    assert!(validate_namespace(Some("a.b-c_9")).is_ok());
    let err = validate_namespace(Some("Karpal")).unwrap_err();
    assert_eq!(
        err,
        "payload namespace must be non-empty lowercase ASCII (digits, `.`, `-`, `_` allowed)"
    );
    assert!(validate_namespace(Some("")).is_err());
    assert!(validate_namespace(Some("kar pal")).is_err());
}

#[derive(Debug)]
struct SearchTool(DerivedCapabilities);

impl SearchTool {
    fn new() -> Self {
        SearchTool(DerivedCapabilities::new(
            "amari:discovery:search",
            "0.1.0",
        ))
    }
}

#[test]
fn derived_tool_id() {
    assert_eq!(SearchTool::new().0.tool_id().as_str(), "amari:discovery:search");
}

#[test]
fn derived_output_formats_default_to_all_three() {
    let formats = SearchTool::new().0.output_formats();
    assert_eq!(formats.len(), 3);
    assert!(formats.contains(&OutputMode::Human));
    assert!(formats.contains(&OutputMode::Json));
    assert!(formats.contains(&OutputMode::Ndjson));
}

#[test]
fn derived_schema_version_is_one() {
    assert_eq!(SearchTool::new().0.schema_version(), SchemaVersion::default());
    assert_eq!(SchemaVersion::default().major, 1);
}

#[test]
fn derived_exit_code_map_has_baselines() {
    let map = SearchTool::new().0.exit_code_map();
    assert!(map.iter().any(|(k, _)| k == "not_found"));
    assert!(map.iter().any(|(k, _)| k == "invalid_input"));
    assert!(map.iter().any(|(k, c)| k == "rate_limited" && *c == 5));
}

#[test]
fn derived_tool_version_is_crate_version() {
    assert_eq!(SearchTool::new().0.tool_version(), "0.1.0");
}

#[test]
fn payload_derive_refuses_generics_then_non_enums() {
    assert_eq!(
        payload_input_error(true, false).unwrap(),
        "`#[derive(BlockPayload)]` does not support generics"
    );
    assert_eq!(
        payload_input_error(false, false).unwrap(),
        "`#[derive(BlockPayload)]` requires an enum of payload variants"
    );
    assert!(payload_input_error(false, true).is_none());
    assert!(tuple_variant_error().contains("tuple variants"));
}

#[test]
fn ascii_names_snake_case_without_the_char_tables() {
    assert_eq!(lonis::payload::to_snake_case("SearchResults"), "search_results");
    assert_eq!(lonis::payload::to_snake_case("A"), "a");
    assert_eq!(lonis::payload::to_snake_case("already_snake"), "already_snake");
}

#[test]
fn payload_attribute_keys() {
    assert_eq!(payload_attr_key("namespace").unwrap(), PayloadAttrKey::Namespace);
    assert_eq!(payload_attr_key("render_fn").unwrap(), PayloadAttrKey::RenderFn);
    assert_eq!(
        payload_attr_key("color").unwrap_err(),
        "unsupported `lonis_payload` key (expected `namespace` or `render_fn`)"
    );
}
