use lonis::schemas::{block_schema, block_schema_catalog, schema_identity, BlockSchemaKind, SchemaError};

const KINDS: [&str; 16] = [
    "block",
    "message",
    "question",
    "answer",
    "decision",
    "action",
    "assumption",
    "summary",
    "evidence",
    "definition",
    "capability",
    "intent",
    "plan",
    "result",
    "outcome",
    "extension",
];

#[test]
fn catalog_covers_envelope_plus_fourteen_kinds_and_the_extension_seam() {
    let catalog = block_schema_catalog().unwrap();
    assert_eq!(catalog.schemas.len(), 16);
    assert_eq!(catalog.schemas[0].kind, BlockSchemaKind::Block);
    let names: Vec<_> = catalog.schemas.iter().map(|s| s.kind.as_str()).collect();
    for kind in KINDS {
        assert!(names.contains(&kind), "catalog missing `{kind}`");
    }
    for (summary, kind) in catalog.schemas.iter().zip(KINDS) {
        assert_eq!(summary.kind.as_str(), kind);
        assert_eq!(summary.protocol_version, "lonis.block/v1");
    }
}

#[test]
fn every_schema_is_valid_and_identified() {
    for kind in BlockSchemaKind::all() {
        let schema = block_schema(kind).unwrap();
        assert!(
            schema
                .id
                .starts_with("https://industrialalgebra.com/schemas/lonis.block/"),
            "bad $id {}",
            schema.id
        );
        assert!(schema.id.ends_with("/v1"));
        assert_eq!(schema.protocol_version, "lonis.block/v1");
    }
}

#[test]
fn envelope_schema_id_is_the_block_contract_root() {
    let schema = block_schema(BlockSchemaKind::Block).unwrap();
    assert_eq!(schema.id, "https://industrialalgebra.com/schemas/lonis.block/v1");
}

#[test]
fn kind_schema_ids_match_schema_id_convention() {
    let schema = block_schema(BlockSchemaKind::Message).unwrap();
    assert_eq!(
        schema.id,
        "https://industrialalgebra.com/schemas/lonis.block/message/v1"
    );
    for kind in BlockSchemaKind::all().into_iter().skip(1) {
        let schema = block_schema(kind).unwrap();
        assert_eq!(
            schema.id,
            format!(
                "https://industrialalgebra.com/schemas/lonis.block/{}/v1",
                kind.as_str()
            )
        );
    }
}

#[test]
fn kind_names_round_trip() {
    for (kind, name) in BlockSchemaKind::all().into_iter().zip(KINDS) {
        assert_eq!(kind.as_str(), name);
        assert_eq!(name.parse::<BlockSchemaKind>().unwrap(), kind);
    }
    assert_eq!(
        "nope".parse::<BlockSchemaKind>().unwrap_err(),
        SchemaError("unknown block schema kind `nope`".into())
    );
}

#[test]
fn canonical_json_ends_with_newline() {
    let bytes = block_schema(BlockSchemaKind::Plan)
        .unwrap()
        .canonical_json()
        .unwrap();
    assert_eq!(bytes.last(), Some(&b'\n'));
    let value: serde_json::Value = serde_json::from_slice(&bytes).unwrap();
    assert_eq!(
        value["$id"],
        "https://industrialalgebra.com/schemas/lonis.block/plan/v1"
    );
}

#[test]
fn kind_schema_pins_its_kind() {
    let schema = block_schema(BlockSchemaKind::Question).unwrap();
    assert_eq!(schema.document["properties"]["kind"]["const"], "question");
    assert_eq!(schema.kind, BlockSchemaKind::Question);
}

#[test]
fn schema_identity_reports_each_defect() {
    assert_eq!(
        schema_identity(BlockSchemaKind::Message, None, Some("lonis.block/v1")).unwrap_err(),
        SchemaError("embedded message schema has no `$id`".into())
    );
    assert_eq!(
        schema_identity(BlockSchemaKind::Plan, Some("id"), None).unwrap_err(),
        SchemaError("embedded plan schema has no protocol marker".into())
    );
    assert_eq!(
        schema_identity(BlockSchemaKind::Block, Some("id"), Some("lonis.block/v2")).unwrap_err(),
        SchemaError("embedded block schema protocol `lonis.block/v2` is unsupported".into())
    );
    assert_eq!(
        schema_identity(BlockSchemaKind::Block, Some("id"), Some("lonis.block/v1")).unwrap(),
        ("id".to_owned(), "lonis.block/v1".to_owned())
    );
}

#[test]
fn canonical_json_is_the_pretty_document_and_one_newline() {
    for kind in BlockSchemaKind::all() {
        let schema = block_schema(kind).unwrap();
        let bytes = schema.canonical_json().unwrap();
        let mut expected = serde_json::to_vec_pretty(&schema.document).unwrap();
        expected.push(b'\n');
        assert_eq!(bytes, expected);
        let reread: serde_json::Value = serde_json::from_slice(&bytes).unwrap();
        assert_eq!(reread, schema.document);
    }
}

#[test]
fn envelope_payload_is_one_of_the_kind_schemas() {
    let envelope = block_schema(BlockSchemaKind::Block).unwrap();
    let refs = envelope.document["properties"]["payload"]["oneOf"].as_array().unwrap();
    assert_eq!(refs.len(), 15);
    for kind in BlockSchemaKind::all().into_iter().skip(1) {
        let id = block_schema(kind).unwrap().id;
        assert!(refs.iter().any(|r| r["$ref"] == serde_json::Value::String(id.clone())));
    }
}
