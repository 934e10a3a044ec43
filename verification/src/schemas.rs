//! Curated JSON Schemas (draft 2020-12) for the block contract: one per
//! seed kind plus the envelope, embedded in the library and validated on
//! load. The `$id`s follow the convention
//! `https://industrialalgebra.com/schemas/lonis.block/<kind>/v1`.

use vstd::prelude::*;

use crate::json::{
    json_error_text, json_pretty_bytes, json_string_member, json_string_member_of, json_text_parses,
    json_to_vec_pretty, json_value_of, parse_json,
};
use crate::text::str_eq;

verus! {

/// The block contract protocol version the curated schemas describe.
pub const BLOCK_SCHEMA_V1: &'static str = "lonis.block/v1";
const BLOCK_V1: &'static str = "{\"$schema\":\"https://json-schema.org/draft/2020-12/schema\",\"$id\":\"https://industrialalgebra.com/schemas/lonis.block/v1\",\"x-lonis-protocol-version\":\"lonis.block/v1\",\"title\":\"lonis block envelope\",\"type\":\"object\",\"required\":[\"schema_version\",\"attribution\",\"payload\"],\"properties\":{\"schema_version\":{\"const\":\"lonis.block/v1\"},\"attribution\":{\"type\":\"object\"},\"provenance\":{\"type\":\"object\"},\"warnings\":{\"type\":\"array\"},\"bounds\":{\"type\":\"object\"},\"payload\":{\"type\":\"object\",\"required\":[\"kind\",\"data\"],\"oneOf\":[{\"$ref\":\"https://industrialalgebra.com/schemas/lonis.block/message/v1\"},{\"$ref\":\"https://industrialalgebra.com/schemas/lonis.block/question/v1\"},{\"$ref\":\"https://industrialalgebra.com/schemas/lonis.block/answer/v1\"},{\"$ref\":\"https://industrialalgebra.com/schemas/lonis.block/decision/v1\"},{\"$ref\":\"https://industrialalgebra.com/schemas/lonis.block/action/v1\"},{\"$ref\":\"https://industrialalgebra.com/schemas/lonis.block/assumption/v1\"},{\"$ref\":\"https://industrialalgebra.com/schemas/lonis.block/summary/v1\"},{\"$ref\":\"https://industrialalgebra.com/schemas/lonis.block/evidence/v1\"},{\"$ref\":\"https://industrialalgebra.com/schemas/lonis.block/definition/v1\"},{\"$ref\":\"https://industrialalgebra.com/schemas/lonis.block/capability/v1\"},{\"$ref\":\"https://industrialalgebra.com/schemas/lonis.block/intent/v1\"},{\"$ref\":\"https://industrialalgebra.com/schemas/lonis.block/plan/v1\"},{\"$ref\":\"https://industrialalgebra.com/schemas/lonis.block/result/v1\"},{\"$ref\":\"https://industrialalgebra.com/schemas/lonis.block/outcome/v1\"},{\"$ref\":\"https://industrialalgebra.com/schemas/lonis.block/extension/v1\"}]}},\"additionalProperties\":false}";
const MESSAGE_V1: &'static str = "{\"$schema\":\"https://json-schema.org/draft/2020-12/schema\",\"$id\":\"https://industrialalgebra.com/schemas/lonis.block/message/v1\",\"x-lonis-protocol-version\":\"lonis.block/v1\",\"title\":\"lonis message payload\",\"type\":\"object\",\"required\":[\"kind\",\"data\"],\"properties\":{\"kind\":{\"const\":\"message\"},\"data\":{}},\"additionalProperties\":false}";
const QUESTION_V1: &'static str = "{\"$schema\":\"https://json-schema.org/draft/2020-12/schema\",\"$id\":\"https://industrialalgebra.com/schemas/lonis.block/question/v1\",\"x-lonis-protocol-version\":\"lonis.block/v1\",\"title\":\"lonis question payload\",\"type\":\"object\",\"required\":[\"kind\",\"data\"],\"properties\":{\"kind\":{\"const\":\"question\"},\"data\":{}},\"additionalProperties\":false}";
const ANSWER_V1: &'static str = "{\"$schema\":\"https://json-schema.org/draft/2020-12/schema\",\"$id\":\"https://industrialalgebra.com/schemas/lonis.block/answer/v1\",\"x-lonis-protocol-version\":\"lonis.block/v1\",\"title\":\"lonis answer payload\",\"type\":\"object\",\"required\":[\"kind\",\"data\"],\"properties\":{\"kind\":{\"const\":\"answer\"},\"data\":{}},\"additionalProperties\":false}";
const DECISION_V1: &'static str = "{\"$schema\":\"https://json-schema.org/draft/2020-12/schema\",\"$id\":\"https://industrialalgebra.com/schemas/lonis.block/decision/v1\",\"x-lonis-protocol-version\":\"lonis.block/v1\",\"title\":\"lonis decision payload\",\"type\":\"object\",\"required\":[\"kind\",\"data\"],\"properties\":{\"kind\":{\"const\":\"decision\"},\"data\":{}},\"additionalProperties\":false}";
const ACTION_V1: &'static str = "{\"$schema\":\"https://json-schema.org/draft/2020-12/schema\",\"$id\":\"https://industrialalgebra.com/schemas/lonis.block/action/v1\",\"x-lonis-protocol-version\":\"lonis.block/v1\",\"title\":\"lonis action payload\",\"type\":\"object\",\"required\":[\"kind\",\"data\"],\"properties\":{\"kind\":{\"const\":\"action\"},\"data\":{}},\"additionalProperties\":false}";
const ASSUMPTION_V1: &'static str = "{\"$schema\":\"https://json-schema.org/draft/2020-12/schema\",\"$id\":\"https://industrialalgebra.com/schemas/lonis.block/assumption/v1\",\"x-lonis-protocol-version\":\"lonis.block/v1\",\"title\":\"lonis assumption payload\",\"type\":\"object\",\"required\":[\"kind\",\"data\"],\"properties\":{\"kind\":{\"const\":\"assumption\"},\"data\":{}},\"additionalProperties\":false}";
const SUMMARY_V1: &'static str = "{\"$schema\":\"https://json-schema.org/draft/2020-12/schema\",\"$id\":\"https://industrialalgebra.com/schemas/lonis.block/summary/v1\",\"x-lonis-protocol-version\":\"lonis.block/v1\",\"title\":\"lonis summary payload\",\"type\":\"object\",\"required\":[\"kind\",\"data\"],\"properties\":{\"kind\":{\"const\":\"summary\"},\"data\":{}},\"additionalProperties\":false}";
const EVIDENCE_V1: &'static str = "{\"$schema\":\"https://json-schema.org/draft/2020-12/schema\",\"$id\":\"https://industrialalgebra.com/schemas/lonis.block/evidence/v1\",\"x-lonis-protocol-version\":\"lonis.block/v1\",\"title\":\"lonis evidence payload\",\"type\":\"object\",\"required\":[\"kind\",\"data\"],\"properties\":{\"kind\":{\"const\":\"evidence\"},\"data\":{}},\"additionalProperties\":false}";
const DEFINITION_V1: &'static str = "{\"$schema\":\"https://json-schema.org/draft/2020-12/schema\",\"$id\":\"https://industrialalgebra.com/schemas/lonis.block/definition/v1\",\"x-lonis-protocol-version\":\"lonis.block/v1\",\"title\":\"lonis definition payload\",\"type\":\"object\",\"required\":[\"kind\",\"data\"],\"properties\":{\"kind\":{\"const\":\"definition\"},\"data\":{}},\"additionalProperties\":false}";
const CAPABILITY_V1: &'static str = "{\"$schema\":\"https://json-schema.org/draft/2020-12/schema\",\"$id\":\"https://industrialalgebra.com/schemas/lonis.block/capability/v1\",\"x-lonis-protocol-version\":\"lonis.block/v1\",\"title\":\"lonis capability payload\",\"type\":\"object\",\"required\":[\"kind\",\"data\"],\"properties\":{\"kind\":{\"const\":\"capability\"},\"data\":{}},\"additionalProperties\":false}";
const INTENT_V1: &'static str = "{\"$schema\":\"https://json-schema.org/draft/2020-12/schema\",\"$id\":\"https://industrialalgebra.com/schemas/lonis.block/intent/v1\",\"x-lonis-protocol-version\":\"lonis.block/v1\",\"title\":\"lonis intent payload\",\"type\":\"object\",\"required\":[\"kind\",\"data\"],\"properties\":{\"kind\":{\"const\":\"intent\"},\"data\":{}},\"additionalProperties\":false}";
const PLAN_V1: &'static str = "{\"$schema\":\"https://json-schema.org/draft/2020-12/schema\",\"$id\":\"https://industrialalgebra.com/schemas/lonis.block/plan/v1\",\"x-lonis-protocol-version\":\"lonis.block/v1\",\"title\":\"lonis plan payload\",\"type\":\"object\",\"required\":[\"kind\",\"data\"],\"properties\":{\"kind\":{\"const\":\"plan\"},\"data\":{}},\"additionalProperties\":false}";
const RESULT_V1: &'static str = "{\"$schema\":\"https://json-schema.org/draft/2020-12/schema\",\"$id\":\"https://industrialalgebra.com/schemas/lonis.block/result/v1\",\"x-lonis-protocol-version\":\"lonis.block/v1\",\"title\":\"lonis result payload\",\"type\":\"object\",\"required\":[\"kind\",\"data\"],\"properties\":{\"kind\":{\"const\":\"result\"},\"data\":{}},\"additionalProperties\":false}";
const EXTENSION_V1: &'static str = "{\"$schema\":\"https://json-schema.org/draft/2020-12/schema\",\"$id\":\"https://industrialalgebra.com/schemas/lonis.block/extension/v1\",\"x-lonis-protocol-version\":\"lonis.block/v1\",\"title\":\"lonis extension payload\",\"type\":\"object\",\"required\":[\"kind\",\"data\"],\"properties\":{\"kind\":{\"type\":\"string\",\"not\":{\"enum\":[\"message\",\"question\",\"answer\",\"decision\",\"action\",\"assumption\",\"summary\",\"evidence\",\"definition\",\"capability\",\"intent\",\"plan\",\"result\",\"outcome\"]}},\"data\":{}},\"additionalProperties\":false}";
const OUTCOME_V1: &'static str = "{\"$schema\":\"https://json-schema.org/draft/2020-12/schema\",\"$id\":\"https://industrialalgebra.com/schemas/lonis.block/outcome/v1\",\"x-lonis-protocol-version\":\"lonis.block/v1\",\"title\":\"lonis outcome payload\",\"type\":\"object\",\"required\":[\"kind\",\"data\"],\"properties\":{\"kind\":{\"const\":\"outcome\"},\"data\":{}},\"additionalProperties\":false}";

/// Errors from schema loading: embedded curated schemas should never be
/// malformed, so any failure here is a packaging defect.
#[derive(Debug, PartialEq, Eq)]
pub struct SchemaError(pub String);

impl Clone for SchemaError {
    fn clone(&self) -> (r: Self)
        ensures
            r == *self,
    {
        SchemaError(self.0.clone())
    }
}

/// One of the curated schema families: the envelope, the 14 seed kinds and the
/// extension seam.
#[derive(Clone, Copy, Debug, PartialEq, Eq, Structural, PartialOrd, Ord, Hash)]
pub enum BlockSchemaKind {
    /// The full block envelope (payload = `oneOf` all seed kinds).
    Block,
    /// `message` payload.
    Message,
    /// `question` payload.
    Question,
    /// `answer` payload.
    Answer,
    /// `decision` payload.
    Decision,
    /// `action` payload.
    Action,
    /// `assumption` payload.
    Assumption,
    /// `summary` payload.
    Summary,
    /// `evidence` payload.
    Evidence,
    /// `definition` payload.
    Definition,
    /// `capability` payload.
    Capability,
    /// `intent` payload.
    Intent,
    /// `plan` payload.
    Plan,
    /// `result` payload.
    Result,
    /// `outcome` payload.
    Outcome,
    /// The extension seam: a vertical's own payload kind.
    Extension,
}

/// The stable lowercase family name of a schema kind.
pub open spec fn kind_name(kind: BlockSchemaKind) -> Seq<char> {
    match kind {
        BlockSchemaKind::Block => "block"@,
        BlockSchemaKind::Message => "message"@,
        BlockSchemaKind::Question => "question"@,
        BlockSchemaKind::Answer => "answer"@,
        BlockSchemaKind::Decision => "decision"@,
        BlockSchemaKind::Action => "action"@,
        BlockSchemaKind::Assumption => "assumption"@,
        BlockSchemaKind::Summary => "summary"@,
        BlockSchemaKind::Evidence => "evidence"@,
        BlockSchemaKind::Definition => "definition"@,
        BlockSchemaKind::Capability => "capability"@,
        BlockSchemaKind::Intent => "intent"@,
        BlockSchemaKind::Plan => "plan"@,
        BlockSchemaKind::Result => "result"@,
        BlockSchemaKind::Outcome => "outcome"@,
        BlockSchemaKind::Extension => "extension"@,
    }
}

/// The embedded document of a schema kind.
pub closed spec fn schema_source(kind: BlockSchemaKind) -> Seq<char> {
    match kind {
        BlockSchemaKind::Block => BLOCK_V1@,
        BlockSchemaKind::Message => MESSAGE_V1@,
        BlockSchemaKind::Question => QUESTION_V1@,
        BlockSchemaKind::Answer => ANSWER_V1@,
        BlockSchemaKind::Decision => DECISION_V1@,
        BlockSchemaKind::Action => ACTION_V1@,
        BlockSchemaKind::Assumption => ASSUMPTION_V1@,
        BlockSchemaKind::Summary => SUMMARY_V1@,
        BlockSchemaKind::Evidence => EVIDENCE_V1@,
        BlockSchemaKind::Definition => DEFINITION_V1@,
        BlockSchemaKind::Capability => CAPABILITY_V1@,
        BlockSchemaKind::Intent => INTENT_V1@,
        BlockSchemaKind::Plan => PLAN_V1@,
        BlockSchemaKind::Result => RESULT_V1@,
        BlockSchemaKind::Outcome => OUTCOME_V1@,
        BlockSchemaKind::Extension => EXTENSION_V1@,
    }
}

/// Every schema family in deterministic order (envelope first).
pub open spec fn all_kinds() -> Seq<BlockSchemaKind> {
    seq![
        BlockSchemaKind::Block,
        BlockSchemaKind::Message,
        BlockSchemaKind::Question,
        BlockSchemaKind::Answer,
        BlockSchemaKind::Decision,
        BlockSchemaKind::Action,
        BlockSchemaKind::Assumption,
        BlockSchemaKind::Summary,
        BlockSchemaKind::Evidence,
        BlockSchemaKind::Definition,
        BlockSchemaKind::Capability,
        BlockSchemaKind::Intent,
        BlockSchemaKind::Plan,
        BlockSchemaKind::Result,
        BlockSchemaKind::Outcome,
        BlockSchemaKind::Extension,
    ]
}

impl BlockSchemaKind {
    /// Every schema family in deterministic order (envelope first).
    pub fn all() -> (r: [BlockSchemaKind; 16])
        ensures
            r@ == all_kinds(),
    {
        let r = [
            BlockSchemaKind::Block,
            BlockSchemaKind::Message,
            BlockSchemaKind::Question,
            BlockSchemaKind::Answer,
            BlockSchemaKind::Decision,
            BlockSchemaKind::Action,
            BlockSchemaKind::Assumption,
            BlockSchemaKind::Summary,
            BlockSchemaKind::Evidence,
            BlockSchemaKind::Definition,
            BlockSchemaKind::Capability,
            BlockSchemaKind::Intent,
            BlockSchemaKind::Plan,
            BlockSchemaKind::Result,
            BlockSchemaKind::Outcome,
            BlockSchemaKind::Extension,
        ];
        assert(r@ =~= all_kinds());
        r
    }

    /// The stable lowercase family name.
    pub fn as_str(self) -> (r: &'static str)
        ensures
            r@ == kind_name(self),
    {
        match self {
            BlockSchemaKind::Block => "block",
            BlockSchemaKind::Message => "message",
            BlockSchemaKind::Question => "question",
            BlockSchemaKind::Answer => "answer",
            BlockSchemaKind::Decision => "decision",
            BlockSchemaKind::Action => "action",
            BlockSchemaKind::Assumption => "assumption",
            BlockSchemaKind::Summary => "summary",
            BlockSchemaKind::Evidence => "evidence",
            BlockSchemaKind::Definition => "definition",
            BlockSchemaKind::Capability => "capability",
            BlockSchemaKind::Intent => "intent",
            BlockSchemaKind::Plan => "plan",
            BlockSchemaKind::Result => "result",
            BlockSchemaKind::Outcome => "outcome",
            BlockSchemaKind::Extension => "extension",
        }
    }

    /// The embedded schema document of this family.
    pub fn source(self) -> (r: &'static str)
        ensures
            r@ == schema_source(self),
    {
        match self {
            BlockSchemaKind::Block => BLOCK_V1,
            BlockSchemaKind::Message => MESSAGE_V1,
            BlockSchemaKind::Question => QUESTION_V1,
            BlockSchemaKind::Answer => ANSWER_V1,
            BlockSchemaKind::Decision => DECISION_V1,
            BlockSchemaKind::Action => ACTION_V1,
            BlockSchemaKind::Assumption => ASSUMPTION_V1,
            BlockSchemaKind::Summary => SUMMARY_V1,
            BlockSchemaKind::Evidence => EVIDENCE_V1,
            BlockSchemaKind::Definition => DEFINITION_V1,
            BlockSchemaKind::Capability => CAPABILITY_V1,
            BlockSchemaKind::Intent => INTENT_V1,
            BlockSchemaKind::Plan => PLAN_V1,
            BlockSchemaKind::Result => RESULT_V1,
            BlockSchemaKind::Outcome => OUTCOME_V1,
            BlockSchemaKind::Extension => EXTENSION_V1,
        }
    }
}

/// Whether `name` is the family name of some schema kind.
pub open spec fn is_kind_name(name: Seq<char>) -> bool {
    exists|k: BlockSchemaKind| kind_name(k) == name
}

/// Family names are distinct: a name identifies its schema kind.
pub proof fn law_kind_names_are_distinct(a: BlockSchemaKind, b: BlockSchemaKind)
    ensures
        kind_name(a) == kind_name(b) <==> a == b,
{
    reveal_strlit("block");
    reveal_strlit("message");
    reveal_strlit("question");
    reveal_strlit("answer");
    reveal_strlit("decision");
    reveal_strlit("action");
    reveal_strlit("assumption");
    reveal_strlit("summary");
    reveal_strlit("evidence");
    reveal_strlit("definition");
    reveal_strlit("capability");
    reveal_strlit("intent");
    reveal_strlit("plan");
    reveal_strlit("result");
    reveal_strlit("outcome");
    reveal_strlit("extension");
    if kind_name(a) == kind_name(b) {
        assert(kind_name(a).len() == kind_name(b).len());
        assert(kind_name(a)[0] == kind_name(b)[0]);
        assert(kind_name(a)[1] == kind_name(b)[1]);
    }
}

/// Every schema kind is listed in [`all_kinds`], exactly once.
pub proof fn law_all_kinds_lists_each_kind_once(k: BlockSchemaKind)
    ensures
        all_kinds().contains(k),
        all_kinds().len() == 16,
        forall|i: int, j: int|
            0 <= i < j < all_kinds().len() ==> all_kinds()[i] != all_kinds()[j],
{
    let a = all_kinds();
    let i: int = match k {
        BlockSchemaKind::Block => 0,
        BlockSchemaKind::Message => 1,
        BlockSchemaKind::Question => 2,
        BlockSchemaKind::Answer => 3,
        BlockSchemaKind::Decision => 4,
        BlockSchemaKind::Action => 5,
        BlockSchemaKind::Assumption => 6,
        BlockSchemaKind::Summary => 7,
        BlockSchemaKind::Evidence => 8,
        BlockSchemaKind::Definition => 9,
        BlockSchemaKind::Capability => 10,
        BlockSchemaKind::Intent => 11,
        BlockSchemaKind::Plan => 12,
        BlockSchemaKind::Result => 13,
        BlockSchemaKind::Outcome => 14,
        BlockSchemaKind::Extension => 15,
    };
    assert(a[i] == k);
}

/// Parsing a family name gives back the kind it names.
pub proof fn law_parse_inverts_as_str(k: BlockSchemaKind, name: Seq<char>)
    requires
        name == kind_name(k),
    ensures
        is_kind_name(name),
        forall|k2: BlockSchemaKind| kind_name(k2) == name ==> k2 == k,
{
    assert forall|k2: BlockSchemaKind| kind_name(k2) == name implies k2 == k by {
        law_kind_names_are_distinct(k2, k);
    }
}

impl BlockSchemaKind {
    /// Look up a schema family by its name.
    pub fn parse(value: &str) -> (r: Result<BlockSchemaKind, SchemaError>)
        ensures
            r is Ok <==> is_kind_name(value@),
            r matches Ok(k) ==> kind_name(k) == value@,
            r matches Err(e) ==> e.0@ == "unknown block schema kind `"@ + value@ + "`"@,
    {
        let all = BlockSchemaKind::all();
        let mut i: usize = 0;
        while i < 16
            invariant
                all@ == all_kinds(),
                i <= 16,
                forall|j: int| 0 <= j < i ==> kind_name(#[trigger] all_kinds()[j]) != value@,
            decreases 16 - i,
        {
            let k = all[i];
            if str_eq(k.as_str(), value) {
                return Ok(k);
            }
            i = i + 1;
        }
        proof {
            assert forall|k: BlockSchemaKind| kind_name(k) != value@ by {
                law_all_kinds_lists_each_kind_once(k);
                let j = choose|j: int| 0 <= j < all_kinds().len() && all_kinds()[j] == k;
            }
        }
        let mut msg = String::new();
        msg.append("unknown block schema kind `");
        msg.append(value);
        msg.append("`");
        Err(SchemaError(msg))
    }
}

impl core::str::FromStr for BlockSchemaKind {
    type Err = SchemaError;

    fn from_str(value: &str) -> (r: Result<Self, Self::Err>)
        ensures
            r is Ok <==> is_kind_name(value@),
            r matches Ok(k) ==> kind_name(k) == value@,
            r matches Err(e) ==> e.0@ == "unknown block schema kind `"@ + value@ + "`"@,
    {
        BlockSchemaKind::parse(value)
    }
}

/// Compact identity for one available schema.
#[derive(Debug, PartialEq, Eq)]
pub struct SchemaSummary {
    /// Schema family.
    pub kind: BlockSchemaKind,
    /// Stable JSON Schema `$id`.
    pub id: String,
    /// The block contract protocol version described by the schema.
    pub protocol_version: String,
}

/// Deterministically ordered catalog of available block schemas.
#[derive(Debug, PartialEq, Eq)]
pub struct SchemaCatalog {
    /// All schema identities (envelope first, then the 14 seed kinds, then the extension seam).
    pub schemas: Vec<SchemaSummary>,
}

/// One parsed curated schema and its stable identity.
#[derive(Debug)]
pub struct BlockSchema {
    /// Schema family.
    pub kind: BlockSchemaKind,
    /// Stable JSON Schema `$id`.
    pub id: String,
    /// The block contract protocol version described by this schema.
    pub protocol_version: String,
    /// The complete JSON Schema document.
    pub document: serde_json::Value,
}

/// The message for a schema whose `$id` is absent.
pub open spec fn no_id_message(kind: BlockSchemaKind) -> Seq<char> {
    "embedded "@ + kind_name(kind) + " schema has no `$id`"@
}

/// The message for a schema without a protocol marker.
pub open spec fn no_marker_message(kind: BlockSchemaKind) -> Seq<char> {
    "embedded "@ + kind_name(kind) + " schema has no protocol marker"@
}

/// The message for a schema marked with another protocol version.
pub open spec fn unsupported_message(kind: BlockSchemaKind, marker: Seq<char>) -> Seq<char> {
    "embedded "@ + kind_name(kind) + " schema protocol `"@ + marker + "` is unsupported"@
}

/// The prefix of the message for a schema that is not well-formed JSON.
pub open spec fn malformed_prefix(kind: BlockSchemaKind) -> Seq<char> {
    "embedded "@ + kind_name(kind) + " schema is malformed: "@
}

/// Check the identity read from a schema document: its `$id` and its
/// `x-lonis-protocol-version` marker, which must be [`BLOCK_SCHEMA_V1`].
pub fn schema_identity(kind: BlockSchemaKind, id: Option<&str>, marker: Option<&str>) -> (r: Result<
    (String, String),
    SchemaError,
>)
    ensures
        match (id, marker) {
            (None, _) => r matches Err(e) && e.0@ == no_id_message(kind),
            (Some(_), None) => r matches Err(e) && e.0@ == no_marker_message(kind),
            (Some(i), Some(m)) => if m@ == BLOCK_SCHEMA_V1@ {
                r matches Ok(pair) && pair.0@ == i@ && pair.1@ == m@
            } else {
                r matches Err(e) && e.0@ == unsupported_message(kind, m@)
            },
        },
{
    let name = kind.as_str();
    match id {
        None => {
            let mut msg = String::new();
            msg.append("embedded ");
            msg.append(name);
            msg.append(" schema has no `$id`");
            Err(SchemaError(msg))
        },
        Some(i) => match marker {
            None => {
                let mut msg = String::new();
                msg.append("embedded ");
                msg.append(name);
                msg.append(" schema has no protocol marker");
                Err(SchemaError(msg))
            },
            Some(m) => {
                if str_eq(m, BLOCK_SCHEMA_V1) {
                    Ok((i.to_owned(), m.to_owned()))
                } else {
                    let mut msg = String::new();
                    msg.append("embedded ");
                    msg.append(name);
                    msg.append(" schema protocol `");
                    msg.append(m);
                    msg.append("` is unsupported");
                    Err(SchemaError(msg))
                }
            },
        },
    }
}

/// The `$id` string of a family's embedded schema document, if it has one.
pub open spec fn schema_id_of(kind: BlockSchemaKind) -> Option<Seq<char>> {
    json_string_member(json_value_of(schema_source(kind)), "$id"@)
}

/// The protocol marker string of a family's embedded schema document, if
/// it has one.
pub open spec fn schema_marker_of(kind: BlockSchemaKind) -> Option<Seq<char>> {
    json_string_member(json_value_of(schema_source(kind)), "x-lonis-protocol-version"@)
}

/// A family's embedded schema loads: it is well-formed JSON with a string
/// `$id` and the protocol marker [`BLOCK_SCHEMA_V1`].
pub open spec fn schema_loads(kind: BlockSchemaKind) -> bool {
    &&& json_text_parses(schema_source(kind))
    &&& schema_id_of(kind) is Some
    &&& schema_marker_of(kind) == Some(BLOCK_SCHEMA_V1@)
}

/// The message of the error a family's embedded schema fails to load with.
pub open spec fn schema_error_message(kind: BlockSchemaKind) -> Seq<char> {
    if !json_text_parses(schema_source(kind)) {
        malformed_prefix(kind) + json_error_text(schema_source(kind))
    } else {
        match (schema_id_of(kind), schema_marker_of(kind)) {
            (None, _) => no_id_message(kind),
            (Some(_), None) => no_marker_message(kind),
            (Some(_), Some(m)) => unsupported_message(kind, m),
        }
    }
}

/// Loads and validates one embedded curated schema: the document must be
/// well-formed JSON with a string `$id` and the protocol marker
/// [`BLOCK_SCHEMA_V1`].
pub fn block_schema(kind: BlockSchemaKind) -> (r: Result<BlockSchema, SchemaError>)
    ensures
        r is Ok <==> schema_loads(kind),
        r matches Ok(s) ==> {
            &&& s.kind == kind
            &&& schema_id_of(kind) == Some(s.id@)
            &&& s.protocol_version@ == BLOCK_SCHEMA_V1@
            &&& s.document == json_value_of(schema_source(kind))
            &&& json_string_member(s.document, "$id"@) == Some(s.id@)
            &&& json_string_member(s.document, "x-lonis-protocol-version"@) == Some(
                s.protocol_version@,
            )
        },
        r matches Err(e) ==> e.0@ == schema_error_message(kind),
{
    let source = kind.source();
    let document = match parse_json(source) {
        Ok(document) => document,
        Err(detail) => {
            let mut msg = String::new();
            msg.append("embedded ");
            msg.append(kind.as_str());
            msg.append(" schema is malformed: ");
            msg.append(detail.as_str());
            return Err(SchemaError(msg));
        },
    };
    let id = json_string_member_of(&document, "$id");
    let marker = json_string_member_of(&document, "x-lonis-protocol-version");
    match schema_identity(kind, opt_str(&id), opt_str(&marker)) {
        Ok((id, protocol_version)) => Ok(BlockSchema { kind, id, protocol_version, document }),
        Err(e) => Err(e),
    }
}

fn opt_str(o: &Option<String>) -> (r: Option<&str>)
    ensures
        match o {
            Some(s) => r matches Some(t) && t@ == s@,
            None => r is None,
        },
{
    match o {
        Some(s) => Some(s.as_str()),
        None => None,
    }
}

impl BlockSchema {
    /// The document as pretty JSON with a trailing newline (the
    /// `lonis schema <kind>` output).
    pub fn canonical_json(&self) -> (r: Result<Vec<u8>, SchemaError>)
        ensures
            r matches Ok(bytes) && bytes@ == json_pretty_bytes(self.document).push(10u8),
    {
        match json_to_vec_pretty(&self.document) {
            Ok(mut bytes) => {
                bytes.push(10u8);
                Ok(bytes)
            },
            Err(detail) => Err(SchemaError(detail)),
        }
    }
}

/// Returns all available schema identities in the order of [`all_kinds`]:
/// it succeeds exactly when every family's schema loads, and otherwise
/// fails with the error of the first family (in that order) that does not.
pub fn block_schema_catalog() -> (r: Result<SchemaCatalog, SchemaError>)
    ensures
        r is Ok <==> forall|k: BlockSchemaKind| #[trigger] schema_loads(k),
        r matches Ok(c) ==> {
            &&& c.schemas@.len() == 16
            &&& forall|i: int|
                #![trigger c.schemas@[i]]
                0 <= i < 16 ==> c.schemas@[i].kind == all_kinds()[i] && schema_id_of(
                    all_kinds()[i],
                ) == Some(c.schemas@[i].id@) && c.schemas@[i].protocol_version@
                    == BLOCK_SCHEMA_V1@
        },
        r matches Err(e) ==> exists|j: int|
            0 <= j < 16 && !schema_loads(#[trigger] all_kinds()[j]) && (forall|i: int|
                0 <= i < j ==> schema_loads(#[trigger] all_kinds()[i])) && e.0@
                == schema_error_message(all_kinds()[j]),
{
    let all = BlockSchemaKind::all();
    let mut schemas: Vec<SchemaSummary> = Vec::new();
    let mut i: usize = 0;
    while i < 16
        invariant
            all@ == all_kinds(),
            i <= 16,
            schemas@.len() == i,
            forall|j: int|
                #![trigger schemas@[j]]
                0 <= j < i ==> schemas@[j].kind == all_kinds()[j] && schema_id_of(all_kinds()[j])
                    == Some(schemas@[j].id@) && schemas@[j].protocol_version@ == BLOCK_SCHEMA_V1@,
            forall|j: int| 0 <= j < i ==> schema_loads(#[trigger] all_kinds()[j]),
        decreases 16 - i,
    {
        let kind = all[i];
        match block_schema(kind) {
            Ok(schema) => {
                schemas.push(
                    SchemaSummary { kind, id: schema.id, protocol_version: schema.protocol_version },
                );
            },
            Err(e) => {
                proof {
                    assert(!schema_loads(all_kinds()[i as int]));
                    assert(forall|j: int| 0 <= j < i ==> schema_loads(#[trigger] all_kinds()[j]));
                    law_all_kinds_lists_each_kind_once(kind);
                }
                return Err(e);
            },
        }
        i = i + 1;
    }
    proof {
        assert forall|k: BlockSchemaKind| #[trigger] schema_loads(k) by {
            law_all_kinds_lists_each_kind_once(k);
            let j = choose|j: int| 0 <= j < all_kinds().len() && all_kinds()[j] == k;
            assert(schema_loads(all_kinds()[j]));
        }
    }
    Ok(SchemaCatalog { schemas })
}

} // verus!
