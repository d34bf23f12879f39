//! The tool server: which tool call makes which command of the engine, how
//! an argument is quoted so that it stays one token, and which method a
//! request is routed to.

use crate::geocode_result::opt_text;
use crate::text::{
    contains_char, debug_form, debug_text, decimal, has_whitespace, holds_space, push_decimal,
    str_eq,
};
use vstd::prelude::*;

verus! {

/// The version of the protocol that the server speaks.
pub const PROTOCOL_VERSION: &'static str = "2024-11-05";

/// The name under which the server introduces itself.
pub const SERVER_NAME: &'static str = "spatia-mcp";

/// The version under which the server introduces itself.
pub const SERVER_VERSION: &'static str = "0.1.0";

/// The request is no JSON.
pub const PARSE_ERROR: i32 = -32700;

/// The method is not known.
pub const METHOD_NOT_FOUND: i32 = -32601;

/// The parameters of a tool call are not usable.
pub const INVALID_PARAMS: i32 = -32602;

/// The server failed to answer.
pub const INTERNAL_ERROR: i32 = -32603;

/// The methods of the server.
#[derive(Debug, Clone, Copy, PartialEq, Eq, Structural)]
pub enum RpcMethod {
    Initialize,
    Ping,
    ToolsList,
    ToolsCall,
    Unknown,
}

/// The method that a name stands for.
pub open spec fn method_named(name: Seq<char>) -> RpcMethod {
    if name == "initialize"@ {
        RpcMethod::Initialize
    } else if name == "ping"@ {
        RpcMethod::Ping
    } else if name == "tools/list"@ {
        RpcMethod::ToolsList
    } else if name == "tools/call"@ {
        RpcMethod::ToolsCall
    } else {
        RpcMethod::Unknown
    }
}

/// The method that a request is routed to.
pub fn route(method: &str) -> (r: RpcMethod)
    ensures
        r == method_named(method@),
{
    if str_eq(method, "initialize") {
        RpcMethod::Initialize
    } else if str_eq(method, "ping") {
        RpcMethod::Ping
    } else if str_eq(method, "tools/list") {
        RpcMethod::ToolsList
    } else if str_eq(method, "tools/call") {
        RpcMethod::ToolsCall
    } else {
        RpcMethod::Unknown
    }
}

/// The method that is answered: a request without an identifier is a
/// notification and gets no answer.
pub fn method_to_answer(has_id: bool, method: &str) -> (r: Option<RpcMethod>)
    ensures
        r == (if has_id {
            Some(method_named(method@))
        } else {
            None
        }),
{
    if has_id {
        Some(route(method))
    } else {
        None
    }
}

/// The message for a method that is not known.
pub fn method_not_found_message(method: &str) -> (r: String)
    ensures
        r@ == "Method not found: "@ + method@,
{
    let mut r = "Method not found: ".to_owned();
    r.append(method);
    r
}

/// The message for a request that is no JSON.
pub fn parse_error_message(detail: &str) -> (r: String)
    ensures
        r@ == "Parse error: "@ + detail@,
{
    let mut r = "Parse error: ".to_owned();
    r.append(detail);
    r
}

/// The mathematical content of an [`McpError`].
pub enum McpFault {
    MissingName,
    MissingArgument { key: Seq<char> },
    UnknownTool { name: Seq<char> },
    Unquotable { value: Seq<char> },
}

/// Why a tool call makes no command.
#[derive(Debug, Clone, PartialEq, Eq)]
pub enum McpError {
    /// The call names no tool.
    MissingName,
    /// A required argument is absent or no text.
    MissingArgument { key: String },
    /// The tool is not known.
    UnknownTool { name: String },
    /// An argument holds whitespace and both kinds of quotes.
    Unquotable { value: String },
}

impl View for McpError {
    type V = McpFault;

    open spec fn view(&self) -> McpFault {
        match self {
            McpError::MissingName => McpFault::MissingName,
            McpError::MissingArgument { key } => McpFault::MissingArgument { key: key@ },
            McpError::UnknownTool { name } => McpFault::UnknownTool { name: name@ },
            McpError::Unquotable { value } => McpFault::Unquotable { value: value@ },
        }
    }
}

impl McpFault {
    /// The text of the error.
    pub open spec fn text(self) -> Seq<char> {
        match self {
            McpFault::MissingName => "Missing required parameter: name"@,
            McpFault::MissingArgument { key } => "Missing required argument: "@ + key,
            McpFault::UnknownTool { name } => "Unknown tool: "@ + name,
            McpFault::Unquotable { value } =>
                "Argument contains both single and double quotes and cannot be safely quoted: "@
                    + debug_text(value),
        }
    }
}

impl McpError {
    /// The text of the error.
    pub fn message(&self) -> (r: String)
        ensures
            r@ == self@.text(),
    {
        match self {
            McpError::MissingName => "Missing required parameter: name".to_owned(),
            McpError::MissingArgument { key } => {
                let mut r = "Missing required argument: ".to_owned();
                r.append(key.as_str());
                r
            },
            McpError::UnknownTool { name } => {
                let mut r = "Unknown tool: ".to_owned();
                r.append(name.as_str());
                r
            },
            McpError::Unquotable { value } => {
                let mut r =
                    "Argument contains both single and double quotes and cannot be safely quoted: ".to_owned();
                r.append(debug_form(value.as_str()).as_str());
                r
            },
        }
    }
}

/// An argument as one token: as it is where it holds no whitespace; else
/// between double quotes where it holds none, else between single quotes
/// where it holds none; else there is no way.
pub open spec fn quoted(s: Seq<char>) -> Option<Seq<char>> {
    if !holds_space(s) {
        Some(s)
    } else if !s.contains('"') {
        Some("\""@ + s + "\""@)
    } else if !s.contains('\'') {
        Some("'"@ + s + "'"@)
    } else {
        None
    }
}

/// Quotes an argument so that the tokenizer of the engine reads it as one
/// token.
pub fn quote(s: &str) -> (r: Result<String, McpError>)
    ensures
        match r {
            Ok(q) => quoted(s@) == Some(q@),
            Err(e) => quoted(s@) is None && e@ == (McpFault::Unquotable { value: s@ }),
        },
{
    if !has_whitespace(s) {
        return Ok(s.to_owned());
    }
    let has_double: bool = contains_char(s, '"');
    let has_single: bool = contains_char(s, '\'');
    if !has_double {
        let mut r = "\"".to_owned();
        r.append(s);
        r.append("\"");
        Ok(r)
    } else if !has_single {
        let mut r = "'".to_owned();
        r.append(s);
        r.append("'");
        Ok(r)
    } else {
        Err(McpError::Unquotable { value: s.to_owned() })
    }
}

/// The arguments that a tool may take.
#[derive(Debug, Clone, Copy, PartialEq, Eq, Structural)]
pub enum ArgKey {
    DbPath,
    CsvPath,
    TableName,
    Theme,
    ItemType,
    BBox,
    Query,
}

impl ArgKey {
    /// The name of the argument.
    pub open spec fn name(self) -> Seq<char> {
        match self {
            ArgKey::DbPath => "db_path"@,
            ArgKey::CsvPath => "csv_path"@,
            ArgKey::TableName => "table_name"@,
            ArgKey::Theme => "theme"@,
            ArgKey::ItemType => "item_type"@,
            ArgKey::BBox => "bbox"@,
            ArgKey::Query => "query"@,
        }
    }

    /// The name of the argument.
    pub fn as_str(self) -> (r: &'static str)
        ensures
            r@ == self.name(),
    {
        match self {
            ArgKey::DbPath => "db_path",
            ArgKey::CsvPath => "csv_path",
            ArgKey::TableName => "table_name",
            ArgKey::Theme => "theme",
            ArgKey::ItemType => "item_type",
            ArgKey::BBox => "bbox",
            ArgKey::Query => "query",
        }
    }
}

/// The mathematical content of [`ToolArguments`].
pub struct ToolArgs {
    pub db_path: Option<Seq<char>>,
    pub csv_path: Option<Seq<char>>,
    pub table_name: Option<Seq<char>>,
    pub theme: Option<Seq<char>>,
    pub item_type: Option<Seq<char>>,
    pub bbox: Option<Seq<char>>,
    pub query: Option<Seq<char>>,
    pub limit: Option<u64>,
}

impl ToolArgs {
    /// The value of an argument.
    pub open spec fn get(self, key: ArgKey) -> Option<Seq<char>> {
        match key {
            ArgKey::DbPath => self.db_path,
            ArgKey::CsvPath => self.csv_path,
            ArgKey::TableName => self.table_name,
            ArgKey::Theme => self.theme,
            ArgKey::ItemType => self.item_type,
            ArgKey::BBox => self.bbox,
            ArgKey::Query => self.query,
        }
    }
}

/// The arguments of a tool call: each textual argument that is present and
/// a text, and the limit where it is present and an unsigned number.
#[derive(Debug, Clone, PartialEq, Eq)]
pub struct ToolArguments {
    pub db_path: Option<String>,
    pub csv_path: Option<String>,
    pub table_name: Option<String>,
    pub theme: Option<String>,
    pub item_type: Option<String>,
    pub bbox: Option<String>,
    pub query: Option<String>,
    pub limit: Option<u64>,
}

impl View for ToolArguments {
    type V = ToolArgs;

    open spec fn view(&self) -> ToolArgs {
        ToolArgs {
            db_path: opt_text(self.db_path),
            csv_path: opt_text(self.csv_path),
            table_name: opt_text(self.table_name),
            theme: opt_text(self.theme),
            item_type: opt_text(self.item_type),
            bbox: opt_text(self.bbox),
            query: opt_text(self.query),
            limit: self.limit,
        }
    }
}

impl ToolArguments {
    /// No argument at all.
    pub fn new() -> (r: ToolArguments)
        ensures
            r@ == (ToolArgs {
                db_path: None,
                csv_path: None,
                table_name: None,
                theme: None,
                item_type: None,
                bbox: None,
                query: None,
                limit: None,
            }),
    {
        ToolArguments {
            db_path: None,
            csv_path: None,
            table_name: None,
            theme: None,
            item_type: None,
            bbox: None,
            query: None,
            limit: None,
        }
    }

    /// The value of an argument.
    pub fn get(&self, key: ArgKey) -> (r: &Option<String>)
        ensures
            opt_text(*r) == self@.get(key),
    {
        match key {
            ArgKey::DbPath => &self.db_path,
            ArgKey::CsvPath => &self.csv_path,
            ArgKey::TableName => &self.table_name,
            ArgKey::Theme => &self.theme,
            ArgKey::ItemType => &self.item_type,
            ArgKey::BBox => &self.bbox,
            ArgKey::Query => &self.query,
        }
    }
}

/// What a tool is made of: the command of the engine, the arguments that
/// it needs, in the order of the command, the textual argument that may
/// follow them, and whether a limit may follow.
pub struct ToolShape {
    pub command: Seq<char>,
    pub required: Seq<ArgKey>,
    pub optional: Option<ArgKey>,
    pub takes_limit: bool,
}

/// The shape of a tool, where the name is that of a tool.
pub open spec fn shape_of(tool: Seq<char>) -> Option<ToolShape> {
    if tool == "ingest_csv"@ {
        Some(
            ToolShape {
                command: "ingest"@,
                required: seq![ArgKey::DbPath, ArgKey::CsvPath],
                optional: Some(ArgKey::TableName),
                takes_limit: false,
            },
        )
    } else if tool == "get_schema"@ {
        Some(
            ToolShape {
                command: "schema"@,
                required: seq![ArgKey::DbPath, ArgKey::TableName],
                optional: None,
                takes_limit: false,
            },
        )
    } else if tool == "overture_extract"@ {
        Some(
            ToolShape {
                command: "overture_extract"@,
                required: seq![ArgKey::DbPath, ArgKey::Theme, ArgKey::ItemType, ArgKey::BBox],
                optional: Some(ArgKey::TableName),
                takes_limit: false,
            },
        )
    } else if tool == "overture_search"@ {
        Some(
            ToolShape {
                command: "overture_search"@,
                required: seq![ArgKey::DbPath, ArgKey::TableName, ArgKey::Query],
                optional: None,
                takes_limit: true,
            },
        )
    } else if tool == "overture_geocode"@ {
        Some(
            ToolShape {
                command: "overture_geocode"@,
                required: seq![ArgKey::DbPath, ArgKey::TableName, ArgKey::Query],
                optional: None,
                takes_limit: true,
            },
        )
    } else {
        None
    }
}

/// The first of `keys` that `args` lacks.
pub open spec fn first_missing(keys: Seq<ArgKey>, args: ToolArgs) -> Option<ArgKey>
    decreases keys.len(),
{
    if keys.len() == 0 {
        None
    } else if args.get(keys[0]) is None {
        Some(keys[0])
    } else {
        first_missing(keys.drop_first(), args)
    }
}

/// The words of a command: the values of the required arguments, then the
/// value of the optional argument where it is present.
pub open spec fn words_for(shape: ToolShape, args: ToolArgs) -> Seq<Seq<char>> {
    let required = Seq::new(shape.required.len(), |i: int| args.get(shape.required[i])->0);
    match shape.optional {
        Some(key) => match args.get(key) {
            Some(value) => required.push(value),
            None => required,
        },
        None => required,
    }
}

/// The first of `words` that cannot be quoted.
pub open spec fn first_unquotable(words: Seq<Seq<char>>) -> Option<Seq<char>>
    decreases words.len(),
{
    if words.len() == 0 {
        None
    } else if quoted(words[0]) is None {
        Some(words[0])
    } else {
        first_unquotable(words.drop_first())
    }
}

/// `head` followed by each of `words`, quoted, behind one space.
pub open spec fn with_words(head: Seq<char>, words: Seq<Seq<char>>) -> Seq<char>
    decreases words.len(),
{
    if words.len() == 0 {
        head
    } else {
        with_words(head, words.drop_last()) + " "@ + quoted(words.last())->0
    }
}

/// The command that a tool call makes. A name that is no tool is refused;
/// then the first required argument that is missing; then the first
/// argument that cannot be quoted. A limit goes last and as it is.
pub open spec fn tool_command(tool: Seq<char>, args: ToolArgs) -> Result<Seq<char>, McpFault> {
    match shape_of(tool) {
        None => Err(McpFault::UnknownTool { name: tool }),
        Some(shape) => match first_missing(shape.required, args) {
            Some(key) => Err(McpFault::MissingArgument { key: key.name() }),
            None => {
                let words = words_for(shape, args);
                match first_unquotable(words) {
                    Some(value) => Err(McpFault::Unquotable { value }),
                    None => {
                        let text = with_words(shape.command, words);
                        if shape.takes_limit && args.limit is Some {
                            Ok(text + " "@ + decimal(args.limit->0 as nat))
                        } else {
                            Ok(text)
                        }
                    },
                }
            },
        },
    }
}

fn assemble(
    command: &str,
    required: &Vec<ArgKey>,
    optional: Option<ArgKey>,
    takes_limit: bool,
    args: &ToolArguments,
) -> (r: Result<String, McpError>)
    ensures
        ({
            let shape = ToolShape {
                command: command@,
                required: required@,
                optional,
                takes_limit,
            };
            match r {
                Ok(text) => first_missing(required@, args@) is None && first_unquotable(
                    words_for(shape, args@),
                ) is None && text@ == (if takes_limit && args@.limit is Some {
                    with_words(command@, words_for(shape, args@)) + " "@ + decimal(
                        args@.limit->0 as nat,
                    )
                } else {
                    with_words(command@, words_for(shape, args@))
                }),
                Err(e) => match first_missing(required@, args@) {
                    Some(key) => e@ == (McpFault::MissingArgument { key: key.name() }),
                    None => first_unquotable(words_for(shape, args@)) matches Some(value) && e@ == (
                    McpFault::Unquotable { value }),
                },
            }
        }),
{
    let ghost shape = ToolShape { command: command@, required: required@, optional, takes_limit };
    let mut words: Vec<String> = Vec::new();
    let mut i: usize = 0;
    assert(required@.skip(0) == required@);
    while i < required.len()
        invariant
            i <= required.len(),
            words.len() == i,
            first_missing(required@, args@) == first_missing(required@.skip(i as int), args@),
            forall|k: int| 0 <= k < i ==> args@.get(required@[k]) is Some,
            forall|k: int| 0 <= k < i ==> words.deep_view()[k] == args@.get(required@[k])->0,
        decreases required.len() - i,
    {
        let ghost rest = required@.skip(i as int);
        let ghost before = words.deep_view();
        assert(rest[0] == required@[i as int]);
        assert(rest.drop_first() == required@.skip(i + 1));
        match args.get(required[i]) {
            Some(value) => {
                let w = value.clone();
                words.push(w);
                assert(words.deep_view() =~= before.push(w@));
            },
            None => {
                return Err(McpError::MissingArgument { key: required[i].as_str().to_owned() });
            },
        }
        i += 1;
    }
    assert(required@.skip(required@.len() as int).len() == 0);
    let ghost base = words.deep_view();
    match optional {
        Some(key) => match args.get(key) {
            Some(value) => {
                let w = value.clone();
                words.push(w);
                assert(words.deep_view() =~= base.push(w@));
            },
            None => {},
        },
        None => {},
    }
    assert(base =~= Seq::new(required@.len(), |i: int| args@.get(required@[i])->0));
    assert(words.deep_view() == words_for(shape, args@));
    let mut text = command.to_owned();
    let mut j: usize = 0;
    assert(words.deep_view().take(0) == Seq::<Seq<char>>::empty());
    assert(words.deep_view().skip(0) == words.deep_view());
    while j < words.len()
        invariant
            j <= words.len(),
            text@ == with_words(command@, words.deep_view().take(j as int)),
            first_unquotable(words.deep_view()) == first_unquotable(
                words.deep_view().skip(j as int),
            ),
            words.deep_view() == words_for(shape, args@),
            shape == (ToolShape { command: command@, required: required@, optional, takes_limit }),
            first_missing(required@, args@) is None,
        decreases words.len() - j,
    {
        let ghost rest = words.deep_view().skip(j as int);
        assert(rest[0] == words[j as int]@);
        assert(rest.drop_first() == words.deep_view().skip(j + 1));
        let ghost next = words.deep_view().take(j + 1);
        assert(next.drop_last() == words.deep_view().take(j as int));
        assert(next.last() == words[j as int]@);
        match quote(words[j].as_str()) {
            Ok(q) => {
                text.append(" ");
                text.append(q.as_str());
            },
            Err(e) => {
                return Err(e);
            },
        }
        j += 1;
    }
    assert(words.deep_view().take(words.len() as int) == words.deep_view());
    assert(words.deep_view().skip(words.len() as int).len() == 0);
    if takes_limit {
        match args.limit {
            Some(limit) => {
                text.append(" ");
                push_decimal(&mut text, limit);
            },
            None => {},
        }
    }
    Ok(text)
}

/// Makes the command of a tool call from its arguments as plain values.
pub fn command_for(tool_name: &str, args: &ToolArguments) -> (r: Result<String, McpError>)
    ensures
        match r {
            Ok(command) => tool_command(tool_name@, args@) == Ok::<Seq<char>, McpFault>(command@),
            Err(e) => tool_command(tool_name@, args@) == Err::<Seq<char>, McpFault>(e@),
        },
{
    if str_eq(tool_name, "ingest_csv") {
        let required: Vec<ArgKey> = vec![ArgKey::DbPath, ArgKey::CsvPath];
        assert(required@ =~= seq![ArgKey::DbPath, ArgKey::CsvPath]);
        assemble("ingest", &required, Some(ArgKey::TableName), false, args)
    } else if str_eq(tool_name, "get_schema") {
        let required: Vec<ArgKey> = vec![ArgKey::DbPath, ArgKey::TableName];
        assert(required@ =~= seq![ArgKey::DbPath, ArgKey::TableName]);
        assemble("schema", &required, None, false, args)
    } else if str_eq(tool_name, "overture_extract") {
        let required: Vec<ArgKey> = vec![
            ArgKey::DbPath,
            ArgKey::Theme,
            ArgKey::ItemType,
            ArgKey::BBox,
        ];
        assert(required@ =~= seq![ArgKey::DbPath, ArgKey::Theme, ArgKey::ItemType, ArgKey::BBox]);
        assemble("overture_extract", &required, Some(ArgKey::TableName), false, args)
    } else if str_eq(tool_name, "overture_search") {
        let required: Vec<ArgKey> = vec![ArgKey::DbPath, ArgKey::TableName, ArgKey::Query];
        assert(required@ =~= seq![ArgKey::DbPath, ArgKey::TableName, ArgKey::Query]);
        assemble("overture_search", &required, None, true, args)
    } else if str_eq(tool_name, "overture_geocode") {
        let required: Vec<ArgKey> = vec![ArgKey::DbPath, ArgKey::TableName, ArgKey::Query];
        assert(required@ =~= seq![ArgKey::DbPath, ArgKey::TableName, ArgKey::Query]);
        assemble("overture_geocode", &required, None, true, args)
    } else {
        Err(McpError::UnknownTool { name: tool_name.to_owned() })
    }
}

/// `serde_json::Value`, a JSON value. Nothing is known of such a value but
/// what the two readers below say of it.
#[verifier::external_type_specification]
#[verifier::external_body]
pub struct ExJsonValue(serde_json::Value);

/// The members of a JSON value that are texts, each under its key. A value
/// that is no object has none.
pub uninterp spec fn json_texts(value: serde_json::Value) -> Map<Seq<char>, Seq<char>>;

/// The members of a JSON value that are unsigned integers of 64 bits, each
/// under its key. A value that is no object has none.
pub uninterp spec fn json_numbers(value: serde_json::Value) -> Map<Seq<char>, u64>;

/// `Value::get` with a text as index, then `Value::as_str`: the member
/// under `key` where `value` is an object that has one and the member is a
/// string, and nothing otherwise. What is read is a copy, and depends on the
/// value and the key alone.
#[verifier::external_body]
fn json_text(value: &serde_json::Value, key: &str) -> (r: Option<String>)
    ensures
        match r {
            Some(text) => json_texts(*value).contains_key(key@) && json_texts(*value)[key@]
                == text@,
            None => !json_texts(*value).contains_key(key@),
        },
{
    value.get(key).and_then(serde_json::Value::as_str).map(str::to_owned)
}

/// `Value::get` with a text as index, then `Value::as_u64`: the member
/// under `key` where `value` is an object that has one and the member is an
/// integer from 0 to `u64::MAX`, and nothing otherwise. What is read depends
/// on the value and the key alone.
#[verifier::external_body]
fn json_u64(value: &serde_json::Value, key: &str) -> (r: Option<u64>)
    ensures
        match r {
            Some(n) => json_numbers(*value).contains_key(key@) && json_numbers(*value)[key@] == n,
            None => !json_numbers(*value).contains_key(key@),
        },
{
    value.get(key).and_then(serde_json::Value::as_u64)
}

/// The text under `key`, if there is one.
pub open spec fn text_member(value: serde_json::Value, key: Seq<char>) -> Option<Seq<char>> {
    if json_texts(value).contains_key(key) {
        Some(json_texts(value)[key])
    } else {
        None
    }
}

/// The number under `key`, if there is one.
pub open spec fn number_member(value: serde_json::Value, key: Seq<char>) -> Option<u64> {
    if json_numbers(value).contains_key(key) {
        Some(json_numbers(value)[key])
    } else {
        None
    }
}

/// The arguments that a JSON value holds: each textual argument that is
/// present and a text, and the limit where it is present and a number.
pub open spec fn arguments_in(value: serde_json::Value) -> ToolArgs {
    ToolArgs {
        db_path: text_member(value, ArgKey::DbPath.name()),
        csv_path: text_member(value, ArgKey::CsvPath.name()),
        table_name: text_member(value, ArgKey::TableName.name()),
        theme: text_member(value, ArgKey::Theme.name()),
        item_type: text_member(value, ArgKey::ItemType.name()),
        bbox: text_member(value, ArgKey::BBox.name()),
        query: text_member(value, ArgKey::Query.name()),
        limit: number_member(value, "limit"@),
    }
}

/// Reads the arguments of a tool call.
pub fn tool_arguments(args: &serde_json::Value) -> (r: ToolArguments)
    ensures
        r@ == arguments_in(*args),
{
    ToolArguments {
        db_path: json_text(args, ArgKey::DbPath.as_str()),
        csv_path: json_text(args, ArgKey::CsvPath.as_str()),
        table_name: json_text(args, ArgKey::TableName.as_str()),
        theme: json_text(args, ArgKey::Theme.as_str()),
        item_type: json_text(args, ArgKey::ItemType.as_str()),
        bbox: json_text(args, ArgKey::BBox.as_str()),
        query: json_text(args, ArgKey::Query.as_str()),
        limit: json_u64(args, "limit"),
    }
}

/// The text under `key`, which must be there.
pub fn require_str(args: &serde_json::Value, key: &str) -> (r: Result<String, McpError>)
    ensures
        match r {
            Ok(text) => text_member(*args, key@) == Some(text@),
            Err(e) => text_member(*args, key@) is None && e@ == (McpFault::MissingArgument {
                key: key@,
            }),
        },
{
    match json_text(args, key) {
        Some(text) => Ok(text),
        None => Err(McpError::MissingArgument { key: key.to_owned() }),
    }
}

/// The tool that the parameters of a call name.
pub fn tool_name(params: &serde_json::Value) -> (r: Result<String, McpError>)
    ensures
        match r {
            Ok(name) => text_member(*params, "name"@) == Some(name@),
            Err(e) => text_member(*params, "name"@) is None && e@ == McpFault::MissingName,
        },
{
    match json_text(params, "name") {
        Some(name) => Ok(name),
        None => Err(McpError::MissingName),
    }
}

/// Makes the command of a tool call from its arguments as JSON.
pub fn build_command(tool_name: &str, args: &serde_json::Value) -> (r: Result<String, McpError>)
    ensures
        match r {
            Ok(command) => tool_command(tool_name@, arguments_in(*args)) == Ok::<
                Seq<char>,
                McpFault,
            >(command@),
            Err(e) => tool_command(tool_name@, arguments_in(*args)) == Err::<Seq<char>, McpFault>(
                e@,
            ),
        },
{
    let arguments = tool_arguments(args);
    command_for(tool_name, &arguments)
}

} // verus!
