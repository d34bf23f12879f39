//! The one-line commands of the engine: how a line is cut into tokens and
//! which command the tokens make.

use crate::text::{
    parse_usize, parsed_usize, split_by, split_on, str_eq, to_chars, trim, trimmed, white_space,
};
use vstd::prelude::*;

verus! {

/// The limit of a search that names none.
pub const DEFAULT_SEARCH_LIMIT: usize = 20;

/// The commands of the engine.
#[derive(Debug, Clone, Copy, PartialEq, Eq, Structural)]
pub enum CommandKind {
    Ingest,
    Schema,
    Geocode,
    OvertureExtract,
    OvertureSearch,
    OvertureGeocode,
}

impl CommandKind {
    /// How the command is called.
    pub open spec fn usage_text(self) -> Seq<char> {
        match self {
            CommandKind::Ingest => "Usage: ingest <db_path> <csv_path> [table_name]"@,
            CommandKind::Schema => "Usage: schema <db_path> <table_name>"@,
            CommandKind::Geocode => "Usage: geocode <address_1> <address_2> ..."@,
            CommandKind::OvertureExtract =>
                "Usage: overture_extract <db_path> <theme> <type> <xmin,ymin,xmax,ymax> [table_name]"@,
            CommandKind::OvertureSearch =>
                "Usage: overture_search <db_path> <table_name> <query> [limit]"@,
            CommandKind::OvertureGeocode =>
                "Usage: overture_geocode <db_path> <table_name> <query> [limit]"@,
        }
    }

    /// How the command is called.
    pub fn usage(self) -> (r: &'static str)
        ensures
            r@ == self.usage_text(),
    {
        match self {
            CommandKind::Ingest => "Usage: ingest <db_path> <csv_path> [table_name]",
            CommandKind::Schema => "Usage: schema <db_path> <table_name>",
            CommandKind::Geocode => "Usage: geocode <address_1> <address_2> ...",
            CommandKind::OvertureExtract =>
                "Usage: overture_extract <db_path> <theme> <type> <xmin,ymin,xmax,ymax> [table_name]",
            CommandKind::OvertureSearch =>
                "Usage: overture_search <db_path> <table_name> <query> [limit]",
            CommandKind::OvertureGeocode =>
                "Usage: overture_geocode <db_path> <table_name> <query> [limit]",
        }
    }
}

/// The mathematical content of a [`CommandError`].
pub enum CommandFault {
    UnterminatedQuote,
    Empty,
    Unknown { name: Seq<char> },
    Usage { command: CommandKind },
    BoundingBox,
    InvalidLimit { value: Seq<char> },
}

/// Why a line is no command.
#[derive(Debug, Clone, PartialEq, Eq)]
pub enum CommandError {
    /// A quote is opened and never closed.
    UnterminatedQuote,
    /// The line holds no token.
    Empty,
    /// The first token names no command.
    Unknown { name: String },
    /// The command has the wrong number of arguments.
    Usage { command: CommandKind },
    /// The bounding box is not made of four parts.
    BoundingBox,
    /// The limit is no number.
    InvalidLimit { value: String },
}

impl View for CommandError {
    type V = CommandFault;

    open spec fn view(&self) -> CommandFault {
        match self {
            CommandError::UnterminatedQuote => CommandFault::UnterminatedQuote,
            CommandError::Empty => CommandFault::Empty,
            CommandError::Unknown { name } => CommandFault::Unknown { name: name@ },
            CommandError::Usage { command } => CommandFault::Usage { command: *command },
            CommandError::BoundingBox => CommandFault::BoundingBox,
            CommandError::InvalidLimit { value } => CommandFault::InvalidLimit { value: value@ },
        }
    }
}

impl CommandFault {
    /// The text of the error.
    pub open spec fn text(self) -> Seq<char> {
        match self {
            CommandFault::UnterminatedQuote => "Unterminated quoted string"@,
            CommandFault::Empty => "Command cannot be empty"@,
            CommandFault::Unknown { name } => "Unknown command: "@ + name,
            CommandFault::Usage { command } => command.usage_text(),
            CommandFault::BoundingBox => "bbox must be: xmin,ymin,xmax,ymax"@,
            CommandFault::InvalidLimit { value } => "invalid limit: "@ + value,
        }
    }
}

impl CommandError {
    /// The text of the error.
    pub fn message(&self) -> (r: String)
        ensures
            r@ == self@.text(),
    {
        match self {
            CommandError::UnterminatedQuote => "Unterminated quoted string".to_owned(),
            CommandError::Empty => "Command cannot be empty".to_owned(),
            CommandError::Unknown { name } => {
                let mut r = "Unknown command: ".to_owned();
                r.append(name.as_str());
                r
            },
            CommandError::Usage { command } => command.usage().to_owned(),
            CommandError::BoundingBox => "bbox must be: xmin,ymin,xmax,ymax".to_owned(),
            CommandError::InvalidLimit { value } => {
                let mut r = "invalid limit: ".to_owned();
                r.append(value.as_str());
                r
            },
        }
    }
}

/// Where the reading of a line stands: the tokens read, the token being
/// read, and the quote that is open.
pub struct TokenScan {
    pub tokens: Seq<Seq<char>>,
    pub current: Seq<char>,
    pub quote: Option<char>,
}

impl TokenScan {
    /// The reading after one more character. Inside a quote everything but
    /// the closing quote belongs to the token. Outside, a quote opens,
    /// whitespace ends the token being read, if there is one, and any other
    /// character goes on with it.
    pub open spec fn step(self, c: char) -> TokenScan {
        match self.quote {
            Some(q) => if c == q {
                TokenScan { quote: None, ..self }
            } else {
                TokenScan { current: self.current.push(c), ..self }
            },
            None => if c == '"' || c == '\'' {
                TokenScan { quote: Some(c), ..self }
            } else if white_space(c) {
                if self.current.len() > 0 {
                    TokenScan { tokens: self.tokens.push(self.current), current: Seq::empty(), ..self }
                } else {
                    self
                }
            } else {
                TokenScan { current: self.current.push(c), ..self }
            },
        }
    }

    /// The reading after all of `s`.
    pub open spec fn over(s: Seq<char>) -> TokenScan
        decreases s.len(),
    {
        if s.len() == 0 {
            TokenScan { tokens: Seq::empty(), current: Seq::empty(), quote: None }
        } else {
            TokenScan::over(s.drop_last()).step(s.last())
        }
    }
}

/// The tokens of a line, or nothing where a quote stays open.
pub open spec fn tokens_of(command: Seq<char>) -> Option<Seq<Seq<char>>> {
    let scan = TokenScan::over(command);
    if scan.quote is Some {
        None
    } else if scan.current.len() > 0 {
        Some(scan.tokens.push(scan.current))
    } else {
        Some(scan.tokens)
    }
}

/// Cuts a line into tokens. Tokens are separated by whitespace; single and
/// double quotes keep whitespace inside a token and are left out of it.
pub fn tokenize(command: &str) -> (r: Result<Vec<String>, CommandError>)
    ensures
        match r {
            Ok(tokens) => tokens_of(command@) == Some(tokens.deep_view()),
            Err(e) => tokens_of(command@) is None && e == CommandError::UnterminatedQuote,
        },
{
    let v = to_chars(command);
    let mut tokens: Vec<String> = Vec::new();
    let mut current = String::new();
    let mut in_quote: Option<char> = None;
    let mut i: usize = 0;
    assert(v@.take(0) == Seq::<char>::empty());
    assert(tokens.deep_view() =~= Seq::<Seq<char>>::empty());
    while i < v.len()
        invariant
            i <= v.len(),
            v@ == command@,
            tokens.deep_view() == TokenScan::over(v@.take(i as int)).tokens,
            current@ == TokenScan::over(v@.take(i as int)).current,
            in_quote == TokenScan::over(v@.take(i as int)).quote,
        decreases v.len() - i,
    {
        assert(v@.take(i + 1).drop_last() == v@.take(i as int));
        let ghost before = tokens.deep_view();
        let ch = v[i];
        match in_quote {
            Some(quote) => {
                if ch == quote {
                    in_quote = None;
                } else {
                    current.push(ch);
                }
            },
            None => {
                if ch == '"' || ch == '\'' {
                    in_quote = Some(ch);
                } else if ch.is_whitespace() {
                    if !current.as_str().is_empty() {
                        let token = current;
                        current = String::new();
                        tokens.push(token);
                        assert(tokens.deep_view() == before.push(token@));
                    }
                } else {
                    current.push(ch);
                }
            },
        }
        i += 1;
    }
    assert(v@.take(v@.len() as int) == v@);
    if in_quote.is_some() {
        return Err(CommandError::UnterminatedQuote);
    }
    if !current.as_str().is_empty() {
        let ghost before = tokens.deep_view();
        tokens.push(current);
        assert(tokens.deep_view() == before.push(current@));
    }
    Ok(tokens)
}

/// The four parts of a bounding box, as they are written.
#[derive(Debug, Clone, PartialEq, Eq)]
pub struct BBoxText {
    pub xmin: String,
    pub ymin: String,
    pub xmax: String,
    pub ymax: String,
}

/// The mathematical content of a [`BBoxText`].
pub struct BBoxParts {
    pub xmin: Seq<char>,
    pub ymin: Seq<char>,
    pub xmax: Seq<char>,
    pub ymax: Seq<char>,
}

impl View for BBoxText {
    type V = BBoxParts;

    open spec fn view(&self) -> BBoxParts {
        BBoxParts { xmin: self.xmin@, ymin: self.ymin@, xmax: self.xmax@, ymax: self.ymax@ }
    }
}

/// The parts of a bounding box: the text is cut at its commas and must give
/// four parts, each of which is trimmed.
pub open spec fn bbox_parts(input: Seq<char>) -> Option<BBoxParts> {
    let parts = split_by(input, ',');
    if parts.len() == 4 {
        Some(
            BBoxParts {
                xmin: trimmed(parts[0]),
                ymin: trimmed(parts[1]),
                xmax: trimmed(parts[2]),
                ymax: trimmed(parts[3]),
            },
        )
    } else {
        None
    }
}

/// Cuts a bounding box into its four parts.
pub fn split_bbox(input: &str) -> (r: Option<BBoxText>)
    ensures
        match r {
            Some(b) => bbox_parts(input@) == Some(b@),
            None => bbox_parts(input@) is None,
        },
{
    let parts = split_on(input, ',');
    if parts.len() != 4 {
        return None;
    }
    assert(parts.deep_view()[0] == parts[0]@);
    assert(parts.deep_view()[1] == parts[1]@);
    assert(parts.deep_view()[2] == parts[2]@);
    assert(parts.deep_view()[3] == parts[3]@);
    Some(
        BBoxText {
            xmin: trim(parts[0].as_str()),
            ymin: trim(parts[1].as_str()),
            xmax: trim(parts[2].as_str()),
            ymax: trim(parts[3].as_str()),
        },
    )
}

/// The mathematical content of a [`Command`].
pub enum CommandModel {
    Ingest { db_path: Seq<char>, csv_path: Seq<char>, table_name: Option<Seq<char>> },
    Schema { db_path: Seq<char>, table_name: Seq<char> },
    Geocode { addresses: Seq<Seq<char>> },
    OvertureExtract {
        db_path: Seq<char>,
        theme: Seq<char>,
        item_type: Seq<char>,
        bbox: BBoxParts,
        table_name: Option<Seq<char>>,
    },
    OvertureSearch { db_path: Seq<char>, table_name: Seq<char>, query: Seq<char>, limit: usize },
    OvertureGeocode { db_path: Seq<char>, table_name: Seq<char>, query: Seq<char>, limit: usize },
}

/// A command of the engine with its arguments.
#[derive(Debug, Clone, PartialEq, Eq)]
pub enum Command {
    Ingest { db_path: String, csv_path: String, table_name: Option<String> },
    Schema { db_path: String, table_name: String },
    Geocode { addresses: Vec<String> },
    OvertureExtract {
        db_path: String,
        theme: String,
        item_type: String,
        bbox: BBoxText,
        table_name: Option<String>,
    },
    OvertureSearch { db_path: String, table_name: String, query: String, limit: usize },
    OvertureGeocode { db_path: String, table_name: String, query: String, limit: usize },
}

impl View for Command {
    type V = CommandModel;

    open spec fn view(&self) -> CommandModel {
        match self {
            Command::Ingest { db_path, csv_path, table_name } => CommandModel::Ingest {
                db_path: db_path@,
                csv_path: csv_path@,
                table_name: crate::geocode_result::opt_text(*table_name),
            },
            Command::Schema { db_path, table_name } => CommandModel::Schema {
                db_path: db_path@,
                table_name: table_name@,
            },
            Command::Geocode { addresses } => CommandModel::Geocode {
                addresses: addresses.deep_view(),
            },
            Command::OvertureExtract { db_path, theme, item_type, bbox, table_name } =>
                CommandModel::OvertureExtract {
                    db_path: db_path@,
                    theme: theme@,
                    item_type: item_type@,
                    bbox: bbox@,
                    table_name: crate::geocode_result::opt_text(*table_name),
                },
            Command::OvertureSearch { db_path, table_name, query, limit } =>
                CommandModel::OvertureSearch {
                    db_path: db_path@,
                    table_name: table_name@,
                    query: query@,
                    limit: *limit,
                },
            Command::OvertureGeocode { db_path, table_name, query, limit } =>
                CommandModel::OvertureGeocode {
                    db_path: db_path@,
                    table_name: table_name@,
                    query: query@,
                    limit: *limit,
                },
        }
    }
}

/// The limit of a search: the fifth token as a number, or the default where
/// there are four tokens only.
pub open spec fn limit_of(tokens: Seq<Seq<char>>) -> Result<usize, CommandFault> {
    if tokens.len() > 4 {
        match parsed_usize(tokens[4]) {
            Some(n) => Ok(n),
            None => Err(CommandFault::InvalidLimit { value: tokens[4] }),
        }
    } else {
        Ok(DEFAULT_SEARCH_LIMIT)
    }
}

/// The command that tokens make. The first token names the command; each
/// command takes a fixed number of arguments, some of them optional.
pub open spec fn command_of_tokens(tokens: Seq<Seq<char>>) -> Result<CommandModel, CommandFault> {
    if tokens.len() == 0 {
        Err(CommandFault::Empty)
    } else if tokens[0] == "ingest"@ {
        if tokens.len() == 3 || tokens.len() == 4 {
            Ok(
                CommandModel::Ingest {
                    db_path: tokens[1],
                    csv_path: tokens[2],
                    table_name: if tokens.len() == 4 {
                        Some(tokens[3])
                    } else {
                        None
                    },
                },
            )
        } else {
            Err(CommandFault::Usage { command: CommandKind::Ingest })
        }
    } else if tokens[0] == "schema"@ {
        if tokens.len() == 3 {
            Ok(CommandModel::Schema { db_path: tokens[1], table_name: tokens[2] })
        } else {
            Err(CommandFault::Usage { command: CommandKind::Schema })
        }
    } else if tokens[0] == "geocode"@ {
        if tokens.len() >= 2 {
            Ok(CommandModel::Geocode { addresses: tokens.skip(1) })
        } else {
            Err(CommandFault::Usage { command: CommandKind::Geocode })
        }
    } else if tokens[0] == "overture_extract"@ {
        if tokens.len() == 5 || tokens.len() == 6 {
            match bbox_parts(tokens[4]) {
                Some(bbox) => Ok(
                    CommandModel::OvertureExtract {
                        db_path: tokens[1],
                        theme: tokens[2],
                        item_type: tokens[3],
                        bbox,
                        table_name: if tokens.len() == 6 {
                            Some(tokens[5])
                        } else {
                            None
                        },
                    },
                ),
                None => Err(CommandFault::BoundingBox),
            }
        } else {
            Err(CommandFault::Usage { command: CommandKind::OvertureExtract })
        }
    } else if tokens[0] == "overture_search"@ {
        if tokens.len() == 4 || tokens.len() == 5 {
            match limit_of(tokens) {
                Ok(limit) => Ok(
                    CommandModel::OvertureSearch {
                        db_path: tokens[1],
                        table_name: tokens[2],
                        query: tokens[3],
                        limit,
                    },
                ),
                Err(e) => Err(e),
            }
        } else {
            Err(CommandFault::Usage { command: CommandKind::OvertureSearch })
        }
    } else if tokens[0] == "overture_geocode"@ {
        if tokens.len() == 4 || tokens.len() == 5 {
            match limit_of(tokens) {
                Ok(limit) => Ok(
                    CommandModel::OvertureGeocode {
                        db_path: tokens[1],
                        table_name: tokens[2],
                        query: tokens[3],
                        limit,
                    },
                ),
                Err(e) => Err(e),
            }
        } else {
            Err(CommandFault::Usage { command: CommandKind::OvertureGeocode })
        }
    } else {
        Err(CommandFault::Unknown { name: tokens[0] })
    }
}

/// The command that a line makes.
pub open spec fn command_of(command: Seq<char>) -> Result<CommandModel, CommandFault> {
    match tokens_of(command) {
        Some(tokens) => command_of_tokens(tokens),
        None => Err(CommandFault::UnterminatedQuote),
    }
}

fn parse_limit(tokens: &Vec<String>) -> (r: Result<usize, CommandError>)
    ensures
        match r {
            Ok(n) => limit_of(tokens.deep_view()) == Ok::<usize, CommandFault>(n),
            Err(e) => limit_of(tokens.deep_view()) == Err::<usize, CommandFault>(e@),
        },
{
    if tokens.len() > 4 {
        assert(tokens.deep_view()[4] == tokens[4]@);
        match parse_usize(tokens[4].as_str()) {
            Some(n) => Ok(n),
            None => Err(CommandError::InvalidLimit { value: tokens[4].clone() }),
        }
    } else {
        Ok(DEFAULT_SEARCH_LIMIT)
    }
}

fn parse_ingest(tokens: &Vec<String>) -> (r: Result<Command, CommandError>)
    requires
        tokens.len() > 0,
        tokens[0]@ == "ingest"@,
    ensures
        match r {
            Ok(c) => command_of_tokens(tokens.deep_view()) == Ok::<CommandModel, CommandFault>(c@),
            Err(e) => command_of_tokens(tokens.deep_view()) == Err::<CommandModel, CommandFault>(
                e@,
            ),
        },
{
    assert(tokens.deep_view()[0] == tokens[0]@);
    if !(tokens.len() == 3 || tokens.len() == 4) {
        return Err(CommandError::Usage { command: CommandKind::Ingest });
    }
    assert(tokens.deep_view()[1] == tokens[1]@);
    assert(tokens.deep_view()[2] == tokens[2]@);
    let table_name = if tokens.len() == 4 {
        assert(tokens.deep_view()[3] == tokens[3]@);
        Some(tokens[3].clone())
    } else {
        None
    };
    Ok(Command::Ingest { db_path: tokens[1].clone(), csv_path: tokens[2].clone(), table_name })
}

fn parse_schema(tokens: &Vec<String>) -> (r: Result<Command, CommandError>)
    requires
        tokens.len() > 0,
        tokens[0]@ == "schema"@,
        tokens[0]@ != "ingest"@,
    ensures
        match r {
            Ok(c) => command_of_tokens(tokens.deep_view()) == Ok::<CommandModel, CommandFault>(c@),
            Err(e) => command_of_tokens(tokens.deep_view()) == Err::<CommandModel, CommandFault>(
                e@,
            ),
        },
{
    assert(tokens.deep_view()[0] == tokens[0]@);
    if tokens.len() != 3 {
        return Err(CommandError::Usage { command: CommandKind::Schema });
    }
    assert(tokens.deep_view()[1] == tokens[1]@);
    assert(tokens.deep_view()[2] == tokens[2]@);
    Ok(Command::Schema { db_path: tokens[1].clone(), table_name: tokens[2].clone() })
}

fn parse_geocode(tokens: &Vec<String>) -> (r: Result<Command, CommandError>)
    requires
        tokens.len() > 0,
        tokens[0]@ == "geocode"@,
        tokens[0]@ != "ingest"@,
        tokens[0]@ != "schema"@,
    ensures
        match r {
            Ok(c) => command_of_tokens(tokens.deep_view()) == Ok::<CommandModel, CommandFault>(c@),
            Err(e) => command_of_tokens(tokens.deep_view()) == Err::<CommandModel, CommandFault>(
                e@,
            ),
        },
{
    assert(tokens.deep_view()[0] == tokens[0]@);
    if tokens.len() < 2 {
        return Err(CommandError::Usage { command: CommandKind::Geocode });
    }
    let mut addresses: Vec<String> = Vec::new();
    let mut i: usize = 1;
    while i < tokens.len()
        invariant
            1 <= i <= tokens.len(),
            addresses.len() == i - 1,
            forall|k: int| 0 <= k < i - 1 ==> addresses.deep_view()[k] == tokens.deep_view()[k + 1],
        decreases tokens.len() - i,
    {
        let ghost before = addresses.deep_view();
        let a = tokens[i].clone();
        assert(tokens.deep_view()[i as int] == a@);
        addresses.push(a);
        assert(addresses.deep_view() =~= before.push(a@));
        i += 1;
    }
    assert(addresses.deep_view() =~= tokens.deep_view().skip(1));
    Ok(Command::Geocode { addresses })
}

fn parse_overture_extract(tokens: &Vec<String>) -> (r: Result<Command, CommandError>)
    requires
        tokens.len() > 0,
        tokens[0]@ == "overture_extract"@,
        tokens[0]@ != "ingest"@,
        tokens[0]@ != "schema"@,
        tokens[0]@ != "geocode"@,
    ensures
        match r {
            Ok(c) => command_of_tokens(tokens.deep_view()) == Ok::<CommandModel, CommandFault>(c@),
            Err(e) => command_of_tokens(tokens.deep_view()) == Err::<CommandModel, CommandFault>(
                e@,
            ),
        },
{
    assert(tokens.deep_view()[0] == tokens[0]@);
    if !(tokens.len() == 5 || tokens.len() == 6) {
        return Err(CommandError::Usage { command: CommandKind::OvertureExtract });
    }
    assert(tokens.deep_view()[1] == tokens[1]@);
    assert(tokens.deep_view()[2] == tokens[2]@);
    assert(tokens.deep_view()[3] == tokens[3]@);
    assert(tokens.deep_view()[4] == tokens[4]@);
    let bbox = match split_bbox(tokens[4].as_str()) {
        Some(bbox) => bbox,
        None => {
            return Err(CommandError::BoundingBox);
        },
    };
    let table_name = if tokens.len() == 6 {
        assert(tokens.deep_view()[5] == tokens[5]@);
        Some(tokens[5].clone())
    } else {
        None
    };
    Ok(
        Command::OvertureExtract {
            db_path: tokens[1].clone(),
            theme: tokens[2].clone(),
            item_type: tokens[3].clone(),
            bbox,
            table_name,
        },
    )
}

fn parse_overture_search(tokens: &Vec<String>) -> (r: Result<Command, CommandError>)
    requires
        tokens.len() > 0,
        tokens[0]@ == "overture_search"@,
        tokens[0]@ != "ingest"@,
        tokens[0]@ != "schema"@,
        tokens[0]@ != "geocode"@,
        tokens[0]@ != "overture_extract"@,
    ensures
        match r {
            Ok(c) => command_of_tokens(tokens.deep_view()) == Ok::<CommandModel, CommandFault>(c@),
            Err(e) => command_of_tokens(tokens.deep_view()) == Err::<CommandModel, CommandFault>(
                e@,
            ),
        },
{
    assert(tokens.deep_view()[0] == tokens[0]@);
    if !(tokens.len() == 4 || tokens.len() == 5) {
        return Err(CommandError::Usage { command: CommandKind::OvertureSearch });
    }
    assert(tokens.deep_view()[1] == tokens[1]@);
    assert(tokens.deep_view()[2] == tokens[2]@);
    assert(tokens.deep_view()[3] == tokens[3]@);
    let limit: usize = match parse_limit(tokens) {
        Ok(n) => n,
        Err(e) => {
            return Err(e);
        },
    };
    Ok(
        Command::OvertureSearch {
            db_path: tokens[1].clone(),
            table_name: tokens[2].clone(),
            query: tokens[3].clone(),
            limit,
        },
    )
}

fn parse_overture_geocode(tokens: &Vec<String>) -> (r: Result<Command, CommandError>)
    requires
        tokens.len() > 0,
        tokens[0]@ == "overture_geocode"@,
        tokens[0]@ != "ingest"@,
        tokens[0]@ != "schema"@,
        tokens[0]@ != "geocode"@,
        tokens[0]@ != "overture_extract"@,
        tokens[0]@ != "overture_search"@,
    ensures
        match r {
            Ok(c) => command_of_tokens(tokens.deep_view()) == Ok::<CommandModel, CommandFault>(c@),
            Err(e) => command_of_tokens(tokens.deep_view()) == Err::<CommandModel, CommandFault>(
                e@,
            ),
        },
{
    assert(tokens.deep_view()[0] == tokens[0]@);
    if !(tokens.len() == 4 || tokens.len() == 5) {
        return Err(CommandError::Usage { command: CommandKind::OvertureGeocode });
    }
    assert(tokens.deep_view()[1] == tokens[1]@);
    assert(tokens.deep_view()[2] == tokens[2]@);
    assert(tokens.deep_view()[3] == tokens[3]@);
    let limit: usize = match parse_limit(tokens) {
        Ok(n) => n,
        Err(e) => {
            return Err(e);
        },
    };
    Ok(
        Command::OvertureGeocode {
            db_path: tokens[1].clone(),
            table_name: tokens[2].clone(),
            query: tokens[3].clone(),
            limit,
        },
    )
}

/// Makes a command of tokens.
pub fn parse_tokens(tokens: &Vec<String>) -> (r: Result<Command, CommandError>)
    ensures
        match r {
            Ok(c) => command_of_tokens(tokens.deep_view()) == Ok::<CommandModel, CommandFault>(c@),
            Err(e) => command_of_tokens(tokens.deep_view()) == Err::<CommandModel, CommandFault>(
                e@,
            ),
        },
{
    if tokens.len() == 0 {
        return Err(CommandError::Empty);
    }
    assert(tokens.deep_view()[0] == tokens[0]@);
    let name = tokens[0].as_str();
    if str_eq(name, "ingest") {
        parse_ingest(tokens)
    } else if str_eq(name, "schema") {
        parse_schema(tokens)
    } else if str_eq(name, "geocode") {
        parse_geocode(tokens)
    } else if str_eq(name, "overture_extract") {
        parse_overture_extract(tokens)
    } else if str_eq(name, "overture_search") {
        parse_overture_search(tokens)
    } else if str_eq(name, "overture_geocode") {
        parse_overture_geocode(tokens)
    } else {
        Err(CommandError::Unknown { name: name.to_owned() })
    }
}

/// Reads a line as a command.
pub fn parse_command(command: &str) -> (r: Result<Command, CommandError>)
    ensures
        match r {
            Ok(c) => command_of(command@) == Ok::<CommandModel, CommandFault>(c@),
            Err(e) => command_of(command@) == Err::<CommandModel, CommandFault>(e@),
        },
{
    match tokenize(command) {
        Ok(tokens) => parse_tokens(&tokens),
        Err(e) => Err(e),
    }
}

/// The text of the answer to a successful ingestion into `table`.
pub open spec fn ingest_answer_text(table: Seq<char>) -> Seq<char> {
    "{\"status\":\"ok\",\"table\":\""@ + table + "\"}"@
}

/// The answer to a successful ingestion into `table_name`.
pub fn ingest_answer(table_name: &str) -> (r: String)
    ensures
        r@ == ingest_answer_text(table_name@),
{
    let mut r = "{\"status\":\"ok\",\"table\":\"".to_owned();
    r.append(table_name);
    r.append("\"}");
    r
}

} // verus!
