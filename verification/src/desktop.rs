//! What the desktop shell decides for itself: its greeting, the prompts and
//! fallbacks of the analysis commands, and the progress of an ingestion.

use crate::geocode_result::opt_text;
use crate::text::{blank, is_blank, trim, trimmed};
use vstd::prelude::*;

verus! {

/// What the analysis chat answers while no model is configured.
pub const GEMINI_NOT_CONFIGURED: &'static str =
    "Gemini is not configured. Set SPATIA_GEMINI_API_KEY to enable AI analysis chat.";

/// The visualization that is shown where the model names none.
pub const DEFAULT_VISUALIZATION: &'static str = "scatter";

/// Why an analysis command is refused.
#[derive(Debug, Clone, Copy, PartialEq, Eq, Structural)]
pub enum DesktopError {
    /// The message of the user is blank.
    EmptyMessage,
    /// The goal of the user is blank.
    EmptyGoal,
}

impl DesktopError {
    /// The text of the error.
    pub open spec fn text(self) -> Seq<char> {
        match self {
            DesktopError::EmptyMessage => "user_message cannot be empty"@,
            DesktopError::EmptyGoal => "user_goal cannot be empty"@,
        }
    }

    /// The text of the error.
    pub fn message(&self) -> (r: String)
        ensures
            r@ == self.text(),
    {
        match self {
            DesktopError::EmptyMessage => "user_message cannot be empty".to_owned(),
            DesktopError::EmptyGoal => "user_goal cannot be empty".to_owned(),
        }
    }
}

/// The greeting for `name`.
pub fn greet(name: &str) -> (r: String)
    ensures
        r@ == "Hello, "@ + name@ + "! You've been greeted from Rust!"@,
{
    let mut r = "Hello, ".to_owned();
    r.append(name);
    r.append("! You've been greeted from Rust!");
    r
}

/// The text of the prompt of a chat turn.
pub open spec fn chat_prompt_text(system_prompt: Seq<char>, user_message: Seq<char>) -> Seq<char> {
    system_prompt + "\n\n## User message\n"@ + trimmed(user_message) + "\n"@
}

/// The prompt of a chat turn: the system prompt, then the message of the
/// user, trimmed. A blank message is refused.
pub fn chat_prompt(system_prompt: &str, user_message: &str) -> (r: Result<String, DesktopError>)
    ensures
        match r {
            Ok(prompt) => !is_blank(user_message@) && prompt@ == chat_prompt_text(
                system_prompt@,
                user_message@,
            ),
            Err(e) => is_blank(user_message@) && e == DesktopError::EmptyMessage,
        },
{
    if blank(user_message) {
        return Err(DesktopError::EmptyMessage);
    }
    let mut r = system_prompt.to_owned();
    r.append("\n\n## User message\n");
    r.append(trim(user_message).as_str());
    r.append("\n");
    Ok(r)
}

/// Accepts a message that is not blank.
pub fn check_message(user_message: &str) -> (r: Result<(), DesktopError>)
    ensures
        r is Ok <==> !is_blank(user_message@),
        r is Err ==> r == Err::<(), DesktopError>(DesktopError::EmptyMessage),
{
    if blank(user_message) {
        Err(DesktopError::EmptyMessage)
    } else {
        Ok(())
    }
}

/// Accepts a goal that is not blank.
pub fn check_goal(user_goal: &str) -> (r: Result<(), DesktopError>)
    ensures
        r is Ok <==> !is_blank(user_goal@),
        r is Err ==> r == Err::<(), DesktopError>(DesktopError::EmptyGoal),
{
    if blank(user_goal) {
        Err(DesktopError::EmptyGoal)
    } else {
        Ok(())
    }
}

/// The analysis statement that is proposed while no model is configured.
pub fn fallback_analysis_sql(table_name: &str) -> (r: String)
    ensures
        r@ == "CREATE OR REPLACE VIEW analysis_result AS SELECT * FROM "@ + table_name@
            + " LIMIT 100;"@,
{
    let mut r = "CREATE OR REPLACE VIEW analysis_result AS SELECT * FROM ".to_owned();
    r.append(table_name);
    r.append(" LIMIT 100;");
    r
}

/// The table that an ingestion is to fill: the name given, trimmed, unless
/// it is absent or blank.
pub open spec fn table_to_fill(table_name: Option<Seq<char>>) -> Option<Seq<char>> {
    match table_name {
        Some(name) => if is_blank(name) {
            None
        } else {
            Some(trimmed(name))
        },
        None => None,
    }
}

/// The table that an ingestion is to fill.
pub fn resolved_table(table_name: &Option<String>) -> (r: Option<String>)
    ensures
        opt_text(r) == table_to_fill(opt_text(*table_name)),
{
    match table_name {
        Some(name) => {
            if blank(name.as_str()) {
                None
            } else {
                Some(trim(name.as_str()))
            }
        },
        None => None,
    }
}

/// The steps of an ingestion that are reported.
#[derive(Debug, Clone, Copy, PartialEq, Eq, Structural)]
pub enum IngestStage {
    Started,
    Reading,
    Writing,
    Completed,
    Failed,
}

impl IngestStage {
    /// The name of the step.
    pub fn name(self) -> (r: &'static str)
        ensures
            r@ == (match self {
                IngestStage::Started => "started"@,
                IngestStage::Reading => "reading"@,
                IngestStage::Writing => "writing"@,
                IngestStage::Completed => "completed"@,
                IngestStage::Failed => "failed"@,
            }),
    {
        match self {
            IngestStage::Started => "started",
            IngestStage::Reading => "reading",
            IngestStage::Writing => "writing",
            IngestStage::Completed => "completed",
            IngestStage::Failed => "failed",
        }
    }

    /// How far the ingestion is at the step, in percent.
    pub fn percent(self) -> (r: u8)
        ensures
            r <= 100,
            r == (match self {
                IngestStage::Started => 5u8,
                IngestStage::Reading => 30u8,
                IngestStage::Writing => 85u8,
                IngestStage::Completed => 100u8,
                IngestStage::Failed => 100u8,
            }),
    {
        match self {
            IngestStage::Started => 5,
            IngestStage::Reading => 30,
            IngestStage::Writing => 85,
            IngestStage::Completed => 100,
            IngestStage::Failed => 100,
        }
    }

    /// What the step says; `detail` is the file read, the table written or
    /// the failure, and is not looked at for the other steps.
    pub fn describe(self, detail: &str) -> (r: String)
        ensures
            r@ == (match self {
                IngestStage::Started => "Starting CSV ingestion"@,
                IngestStage::Reading => "Reading file: "@ + detail@,
                IngestStage::Writing => "Loaded table: "@ + detail@,
                IngestStage::Completed => "Ingestion complete"@,
                IngestStage::Failed => "Ingestion failed: "@ + detail@,
            }),
    {
        match self {
            IngestStage::Started => "Starting CSV ingestion".to_owned(),
            IngestStage::Reading => {
                let mut r = "Reading file: ".to_owned();
                r.append(detail);
                r
            },
            IngestStage::Writing => {
                let mut r = "Loaded table: ".to_owned();
                r.append(detail);
                r
            },
            IngestStage::Completed => "Ingestion complete".to_owned(),
            IngestStage::Failed => {
                let mut r = "Ingestion failed: ".to_owned();
                r.append(detail);
                r
            },
        }
    }
}

} // verus!
