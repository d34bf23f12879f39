//! The client of the Gemini text model, as far as it is decided here: the
//! model asked, the address of a request, and what an answer amounts to.

use crate::geocode_result::opt_text;
use crate::text::{blank, is_blank};
use vstd::prelude::*;

verus! {

/// Where the models are reached.
pub const GEMINI_API_BASE: &'static str = "https://generativelanguage.googleapis.com/v1beta/models";

/// The model that is asked unless another is named.
pub const DEFAULT_MODEL: &'static str = "gemini-2.0-flash";

/// Why the model cannot be asked or gave nothing.
#[derive(Debug, Clone, Copy, PartialEq, Eq, Structural)]
pub enum GeminiError {
    /// No credential is set.
    MissingKey,
    /// The credential is blank.
    EmptyKey,
    /// The answer holds no text.
    NoCandidates,
}

impl GeminiError {
    /// The text of the error.
    pub open spec fn text(self) -> Seq<char> {
        match self {
            GeminiError::MissingKey => "SPATIA_GEMINI_API_KEY environment variable is not set"@,
            GeminiError::EmptyKey => "SPATIA_GEMINI_API_KEY is set but empty"@,
            GeminiError::NoCandidates => "Gemini returned no text candidates"@,
        }
    }

    /// The text of the error.
    pub fn message(&self) -> (r: String)
        ensures
            r@ == self.text(),
    {
        match self {
            GeminiError::MissingKey =>
                "SPATIA_GEMINI_API_KEY environment variable is not set".to_owned(),
            GeminiError::EmptyKey => "SPATIA_GEMINI_API_KEY is set but empty".to_owned(),
            GeminiError::NoCandidates => "Gemini returned no text candidates".to_owned(),
        }
    }
}

/// The mathematical content of a [`GeminiClient`].
pub struct ClientModel {
    pub api_key: Seq<char>,
    pub model: Seq<char>,
}

/// A credential and the model that it is used with.
#[derive(Debug, Clone, PartialEq, Eq)]
pub struct GeminiClient {
    api_key: String,
    model: String,
}

impl View for GeminiClient {
    type V = ClientModel;

    closed spec fn view(&self) -> ClientModel {
        ClientModel { api_key: self.api_key@, model: self.model@ }
    }
}

/// The address of a request to `model` with the credential `api_key`.
pub open spec fn generate_url_text(model: Seq<char>, api_key: Seq<char>) -> Seq<char> {
    GEMINI_API_BASE@ + "/"@ + model + ":generateContent?key="@ + api_key
}

impl GeminiClient {
    /// A client for the default model.
    pub fn new(api_key: &str) -> (client: GeminiClient)
        ensures
            client@ == (ClientModel { api_key: api_key@, model: DEFAULT_MODEL@ }),
    {
        GeminiClient { api_key: api_key.to_owned(), model: DEFAULT_MODEL.to_owned() }
    }

    /// A client for `model`.
    pub fn with_model(api_key: &str, model: &str) -> (client: GeminiClient)
        ensures
            client@ == (ClientModel { api_key: api_key@, model: model@ }),
    {
        GeminiClient { api_key: api_key.to_owned(), model: model.to_owned() }
    }

    /// A client for the default model with the configured credential, which
    /// must be set and must not be blank.
    pub fn from_setting(api_key: &Option<String>) -> (r: Result<GeminiClient, GeminiError>)
        ensures
            match r {
                Ok(client) => opt_text(*api_key) matches Some(key) && !is_blank(key) && client@ == (
                ClientModel { api_key: key, model: DEFAULT_MODEL@ }),
                Err(e) => match opt_text(*api_key) {
                    None => e == GeminiError::MissingKey,
                    Some(key) => is_blank(key) && e == GeminiError::EmptyKey,
                },
            },
    {
        match api_key {
            None => Err(GeminiError::MissingKey),
            Some(key) => {
                if blank(key.as_str()) {
                    Err(GeminiError::EmptyKey)
                } else {
                    Ok(GeminiClient::new(key.as_str()))
                }
            },
        }
    }

    /// The model that the client asks.
    pub fn model(&self) -> (r: &str)
        ensures
            r@ == self@.model,
    {
        self.model.as_str()
    }

    /// The address that a request goes to. The credential is part of it: it
    /// is not for logs.
    pub fn generate_url(&self) -> (r: String)
        ensures
            r@ == generate_url_text(self@.model, self@.api_key),
    {
        let mut r = GEMINI_API_BASE.to_owned();
        r.append("/");
        r.append(self.model.as_str());
        r.append(":generateContent?key=");
        r.append(self.api_key.as_str());
        r
    }
}

/// The text that an answer amounts to: the first part of the first
/// candidate. `candidates` holds, for each candidate, the texts of its
/// parts.
pub fn first_candidate_text(candidates: &[Vec<String>]) -> (r: Result<String, GeminiError>)
    ensures
        match r {
            Ok(text) => candidates.len() > 0 && candidates[0].len() > 0 && text@
                == candidates[0][0]@,
            Err(e) => (candidates.len() == 0 || candidates[0].len() == 0) && e
                == GeminiError::NoCandidates,
        },
{
    if candidates.len() == 0 {
        return Err(GeminiError::NoCandidates);
    }
    let parts = &candidates[0];
    if parts.len() == 0 {
        return Err(GeminiError::NoCandidates);
    }
    Ok(parts[0].clone())
}

} // verus!
