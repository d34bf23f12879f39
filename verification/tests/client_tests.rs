use spatia::client::{first_candidate_text, GEMINI_API_BASE};
use spatia::{GeminiClient, GeminiError, DEFAULT_MODEL};

#[test]
fn default_model_is_set() {
    let client = GeminiClient::new("test_key");
    assert_eq!(client.model(), DEFAULT_MODEL);
}

#[test]
fn with_model_overrides_default() {
    let client = GeminiClient::with_model("test_key", "gemini-1.5-pro");
    assert_eq!(client.model(), "gemini-1.5-pro");
}

#[test]
fn from_env_errors_when_var_missing() {
    assert!(GeminiClient::from_setting(&None).is_err());
    let err = GeminiClient::from_setting(&None).expect_err("no key");
    assert_eq!(err, GeminiError::MissingKey);
    assert!(err.message().contains("SPATIA_GEMINI_API_KEY"));
}

#[test]
fn from_env_errors_when_var_empty() {
    assert!(GeminiClient::from_setting(&Some("  ".to_string())).is_err());
    let err = GeminiClient::from_setting(&Some("  ".to_string())).expect_err("blank key");
    assert_eq!(err, GeminiError::EmptyKey);
    assert_eq!(err.message(), "SPATIA_GEMINI_API_KEY is set but empty");
}

#[test]
fn from_setting_uses_the_default_model() {
    let client = GeminiClient::from_setting(&Some("k".to_string())).expect("client");
    assert_eq!(client.model(), "gemini-2.0-flash");
}

#[test]
fn request_address_holds_model_and_key() {
    let client = GeminiClient::with_model("secret", "gemini-1.5-pro");
    assert_eq!(
        client.generate_url(),
        "https://generativelanguage.googleapis.com/v1beta/models/gemini-1.5-pro:generateContent?key=secret"
    );
    assert!(client.generate_url().starts_with(GEMINI_API_BASE));
}

#[test]
fn first_part_of_first_candidate_is_the_answer() {
    let candidates = vec![
        vec!["first".to_string(), "second".to_string()],
        vec!["other".to_string()],
    ];
    assert_eq!(first_candidate_text(&candidates), Ok("first".to_string()));
    assert_eq!(first_candidate_text(&[]), Err(GeminiError::NoCandidates));
    assert_eq!(first_candidate_text(&[vec![]]), Err(GeminiError::NoCandidates));
    assert_eq!(GeminiError::NoCandidates.message(), "Gemini returned no text candidates");
}
