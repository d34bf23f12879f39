//! Spatia: a desktop tool for geospatial data. This library holds its
//! decisions: how a batch of addresses is resolved through a cache, a local
//! resolver and a remote service, and how commands, statements and prompts
//! are made. It performs no input or output of its own.

use vstd::prelude::*;

pub mod analysis;
pub mod cleaner;
pub mod cli;
pub mod client;
pub mod desktop;
pub mod executor;
pub mod geocode;
pub mod geocode_cache;
pub mod geocode_laws;
pub mod geocode_result;
pub mod geocoder_config;
pub mod geocoder_daemon;
pub mod geocoder_oneshot;
pub mod geocoder_runner;
pub mod geocodio;
pub mod identifiers;
pub mod ingest;
pub mod local_error;
pub mod mcp;
pub mod overture;
pub mod prompts;
pub mod resolution;
pub mod schema;
pub mod text;

pub use analysis::{validate_analysis_sql, AnalysisError};
pub use cleaner::{extract_sql_statements, validate_statement, CleanError, CleanResult};
pub use cli::{is_help_request, serialize_command};
pub use client::{GeminiClient, GeminiError, DEFAULT_MODEL};
pub use executor::{parse_command, tokenize, Command, CommandError};
pub use geocode::{Action, Event, HybridGeocoder, Phase};
pub use geocode_cache::{cache_lookup, cache_store, AddressCache, CacheEntry};
pub use geocode_result::{Coordinate, GeocodeResult, ResultSource};
pub use geocoder_config::{
    should_use_daemon, ConfigError, GeocodeMode, GeocoderConfig, GeocoderSettings,
    DEFAULT_BATCH_SIZE, DEFAULT_GEOCODER_URL,
};
pub use geocoder_runner::Environment;
pub use identifiers::{is_ident_continue, is_ident_start, validate_table_name, IdentifierError};
pub use local_error::LocalError;
pub use mcp::{build_command, command_for, quote, McpError, ToolArguments};
pub use overture::{
    default_table_name, lookup_table_name, overture_source_path, OvertureExtractResult,
    OvertureGeocodeResult, OvertureSearchResult, OVERTURE_RELEASE,
};
pub use prompts::{
    build_analysis_chat_system_prompt, build_analysis_sql_prompt, build_clean_prompt,
    build_visualization_command_prompt,
};
pub use schema::TableColumn;
