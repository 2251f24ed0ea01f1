//! A command-line translation client's core: where its configuration lives,
//! how a stored configuration is completed with defaults, what request goes
//! out to the translation service and how its reply is read.

pub mod config;
pub mod deepl;
pub mod json;
pub mod request;
pub mod resolve;
pub mod response;

pub use config::{
    get_default_auth_key, get_default_base_url, get_default_endpoint, get_default_formality,
    get_default_log_level, get_default_preserve_formatting, get_default_source_lang,
    get_default_split_sentences, get_default_target_lang, DeepL, StoredConfig,
};
pub use deepl::{DeepLError, TraduError};
pub use json::Json;
pub use request::TranslationRequest;
pub use resolve::{after_probe, candidate, first_step, BaseDir, Candidate, Resolution, CANDIDATE_COUNT};
pub use response::{interpret_body, interpret_response, outcome_of, read_reply, ReplyShape};
