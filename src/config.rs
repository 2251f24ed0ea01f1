use vstd::prelude::*;
use crate::resolve::{lemma_first_hit, run_from, Resolution, CANDIDATE_COUNT};

verus! {

/// The abstract value of a complete configuration.
pub ghost struct ConfigModel {
    pub log_level: Seq<char>,
    pub base_url: Seq<char>,
    pub endpoint: Seq<char>,
    pub auth_key: Seq<char>,
    pub source_lang: Seq<char>,
    pub target_lang: Seq<char>,
    pub split_sentences: Seq<char>,
    pub preserve_formatting: bool,
    pub formality: Seq<char>,
}

/// The abstract value of a configuration as a file holds it: any field may be absent.
pub ghost struct StoredModel {
    pub log_level: Option<Seq<char>>,
    pub base_url: Option<Seq<char>>,
    pub endpoint: Option<Seq<char>>,
    pub auth_key: Option<Seq<char>>,
    pub source_lang: Option<Seq<char>>,
    pub target_lang: Option<Seq<char>>,
    pub split_sentences: Option<Seq<char>>,
    pub preserve_formatting: Option<bool>,
    pub formality: Option<Seq<char>>,
}

pub open spec fn default_model() -> ConfigModel {
    ConfigModel {
        log_level: "info"@,
        base_url: "api-free.deepl.com"@,
        endpoint: "v2/translate"@,
        auth_key: ""@,
        source_lang: "ES"@,
        target_lang: "EN"@,
        split_sentences: "1"@,
        preserve_formatting: false,
        formality: "default"@,
    }
}

pub open spec fn or_default<T>(o: Option<T>, d: T) -> T {
    match o {
        Some(v) => v,
        None => d,
    }
}

/// Each field that the file leaves out takes its default; the others are kept.
pub open spec fn fill_defaults(s: StoredModel) -> ConfigModel {
    let d = default_model();
    ConfigModel {
        log_level: or_default(s.log_level, d.log_level),
        base_url: or_default(s.base_url, d.base_url),
        endpoint: or_default(s.endpoint, d.endpoint),
        auth_key: or_default(s.auth_key, d.auth_key),
        source_lang: or_default(s.source_lang, d.source_lang),
        target_lang: or_default(s.target_lang, d.target_lang),
        split_sentences: or_default(s.split_sentences, d.split_sentences),
        preserve_formatting: or_default(s.preserve_formatting, d.preserve_formatting),
        formality: or_default(s.formality, d.formality),
    }
}

/// A complete configuration written out: every field present.
pub open spec fn stored_of(c: ConfigModel) -> StoredModel {
    StoredModel {
        log_level: Some(c.log_level),
        base_url: Some(c.base_url),
        endpoint: Some(c.endpoint),
        auth_key: Some(c.auth_key),
        source_lang: Some(c.source_lang),
        target_lang: Some(c.target_lang),
        split_sentences: Some(c.split_sentences),
        preserve_formatting: Some(c.preserve_formatting),
        formality: Some(c.formality),
    }
}

/// A file that holds nothing but the given auth key.
pub open spec fn only_auth_key(key: Seq<char>) -> StoredModel {
    StoredModel {
        log_level: None,
        base_url: None,
        endpoint: None,
        auth_key: Some(key),
        source_lang: None,
        target_lang: None,
        split_sentences: None,
        preserve_formatting: None,
        formality: None,
    }
}

pub open spec fn opt_view(o: Option<String>) -> Option<Seq<char>> {
    match o {
        Some(s) => Some(s@),
        None => None,
    }
}

pub fn get_default_log_level() -> (r: String)
    ensures
        r@ == default_model().log_level,
{
    String::from_str("info")
}

pub fn get_default_base_url() -> (r: String)
    ensures
        r@ == default_model().base_url,
{
    String::from_str("api-free.deepl.com")
}

pub fn get_default_endpoint() -> (r: String)
    ensures
        r@ == default_model().endpoint,
{
    String::from_str("v2/translate")
}

pub fn get_default_auth_key() -> (r: String)
    ensures
        r@ == default_model().auth_key,
{
    String::from_str("")
}

pub fn get_default_source_lang() -> (r: String)
    ensures
        r@ == default_model().source_lang,
{
    String::from_str("ES")
}

pub fn get_default_target_lang() -> (r: String)
    ensures
        r@ == default_model().target_lang,
{
    String::from_str("EN")
}

pub fn get_default_split_sentences() -> (r: String)
    ensures
        r@ == default_model().split_sentences,
{
    String::from_str("1")
}

pub fn get_default_preserve_formatting() -> (r: bool)
    ensures
        r == default_model().preserve_formatting,
{
    false
}

pub fn get_default_formality() -> (r: String)
    ensures
        r@ == default_model().formality,
{
    String::from_str("default")
}

fn string_or(o: Option<String>, d: String) -> (r: String)
    ensures
        r@ == or_default(opt_view(o), d@),
{
    match o {
        Some(v) => v,
        None => d,
    }
}

/// The configuration of one run: the service to reach, the credential, the
/// default languages and the request options.
#[derive(Debug, Clone)]
pub struct DeepL {
    pub log_level: String,
    pub base_url: String,
    pub endpoint: String,
    pub auth_key: String,
    pub source_lang: String,
    pub target_lang: String,
    pub split_sentences: String,
    pub preserve_formatting: bool,
    pub formality: String,
}

impl View for DeepL {
    type V = ConfigModel;

    open spec fn view(&self) -> ConfigModel {
        ConfigModel {
            log_level: self.log_level@,
            base_url: self.base_url@,
            endpoint: self.endpoint@,
            auth_key: self.auth_key@,
            source_lang: self.source_lang@,
            target_lang: self.target_lang@,
            split_sentences: self.split_sentences@,
            preserve_formatting: self.preserve_formatting,
            formality: self.formality@,
        }
    }
}

/// A configuration as a file holds it, before defaults are filled in.
#[derive(Debug, Clone)]
pub struct StoredConfig {
    pub log_level: Option<String>,
    pub base_url: Option<String>,
    pub endpoint: Option<String>,
    pub auth_key: Option<String>,
    pub source_lang: Option<String>,
    pub target_lang: Option<String>,
    pub split_sentences: Option<String>,
    pub preserve_formatting: Option<bool>,
    pub formality: Option<String>,
}

impl View for StoredConfig {
    type V = StoredModel;

    open spec fn view(&self) -> StoredModel {
        StoredModel {
            log_level: opt_view(self.log_level),
            base_url: opt_view(self.base_url),
            endpoint: opt_view(self.endpoint),
            auth_key: opt_view(self.auth_key),
            source_lang: opt_view(self.source_lang),
            target_lang: opt_view(self.target_lang),
            split_sentences: opt_view(self.split_sentences),
            preserve_formatting: self.preserve_formatting,
            formality: opt_view(self.formality),
        }
    }
}

impl DeepL {
    /// The configuration written on a first run.
    pub fn default() -> (r: Self)
        ensures
            r@ == default_model(),
    {
        DeepL {
            log_level: get_default_log_level(),
            base_url: get_default_base_url(),
            endpoint: get_default_endpoint(),
            auth_key: get_default_auth_key(),
            source_lang: get_default_source_lang(),
            target_lang: get_default_target_lang(),
            split_sentences: get_default_split_sentences(),
            preserve_formatting: get_default_preserve_formatting(),
            formality: get_default_formality(),
        }
    }

    /// Completes a stored configuration, field by field, with the defaults.
    pub fn from_stored(s: StoredConfig) -> (r: Self)
        ensures
            r@ == fill_defaults(s@),
    {
        let preserve_formatting = match s.preserve_formatting {
            Some(v) => v,
            None => get_default_preserve_formatting(),
        };
        DeepL {
            log_level: string_or(s.log_level, get_default_log_level()),
            base_url: string_or(s.base_url, get_default_base_url()),
            endpoint: string_or(s.endpoint, get_default_endpoint()),
            auth_key: string_or(s.auth_key, get_default_auth_key()),
            source_lang: string_or(s.source_lang, get_default_source_lang()),
            target_lang: string_or(s.target_lang, get_default_target_lang()),
            split_sentences: string_or(s.split_sentences, get_default_split_sentences()),
            preserve_formatting,
            formality: string_or(s.formality, get_default_formality()),
        }
    }

    /// The configuration as it is written to a file: every field present.
    pub fn to_stored(&self) -> (r: StoredConfig)
        ensures
            r@ == stored_of(self@),
    {
        StoredConfig {
            log_level: Some(self.log_level.clone()),
            base_url: Some(self.base_url.clone()),
            endpoint: Some(self.endpoint.clone()),
            auth_key: Some(self.auth_key.clone()),
            source_lang: Some(self.source_lang.clone()),
            target_lang: Some(self.target_lang.clone()),
            split_sentences: Some(self.split_sentences.clone()),
            preserve_formatting: Some(self.preserve_formatting),
            formality: Some(self.formality.clone()),
        }
    }

    pub fn get_log_level(&self) -> (r: &str)
        ensures
            r@ == self.log_level@,
    {
        self.log_level.as_str()
    }

    pub fn get_auth_key(&self) -> (r: &str)
        ensures
            r@ == self.auth_key@,
    {
        self.auth_key.as_str()
    }

    pub fn get_source_lang(&self) -> (r: &str)
        ensures
            r@ == self.source_lang@,
    {
        self.source_lang.as_str()
    }

    pub fn get_target_lang(&self) -> (r: &str)
        ensures
            r@ == self.target_lang@,
    {
        self.target_lang.as_str()
    }
}

/// A configuration written to a file and read back is the configuration
/// itself: no field is lost or replaced by its default.
pub proof fn lemma_stored_round_trip(c: ConfigModel)
    ensures
        fill_defaults(stored_of(c)) == c,
{
}

/// After a first run has written the defaults to the first candidate, the
/// search stops there, whatever else exists, and loading that file gives the
/// compiled-in defaults.
pub proof fn lemma_bootstrap_loads_defaults(exists: Seq<bool>)
    requires
        exists.len() == CANDIDATE_COUNT,
        exists[0],
    ensures
        run_from(exists, 0).1 == Resolution::Found(0),
        fill_defaults(stored_of(default_model())) == default_model(),
{
    lemma_first_hit(exists);
    lemma_stored_round_trip(default_model());
}

/// A file that holds only an auth key loads as the defaults with that key.
pub proof fn lemma_auth_key_only(key: Seq<char>)
    ensures
        fill_defaults(only_auth_key(key)) == (ConfigModel { auth_key: key, ..default_model() }),
{
}

} // verus!
