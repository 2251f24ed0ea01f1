use vstd::prelude::*;
use crate::config::{ConfigModel, DeepL};
use crate::deepl::TraduError;

verus! {

pub open spec fn hex_digit(n: int) -> char {
    seq!['0', '1', '2', '3', '4', '5', '6', '7', '8', '9', 'a', 'b', 'c', 'd', 'e', 'f'][n]
}

/// How serde_json writes one character inside a string literal: a quote and a
/// backslash are escaped, as are the control characters below U+0020 (by a
/// short escape where JSON has one, else as `\u00` and two hex digits); every
/// other character stands as it is.
pub open spec fn escaped_char(c: char) -> Seq<char> {
    if c == '"' {
        seq!['\\', '"']
    } else if c == '\\' {
        seq!['\\', '\\']
    } else if c == '\u{8}' {
        seq!['\\', 'b']
    } else if c == '\t' {
        seq!['\\', 't']
    } else if c == '\n' {
        seq!['\\', 'n']
    } else if c == '\u{c}' {
        seq!['\\', 'f']
    } else if c == '\r' {
        seq!['\\', 'r']
    } else if (c as int) < 0x20 {
        seq!['\\', 'u', '0', '0', hex_digit((c as int) / 16), hex_digit((c as int) % 16)]
    } else {
        seq![c]
    }
}

pub open spec fn escaped(s: Seq<char>) -> Seq<char>
    decreases s.len(),
{
    if s.len() == 0 {
        Seq::empty()
    } else {
        escaped(s.drop_last()) + escaped_char(s.last())
    }
}

/// What serde_json writes for a string: the JSON string literal, quotes included.
pub open spec fn json_quoted(s: Seq<char>) -> Seq<char> {
    seq!['"'] + escaped(s) + seq!['"']
}

/// Relies on serde_json::to_string applied to a `str`, for the JSON literal of a
/// request field. Writing a string into memory cannot fail.
#[verifier::external_body]
fn json_string(s: &str) -> (r: String)
    ensures
        r@ == json_quoted(s@),
{
    serde_json::to_string(s).unwrap_or_default()
}

pub open spec fn bool_text(b: bool) -> Seq<char> {
    if b {
        "true"@
    } else {
        "false"@
    }
}

/// The JSON body of a translate request, its keys in the order serde_json
/// writes an object's keys; `text` is a list of one sentence.
pub open spec fn request_body(
    text: Seq<char>,
    source_lang: Seq<char>,
    target_lang: Seq<char>,
    split_sentences: Seq<char>,
    preserve_formatting: bool,
    formality: Seq<char>,
) -> Seq<char> {
    "{\"formality\":"@ + json_quoted(formality) + ",\"preserve_formatting\":"@ + bool_text(
        preserve_formatting,
    ) + ",\"source_lang\":"@ + json_quoted(source_lang) + ",\"split_sentences\":"@
        + json_quoted(split_sentences) + ",\"target_lang\":"@ + json_quoted(target_lang)
        + ",\"text\":["@ + json_quoted(text) + "]}"@
}

/// The abstract value of a request.
pub ghost struct RequestModel {
    pub method: Seq<char>,
    pub url: Seq<char>,
    pub content_type: Seq<char>,
    pub authorization: Seq<char>,
    pub body: Seq<char>,
}

pub open spec fn request_model(
    c: ConfigModel,
    text: Seq<char>,
    source_lang: Seq<char>,
    target_lang: Seq<char>,
) -> RequestModel {
    RequestModel {
        method: "POST"@,
        url: "https://"@ + c.base_url + "/"@ + c.endpoint,
        content_type: "application/json"@,
        authorization: "DeepL-Auth-Key "@ + c.auth_key,
        body: request_body(
            text,
            source_lang,
            target_lang,
            c.split_sentences,
            c.preserve_formatting,
            c.formality,
        ),
    }
}

/// One call to the translation service: its method, where it goes, its two
/// headers and its body.
#[derive(Debug, Clone)]
pub struct TranslationRequest {
    pub method: String,
    pub url: String,
    pub content_type: String,
    pub authorization: String,
    pub body: String,
}

impl View for TranslationRequest {
    type V = RequestModel;

    open spec fn view(&self) -> RequestModel {
        RequestModel {
            method: self.method@,
            url: self.url@,
            content_type: self.content_type@,
            authorization: self.authorization@,
            body: self.body@,
        }
    }
}

fn body_of(
    text: &str,
    source_lang: &str,
    target_lang: &str,
    split_sentences: &str,
    preserve_formatting: bool,
    formality: &str,
) -> (r: String)
    ensures
        r@ == request_body(
            text@,
            source_lang@,
            target_lang@,
            split_sentences@,
            preserve_formatting,
            formality@,
        ),
{
    let mut b = String::from_str("{\"formality\":");
    b.append(json_string(formality).as_str());
    b.append(",\"preserve_formatting\":");
    if preserve_formatting {
        b.append("true");
    } else {
        b.append("false");
    }
    b.append(",\"source_lang\":");
    b.append(json_string(source_lang).as_str());
    b.append(",\"split_sentences\":");
    b.append(json_string(split_sentences).as_str());
    b.append(",\"target_lang\":");
    b.append(json_string(target_lang).as_str());
    b.append(",\"text\":[");
    b.append(json_string(text).as_str());
    b.append("]}");
    b
}

pub open spec fn opt_str_view(o: Option<&str>) -> Option<Seq<char>> {
    match o {
        Some(s) => Some(s@),
        None => None,
    }
}

/// The request of a run, if one is to be sent: none while the auth key is
/// empty; otherwise languages given by the caller replace the configured ones.
pub open spec fn planned(
    c: ConfigModel,
    text: Seq<char>,
    source_lang: Option<Seq<char>>,
    target_lang: Option<Seq<char>>,
) -> Option<RequestModel> {
    if c.auth_key.len() == 0 {
        None
    } else {
        Some(
            request_model(
                c,
                text,
                crate::config::or_default(source_lang, c.source_lang),
                crate::config::or_default(target_lang, c.target_lang),
            ),
        )
    }
}

impl DeepL {
    /// Refuses a configuration whose auth key is empty: no request may be
    /// sent with it.
    pub fn check_credential(&self) -> (r: Result<(), TraduError>)
        ensures
            r is Ok <==> self.auth_key@.len() > 0,
            r is Err ==> r->Err_0 is MissingCredential,
    {
        if self.auth_key.as_str().is_empty() {
            Err(TraduError::MissingCredential)
        } else {
            Ok(())
        }
    }

    /// The request that translates `text` from `source_lang` into `target_lang`
    /// with this configuration's service, credential and options.
    pub fn request_for(&self, text: &str, source_lang: &str, target_lang: &str) -> (r:
        TranslationRequest)
        ensures
            r@ == request_model(self@, text@, source_lang@, target_lang@),
    {
        let mut url = String::from_str("https://");
        url.append(self.base_url.as_str());
        url.append("/");
        url.append(self.endpoint.as_str());
        let mut authorization = String::from_str("DeepL-Auth-Key ");
        authorization.append(self.auth_key.as_str());
        let body = body_of(
            text,
            source_lang,
            target_lang,
            self.split_sentences.as_str(),
            self.preserve_formatting,
            self.formality.as_str(),
        );
        TranslationRequest {
            method: String::from_str("POST"),
            url,
            content_type: String::from_str("application/json"),
            authorization,
            body,
        }
    }

    /// The request of a run: refused while the auth key is empty, so that no
    /// call goes out; otherwise languages given by the caller replace the
    /// configured ones.
    pub fn plan_translation(
        &self,
        text: &str,
        source_lang: Option<&str>,
        target_lang: Option<&str>,
    ) -> (r: Result<TranslationRequest, TraduError>)
        ensures
            r is Ok <==> planned(
                self@,
                text@,
                opt_str_view(source_lang),
                opt_str_view(target_lang),
            ) is Some,
            r is Ok ==> Some(r->Ok_0@) == planned(
                self@,
                text@,
                opt_str_view(source_lang),
                opt_str_view(target_lang),
            ),
            r is Err ==> r->Err_0 is MissingCredential,
    {
        if let Err(e) = self.check_credential() {
            return Err(e);
        }
        let source = match source_lang {
            Some(s) => s,
            None => self.source_lang.as_str(),
        };
        let target = match target_lang {
            Some(t) => t,
            None => self.target_lang.as_str(),
        };
        Ok(self.request_for(text, source, target))
    }
}

/// Languages given by the caller are the request's languages, whatever the
/// configuration's own defaults: two configurations that differ only there
/// (or in their log level) plan the same request, whose body holds those
/// languages and, as `text`, the one-element list of the input.
pub proof fn lemma_request_shape(
    c1: ConfigModel,
    c2: ConfigModel,
    text: Seq<char>,
    source_lang: Seq<char>,
    target_lang: Seq<char>,
)
    requires
        c1.base_url == c2.base_url,
        c1.endpoint == c2.endpoint,
        c1.auth_key == c2.auth_key,
        c1.split_sentences == c2.split_sentences,
        c1.preserve_formatting == c2.preserve_formatting,
        c1.formality == c2.formality,
        c1.auth_key.len() > 0,
    ensures
        planned(c1, text, Some(source_lang), Some(target_lang)) == planned(
            c2,
            text,
            Some(source_lang),
            Some(target_lang),
        ),
        planned(c1, text, Some(source_lang), Some(target_lang)) == Some(
            RequestModel {
                method: "POST"@,
                url: "https://"@ + c1.base_url + "/"@ + c1.endpoint,
                content_type: "application/json"@,
                authorization: "DeepL-Auth-Key "@ + c1.auth_key,
                body: "{\"formality\":"@ + json_quoted(c1.formality) + ",\"preserve_formatting\":"@
                    + bool_text(c1.preserve_formatting) + ",\"source_lang\":"@ + json_quoted(
                    source_lang,
                ) + ",\"split_sentences\":"@ + json_quoted(c1.split_sentences)
                    + ",\"target_lang\":"@ + json_quoted(target_lang) + ",\"text\":["@
                    + json_quoted(text) + "]}"@,
            },
        ),
{
}

/// With an empty auth key no request is planned, so nothing is sent, and the
/// run ends with the credential error, whose exit status is non-zero.
pub proof fn lemma_credential_gate(
    c: ConfigModel,
    text: Seq<char>,
    source_lang: Option<Seq<char>>,
    target_lang: Option<Seq<char>>,
)
    requires
        c.auth_key.len() == 0,
    ensures
        planned(c, text, source_lang, target_lang) is None,
        crate::deepl::is_fatal_spec(TraduError::MissingCredential),
{
}

} // verus!
