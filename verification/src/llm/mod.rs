//! Deriving a tool call with the help of a language model: configuration,
//! the query sent, and what comes back.

pub mod endpoint;
pub mod ollama;
pub mod open_ai;

use crate::llm::ollama::{OllamaClient, OllamaConfig};
use crate::llm::open_ai::{OpenAiClient, OpenAiConfig};
use std::collections::HashMap;
use vstd::prelude::*;
use vstd::string::*;
use vstd::utf8::encode_utf8;

verus! {

/// The providers that a query can be sent to.
#[derive(Clone, Copy, Debug, PartialEq, Eq, Structural)]
pub enum LlmApi {
    Ollama,
    OpenAi,
}

/// An LLM API configuration.
#[derive(Debug)]
pub struct LlmConfig {
    pub api: LlmApi,
    pub ollama: Option<OllamaConfig>,
    pub open_ai: Option<OpenAiConfig>,
    /// The template of the query sent: `{context}` stands for the context
    /// and `{query}` for the question asked.
    pub query_fmt: String,
}

/// An LLM API error.
pub enum LlmError {
    /// Reading the answer failed; holds the system's message.
    Io(String),
    /// The configuration lacks something, or says something unusable.
    MalformedConfig(&'static str),
    /// What the provider proposed as parameters is not JSON.
    SerdeJson(serde_json::Error),
    /// A variable named in a secret could not be expanded; holds the message.
    Shellexpend(String),
    /// The request failed; holds the message.
    Ureq(String),
}

impl LlmError {
    /// The short code of each kind of error.
    pub open spec fn spec_code(&self) -> Seq<char> {
        match self {
            LlmError::Io(_) => "llm_io"@,
            LlmError::MalformedConfig(_) => "llm_malformed_config"@,
            LlmError::SerdeJson(_) => "llm_serde_json"@,
            LlmError::Shellexpend(_) => "llm_shellexpend"@,
            LlmError::Ureq(_) => "llm_ureq"@,
        }
    }

    /// A short code by which a program can tell the kinds of error apart.
    pub fn code(&self) -> (code: &'static str)
        ensures
            code@ == self.spec_code(),
    {
        match self {
            LlmError::Io(_) => "llm_io",
            LlmError::MalformedConfig(_) => "llm_malformed_config",
            LlmError::SerdeJson(_) => "llm_serde_json",
            LlmError::Shellexpend(_) => "llm_shellexpend",
            LlmError::Ureq(_) => "llm_ureq",
        }
    }

    /// The message of the error, followed by that of its cause if it has
    /// one.
    pub open spec fn spec_chain(&self) -> Seq<Seq<char>> {
        match self {
            LlmError::MalformedConfig(_) => seq![self.spec_message()],
            LlmError::Io(cause) | LlmError::Shellexpend(cause) | LlmError::Ureq(cause) => seq![
                self.spec_message(),
                cause@,
            ],
            LlmError::SerdeJson(cause) => seq![
                self.spec_message(),
                crate::tool::json_error_message(cause),
            ],
        }
    }

    /// The message of the error, followed by that of its cause if it has
    /// one.
    pub fn chain(&self) -> (chain: Vec<String>)
        ensures
            crate::tool::schema::text_views(chain@) == self.spec_chain(),
    {
        let mut chain: Vec<String> = Vec::new();
        chain.push(self.message());
        match self {
            LlmError::Io(cause) => chain.push(cause.clone()),
            LlmError::MalformedConfig(_) => {},
            LlmError::SerdeJson(cause) => chain.push(crate::tool::json_error_text(cause)),
            LlmError::Shellexpend(cause) => chain.push(cause.clone()),
            LlmError::Ureq(cause) => chain.push(cause.clone()),
        }
        proof {
            assert(crate::tool::schema::text_views(chain@) =~= self.spec_chain());
        }
        chain
    }

    /// The text that describes each kind of error.
    pub open spec fn spec_message(&self) -> Seq<char> {
        match self {
            LlmError::Io(_) => "io error"@,
            LlmError::MalformedConfig(what) => "malformed config: "@ + what@,
            LlmError::SerdeJson(_) => "failed to (de)serialize json"@,
            LlmError::Shellexpend(_) => "failed to expand environment variables"@,
            LlmError::Ureq(_) => "ureq error"@,
        }
    }

    /// A short description of the error, without its cause.
    pub fn message(&self) -> (text: String)
        ensures
            text@ == self.spec_message(),
    {
        match self {
            LlmError::Io(_) => String::from_str("io error"),
            LlmError::MalformedConfig(what) => String::from_str("malformed config: ").concat(what),
            LlmError::SerdeJson(_) => String::from_str("failed to (de)serialize json"),
            LlmError::Shellexpend(_) => String::from_str("failed to expand environment variables"),
            LlmError::Ureq(_) => String::from_str("ureq error"),
        }
    }
}

/// A tool call derived by LLM.
#[derive(Debug)]
pub struct ToolCall {
    /// The name of the tool to call.
    pub tool: String,
    /// The parameters of the call, as JSON text.
    pub params: String,
}

/// A tool call as the contracts see it.
pub ghost struct ToolCallView {
    pub tool: Seq<char>,
    pub params: Seq<char>,
}

impl View for ToolCall {
    type V = ToolCallView;

    open spec fn view(&self) -> ToolCallView {
        ToolCallView { tool: self.tool@, params: self.params@ }
    }
}

/// The JSON value that `text` holds, as `serde_json` hands it out when it
/// reads raw JSON: the text without the white space around the value, or
/// `None` where the text is not one JSON value.
pub uninterp spec fn raw_json_value(text: Seq<char>) -> Option<Seq<char>>;

/// Reads `text` as one JSON value and hands the value's text back.
///
/// Trusted: calls `serde_json::from_str` for a boxed `RawValue` and takes the
/// text out of it with `RawValue::get`. The outcome depends on `text` alone.
#[verifier::external_body]
pub(crate) fn parse_raw_json(text: &str) -> (res: Result<String, serde_json::Error>)
    ensures
        res matches Ok(raw) ==> raw_json_value(text@) == Some(raw@),
        res is Err ==> raw_json_value(text@) is None,
{
    match serde_json::from_str::<Box<serde_json::value::RawValue>>(text) {
        Ok(raw) => Ok(raw.get().to_owned()),
        Err(e) => Err(e),
    }
}

/// The client of the provider that a configuration selects.
pub enum LlmProvider {
    Ollama(OllamaClient),
    OpenAi(OpenAiClient),
}

/// Creates an LLM API client: that of the provider which `config.api` names,
/// with the settings given for that provider. Fails where those are missing.
pub fn create_llm_client(config: &LlmConfig) -> (res: Result<LlmProvider, LlmError>)
    ensures
        match config.api {
            LlmApi::Ollama => match config.ollama {
                Some(settings) => res matches Ok(LlmProvider::Ollama(client)) && client.config()
                    == settings,
                None => res matches Err(LlmError::MalformedConfig(what)) && what@
                    == "missing ollama config"@,
            },
            LlmApi::OpenAi => match config.open_ai {
                Some(settings) => res matches Ok(LlmProvider::OpenAi(client)) && client.config()
                    == settings,
                None => res matches Err(LlmError::MalformedConfig(what)) && what@
                    == "missing open ai config"@,
            },
        },
{
    match config.api {
        LlmApi::Ollama => {
            match &config.ollama {
                Some(settings) => Ok(LlmProvider::Ollama(OllamaClient::new(settings.clone()))),
                None => Err(LlmError::MalformedConfig("missing ollama config")),
            }
        },
        LlmApi::OpenAi => {
            match &config.open_ai {
                Some(settings) => Ok(LlmProvider::OpenAi(OpenAiClient::new(settings.clone()))),
                None => Err(LlmError::MalformedConfig("missing open ai config")),
            }
        },
    }
}

/// Trusted: makes `strfmt::FmtError` known to the verifier as an opaque type.
#[verifier::external_type_specification]
#[verifier::external_body]
pub struct ExFmtError(strfmt::FmtError);

/// `text` as a JSON string: in quotes and escaped, as `serde_json` writes it.
pub uninterp spec fn json_string(text: Seq<char>) -> Seq<char>;

/// Writes `text` as a JSON string.
///
/// Trusted: calls `serde_json::to_string` on a string slice, which cannot
/// fail and depends on the text alone.
#[verifier::external_body]
pub(crate) fn json_quote(text: &str) -> (quoted: String)
    ensures
        quoted@ == json_string(text@),
{
    serde_json::to_string(text).unwrap_or_default()
}

/// The template with each placeholder replaced by the value of the variable
/// that it names, as `strfmt` does it for two variables given by name and
/// value, or `None` where `strfmt` rejects the template.
pub uninterp spec fn template_filled(
    template: Seq<char>,
    first_name: Seq<char>,
    first_value: Seq<char>,
    second_name: Seq<char>,
    second_value: Seq<char>,
) -> Option<Seq<char>>;

/// The byte `{`.
pub const BRACE_OPEN: u8 = 0x7b;

/// The byte `}`.
pub const BRACE_CLOSE: u8 = 0x7d;

/// The byte `0`.
pub const DIGIT_FIRST: u8 = 0x30;

/// The byte `9`.
pub const DIGIT_LAST: u8 = 0x39;

/// The most digits that a number within a placeholder may have. The width to
/// which a value is padded is such a number, so no value is padded to more
/// than 9999 characters.
pub const DIGITS_LIMIT: usize = 4;

/// Where the reading of a template stands, brace by brace.
#[derive(Clone, Copy, Debug, PartialEq, Eq, Structural)]
pub struct Braces {
    /// A placeholder is being read.
    pub reading: bool,
    /// The byte before was the brace that opened the placeholder; a second
    /// opening brace would make the two a brace written out.
    pub fresh: bool,
    /// The byte before was a closing brace outside a placeholder; a second
    /// one would make the two a brace written out.
    pub closing: bool,
    /// How many digits in a row the placeholder has had just now.
    pub digits: usize,
}

/// What a byte of a template leads to.
#[derive(Clone, Copy, Debug, PartialEq, Eq, Structural)]
pub enum Reading {
    /// The reading goes on.
    On(Braces),
    /// The template is given up as malformed; nothing behind is read.
    GivenUp,
    /// A number within a placeholder has more digits than are allowed.
    TooWide,
}

/// What one byte leads to, read the way `strfmt` reads a template.
///
/// An opening brace begins a placeholder, unless it follows the opening
/// brace at once: then the two are a brace written out. Any other opening
/// brace within a placeholder is given up on. A closing brace ends a
/// placeholder; outside one it waits for its twin, with which it is a brace
/// written out, and anything else behind it is given up on. Within a
/// placeholder the digits in a row are counted.
pub open spec fn read_byte(at: Braces, byte: u8) -> Reading {
    if byte == BRACE_OPEN {
        if at.reading && at.fresh {
            Reading::On(Braces { reading: false, fresh: false, closing: at.closing, digits: 0 })
        } else if !at.reading {
            Reading::On(Braces { reading: true, fresh: true, closing: at.closing, digits: 0 })
        } else {
            Reading::GivenUp
        }
    } else if byte == BRACE_CLOSE {
        if !at.reading && !at.closing {
            Reading::On(Braces { reading: false, fresh: false, closing: true, digits: 0 })
        } else if at.closing {
            Reading::On(Braces { reading: at.reading, fresh: false, closing: false, digits: 0 })
        } else {
            Reading::On(Braces { reading: false, fresh: false, closing: false, digits: 0 })
        }
    } else if at.closing {
        Reading::GivenUp
    } else if !at.reading {
        Reading::On(Braces { reading: false, fresh: false, closing: false, digits: 0 })
    } else if DIGIT_FIRST <= byte <= DIGIT_LAST {
        if at.digits >= DIGITS_LIMIT {
            Reading::TooWide
        } else {
            Reading::On(
                Braces { reading: true, fresh: false, closing: false, digits: (at.digits + 1) as usize },
            )
        }
    } else {
        Reading::On(Braces { reading: true, fresh: false, closing: false, digits: 0 })
    }
}

/// Whether the bytes from position `from` on are read without meeting a
/// number that is too wide, when the reading stands at `at`.
pub open spec fn read_from(bytes: Seq<u8>, from: int, at: Braces) -> bool
    decreases bytes.len() - from,
{
    if from < 0 || from >= bytes.len() {
        true
    } else {
        match read_byte(at, bytes[from]) {
            Reading::On(next) => read_from(bytes, from + 1, next),
            Reading::GivenUp => true,
            Reading::TooWide => false,
        }
    }
}

/// Whether a template pads no value beyond bounds: no number within a
/// placeholder that is read has more than [`DIGITS_LIMIT`] digits. Braces
/// written out, as `{{` and `}}`, are text and may hold anything.
pub open spec fn padding_bounded(template: Seq<char>) -> bool {
    read_from(
        encode_utf8(template),
        0,
        Braces { reading: false, fresh: false, closing: false, digits: 0 },
    )
}

/// Fills a template with two variables, each given as name and value.
///
/// Trusted: calls `strfmt::strfmt` with a map of the two variables. Its
/// outcome depends on the five texts alone. A placeholder could ask for
/// padding to a width without bound, which no memory holds, so templates
/// with such numbers are kept from it.
#[verifier::external_body]
pub(crate) fn fill_template(template: &str, first: (&str, &str), second: (&str, &str)) -> (res:
    Result<String, strfmt::FmtError>)
    requires
        padding_bounded(template@),
    ensures
        res matches Ok(filled) ==> template_filled(
            template@,
            first.0@,
            first.1@,
            second.0@,
            second.1@,
        ) == Some(filled@),
        res is Err ==> template_filled(template@, first.0@, first.1@, second.0@, second.1@) is None,
{
    let mut vars: HashMap<String, String> = HashMap::new();
    vars.insert(first.0.to_owned(), first.1.to_owned());
    vars.insert(second.0.to_owned(), second.1.to_owned());
    strfmt::strfmt(template, &vars)
}

/// Takes one byte of a template in.
fn read(at: Braces, byte: u8) -> (reading: Reading)
    requires
        at.digits <= DIGITS_LIMIT,
    ensures
        reading == read_byte(at, byte),
        reading matches Reading::On(next) ==> next.digits <= DIGITS_LIMIT,
{
    if byte == BRACE_OPEN {
        if at.reading && at.fresh {
            Reading::On(Braces { reading: false, fresh: false, closing: at.closing, digits: 0 })
        } else if !at.reading {
            Reading::On(Braces { reading: true, fresh: true, closing: at.closing, digits: 0 })
        } else {
            Reading::GivenUp
        }
    } else if byte == BRACE_CLOSE {
        if !at.reading && !at.closing {
            Reading::On(Braces { reading: false, fresh: false, closing: true, digits: 0 })
        } else if at.closing {
            Reading::On(Braces { reading: at.reading, fresh: false, closing: false, digits: 0 })
        } else {
            Reading::On(Braces { reading: false, fresh: false, closing: false, digits: 0 })
        }
    } else if at.closing {
        Reading::GivenUp
    } else if !at.reading {
        Reading::On(Braces { reading: false, fresh: false, closing: false, digits: 0 })
    } else if DIGIT_FIRST <= byte && byte <= DIGIT_LAST {
        if at.digits >= DIGITS_LIMIT {
            Reading::TooWide
        } else {
            Reading::On(
                Braces { reading: true, fresh: false, closing: false, digits: at.digits + 1 },
            )
        }
    } else {
        Reading::On(Braces { reading: true, fresh: false, closing: false, digits: 0 })
    }
}

/// Decides whether `template` pads no value beyond bounds.
pub fn has_bounded_padding(template: &str) -> (bounded: bool)
    ensures
        bounded == padding_bounded(template@),
{
    let bytes = template.as_bytes();
    let mut at = Braces { reading: false, fresh: false, closing: false, digits: 0 };
    let mut i: usize = 0;
    while i < bytes.len()
        invariant
            i <= bytes@.len(),
            bytes@ == encode_utf8(template@),
            at.digits <= DIGITS_LIMIT,
            padding_bounded(template@) == read_from(bytes@, i as int, at),
        decreases bytes.len() - i,
    {
        match read(at, bytes[i]) {
            Reading::On(next) => {
                at = next;
            },
            Reading::GivenUp => {
                return true;
            },
            Reading::TooWide => {
                return false;
            },
        }
        i += 1;
    }
    true
}

/// The outcome of filling the query template, as the caller of
/// [`Context::contextualize`] gets it.
pub fn filled_query(filled: Result<String, strfmt::FmtError>) -> (res: Result<String, LlmError>)
    ensures
        filled matches Ok(text) ==> res == Ok::<String, LlmError>(text),
        filled is Err ==> (res matches Err(LlmError::MalformedConfig(what)) && what@
            == "malformed query format"@),
{
    match filled {
        Ok(text) => Ok(text),
        Err(_) => Err(LlmError::MalformedConfig("malformed query format")),
    }
}

/// The name of the user who runs the program.
///
/// Trusted: calls `whoami::username`. The outcome depends on the machine, so
/// nothing is claimed about it.
#[verifier::external_body]
pub(crate) fn username() -> String {
    whoami::username()
}

/// The locale of the system, where it can be told.
///
/// Trusted: calls `sys_locale::get_locale`. The outcome depends on the
/// machine, so nothing is claimed about it.
#[verifier::external_body]
pub(crate) fn system_locale() -> Option<String> {
    sys_locale::get_locale()
}

/// The time at which it is called, in ISO 8601 format and in universal time.
///
/// Trusted: reads the clock with `SystemTime::now` and writes the time with
/// `chrono`, by `DateTime::<Utc>::from` and `to_rfc3339_opts`. The outcome
/// depends on the clock, so nothing is claimed about it.
#[verifier::external_body]
pub(crate) fn time_now() -> String {
    chrono::DateTime::<chrono::Utc>::from(std::time::SystemTime::now())
        .to_rfc3339_opts(chrono::SecondsFormat::AutoSi, true)
}

/// An LLM query context.
#[derive(Debug)]
pub struct Context {
    pub os_name: String,
    pub system_locale: String,
    /// The time of the query, in ISO 8601 format.
    pub time_now: String,
    pub username: String,
}

impl Context {
    /// Creates a context. Where the locale of the system is not known,
    /// `en-US` stands in.
    pub fn new(os_name: String, system_locale: Option<String>, time_now: String, username: String) -> (context:
        Context)
        ensures
            context.os_name == os_name,
            context.system_locale@ == match system_locale {
                Some(locale) => locale@,
                None => "en-US"@,
            },
            context.time_now == time_now,
            context.username == username,
    {
        let system_locale = match system_locale {
            Some(locale) => locale,
            None => String::from_str("en-US"),
        };
        Context { os_name, system_locale, time_now, username }
    }

    /// Creates the context of a query that is asked now, on this machine, by
    /// its current user. The name of the operating system is given.
    pub fn gather(os_name: String) -> (context: Context)
        ensures
            context.os_name == os_name,
    {
        Context::new(os_name, system_locale(), time_now(), username())
    }

    /// The context as a JSON object, its four members in the order of the
    /// fields.
    pub open spec fn spec_json(&self) -> Seq<char> {
        "{\"os_name\":"@ + json_string(self.os_name@) + ",\"system_locale\":"@ + json_string(
            self.system_locale@,
        ) + ",\"time_now\":"@ + json_string(self.time_now@) + ",\"username\":"@ + json_string(
            self.username@,
        ) + "}"@
    }

    /// Writes the context as a JSON object.
    pub fn to_json(&self) -> (json: String)
        ensures
            json@ == self.spec_json(),
    {
        let mut json = String::from_str("{\"os_name\":");
        json.append(json_quote(self.os_name.as_str()).as_str());
        json.append(",\"system_locale\":");
        json.append(json_quote(self.system_locale.as_str()).as_str());
        json.append(",\"time_now\":");
        json.append(json_quote(self.time_now.as_str()).as_str());
        json.append(",\"username\":");
        json.append(json_quote(self.username.as_str()).as_str());
        json.append("}");
        json
    }

    /// Contextualizes a given LLM query: fills the template of the
    /// configuration with the context, as JSON, and with the query.
    ///
    /// Fails where a placeholder of the template holds a number of more than
    /// [`DIGITS_LIMIT`] digits, which could ask for padding beyond bounds,
    /// and where the template is rejected when it is filled.
    pub fn contextualize(&self, config: &LlmConfig, query: String) -> (res: Result<String, LlmError>)
        ensures
            !padding_bounded(config.query_fmt@) ==> (res matches Err(
                LlmError::MalformedConfig(what),
            ) && what@ == "unsupported query format"@),
            padding_bounded(config.query_fmt@) ==> match template_filled(
                config.query_fmt@,
                "context"@,
                self.spec_json(),
                "query"@,
                query@,
            ) {
                Some(text) => res matches Ok(filled) && filled@ == text,
                None => res matches Err(LlmError::MalformedConfig(what)) && what@
                    == "malformed query format"@,
            },
    {
        if !has_bounded_padding(config.query_fmt.as_str()) {
            return Err(LlmError::MalformedConfig("unsupported query format"));
        }
        let context = self.to_json();
        filled_query(
            fill_template(
                config.query_fmt.as_str(),
                ("context", context.as_str()),
                ("query", query.as_str()),
            ),
        )
    }
}

} // verus!
