//! The forecast-analysis add-on's decision logic: its error taxonomy
//! with actionable messages, prompt validation rules, and the chat
//! request/response shapes with their interpretation. The HTTP client
//! and file reading live with the unverified shell.

use vstd::prelude::*;
use vstd::string::StrSliceExecFns;
use vstd::string::StringExecFns;
use crate::external::char_is_whitespace;
use crate::external::is_unicode_ws;
use crate::num::dec_seq;
use crate::num::u64_to_string;
use crate::text::str_eq;

verus! {

/// Maximum allowed prompt file size in bytes (32 KB), guarding against
/// runaway API cost and token limits.
pub const MAX_PROMPT_SIZE: u64 = 32 * 1024;

/// An analysis-layer failure. Every message is actionable: it names
/// what went wrong and how to fix it.
#[derive(Debug)]
pub enum AIError {
    /// The API key was not found in the environment.
    MissingApiKey,
    /// The request exceeded its time budget.
    Timeout,
    /// The service reported a rate limit (HTTP 429).
    RateLimit,
    /// The named prompt file does not exist.
    PromptFileNotFound(String),
    /// The prompt file exceeds the size limit; carries the rendered size.
    PromptFileTooLarge { size: String },
    /// The prompt file holds no content.
    PromptFileEmpty(String),
    /// Any other service failure, with its HTTP status and message.
    ApiError { status: u16, message: String },
    /// The service's response could not be interpreted.
    InvalidResponse(String),
    /// The user supplied an empty prompt.
    EmptyPrompt,
    /// The response carried no choices.
    EmptyResponse,
    /// The forecast data handed in was invalid.
    InvalidForecast,
}

impl AIError {
    /// Classify an HTTP failure: 429 is the rate limit, anything else
    /// a generic service error carrying status and message.
    pub fn from_status(status: u16, message: String) -> (r: Self)
        ensures
            status == 429 ==> r is RateLimit,
            status != 429 ==> (r matches AIError::ApiError { status: s, message: m } && s
                == status && m == message),
    {
        match status {
            429 => AIError::RateLimit,
            _ => AIError::ApiError { status, message },
        }
    }

    /// Whether retrying could help: timeouts, rate limits, and server
    /// errors (status 500 and above) are transient; nothing else is.
    pub fn is_retryable(&self) -> (r: bool)
        ensures
            r == (self is Timeout || self is RateLimit || (self matches AIError::ApiError {
                status,
                ..
            } && status >= 500)),
    {
        match self {
            AIError::Timeout => true,
            AIError::RateLimit => true,
            AIError::ApiError { status, .. } => *status >= 500,
            _ => false,
        }
    }

    /// The error's message text.
    pub fn to_string(&self) -> (r: String)
        ensures
            self is MissingApiKey ==> r@
                == "OPENAI_API_KEY not found. Add it to your .env file with: OPENAI_API_KEY=sk-..."@,
            self is Timeout ==> r@
                == "OpenAI API request timed out after 60 seconds. Please try again."@,
            self is RateLimit ==> r@
                == "OpenAI API rate limit exceeded. Please try again later or check your quota at platform.openai.com"@,
            self matches AIError::PromptFileNotFound(p) ==> r@ == "Prompt file not found: "@ + p@,
            self matches AIError::PromptFileTooLarge { size } ==> r@ == "Prompt file too large: "@
                + size@ + ". Maximum allowed: 32KB"@,
            self matches AIError::PromptFileEmpty(p) ==> r@ == "Prompt file is empty: "@ + p@,
            self matches AIError::ApiError { status, message } ==> r@ == "OpenAI API error ("@
                + dec_seq(status as int) + "): "@ + message@,
            self matches AIError::InvalidResponse(d) ==> r@ == "Invalid OpenAI response: "@ + d@,
            self is EmptyPrompt ==> r@
                == "Empty prompt provided. Please enter a question about the forecast."@,
            self is EmptyResponse ==> r@ == "OpenAI response contains no choices"@,
            self is InvalidForecast ==> r@
                == "Cannot perform AI analysis: forecast data is invalid"@,
    {
        match self {
            AIError::MissingApiKey => String::from_str(
                "OPENAI_API_KEY not found. Add it to your .env file with: OPENAI_API_KEY=sk-...",
            ),
            AIError::Timeout => String::from_str(
                "OpenAI API request timed out after 60 seconds. Please try again.",
            ),
            AIError::RateLimit => String::from_str(
                "OpenAI API rate limit exceeded. Please try again later or check your quota at platform.openai.com",
            ),
            AIError::PromptFileNotFound(p) => {
                let mut m = String::from_str("Prompt file not found: ");
                m.append(p.as_str());
                m
            },
            AIError::PromptFileTooLarge { size } => {
                let mut m = String::from_str("Prompt file too large: ");
                m.append(size.as_str());
                m.append(". Maximum allowed: 32KB");
                proof {
                    assert(m@ =~= "Prompt file too large: "@ + size@ + ". Maximum allowed: 32KB"@);
                }
                m
            },
            AIError::PromptFileEmpty(p) => {
                let mut m = String::from_str("Prompt file is empty: ");
                m.append(p.as_str());
                m
            },
            AIError::ApiError { status, message } => {
                let mut m = String::from_str("OpenAI API error (");
                let num = u64_to_string(*status as u64);
                m.append(num.as_str());
                m.append("): ");
                m.append(message.as_str());
                proof {
                    assert(m@ =~= "OpenAI API error ("@ + dec_seq(*status as int) + "): "@
                        + message@);
                }
                m
            },
            AIError::InvalidResponse(d) => {
                let mut m = String::from_str("Invalid OpenAI response: ");
                m.append(d.as_str());
                m
            },
            AIError::EmptyPrompt => String::from_str(
                "Empty prompt provided. Please enter a question about the forecast.",
            ),
            AIError::EmptyResponse => String::from_str("OpenAI response contains no choices"),
            AIError::InvalidForecast => String::from_str(
                "Cannot perform AI analysis: forecast data is invalid",
            ),
        }
    }
}

/// Render a byte count for error text: plain bytes under one kibibyte,
/// whole kibibytes above.
pub fn format_file_size(bytes: u64) -> (r: String)
    ensures
        bytes < 1024 ==> r@ == dec_seq(bytes as int) + "B"@,
        bytes >= 1024 ==> r@ == dec_seq(bytes as int / 1024) + "KB"@,
{
    if bytes < 1024 {
        let mut m = u64_to_string(bytes);
        m.append("B");
        m
    } else {
        let mut m = u64_to_string(bytes / 1024);
        m.append("KB");
        m
    }
}

/// The size rule for prompt files: at most [`MAX_PROMPT_SIZE`] bytes;
/// larger files are rejected with their size in whole kibibytes.
pub fn check_prompt_size(size: u64) -> (r: Result<(), AIError>)
    ensures
        r is Ok <==> size <= MAX_PROMPT_SIZE,
        size > MAX_PROMPT_SIZE ==> (r matches Err(AIError::PromptFileTooLarge { size: s }) && s@
            == dec_seq(size as int / 1024) + "KB"@),
{
    if size > MAX_PROMPT_SIZE {
        let mut s = u64_to_string(size / 1024);
        s.append("KB");
        Err(AIError::PromptFileTooLarge { size: s })
    } else {
        Ok(())
    }
}

/// A prompt is valid exactly when some character in it is not
/// whitespace; an all-whitespace or empty prompt is rejected.
pub fn validate_prompt(prompt: &str) -> (r: Result<(), AIError>)
    ensures
        r is Ok <==> exists|i: int| 0 <= i < prompt@.len() && !is_unicode_ws(prompt@[i]),
        r is Err ==> r == Err::<(), AIError>(AIError::EmptyPrompt),
{
    let n = prompt.unicode_len();
    let mut i: usize = 0;
    while i < n
        invariant
            n == prompt@.len(),
            i <= n,
            forall|j: int| 0 <= j < i ==> is_unicode_ws(prompt@[j]),
        decreases n - i,
    {
        if !char_is_whitespace(prompt.get_char(i)) {
            return Ok(());
        }
        i = i + 1;
    }
    Err(AIError::EmptyPrompt)
}

/// The chat model to use for analysis.
#[derive(Debug, Clone, Copy, PartialEq, Eq, Structural)]
pub enum ChatModel {
    /// The default, most capable model.
    Gpt5,
    /// The alternative model.
    Gpt4o,
}

impl ChatModel {
    /// The API-facing model name.
    pub fn api_name(&self) -> (r: &str)
        ensures
            *self == ChatModel::Gpt5 ==> r@ == "gpt-5"@,
            *self == ChatModel::Gpt4o ==> r@ == "gpt-4o"@,
    {
        match self {
            ChatModel::Gpt5 => "gpt-5",
            ChatModel::Gpt4o => "gpt-4o",
        }
    }
}

impl Default for ChatModel {
    /// The default model.
    fn default() -> (r: Self)
        ensures
            r == ChatModel::Gpt5,
    {
        ChatModel::Gpt5
    }
}

/// One message of the chat conversation: a role tag and its content.
#[derive(Debug, Clone)]
pub struct ChatMessage {
    /// `system`, `user`, or `assistant`.
    pub role: String,
    /// The message text.
    pub content: String,
}

impl ChatMessage {
    /// A system message: the context handed to the model.
    pub fn system(content: String) -> (r: Self)
        ensures
            r.role@ == "system"@,
            r.content == content,
    {
        ChatMessage { role: String::from_str("system"), content }
    }

    /// A user message: the analysis question.
    pub fn user(content: String) -> (r: Self)
        ensures
            r.role@ == "user"@,
            r.content == content,
    {
        ChatMessage { role: String::from_str("user"), content }
    }
}

/// One completion choice of a chat response.
#[derive(Debug)]
pub struct ChatChoice {
    /// Position in the choices array.
    pub index: u32,
    /// The assistant's message.
    pub message: ChatMessage,
    /// Why generation stopped: `stop` when complete, `length` when
    /// truncated.
    pub finish_reason: Option<String>,
}

/// Token counts of one exchange, for cost tracking.
#[derive(Debug, Clone, Copy)]
pub struct TokenUsage {
    /// Tokens in the prompt.
    pub prompt_tokens: u32,
    /// Tokens in the response.
    pub completion_tokens: u32,
    /// Their sum.
    pub total_tokens: u32,
}

/// A chat completion response, as plain values.
#[derive(Debug)]
pub struct ChatResponse {
    /// Unique response identifier.
    pub id: String,
    /// Object tag reported by the service.
    pub object: String,
    /// Creation time as a Unix timestamp.
    pub created: u64,
    /// The model that answered.
    pub model: String,
    /// The completion choices; only the first is consumed.
    pub choices: Vec<ChatChoice>,
    /// Optional token statistics.
    pub usage: Option<TokenUsage>,
}

impl ChatResponse {
    /// The analysis text: the first choice's content, or the
    /// no-choices error on an empty array.
    pub fn extract_content(&self) -> (r: Result<String, AIError>)
        ensures
            self.choices@.len() > 0 ==> (r matches Ok(c) && c@
                == self.choices@[0].message.content@),
            self.choices@.len() == 0 ==> r == Err::<String, AIError>(AIError::EmptyResponse),
    {
        if self.choices.len() > 0 {
            Ok(self.choices[0].message.content.clone())
        } else {
            Err(AIError::EmptyResponse)
        }
    }

    /// Whether the answer was cut short: the first choice finished
    /// with reason `length`.
    pub fn is_truncated(&self) -> (r: bool)
        ensures
            r == (self.choices@.len() > 0 && (self.choices@[0].finish_reason matches Some(fr)
                && fr@ == "length"@)),
    {
        if self.choices.len() > 0 {
            match &self.choices[0].finish_reason {
                Some(fr) => str_eq(fr.as_str(), "length"),
                None => false,
            }
        } else {
            false
        }
    }
}

} // verus!
