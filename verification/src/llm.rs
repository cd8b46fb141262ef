//! The LLM client adapter's decision logic: building the two-message
//! conversation, recognizing supported model names, and the adapter's error
//! kinds. The HTTP round-trip itself is the caller's.

use vstd::prelude::*;
use crate::config::ConfigData;
use crate::text::{str_to_chars, chars_to_string};

verus! {

/// One chat message.
#[derive(Debug, Clone)]
pub struct Message {
    pub role: String,
    pub content: String,
}

/// What can go wrong inside the adapter: a failing endpoint call, a bad
/// configuration (an unsupported model name among them), or rejected
/// credentials.
#[derive(Debug)]
pub enum ModelError {
    ApiError(String),
    ConfigError(String),
    AuthenticationError(String),
}

impl ModelError {
    /// The rendered form of the error.
    pub fn display_string(&self) -> (r: String)
        ensures
            (self matches ModelError::ApiError(m) ==> r@ == "API Error: "@ + m@),
            (self matches ModelError::ConfigError(m) ==> r@ == "Configuration Error: "@ + m@),
            (self matches ModelError::AuthenticationError(m) ==> r@ == "Authentication Error: "@
                + m@),
    {
        let (prefix, msg) = match self {
            ModelError::ApiError(m) => ("API Error: ", m),
            ModelError::ConfigError(m) => ("Configuration Error: ", m),
            ModelError::AuthenticationError(m) => ("Authentication Error: ", m),
        };
        let mut out = str_to_chars(prefix);
        crate::text::push_all(&mut out, &str_to_chars(msg.as_str()));
        proof {
            match self {
                ModelError::ApiError(m) => assert(out@ =~= "API Error: "@ + m@),
                ModelError::ConfigError(m) => assert(out@ =~= "Configuration Error: "@ + m@),
                ModelError::AuthenticationError(m) => assert(out@ =~= "Authentication Error: "@
                    + m@),
            }
        }
        chars_to_string(&out)
    }
}

/// The adapter over the chat-completion endpoint: it holds the endpoint
/// configuration; the network client lives with the caller.
#[derive(Clone)]
pub struct LLM {
    pub config: ConfigData,
}

impl LLM {
    pub fn new(config: ConfigData) -> (r: LLM)
        ensures
            r.config == config,
    {
        LLM { config }
    }

    /// The names of every configured model, in configuration order.
    pub fn list_model_type(&self) -> (r: Vec<String>)
        ensures
            r@.map_values(|s: String| s@) == self.config.llm@.map_values(
                |c: crate::config::ConfigLLM| c.name@,
            ),
    {
        let n = self.config.llm.len();
        let mut out: Vec<String> = Vec::new();
        let mut i: usize = 0;
        while i < n
            invariant
                n == self.config.llm@.len(),
                i <= n,
                out@.map_values(|s: String| s@) == self.config.llm@.subrange(0, i as int)
                    .map_values(|c: crate::config::ConfigLLM| c.name@),
            decreases n - i,
        {
            out.push(chars_to_string(&str_to_chars(self.config.llm[i].name.as_str())));
            proof {
                let f = |c: crate::config::ConfigLLM| c.name@;
                let g = |s: String| s@;
                let pre = self.config.llm@.subrange(0, i as int);
                let post = self.config.llm@.subrange(0, i + 1);
                assert(post =~= pre.push(self.config.llm@[i as int]));
                assert(post.map_values(f) =~= pre.map_values(f).push(
                    f(self.config.llm@[i as int]),
                ));
                assert(out@.map_values(g) =~= pre.map_values(f).push(
                    f(self.config.llm@[i as int]),
                ));
            }
            i += 1;
        }
        proof {
            assert(self.config.llm@.subrange(0, n as int) =~= self.config.llm@);
        }
        out
    }
}

/// The closed set of recognized model names.
pub fn is_supported_model(name: &str) -> (r: bool)
    ensures
        r == (name@ == "doubao"@ || name@ == "openai"@),
{
    let nc = str_to_chars(name);
    let doubao = str_to_chars("doubao");
    let openai = str_to_chars("openai");
    let a = crate::dataset::eq_chars(&nc, &doubao);
    let b = crate::dataset::eq_chars(&nc, &openai);
    a || b
}

/// The two-message conversation of one chat completion: the system prompt
/// (the override when one is given, the default otherwise) followed by the
/// user prompt.
pub fn build_chat_messages(
    user_prompt: &str,
    system_prompt: Option<&str>,
    default_system_prompt: &str,
) -> (r: Vec<Message>)
    ensures
        r@.len() == 2,
        r@[0].role@ == "system"@,
        r@[0].content@ == (match system_prompt {
            Some(s) => s@,
            None => default_system_prompt@,
        }),
        r@[1].role@ == "user"@,
        r@[1].content@ == user_prompt@,
{
    let system_content = match system_prompt {
        Some(s) => chars_to_string(&str_to_chars(s)),
        None => chars_to_string(&str_to_chars(default_system_prompt)),
    };
    let mut out: Vec<Message> = Vec::new();
    out.push(
        Message {
            role: chars_to_string(&str_to_chars("system")),
            content: system_content,
        },
    );
    out.push(
        Message { role: chars_to_string(&str_to_chars("user")), content: chars_to_string(
            &str_to_chars(user_prompt),
        ) },
    );
    out
}

} // verus!
