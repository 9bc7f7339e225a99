use crate::text::{has_prefix, starts_with, str_eq, suffix_from};
use vstd::prelude::*;
use vstd::string::StringExecFns;

verus! {

/// Which client implementation serves a provider.
#[derive(Debug, Clone, Copy, PartialEq, Eq, Structural)]
pub enum ProviderKind {
    OpenRouter,
    Anthropic,
    OpenAi,
    Ollama,
    /// Any endpoint that speaks the OpenAI protocol, with bearer authentication.
    Compatible,
}

/// A provider chosen by name: how to reach it and with which key.
#[derive(Debug)]
pub struct ProviderSpec {
    pub kind: ProviderKind,
    /// Human-readable name of the provider.
    pub name: String,
    /// Endpoint of an OpenAI-compatible provider; the others know their own.
    pub base_url: Option<String>,
    pub api_key: Option<String>,
}

pub struct ProviderSpecView {
    pub kind: ProviderKind,
    pub name: Seq<char>,
    pub base_url: Option<Seq<char>>,
    pub api_key: Option<Seq<char>>,
}

impl View for ProviderSpec {
    type V = ProviderSpecView;

    open spec fn view(&self) -> ProviderSpecView {
        ProviderSpecView {
            kind: self.kind,
            name: self.name@,
            base_url: opt_string_view(self.base_url),
            api_key: opt_string_view(self.api_key),
        }
    }
}

/// Why no provider could be made from a name.
#[derive(Debug)]
pub enum ProviderError {
    /// `custom:` with nothing after it.
    MissingCustomUrl,
    /// A name that no rule and no catalog entry resolves.
    Unknown { name: String },
}

pub enum ProviderErrorView {
    MissingCustomUrl,
    Unknown { name: Seq<char> },
}

impl View for ProviderError {
    type V = ProviderErrorView;

    open spec fn view(&self) -> ProviderErrorView {
        match self {
            ProviderError::MissingCustomUrl => ProviderErrorView::MissingCustomUrl,
            ProviderError::Unknown { name } => ProviderErrorView::Unknown { name: name@ },
        }
    }
}

pub open spec fn opt_string_view(o: Option<String>) -> Option<Seq<char>> {
    match o {
        Some(s) => Some(s@),
        None => None,
    }
}

pub open spec fn opt_str_view(o: Option<&str>) -> Option<Seq<char>> {
    match o {
        Some(s) => Some(s@),
        None => None,
    }
}

pub open spec fn result_view(r: Result<ProviderSpec, ProviderError>) -> Result<ProviderSpecView, ProviderErrorView> {
    match r {
        Ok(p) => Ok(p@),
        Err(e) => Err(e@),
    }
}

/// The text of the custom-endpoint failure.
pub open spec fn missing_custom_url_text() -> Seq<char> {
    "Custom provider requires a URL. Format: custom:https://your-api.com"@
}

/// The text of the unknown-provider failure.
pub open spec fn unknown_provider_text(name: Seq<char>) -> Seq<char> {
    "Unknown provider: "@ + name + ". Check README for supported providers or run `pryx onboard --interactive` to reconfigure.\nTip: Use \"custom:https://your-api.com\" for any OpenAI-compatible endpoint."@
}

impl ProviderError {
    /// The human-readable text of the error.
    pub fn message(&self) -> (r: String)
        ensures
            r@ == match self {
                ProviderError::MissingCustomUrl => missing_custom_url_text(),
                ProviderError::Unknown { name } => unknown_provider_text(name@),
            },
    {
        match self {
            ProviderError::MissingCustomUrl => String::from_str(
                "Custom provider requires a URL. Format: custom:https://your-api.com",
            ),
            ProviderError::Unknown { name } => {
                let mut r = String::from_str("Unknown provider: ");
                r.append(name.as_str());
                r.append(
                    ". Check README for supported providers or run `pryx onboard --interactive` to reconfigure.\nTip: Use \"custom:https://your-api.com\" for any OpenAI-compatible endpoint.",
                );
                assert(r@ =~= unknown_provider_text(name@));
                r
            },
        }
    }
}

/// The providers with a client of their own, by name, with their display name.
pub open spec fn primary_provider(name: Seq<char>) -> Option<(ProviderKind, Seq<char>)> {
    if name == "openrouter"@ {
        Some((ProviderKind::OpenRouter, "OpenRouter"@))
    } else if name == "anthropic"@ {
        Some((ProviderKind::Anthropic, "Anthropic"@))
    } else if name == "openai"@ {
        Some((ProviderKind::OpenAi, "OpenAI"@))
    } else if name == "ollama"@ {
        Some((ProviderKind::Ollama, "Ollama"@))
    } else {
        None
    }
}

/// The OpenAI-compatible providers known by name (aliases included), with
/// their display name and endpoint.
pub open spec fn compatible_endpoint(name: Seq<char>) -> Option<(Seq<char>, Seq<char>)> {
    if name == "venice"@ {
        Some(("Venice"@, "https://api.venice.ai"@))
    } else if name == "vercel"@ || name == "vercel-ai"@ {
        Some(("Vercel AI Gateway"@, "https://api.vercel.ai"@))
    } else if name == "cloudflare"@ || name == "cloudflare-ai"@ {
        Some(("Cloudflare AI Gateway"@, "https://gateway.ai.cloudflare.com/v1"@))
    } else if name == "moonshot"@ || name == "kimi"@ {
        Some(("Moonshot"@, "https://api.moonshot.cn"@))
    } else if name == "synthetic"@ {
        Some(("Synthetic"@, "https://api.synthetic.com"@))
    } else if name == "opencode"@ || name == "opencode-zen"@ {
        Some(("OpenCode Zen"@, "https://api.opencode.ai"@))
    } else if name == "glm"@ || name == "zhipu"@ {
        Some(("GLM"@, "https://open.bigmodel.cn/api/paas"@))
    } else if name == "minimax"@ {
        Some(("MiniMax"@, "https://api.minimax.chat/v1"@))
    } else if name == "bedrock"@ || name == "aws-bedrock"@ {
        Some(("Amazon Bedrock"@, "https://bedrock-runtime.us-east-1.amazonaws.com"@))
    } else if name == "qianfan"@ || name == "baidu"@ {
        Some(("Qianfan"@, "https://aip.baidubce.com"@))
    } else if name == "groq"@ {
        Some(("Groq"@, "https://api.groq.com/openai"@))
    } else if name == "mistral"@ {
        Some(("Mistral"@, "https://api.mistral.ai"@))
    } else if name == "xai"@ || name == "grok"@ {
        Some(("xAI"@, "https://api.x.ai"@))
    } else if name == "deepseek"@ {
        Some(("DeepSeek"@, "https://api.deepseek.com"@))
    } else if name == "together"@ || name == "together-ai"@ {
        Some(("Together AI"@, "https://api.together.xyz"@))
    } else if name == "fireworks"@ || name == "fireworks-ai"@ {
        Some(("Fireworks AI"@, "https://api.fireworks.ai/inference"@))
    } else if name == "perplexity"@ {
        Some(("Perplexity"@, "https://api.perplexity.ai"@))
    } else if name == "cohere"@ {
        Some(("Cohere"@, "https://api.cohere.com/compatibility"@))
    } else {
        None
    }
}

/// The prefix of a name that carries its own endpoint.
pub open spec fn custom_prefix() -> Seq<char> {
    "custom:"@
}

/// The key handed to a provider: a local Ollama takes none when it is empty.
pub open spec fn key_for(kind: ProviderKind, key: Option<Seq<char>>) -> Option<Seq<char>> {
    if kind is Ollama && (key matches Some(k) && k.len() == 0) {
        None
    } else {
        key
    }
}

/// The provider a name selects without consulting any catalog.
pub open spec fn provider_for(name: Seq<char>, key: Option<Seq<char>>) -> Result<ProviderSpecView, ProviderErrorView> {
    if let Some((kind, display)) = primary_provider(name) {
        Ok(ProviderSpecView { kind, name: display, base_url: None, api_key: key_for(kind, key) })
    } else if let Some((display, url)) = compatible_endpoint(name) {
        Ok(ProviderSpecView { kind: ProviderKind::Compatible, name: display, base_url: Some(url), api_key: key })
    } else if has_prefix(name, custom_prefix()) {
        let url = name.subrange(custom_prefix().len() as int, name.len() as int);
        if url.len() == 0 {
            Err(ProviderErrorView::MissingCustomUrl)
        } else {
            Ok(ProviderSpecView { kind: ProviderKind::Compatible, name: "Custom"@, base_url: Some(url), api_key: key })
        }
    } else {
        Err(ProviderErrorView::Unknown { name })
    }
}

fn primary_provider_exec(name: &str) -> (r: Option<(ProviderKind, &'static str)>)
    ensures
        match r {
            Some((k, d)) => primary_provider(name@) == Some((k, d@)),
            None => primary_provider(name@) is None,
        },
{
    if str_eq(name, "openrouter") {
        Some((ProviderKind::OpenRouter, "OpenRouter"))
    } else if str_eq(name, "anthropic") {
        Some((ProviderKind::Anthropic, "Anthropic"))
    } else if str_eq(name, "openai") {
        Some((ProviderKind::OpenAi, "OpenAI"))
    } else if str_eq(name, "ollama") {
        Some((ProviderKind::Ollama, "Ollama"))
    } else {
        None
    }
}

fn compatible_endpoint_exec(name: &str) -> (r: Option<(&'static str, &'static str)>)
    ensures
        match r {
            Some((d, u)) => compatible_endpoint(name@) == Some((d@, u@)),
            None => compatible_endpoint(name@) is None,
        },
{
    if str_eq(name, "venice") {
        Some(("Venice", "https://api.venice.ai"))
    } else if str_eq(name, "vercel") || str_eq(name, "vercel-ai") {
        Some(("Vercel AI Gateway", "https://api.vercel.ai"))
    } else if str_eq(name, "cloudflare") || str_eq(name, "cloudflare-ai") {
        Some(("Cloudflare AI Gateway", "https://gateway.ai.cloudflare.com/v1"))
    } else if str_eq(name, "moonshot") || str_eq(name, "kimi") {
        Some(("Moonshot", "https://api.moonshot.cn"))
    } else if str_eq(name, "synthetic") {
        Some(("Synthetic", "https://api.synthetic.com"))
    } else if str_eq(name, "opencode") || str_eq(name, "opencode-zen") {
        Some(("OpenCode Zen", "https://api.opencode.ai"))
    } else if str_eq(name, "glm") || str_eq(name, "zhipu") {
        Some(("GLM", "https://open.bigmodel.cn/api/paas"))
    } else if str_eq(name, "minimax") {
        Some(("MiniMax", "https://api.minimax.chat/v1"))
    } else if str_eq(name, "bedrock") || str_eq(name, "aws-bedrock") {
        Some(("Amazon Bedrock", "https://bedrock-runtime.us-east-1.amazonaws.com"))
    } else if str_eq(name, "qianfan") || str_eq(name, "baidu") {
        Some(("Qianfan", "https://aip.baidubce.com"))
    } else if str_eq(name, "groq") {
        Some(("Groq", "https://api.groq.com/openai"))
    } else if str_eq(name, "mistral") {
        Some(("Mistral", "https://api.mistral.ai"))
    } else if str_eq(name, "xai") || str_eq(name, "grok") {
        Some(("xAI", "https://api.x.ai"))
    } else if str_eq(name, "deepseek") {
        Some(("DeepSeek", "https://api.deepseek.com"))
    } else if str_eq(name, "together") || str_eq(name, "together-ai") {
        Some(("Together AI", "https://api.together.xyz"))
    } else if str_eq(name, "fireworks") || str_eq(name, "fireworks-ai") {
        Some(("Fireworks AI", "https://api.fireworks.ai/inference"))
    } else if str_eq(name, "perplexity") {
        Some(("Perplexity", "https://api.perplexity.ai"))
    } else if str_eq(name, "cohere") {
        Some(("Cohere", "https://api.cohere.com/compatibility"))
    } else {
        None
    }
}

fn copy_key(key: Option<&str>) -> (r: Option<String>)
    ensures
        opt_string_view(r) == opt_str_view(key),
{
    match key {
        Some(k) => Some(String::from_str(k)),
        None => None,
    }
}

/// Selects the provider that `name` designates, handing it `api_key`.
pub fn create_provider(name: &str, api_key: Option<&str>) -> (r: Result<ProviderSpec, ProviderError>)
    ensures
        result_view(r) == provider_for(name@, opt_str_view(api_key)),
{
    if let Some((kind, display)) = primary_provider_exec(name) {
        let key = match api_key {
            Some(k) => if kind == ProviderKind::Ollama && k.unicode_len() == 0 {
                None
            } else {
                Some(String::from_str(k))
            },
            None => None,
        };
        return Ok(ProviderSpec { kind, name: String::from_str(display), base_url: None, api_key: key });
    }
    if let Some((display, url)) = compatible_endpoint_exec(name) {
        return Ok(
            ProviderSpec {
                kind: ProviderKind::Compatible,
                name: String::from_str(display),
                base_url: Some(String::from_str(url)),
                api_key: copy_key(api_key),
            },
        );
    }
    if starts_with(name, "custom:") {
        proof {
            reveal_strlit("custom:");
        }
        let url = suffix_from(name, 7);
        if url.unicode_len() == 0 {
            return Err(ProviderError::MissingCustomUrl);
        }
        return Ok(
            ProviderSpec {
                kind: ProviderKind::Compatible,
                name: String::from_str("Custom"),
                base_url: Some(url),
                api_key: copy_key(api_key),
            },
        );
    }
    Err(ProviderError::Unknown { name: String::from_str(name) })
}

} // verus!
