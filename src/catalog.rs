use crate::providers::{
    create_provider, opt_str_view, provider_for, result_view, ProviderError, ProviderErrorView,
    ProviderKind, ProviderSpec, ProviderSpecView,
};
use crate::text::{
    contains, ends_with, has_infix, has_suffix, str_eq, trim_end_char, trim_end_matching,
    trim_end_matching_char, trim_end_seq,
};
use vstd::prelude::*;
use vstd::string::StringExecFns;

verus! {

/// Token limits of a model.
#[derive(Debug, Clone, Copy, PartialEq, Eq, Structural)]
pub struct ModelLimit {
    pub context: Option<u64>,
    pub output: Option<u64>,
}

/// Input and output kinds a model accepts and produces.
#[derive(Debug, Clone)]
pub struct ModelModalities {
    pub input: Option<Vec<String>>,
    pub output: Option<Vec<String>>,
}

/// A model a catalog provider offers.
#[derive(Debug, Clone)]
pub struct ModelInfo {
    pub id: String,
    pub name: String,
    pub family: Option<String>,
    pub tool_call: Option<bool>,
    pub reasoning: Option<bool>,
    pub attachment: Option<bool>,
    pub temperature: Option<bool>,
    pub limit: Option<ModelLimit>,
    pub modalities: Option<ModelModalities>,
}

/// A provider as a catalog describes it.
#[derive(Debug, Clone)]
pub struct ProviderInfo {
    pub id: String,
    pub name: String,
    /// Endpoint of the provider's API, when it has one.
    pub api: Option<String>,
    /// Environment variables that hold its key.
    pub env: Vec<String>,
    /// Its models, keyed by model id.
    pub models: Vec<(String, ModelInfo)>,
}

/// Providers keyed by provider id; a lookup takes the first entry of an id.
#[derive(Debug, Clone)]
pub struct ProviderCatalog {
    pub providers: Vec<(String, ProviderInfo)>,
}

/// The entry of `id` among `entries`: the first one whose key is `id`.
pub open spec fn lookup(entries: Seq<(String, ProviderInfo)>, id: Seq<char>) -> Option<ProviderInfo>
    decreases entries.len(),
{
    if entries.len() == 0 {
        None
    } else if entries[0].0@ == id {
        Some(entries[0].1)
    } else {
        lookup(entries.drop_first(), id)
    }
}

proof fn lemma_lookup_skip(entries: Seq<(String, ProviderInfo)>, id: Seq<char>, i: int)
    requires
        0 <= i < entries.len(),
        entries[i].0@ != id,
    ensures
        lookup(entries.subrange(i, entries.len() as int), id) == lookup(
            entries.subrange(i + 1, entries.len() as int),
            id,
        ),
{
    assert(entries.subrange(i, entries.len() as int).drop_first() =~= entries.subrange(
        i + 1,
        entries.len() as int,
    ));
}

impl ProviderCatalog {
    /// A catalog with no provider.
    pub fn new() -> (r: ProviderCatalog)
        ensures
            r.providers@.len() == 0,
    {
        ProviderCatalog { providers: Vec::new() }
    }

    /// The provider of the given id.
    pub fn get(&self, id: &str) -> (r: Option<&ProviderInfo>)
        ensures
            r matches Some(p) ==> lookup(self.providers@, id@) == Some(*p),
            r is None ==> lookup(self.providers@, id@) is None,
    {
        let mut i: usize = 0;
        assert(self.providers@.subrange(0, self.providers@.len() as int) =~= self.providers@);
        while i < self.providers.len()
            invariant
                i <= self.providers@.len(),
                lookup(self.providers@.subrange(i as int, self.providers@.len() as int), id@)
                    == lookup(self.providers@, id@),
            decreases self.providers@.len() - i,
        {
            if str_eq(self.providers[i].0.as_str(), id) {
                return Some(&self.providers[i].1);
            }
            proof {
                lemma_lookup_skip(self.providers@, id@, i as int);
            }
            i = i + 1;
        }
        None
    }
}

/// The endpoint to use for a catalog provider whose API lies at `api`:
/// trailing slashes dropped; the MiniMax Anthropic-style endpoints and the
/// Z.AI one replaced by their OpenAI-compatible counterparts; an endpoint
/// naming a `/v4`, `/v3` or `/api/paas` path kept as it is; else a trailing
/// `/v1` dropped.
pub open spec fn catalog_base_url(api: Seq<char>) -> Seq<char> {
    let t = trim_end_char(api, '/');
    if has_infix(t, "api.minimax.io/anthropic"@) {
        "https://platform.minimax.io"@
    } else if has_infix(t, "api.minimaxi.com/anthropic"@) {
        "https://platform.minimaxi.com"@
    } else if has_infix(t, "api.z.ai/api/paas"@) {
        "https://api.z.ai/api/paas/v4"@
    } else if has_infix(t, "/v4"@) || has_infix(t, "/v3"@) || has_infix(t, "/api/paas"@) {
        t
    } else if has_suffix(t, "/v1"@) {
        trim_end_seq(t, "/v1"@)
    } else {
        t
    }
}

/// The endpoint to use for a catalog provider whose API lies at `api`.
pub fn resolve_catalog_url(api: &str) -> (r: String)
    ensures
        r@ == catalog_base_url(api@),
{
    let t = trim_end_matching_char(api, '/');
    let ts = t.as_str();
    if contains(ts, "api.minimax.io/anthropic") {
        String::from_str("https://platform.minimax.io")
    } else if contains(ts, "api.minimaxi.com/anthropic") {
        String::from_str("https://platform.minimaxi.com")
    } else if contains(ts, "api.z.ai/api/paas") {
        String::from_str("https://api.z.ai/api/paas/v4")
    } else if contains(ts, "/v4") || contains(ts, "/v3") || contains(ts, "/api/paas") {
        t
    } else if ends_with(ts, "/v1") {
        trim_end_matching(ts, "/v1")
    } else {
        t
    }
}

/// The provider a name selects: by the built-in rules, else, for a name
/// they do not know, by the catalog entry of that id when it has an API.
pub open spec fn catalog_provider_for(
    name: Seq<char>,
    key: Option<Seq<char>>,
    entries: Seq<(String, ProviderInfo)>,
) -> Result<ProviderSpecView, ProviderErrorView> {
    match provider_for(name, key) {
        Err(ProviderErrorView::Unknown { .. }) => match lookup(entries, name) {
            Some(info) => match info.api {
                Some(api) => Ok(
                    ProviderSpecView {
                        kind: ProviderKind::Compatible,
                        name: info.name@,
                        base_url: Some(catalog_base_url(api@)),
                        api_key: key,
                    },
                ),
                None => Err(ProviderErrorView::Unknown { name }),
            },
            None => Err(ProviderErrorView::Unknown { name }),
        },
        other => other,
    }
}

/// Selects the provider that `name` designates, consulting `catalog` for
/// names the built-in rules do not know.
pub fn create_provider_with_catalog(
    name: &str,
    api_key: Option<&str>,
    catalog: &ProviderCatalog,
) -> (r: Result<ProviderSpec, ProviderError>)
    ensures
        result_view(r) == catalog_provider_for(name@, opt_str_view(api_key), catalog.providers@),
{
    match create_provider(name, api_key) {
        Err(ProviderError::Unknown { name: unknown }) => {
            match catalog.get(name) {
                Some(info) => match &info.api {
                    Some(api) => {
                        let key = match api_key {
                            Some(k) => Some(String::from_str(k)),
                            None => None,
                        };
                        Ok(
                            ProviderSpec {
                                kind: ProviderKind::Compatible,
                                name: info.name.clone(),
                                base_url: Some(resolve_catalog_url(api.as_str())),
                                api_key: key,
                            },
                        )
                    },
                    None => Err(ProviderError::Unknown { name: unknown }),
                },
                None => Err(ProviderError::Unknown { name: unknown }),
            }
        },
        other => other,
    }
}

} // verus!
