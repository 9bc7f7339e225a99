use crate::catalog::{catalog_provider_for, create_provider_with_catalog, ProviderCatalog, ProviderInfo};
use crate::providers::{opt_str_view, ProviderError, ProviderErrorView, ProviderSpec};
use crate::text::str_eq;
use vstd::prelude::*;
use vstd::string::StringExecFns;

verus! {

/// Retry and fallback settings of the host.
#[derive(Debug, Clone)]
pub struct ReliabilityConfig {
    /// Retries of a request on one provider before the next is tried.
    pub provider_retries: u32,
    pub provider_backoff_ms: u64,
    /// Providers to fall back on, in order.
    pub fallback_providers: Vec<String>,
    pub channel_initial_backoff_secs: u64,
    pub channel_max_backoff_secs: u64,
    pub scheduler_poll_secs: u64,
    pub scheduler_retries: u32,
}

impl Default for ReliabilityConfig {
    fn default() -> (r: ReliabilityConfig)
        ensures
            r.provider_retries == 2,
            r.provider_backoff_ms == 500,
            r.fallback_providers@.len() == 0,
            r.channel_initial_backoff_secs == 2,
            r.channel_max_backoff_secs == 60,
            r.scheduler_poll_secs == 15,
            r.scheduler_retries == 2,
    {
        ReliabilityConfig {
            provider_retries: 2,
            provider_backoff_ms: 500,
            fallback_providers: Vec::new(),
            channel_initial_backoff_secs: 2,
            channel_max_backoff_secs: 60,
            scheduler_poll_secs: 15,
            scheduler_retries: 2,
        }
    }
}

/// A chain of providers tried in order, each with retries and backoff.
#[derive(Debug)]
pub struct ResilientProvider {
    /// The providers of the chain with the names they were selected by; the
    /// primary first.
    pub providers: Vec<(String, ProviderSpec)>,
    pub retries: u32,
    pub backoff_ms: u64,
}

pub open spec fn names_of(providers: Seq<(String, ProviderSpec)>) -> Seq<Seq<char>> {
    providers.map_values(|p: (String, ProviderSpec)| p.0@)
}

pub open spec fn strings_view(v: Seq<String>) -> Seq<Seq<char>> {
    v.map_values(|s: String| s@)
}

/// The names of the chain: the primary, then each fallback in order that is
/// not already in the chain and that selects a provider.
pub open spec fn chain_names(
    primary: Seq<char>,
    fallbacks: Seq<Seq<char>>,
    key: Option<Seq<char>>,
    entries: Seq<(String, ProviderInfo)>,
) -> Seq<Seq<char>>
    decreases fallbacks.len(),
{
    if fallbacks.len() == 0 {
        seq![primary]
    } else {
        let before = chain_names(primary, fallbacks.drop_last(), key, entries);
        let f = fallbacks.last();
        if !before.contains(f) && catalog_provider_for(f, key, entries) is Ok {
            before.push(f)
        } else {
            before
        }
    }
}

fn contains_name(providers: &Vec<(String, ProviderSpec)>, name: &str) -> (r: bool)
    ensures
        r == names_of(providers@).contains(name@),
{
    let mut i: usize = 0;
    while i < providers.len()
        invariant
            i <= providers@.len(),
            forall|j: int| 0 <= j < i ==> names_of(providers@)[j] != name@,
        decreases providers@.len() - i,
    {
        if str_eq(providers[i].0.as_str(), name) {
            assert(names_of(providers@)[i as int] == name@);
            return true;
        }
        i = i + 1;
    }
    false
}

/// Builds the provider chain of `primary_name` and the configured
/// fallbacks. Fails exactly when the primary selects no provider, with the
/// primary's error; fallbacks that repeat a name of the chain or select no
/// provider are left out.
pub fn create_resilient_provider(
    primary_name: &str,
    api_key: Option<&str>,
    reliability: &ReliabilityConfig,
    catalog: &ProviderCatalog,
) -> (r: Result<ResilientProvider, ProviderError>)
    ensures
        catalog_provider_for(primary_name@, opt_str_view(api_key), catalog.providers@) matches Err(
            e,
        ) ==> r matches Err(re) && re@ == e,
        catalog_provider_for(primary_name@, opt_str_view(api_key), catalog.providers@) is Ok ==> r is Ok,
        r matches Ok(p) ==> {
            &&& names_of(p.providers@) == chain_names(
                primary_name@,
                strings_view(reliability.fallback_providers@),
                opt_str_view(api_key),
                catalog.providers@,
            )
            &&& forall|i: int|
                0 <= i < p.providers@.len() ==> catalog_provider_for(
                    #[trigger] p.providers@[i].0@,
                    opt_str_view(api_key),
                    catalog.providers@,
                ) == Ok::<_, ProviderErrorView>(p.providers@[i].1@)
            &&& p.retries == reliability.provider_retries
            &&& p.backoff_ms == reliability.provider_backoff_ms
        },
{
    let primary = match create_provider_with_catalog(primary_name, api_key, catalog) {
        Ok(p) => p,
        Err(e) => return Err(e),
    };
    let mut providers: Vec<(String, ProviderSpec)> = Vec::new();
    providers.push((String::from_str(primary_name), primary));
    let fallbacks = &reliability.fallback_providers;
    let ghost key = opt_str_view(api_key);
    let ghost fb = strings_view(fallbacks@);
    let mut i: usize = 0;
    assert(names_of(providers@) =~= seq![primary_name@]);
    assert(fb.subrange(0, 0) =~= Seq::<Seq<char>>::empty());
    while i < fallbacks.len()
        invariant
            i <= fallbacks@.len(),
            fb == strings_view(fallbacks@),
            key == opt_str_view(api_key),
            names_of(providers@) == chain_names(primary_name@, fb.subrange(0, i as int), key, catalog.providers@),
            forall|j: int|
                0 <= j < providers@.len() ==> catalog_provider_for(
                    #[trigger] providers@[j].0@,
                    key,
                    catalog.providers@,
                ) == Ok::<_, ProviderErrorView>(providers@[j].1@),
        decreases fallbacks@.len() - i,
    {
        let name = fallbacks[i].as_str();
        let ghost before = providers@;
        assert(fb.subrange(0, i + 1).drop_last() =~= fb.subrange(0, i as int));
        assert(fb.subrange(0, i + 1).last() == name@);
        if !contains_name(&providers, name) {
            match create_provider_with_catalog(name, api_key, catalog) {
                Ok(p) => {
                    providers.push((fallbacks[i].clone(), p));
                    assert(names_of(providers@) =~= names_of(before).push(name@));
                    assert(forall|j: int| 0 <= j < before.len() ==> providers@[j] == before[j]);
                },
                Err(_) => {},
            }
        }
        i = i + 1;
    }
    assert(fb.subrange(0, fallbacks@.len() as int) =~= fb);
    Ok(
        ResilientProvider {
            providers,
            retries: reliability.provider_retries,
            backoff_ms: reliability.provider_backoff_ms,
        },
    )
}

} // verus!
