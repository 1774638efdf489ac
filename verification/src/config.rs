//! The process configuration and its defaulting rules. Reading the
//! environment happens outside the library; the rules for what the values
//! mean are verified here.

use vstd::prelude::*;
use vstd::string::StringExecFns;

verus! {

/// The configuration the process runs with.
#[derive(Clone, Debug)]
pub struct Config {
    pub api_key: String,
    pub excluded_namespaces: String,
    pub base_url: String,
}

/// Builds the configuration from the values the environment supplied. The
/// API key is required: without it there is no configuration and the
/// process fails fast. The other two fall back to their defaults: no
/// excluded namespaces, and the in-cluster registry address.
pub fn new(
    api_key: Option<String>,
    excluded_namespaces: Option<String>,
    base_url: Option<String>,
) -> (r: Option<Config>)
    ensures
        r is Some <==> api_key is Some,
        r matches Some(config) ==> {
            &&& api_key matches Some(key) && config.api_key@ == key@
            &&& (match excluded_namespaces {
                Some(namespaces) => config.excluded_namespaces@ == namespaces@,
                None => config.excluded_namespaces@ == Seq::<char>::empty(),
            })
            &&& (match base_url {
                Some(url) => config.base_url@ == url@,
                None => config.base_url@ == "http://portalserver"@,
            })
        },
{
    match api_key {
        None => None,
        Some(key) => Some(
            Config {
                api_key: key,
                excluded_namespaces: match excluded_namespaces {
                    Some(namespaces) => namespaces,
                    None => String::new(),
                },
                base_url: match base_url {
                    Some(url) => url,
                    None => String::from_str("http://portalserver"),
                },
            },
        ),
    }
}

} // verus!
