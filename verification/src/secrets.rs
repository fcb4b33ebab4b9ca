//! The names under which the keys of providers are kept in the settings
//! store. Reading and writing the store is the caller's.

use vstd::prelude::*;
use crate::text::{joined, text_view};

verus! {

/// The provider that is meant where none is named.
pub const DEFAULT_PROVIDER: &'static str = "anthropic";

/// What precedes the provider in the name of its key.
pub const KEY_PREFIX: &'static str = "apiKey_";

/// The name of the key of `provider`, or of the default provider where none
/// is named.
pub open spec fn key_name_of(provider: Option<Seq<char>>) -> Seq<char> {
    KEY_PREFIX@ + match provider {
        Some(provider) => provider,
        None => DEFAULT_PROVIDER@,
    }
}

/// The name under which the key of `provider` is kept, or that of the
/// default provider where none is named.
pub fn key_name(provider: Option<&str>) -> (name: String)
    ensures
        name@ == key_name_of(text_view(provider)),
{
    match provider {
        Some(provider) => joined(KEY_PREFIX, provider),
        None => joined(KEY_PREFIX, DEFAULT_PROVIDER),
    }
}

} // verus!
