//! The search providers that a request can name.

use vstd::prelude::*;
use vstd::string::StringExecFns;

verus! {

/// The provider that a request selects.
#[derive(Clone, Copy, Debug, PartialEq, Eq, Structural)]
pub enum SearchBackends {
    Tavily,
    Bing,
    LocalServer,
    Unknown,
}

/// The provider that a name stands for: one of the three known names, or
/// `Unknown` for every other string.
pub open spec fn backend_named(name: Seq<char>) -> SearchBackends {
    if name == "tavily"@ {
        SearchBackends::Tavily
    } else if name == "bing"@ {
        SearchBackends::Bing
    } else if name == "local_search_server"@ {
        SearchBackends::LocalServer
    } else {
        SearchBackends::Unknown
    }
}

/// True where two strings hold the same characters.
pub fn same_text(a: &str, b: &str) -> (r: bool)
    ensures
        r == (a@ == b@),
{
    String::from_str(a) == String::from_str(b)
}

impl From<String> for SearchBackends {
    /// Reads a provider's name as a request gives it.
    fn from(search_backend: String) -> (r: Self) {
        let name = search_backend.as_str();
        if same_text(name, "tavily") {
            SearchBackends::Tavily
        } else if same_text(name, "bing") {
            SearchBackends::Bing
        } else if same_text(name, "local_search_server") {
            SearchBackends::LocalServer
        } else {
            SearchBackends::Unknown
        }
    }
}

impl vstd::std_specs::convert::FromSpecImpl<String> for SearchBackends {
    open spec fn obeys_from_spec() -> bool {
        true
    }

    open spec fn from_spec(search_backend: String) -> Self {
        backend_named(search_backend@)
    }
}

} // verus!
