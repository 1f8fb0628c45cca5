use vstd::prelude::*;
use vstd::string::StringExecFns;
use crate::model::Args;

verus! {

/// The fallback package name substituted when a request names none.
pub open spec fn default_crate_name() -> Seq<char> {
    "tokio"@
}

/// The package name a request resolves to: the supplied name when it is
/// present and non-empty, the default otherwise.
pub open spec fn resolved_name(args: Option<Args>) -> Seq<char> {
    match args {
        Some(a) => match a.crate_name {
            Some(n) => if n@.len() > 0 {
                n@
            } else {
                default_crate_name()
            },
            None => default_crate_name(),
        },
        None => default_crate_name(),
    }
}

/// Resolve the package name from the optional request arguments.
pub fn resolve_crate_name(args: &Option<Args>) -> (r: String)
    ensures
        r@ == resolved_name(*args),
{
    match args {
        Some(a) => match &a.crate_name {
            Some(n) => if n.as_str().is_empty() {
                String::from_str("tokio")
            } else {
                n.clone()
            },
            None => String::from_str("tokio"),
        },
        None => String::from_str("tokio"),
    }
}

/// The documentation page URL for a package name. The name is spliced in
/// unchanged: callers can form unintended URLs, which mirrors the stated
/// behaviour and is deliberately not hardened here.
pub open spec fn doc_url(name: Seq<char>) -> Seq<char> {
    "https://docs.rs/"@ + name + "/latest/"@ + name + "/index.html"@
}

/// Build the documentation page URL for `name`.
pub fn build_doc_url(name: &str) -> (r: String)
    ensures
        r@ == doc_url(name@),
{
    let mut url = String::from_str("https://docs.rs/");
    url.append(name);
    url.append("/latest/");
    url.append(name);
    url.append("/index.html");
    proof {
        assert(url@ =~= doc_url(name@));
    }
    url
}

} // verus!
