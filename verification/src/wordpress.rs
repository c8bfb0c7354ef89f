//! The content upstream: any path below its base is passed through.

use vstd::prelude::*;
use vstd::string::*;
use crate::gateway::{plan_of, Lookup, Plan};
use crate::key::{derive_key, key_text};
use crate::params::Params;

verus! {

/// Where the upstream is reached.
pub open spec fn wordpress_base() -> Seq<char> {
    "https://amtsilatipusat.net/wp-json/wp/v2"@
}

/// The name under which this upstream's entries are filed in the cache.
pub open spec fn wordpress_name() -> Seq<char> {
    "wp"@
}

/// What this upstream is called in messages.
pub open spec fn wordpress_label() -> Seq<char> {
    "WordPress"@
}

/// `s` without the slashes it starts with.
pub open spec fn trim_leading_slashes(s: Seq<char>) -> Seq<char>
    decreases s.len(),
{
    if s.len() > 0 && s[0] == '/' {
        trim_leading_slashes(s.drop_first())
    } else {
        s
    }
}

/// The address of a path: the base alone for the empty path, else the base,
/// one slash and the path without its leading slashes.
pub open spec fn wordpress_url(path: Seq<char>) -> Seq<char> {
    if path.len() == 0 {
        wordpress_base()
    } else {
        wordpress_base() + "/"@ + trim_leading_slashes(path)
    }
}

/// What a request for `path` with `params` leads to. The query is the
/// caller's own: this upstream takes no fixed parameters.
pub open spec fn wordpress_plan(path: Seq<char>, params: Map<Seq<char>, Seq<char>>) -> Plan {
    Plan {
        label: wordpress_label(),
        key: key_text(wordpress_name(), path, params),
        url: wordpress_url(path),
        query: params,
    }
}

/// Cuts the leading slashes off a path.
pub fn trimmed_path(path: &str) -> (r: &str)
    ensures
        r@ == trim_leading_slashes(path@),
{
    let n: usize = path.unicode_len();
    let mut i: usize = 0;
    proof {
        assert(path@.subrange(0, n as int) =~= path@);
    }
    while i < n && path.get_char(i) == '/'
        invariant
            n == path@.len(),
            i <= n,
            trim_leading_slashes(path@) == trim_leading_slashes(path@.subrange(i as int, n as int)),
        decreases n - i,
    {
        proof {
            assert(path@.subrange(i as int, n as int).drop_first() =~= path@.subrange(
                i + 1,
                n as int,
            ));
        }
        i = i + 1;
    }
    path.substring_char(i, n)
}

/// The cache-aside service in front of the content upstream.
#[derive(Debug, Clone)]
pub struct WordPressService {}

impl WordPressService {
    /// The service; it has no settings of its own.
    pub fn new() -> (r: WordPressService) {
        WordPressService {  }
    }

    /// The address that a path is fetched from.
    pub fn url_for(path: &str) -> (url: String)
        ensures
            url@ == wordpress_url(path@),
    {
        let mut url: String = String::from_str("https://amtsilatipusat.net/wp-json/wp/v2");
        if path.unicode_len() > 0 {
            url.append("/");
            url.append(trimmed_path(path));
        }
        url
    }

    /// The first step of a request: derives the cache key and prepares the
    /// upstream call. Every path is accepted.
    pub fn begin(&self, path: &str, params: &Params) -> (lookup: Lookup)
        requires
            params.wf(),
        ensures
            lookup.wf(),
            plan_of(lookup) == wordpress_plan(path@, params@),
    {
        let key: String = derive_key("wp", path, params);
        let url: String = Self::url_for(path);
        Lookup { label: String::from_str("WordPress"), key, url, query: params.duplicate() }
    }
}

} // verus!
