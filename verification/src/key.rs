//! Cache keys: one text per upstream, endpoint and parameter mapping.

use vstd::prelude::*;
use vstd::string::*;
use crate::json::{encode_json_string, json_string_text};
use crate::params::{
    canonical, is_canonical, lemma_canonical_unique, lemma_sorted_lookup, pairs_map, pairs_of,
    Pair, Params,
};
use crate::text::{join, join_text, texts_of};

verus! {

/// One member of a JSON object: the encoded name, a colon, the encoded value.
pub open spec fn member_text(p: Pair) -> Seq<char> {
    p.0 + ":"@ + p.1
}

/// The members of already encoded pairs.
pub open spec fn member_texts(encoded: Seq<Pair>) -> Seq<Seq<char>> {
    Seq::new(encoded.len(), |i: int| member_text(encoded[i]))
}

/// The key made of an upstream's name, an endpoint and the encoded pairs:
/// `name:endpoint:{"a":"1","b":"2"}`.
pub open spec fn key_from_members(
    upstream: Seq<char>,
    endpoint: Seq<char>,
    members: Seq<Seq<char>>,
) -> Seq<char> {
    upstream + ":"@ + endpoint + ":{"@ + join_text(members, ","@) + "}"@
}

/// Each name and each value as a JSON string literal.
pub open spec fn encoded_pairs(s: Seq<Pair>) -> Seq<Pair> {
    Seq::new(s.len(), |i: int| (json_string_text(s[i].0), json_string_text(s[i].1)))
}

/// The cache key of a request: a function of the mapping alone, whatever
/// the order in which its parameters arrived.
pub open spec fn key_text(
    upstream: Seq<char>,
    endpoint: Seq<char>,
    params: Map<Seq<char>, Seq<char>>,
) -> Seq<char> {
    key_from_members(upstream, endpoint, member_texts(encoded_pairs(canonical(params))))
}

/// Writes the key from members that are already JSON text, in the order given.
pub fn assemble_key(upstream: &str, endpoint: &str, members: &Vec<String>) -> (key: String)
    ensures
        key@ == key_from_members(upstream@, endpoint@, texts_of(members@)),
{
    let mut key: String = String::from_str(upstream);
    key.append(":");
    key.append(endpoint);
    key.append(":{");
    let body: String = join(members, ",");
    key.append(body.as_str());
    key.append("}");
    key
}

/// Joins an encoded name and an encoded value into one member.
pub fn member(name: &str, value: &str) -> (r: String)
    ensures
        r@ == member_text((name@, value@)),
{
    let mut r: String = String::from_str(name);
    r.append(":");
    r.append(value);
    r
}

/// Derives the cache key of `endpoint` at `upstream` with `params`.
pub fn derive_key(upstream: &str, endpoint: &str, params: &Params) -> (key: String)
    requires
        params.wf(),
    ensures
        key@ == key_text(upstream@, endpoint@, params@),
{
    let entries = params.entries();
    let n: usize = entries.len();
    let mut members: Vec<String> = Vec::new();
    let mut i: usize = 0;
    proof {
        params.lemma_pairs_canonical();
    }
    let ghost want = member_texts(encoded_pairs(canonical(params@)));
    while i < n
        invariant
            n == entries@.len(),
            n == want.len(),
            i <= n,
            members@.len() == i,
            pairs_of(entries@) == canonical(params@),
            want == member_texts(encoded_pairs(canonical(params@))),
            forall|j: int| 0 <= j < i ==> members@[j]@ == want[j],
        decreases n - i,
    {
        let name: String = encode_json_string(entries[i].name.as_str());
        let value: String = encode_json_string(entries[i].value.as_str());
        proof {
            assert(pairs_of(entries@)[i as int] == entries@[i as int]@);
        }
        members.push(member(name.as_str(), value.as_str()));
        i = i + 1;
    }
    proof {
        assert(texts_of(members@) =~= want);
    }
    assemble_key(upstream, endpoint, &members)
}

/// The key of a mapping is written from any listing of it by growing name.
pub proof fn lemma_key_of_listing(
    upstream: Seq<char>,
    endpoint: Seq<char>,
    listing: Seq<Pair>,
    params: Map<Seq<char>, Seq<char>>,
)
    requires
        is_canonical(listing, params),
    ensures
        key_text(upstream, endpoint, params) == key_from_members(
            upstream,
            endpoint,
            member_texts(encoded_pairs(listing)),
        ),
{
    lemma_canonical_unique(listing, params);
}

/// The key of a request with no parameters.
pub proof fn lemma_key_of_none(upstream: Seq<char>, endpoint: Seq<char>)
    ensures
        key_text(upstream, endpoint, Map::<Seq<char>, Seq<char>>::empty()) == upstream + ":"@
            + endpoint + ":{"@ + "}"@,
{
    let listing = Seq::<Pair>::empty();
    assert(pairs_map(listing) =~= Map::<Seq<char>, Seq<char>>::empty());
    lemma_key_of_listing(upstream, endpoint, listing, Map::<Seq<char>, Seq<char>>::empty());
    assert(member_texts(encoded_pairs(listing)).len() == 0);
    assert(upstream + ":"@ + endpoint + ":{"@ + Seq::<char>::empty() =~= upstream + ":"@
        + endpoint + ":{"@);
}

/// The key of a request with one parameter.
pub proof fn lemma_key_of_one(
    upstream: Seq<char>,
    endpoint: Seq<char>,
    name: Seq<char>,
    value: Seq<char>,
)
    ensures
        key_text(
            upstream,
            endpoint,
            Map::<Seq<char>, Seq<char>>::empty().insert(name, value),
        ) == upstream + ":"@ + endpoint + ":{"@ + (json_string_text(name) + ":"@
            + json_string_text(value)) + "}"@,
{
    let params = Map::<Seq<char>, Seq<char>>::empty().insert(name, value);
    let listing: Seq<Pair> = seq![(name, value)];
    assert(listing[0].0 == name);
    lemma_sorted_lookup(listing, 0);
    assert(pairs_map(listing) =~= params);
    lemma_key_of_listing(upstream, endpoint, listing, params);
    let members = member_texts(encoded_pairs(listing));
    assert(members.len() == 1);
    assert(members[0] == json_string_text(name) + ":"@ + json_string_text(value));
}

/// Equal mappings have equal keys: the order in which the parameters of a
/// request were put in leaves no trace in its key.
pub proof fn lemma_key_ignores_insertion_order(
    upstream: Seq<char>,
    endpoint: Seq<char>,
    first: Params,
    second: Params,
)
    requires
        first.wf(),
        second.wf(),
        first@ =~= second@,
    ensures
        first.pairs() == second.pairs(),
        key_text(upstream, endpoint, first@) == key_text(upstream, endpoint, second@),
{
    first.lemma_pairs_canonical();
    second.lemma_pairs_canonical();
}

/// What a cache entry is filed under: an endpoint and its parameters.
#[derive(Debug)]
pub struct CacheKey {
    pub endpoint: String,
    pub params: Params,
}

impl CacheKey {
    /// The text of this key in the name space of `upstream`.
    pub fn text(&self, upstream: &str) -> (key: String)
        requires
            self.params.wf(),
        ensures
            key@ == key_text(upstream@, self.endpoint@, self.params@),
    {
        derive_key(upstream, self.endpoint.as_str(), &self.params)
    }
}

} // verus!
