//! The video upstream: its allow-list, its fixed parameters and its requests.

use vstd::prelude::*;
use vstd::string::*;
use crate::config::Config;
use crate::error::{AppError, Failure};
use crate::gateway::{plan_of, Lookup, Plan};
use crate::key::{derive_key, key_text};
use crate::params::Params;
use crate::text::{join, join_text, text_equal, texts_of};

verus! {

/// The resources that may be fetched, in the order in which they are listed.
pub open spec fn allowed_names() -> Seq<Seq<char>> {
    seq!["search"@, "videos"@, "channels"@, "playlists"@, "playlistItems"@]
}

/// Where the upstream is reached.
pub open spec fn youtube_base() -> Seq<char> {
    "https://www.googleapis.com/youtube/v3"@
}

/// The name under which this upstream's entries are filed in the cache.
pub open spec fn youtube_name() -> Seq<char> {
    "youtube"@
}

/// What this upstream is called in messages.
pub open spec fn youtube_label() -> Seq<char> {
    "YouTube"@
}

/// The message that turns away a resource that is not on the list.
pub open spec fn invalid_resource_text(resource: Seq<char>) -> Seq<char> {
    "Invalid resource: \""@ + resource + "\". Allowed: "@ + join_text(allowed_names(), ", "@)
}

/// The query sent upstream: the caller's parameters, with the service's own
/// `key` and `channelId` set over whatever the caller gave under those names.
pub open spec fn youtube_query(
    params: Map<Seq<char>, Seq<char>>,
    api_key: Seq<char>,
    channel_id: Seq<char>,
) -> Map<Seq<char>, Seq<char>> {
    params.insert("key"@, api_key).insert("channelId"@, channel_id)
}

/// What a request for `resource` with `params` leads to: a refusal where the
/// resource is not on the list, else the key to read and the call to make on a miss.
pub open spec fn youtube_plan(
    resource: Seq<char>,
    params: Map<Seq<char>, Seq<char>>,
    api_key: Seq<char>,
    channel_id: Seq<char>,
) -> Result<Plan, Failure> {
    if allowed_names().contains(resource) {
        Ok(
            Plan {
                label: youtube_label(),
                key: key_text(youtube_name(), "/"@ + resource, params),
                url: youtube_base() + "/"@ + resource,
                query: youtube_query(params, api_key, channel_id),
            },
        )
    } else {
        Err(Failure::Validation(invalid_resource_text(resource)))
    }
}

/// The cache-aside service in front of the video upstream.
#[derive(Debug, Clone)]
pub struct YouTubeService {
    config: Config,
}

impl YouTubeService {
    /// The settings this service was made with.
    pub closed spec fn config(&self) -> Config {
        self.config
    }

    /// The service that injects the credential and the channel of `config`.
    pub fn new(config: Config) -> (r: YouTubeService)
        ensures
            r.config() == config,
    {
        YouTubeService { config }
    }

    /// The allow-list.
    pub fn allowed_resources() -> (r: Vec<String>)
        ensures
            texts_of(r@) == allowed_names(),
    {
        let mut r: Vec<String> = Vec::new();
        r.push(String::from_str("search"));
        r.push(String::from_str("videos"));
        r.push(String::from_str("channels"));
        r.push(String::from_str("playlists"));
        r.push(String::from_str("playlistItems"));
        assert(texts_of(r@) =~= allowed_names());
        r
    }

    /// Accepts a resource of the allow-list and turns any other away,
    /// naming it and the list.
    pub fn validate_resource(resource: &str) -> (r: Result<(), AppError>)
        ensures
            r is Ok <==> allowed_names().contains(resource@),
            r matches Err(e) ==> e@ == Failure::Validation(invalid_resource_text(resource@)),
    {
        let allowed: Vec<String> = Self::allowed_resources();
        let n: usize = allowed.len();
        let mut i: usize = 0;
        while i < n
            invariant
                n == allowed@.len(),
                i <= n,
                texts_of(allowed@) == allowed_names(),
                forall|j: int| 0 <= j < i ==> allowed_names()[j] != resource@,
            decreases n - i,
        {
            proof {
                assert(texts_of(allowed@)[i as int] == allowed@[i as int]@);
            }
            if text_equal(allowed[i].as_str(), resource) {
                return Ok(());
            }
            i = i + 1;
        }
        let mut message: String = String::from_str("Invalid resource: \"");
        message.append(resource);
        message.append("\". Allowed: ");
        let list: String = join(&allowed, ", ");
        message.append(list.as_str());
        Err(AppError::Validation(message))
    }

    /// The first step of a request: validates the resource and, where it is
    /// allowed, derives the cache key and prepares the upstream call. Nothing
    /// is read, fetched or stored for a resource that is turned away.
    pub fn begin(&self, resource: &str, params: &Params) -> (r: Result<Lookup, AppError>)
        requires
            params.wf(),
        ensures
            match r {
                Ok(lookup) => lookup.wf() && youtube_plan(
                    resource@,
                    params@,
                    self.config().youtube_api_key@,
                    self.config().channel_id@,
                ) == Ok::<Plan, Failure>(plan_of(lookup)),
                Err(e) => youtube_plan(
                    resource@,
                    params@,
                    self.config().youtube_api_key@,
                    self.config().channel_id@,
                ) == Err::<Plan, Failure>(e@),
            },
    {
        match Self::validate_resource(resource) {
            Err(e) => Err(e),
            Ok(()) => {
                let mut endpoint: String = String::from_str("/");
                endpoint.append(resource);
                let key: String = derive_key("youtube", endpoint.as_str(), params);
                let mut url: String = String::from_str("https://www.googleapis.com/youtube/v3");
                url.append(endpoint.as_str());
                let mut query: Params = params.duplicate();
                query.insert(String::from_str("key"), self.config.youtube_api_key.clone());
                query.insert(String::from_str("channelId"), self.config.channel_id.clone());
                assert(url@ =~= youtube_base() + "/"@ + resource@);
                Ok(Lookup { label: String::from_str("YouTube"), key, url, query })
            },
        }
    }
}

} // verus!
