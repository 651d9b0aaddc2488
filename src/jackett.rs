//! Jackett, the tracker catalog: its indexer records and the feeds they give.
use vstd::prelude::*;
use vstd::string::*;

use crate::indexer::{self, FeedUrls, IndexerPrivacy, Potato, SourceIndexer, Torznab, RSS};
use crate::weburl::{append_query_pair, join_url, url_joined, url_with_query_pair};
use crate::znab::{copy_capabilities, Capability};

verus! {

/// An indexer as Jackett lists it.
#[derive(Debug, PartialEq, Eq)]
pub struct Indexer {
    pub id: String,
    pub name: String,
    pub potato_enabled: bool,
    pub privacy: IndexerPrivacy,
    pub capabilities: Vec<Capability>,
}

/// Where, below the API's URL, the Torznab results of an indexer are served.
pub open spec fn results_path(id: Seq<char>) -> Seq<char> {
    "indexers/"@ + id + "/results/torznab"@
}

pub open spec fn joined_to(base: Option<Seq<char>>, input: Seq<char>) -> Option<Seq<char>> {
    match base {
        Some(b) => url_joined(b, input),
        None => None,
    }
}

/// The URL of an indexer's Torznab feed.
pub open spec fn torznab_url(api: Seq<char>, id: Seq<char>) -> Option<Seq<char>> {
    joined_to(url_joined(api, results_path(id)), "torznab"@)
}

/// The URL of an indexer's CouchPotato feed.
pub open spec fn potato_url(api: Seq<char>, id: Seq<char>) -> Option<Seq<char>> {
    joined_to(url_joined(api, results_path(id)), "potato"@)
}

/// The URL of Jackett's RSS feed, keyed.
pub open spec fn rss_url(api: Seq<char>, key: Seq<char>) -> Option<Seq<char>> {
    match url_joined(api, "rss"@) {
        Some(u) => url_with_query_pair(u, "api_key"@, key),
        None => None,
    }
}

/// Whether every URL that the indexer's feeds need can be made.
pub open spec fn feeds_resolve(ind: Indexer, api: Seq<char>, key: Seq<char>) -> bool {
    &&& torznab_url(api, ind.id@) is Some
    &&& ind.potato_enabled ==> potato_url(api, ind.id@) is Some
    &&& rss_url(api, key) is Some
}

impl Indexer {
    /// The discovered indexer for this record, whose feeds are served below
    /// `api_url` under `feed_api_key`: a Torznab feed with the record's
    /// categories, an RSS feed, and a CouchPotato feed where the record has
    /// one enabled. `None` where one of their URLs cannot be made.
    pub fn into_discovered(self, api_url: &str, feed_api_key: &str) -> (r: Option<indexer::Indexer>)
        ensures
            r is Some <==> feeds_resolve(self, api_url@, feed_api_key@),
            r matches Some(d) ==> {
                &&& d.source == SourceIndexer::Jackett(self)
                &&& d.name == self.name
                &&& d.privacy == self.privacy
                &&& d.urls.newznab is None
                &&& (d.urls.torznab matches Some(t) && Some(t.url@) == torznab_url(
                    api_url@,
                    self.id@,
                ) && t.api_key is Some && t.api_key->Some_0@ == feed_api_key@
                    && t.capabilities@ == self.capabilities@)
                &&& (d.urls.rss matches Some(RSS(u)) && Some(u@) == rss_url(api_url@, feed_api_key@))
                &&& if self.potato_enabled {
                    (d.urls.potato matches Some(p) && Some(p.url@) == potato_url(api_url@, self.id@)
                        && p.api_key is Some && p.api_key->Some_0@ == feed_api_key@)
                } else {
                    d.urls.potato is None
                }
            },
    {
        let mut path = String::from_str("indexers/");
        path.append(self.id.as_str());
        path.append("/results/torznab");
        let results = match join_url(api_url, path.as_str()) {
            Some(u) => u,
            None => {
                return None;
            },
        };
        let torznab = match join_url(results.as_str(), "torznab") {
            Some(u) => u,
            None => {
                return None;
            },
        };
        let potato = if self.potato_enabled {
            match join_url(results.as_str(), "potato") {
                Some(u) => Some(Potato { url: u, api_key: Some(String::from_str(feed_api_key)) }),
                None => {
                    return None;
                },
            }
        } else {
            None
        };
        let rss = match join_url(api_url, "rss") {
            Some(u) => match append_query_pair(u.as_str(), "api_key", feed_api_key) {
                Some(keyed) => keyed,
                None => {
                    return None;
                },
            },
            None => {
                return None;
            },
        };
        let capabilities = copy_capabilities(&self.capabilities);
        let name = self.name.clone();
        let privacy = self.privacy;
        Some(
            indexer::Indexer {
                name,
                urls: FeedUrls {
                    newznab: None,
                    torznab: Some(
                        Torznab {
                            url: torznab,
                            api_key: Some(String::from_str(feed_api_key)),
                            capabilities,
                        },
                    ),
                    potato,
                    rss: Some(RSS(rss)),
                },
                privacy,
                source: SourceIndexer::Jackett(self),
            },
        )
    }
}

} // verus!
