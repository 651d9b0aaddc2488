//! Indexers as the tracker catalog discovers them, with their feeds.
use vstd::prelude::*;
use vstd::string::*;

use crate::jackett;
use crate::znab::Capability;

verus! {

/// Who may use a tracker.
#[derive(Clone, Copy, Debug, PartialEq, Eq, Structural)]
pub enum IndexerPrivacy {
    Public,
    Private,
    SemiPrivate,
}

/// The catalog that an indexer was discovered in, with its own record there.
#[derive(Debug, PartialEq, Eq)]
pub enum SourceIndexer {
    Jackett(jackett::Indexer),
}

impl SourceIndexer {
    /// The token that identifies the indexer from one run to the next.
    pub open spec fn token(&self) -> Seq<char> {
        match self {
            SourceIndexer::Jackett(ind) => "jackett:"@ + ind.id@,
        }
    }

    /// The token that identifies the indexer from one run to the next:
    /// `jackett:` followed by the catalog's identifier.
    pub fn name_id(&self) -> (r: String)
        ensures
            r@ == self.token(),
    {
        match self {
            SourceIndexer::Jackett(ind) => {
                let mut s = String::from_str("jackett:");
                s.append(ind.id.as_str());
                s
            },
        }
    }
}

/// A Torznab feed: its endpoint, key and categories.
#[derive(Debug, PartialEq, Eq)]
pub struct Torznab {
    pub api_key: Option<String>,
    pub url: String,
    pub capabilities: Vec<Capability>,
}

/// A Newznab feed: its endpoint, key and categories.
#[derive(Debug, PartialEq, Eq)]
pub struct Newznab {
    pub api_key: Option<String>,
    pub url: String,
    pub capabilities: Vec<Capability>,
}

/// A CouchPotato feed.
#[derive(Debug, PartialEq, Eq)]
pub struct Potato {
    pub api_key: Option<String>,
    pub url: String,
}

/// An RSS feed, by its URL.
#[derive(Debug, PartialEq, Eq)]
pub struct RSS(pub String);

/// The feeds through which an indexer can be reached.
#[derive(Debug, PartialEq, Eq)]
pub struct FeedUrls {
    pub potato: Option<Potato>,
    pub rss: Option<RSS>,
    pub torznab: Option<Torznab>,
    pub newznab: Option<Newznab>,
}

/// An indexer that a catalog discovered.
#[derive(Debug, PartialEq, Eq)]
pub struct Indexer {
    pub source: SourceIndexer,
    pub name: String,
    pub urls: FeedUrls,
    pub privacy: IndexerPrivacy,
}

} // verus!
