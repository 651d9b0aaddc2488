use indexer_sync::error::Error;
use indexer_sync::indexer::{IndexerPrivacy, SourceIndexer};
use indexer_sync::jackett::Indexer;
use indexer_sync::znab::Capability;

fn catalog_record(potato_enabled: bool) -> Indexer {
    Indexer {
        id: "tracker".to_string(),
        name: "Tracker".to_string(),
        potato_enabled,
        privacy: IndexerPrivacy::SemiPrivate,
        capabilities: vec![Capability::new("5000".to_string(), "TV".to_string())],
    }
}

#[test]
fn feeds_are_served_below_the_api() {
    let d = catalog_record(true).into_discovered("http://localhost:9117/api/v2.0/", "key 1").unwrap();
    let t = d.urls.torznab.as_ref().unwrap();
    assert_eq!(t.url, "http://localhost:9117/api/v2.0/indexers/tracker/results/torznab");
    assert_eq!(t.api_key.as_deref(), Some("key 1"));
    assert_eq!(t.capabilities.len(), 1);
    let p = d.urls.potato.as_ref().unwrap();
    assert_eq!(p.url, "http://localhost:9117/api/v2.0/indexers/tracker/results/potato");
    assert_eq!(d.urls.rss.as_ref().unwrap().0, "http://localhost:9117/api/v2.0/rss?api_key=key+1");
    assert!(d.urls.newznab.is_none());
    assert_eq!(d.name, "Tracker");
    assert_eq!(d.privacy, IndexerPrivacy::SemiPrivate);
    assert_eq!(d.source, SourceIndexer::Jackett(catalog_record(true)));
}

#[test]
fn potato_feed_only_when_enabled() {
    let d = catalog_record(false).into_discovered("http://localhost:9117/api/v2.0/", "k").unwrap();
    assert!(d.urls.potato.is_none());
}

#[test]
fn no_feeds_below_a_base_that_does_not_parse() {
    assert!(catalog_record(false).into_discovered("not a url", "k").is_none());
}

#[test]
fn error_message() {
    assert_eq!(Error("Save rejected".to_string()).to_string(), "Save rejected");
}
