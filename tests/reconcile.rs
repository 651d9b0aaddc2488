use indexer_sync::indexer::{FeedUrls, Indexer, IndexerPrivacy, Newznab, SourceIndexer, Torznab, RSS};
use indexer_sync::jackett;
use indexer_sync::reconcile::{
    save_outcome, upsert_kind, IndexerSchemas, ReconcileError, Reconciler, SaveOutcome, UpsertKind,
};
use indexer_sync::sonarr::{ConfigContract, ConfiguredProtocol, Implementation, SonarrIndexer};
use indexer_sync::znab::Capability;

fn cap(id: &str, name: &str) -> Capability {
    Capability::new(id.to_string(), name.to_string())
}

fn source(id: &str) -> SourceIndexer {
    SourceIndexer::Jackett(jackett::Indexer {
        id: id.to_string(),
        name: "catalog name".to_string(),
        potato_enabled: false,
        privacy: IndexerPrivacy::Public,
        capabilities: vec![],
    })
}

fn no_feeds() -> FeedUrls {
    FeedUrls { potato: None, rss: None, torznab: None, newznab: None }
}

fn torznab_feed(url: &str, caps: Vec<Capability>) -> Torznab {
    Torznab { api_key: Some("tkey".to_string()), url: url.to_string(), capabilities: caps }
}

fn discovered(id: &str, name: &str, urls: FeedUrls) -> Indexer {
    Indexer { source: source(id), name: name.to_string(), urls, privacy: IndexerPrivacy::Private }
}

fn record(id: Option<usize>, name: &str, implementation: Implementation) -> SonarrIndexer {
    let (config_contract, protocol) = match implementation {
        Implementation::Newznab => (ConfigContract::NewznabSettings, ConfiguredProtocol::Usenet),
        Implementation::Torznab => (
            ConfigContract::TorznabSettings,
            ConfiguredProtocol::Torrent { minimum_seeders: 1, seed_ratio: None, seed_time: None, season_pack_seed_time: None },
        ),
        Implementation::TorrentRssIndexer => (
            ConfigContract::TorrentRssIndexerSettings,
            ConfiguredProtocol::Torrent { minimum_seeders: 1, seed_ratio: None, seed_time: None, season_pack_seed_time: None },
        ),
        Implementation::Other => (ConfigContract::Other, ConfiguredProtocol::Usenet),
    };
    SonarrIndexer {
        id,
        name: name.to_string(),
        api_key: String::new(),
        categories: vec![],
        anime_categories: vec![],
        url: "http://example.com/".to_string(),
        implementation,
        config_contract,
        protocol,
    }
}

fn templates() -> Vec<SonarrIndexer> {
    vec![
        record(None, "", Implementation::Torznab),
        record(None, "", Implementation::Newznab),
        record(None, "", Implementation::TorrentRssIndexer),
    ]
}

#[test]
fn torznab_only_indexer_is_created_from_the_template() {
    let mut run = Reconciler::new(&vec![], &vec![record(None, "", Implementation::Torznab)]);
    let caps = vec![cap("5000", "TV"), cap("5070", "Anime"), cap("6000", "XXX")];
    let urls = FeedUrls { torznab: Some(torznab_feed("http://j.test/t", caps)), ..no_feeds() };
    let ind = discovered("tracker", "Tracker", urls);
    let plan = run.plan(&ind).unwrap().unwrap();
    assert_eq!(plan.slot, None);
    assert_eq!(upsert_kind(&plan.record), UpsertKind::Create);
    assert_eq!(plan.record.implementation, Implementation::Torznab);
    assert_eq!(plan.record.categories, vec![5000]);
    assert_eq!(plan.record.anime_categories, vec![5070]);
    assert_eq!(plan.record.api_key, "tkey");
    assert_eq!(plan.record.url, "http://j.test/t");
    assert_eq!(plan.record.name, "Tracker {jackett:tracker}");
    assert!(run.existing.is_empty());
}

#[test]
fn matching_existing_record_is_updated_in_place() {
    let existing = vec![
        record(Some(3), "Other {jackett:other}", Implementation::Torznab),
        record(Some(7), "Old name {jackett:tracker}", Implementation::Torznab),
    ];
    let mut run = Reconciler::new(&existing, &templates());
    let urls = FeedUrls { torznab: Some(torznab_feed("http://j.test/new", vec![cap("5000", "TV")])), ..no_feeds() };
    let plan = run.plan(&discovered("tracker", "Tracker", urls)).unwrap().unwrap();
    assert_eq!(plan.slot, Some(1));
    assert_eq!(plan.record.id, Some(7));
    assert_eq!(upsert_kind(&plan.record), UpsertKind::Update(7));
    assert_eq!(plan.record.name, "Tracker {jackett:tracker}");
    assert_eq!(run.existing.len(), 2);
    assert_eq!(run.existing[1], plan.record);
    assert_eq!(run.existing[0].name, "Other {jackett:other}");
}

#[test]
fn match_needs_the_same_implementation() {
    let existing = vec![record(Some(7), "Tracker {jackett:tracker}", Implementation::Newznab)];
    let mut run = Reconciler::new(&existing, &templates());
    let urls = FeedUrls { torznab: Some(torznab_feed("http://j.test/t", vec![])), ..no_feeds() };
    let plan = run.plan(&discovered("tracker", "Tracker", urls)).unwrap().unwrap();
    assert_eq!(plan.slot, None);
    assert_eq!(plan.record.id, None);
}

#[test]
fn newznab_takes_precedence_over_torznab() {
    let mut run = Reconciler::new(&vec![], &templates());
    let urls = FeedUrls {
        torznab: Some(torznab_feed("http://j.test/torznab", vec![cap("1", "TV")])),
        newznab: Some(Newznab { api_key: None, url: "http://j.test/newznab".to_string(), capabilities: vec![cap("2", "TV")] }),
        rss: Some(RSS("http://j.test/rss".to_string())),
        potato: None,
    };
    let plan = run.plan(&discovered("t", "T", urls)).unwrap().unwrap();
    assert_eq!(plan.record.implementation, Implementation::Newznab);
    assert_eq!(plan.record.url, "http://j.test/newznab");
    assert_eq!(plan.record.api_key, "");
    assert_eq!(plan.record.categories, vec![2]);
}

#[test]
fn rss_feed_sets_only_the_url() {
    let mut tmpl = record(None, "", Implementation::TorrentRssIndexer);
    tmpl.api_key = "kept".to_string();
    tmpl.categories = vec![9];
    let mut run = Reconciler::new(&vec![], &vec![tmpl]);
    let urls = FeedUrls { rss: Some(RSS("http://j.test/rss?api_key=k".to_string())), ..no_feeds() };
    let plan = run.plan(&discovered("r", "R", urls)).unwrap().unwrap();
    assert_eq!(plan.record.implementation, Implementation::TorrentRssIndexer);
    assert_eq!(plan.record.url, "http://j.test/rss?api_key=k");
    assert_eq!(plan.record.api_key, "kept");
    assert_eq!(plan.record.categories, vec![9]);
    assert_eq!(plan.record.name, "R {jackett:r}");
}

#[test]
fn indexer_without_usable_feed_is_skipped() {
    let mut run = Reconciler::new(&vec![record(Some(1), "X {jackett:x}", Implementation::Torznab)], &templates());
    let urls = FeedUrls {
        potato: Some(indexer_sync::indexer::Potato { api_key: None, url: "http://j.test/p".to_string() }),
        ..no_feeds()
    };
    assert!(run.plan(&discovered("x", "X", urls)).unwrap().is_none());
    assert_eq!(run.existing.len(), 1);
}

#[test]
fn missing_template_is_an_error() {
    let mut run = Reconciler::new(&vec![], &vec![record(None, "", Implementation::Torznab)]);
    let urls = FeedUrls { rss: Some(RSS("http://j.test/rss".to_string())), ..no_feeds() };
    assert_eq!(
        run.plan(&discovered("x", "X", urls)).unwrap_err(),
        ReconcileError::MissingSchema(Implementation::TorrentRssIndexer)
    );
}

#[test]
fn same_display_name_different_sources_stay_apart() {
    let existing = vec![
        record(Some(1), "Tracker {jackett:1}", Implementation::Torznab),
        record(Some(2), "Tracker {jackett:2}", Implementation::Torznab),
    ];
    let mut run = Reconciler::new(&existing, &templates());
    let first = FeedUrls { torznab: Some(torznab_feed("http://j.test/1", vec![])), ..no_feeds() };
    let second = FeedUrls { torznab: Some(torznab_feed("http://j.test/2", vec![])), ..no_feeds() };
    let a = run.plan(&discovered("1", "Tracker", first)).unwrap().unwrap();
    let b = run.plan(&discovered("2", "Tracker", second)).unwrap().unwrap();
    assert_eq!(a.slot, Some(0));
    assert_eq!(b.slot, Some(1));
    assert_ne!(a.record.name, b.record.name);
    assert_eq!(a.record.name, "Tracker {jackett:1}");
    assert_eq!(b.record.name, "Tracker {jackett:2}");
}

#[test]
fn unknown_contracts_are_invisible() {
    let existing = vec![record(Some(5), "T {jackett:t}", Implementation::Other)];
    let run = Reconciler::new(&existing, &vec![record(None, "", Implementation::Other)]);
    assert!(run.existing.is_empty());
    assert!(run.schemas.0.is_empty());
}

#[test]
fn created_records_do_not_join_the_snapshot() {
    let mut run = Reconciler::new(&vec![], &templates());
    let urls = || FeedUrls { torznab: Some(torznab_feed("http://j.test/t", vec![])), ..no_feeds() };
    let first = run.plan(&discovered("t", "T", urls())).unwrap().unwrap();
    let mut saved = first.record.clone();
    saved.id = Some(11);
    run.adopt(first.slot, saved);
    let again = run.plan(&discovered("t", "T", urls())).unwrap().unwrap();
    assert_eq!(again.slot, None);
    assert_eq!(again.record.id, None);
}

#[test]
fn adopted_answer_replaces_the_updated_record() {
    let mut run = Reconciler::new(&vec![record(Some(2), "T {jackett:t}", Implementation::Torznab)], &templates());
    let urls = FeedUrls { torznab: Some(torznab_feed("http://j.test/t", vec![])), ..no_feeds() };
    let plan = run.plan(&discovered("t", "T", urls)).unwrap().unwrap();
    let mut answer = plan.record.clone();
    answer.api_key = "from manager".to_string();
    run.adopt(plan.slot, answer.clone());
    assert_eq!(run.existing[0], answer);
}

#[test]
fn schema_lookup_takes_the_first_of_a_kind() {
    let mut second = record(None, "second", Implementation::Torznab);
    second.api_key = "b".to_string();
    let schemas = IndexerSchemas(vec![record(None, "first", Implementation::Torznab), second]);
    assert_eq!(schemas.find(Implementation::Torznab).unwrap().name, "first");
    assert!(schemas.find(Implementation::Newznab).is_none());
}

#[test]
fn answer_statuses() {
    assert_eq!(save_outcome(201), SaveOutcome::Adopt);
    assert_eq!(save_outcome(202), SaveOutcome::Adopt);
    assert_eq!(save_outcome(200), SaveOutcome::Saved);
    assert_eq!(save_outcome(302), SaveOutcome::Saved);
    assert_eq!(save_outcome(400), SaveOutcome::Rejected);
    assert_eq!(save_outcome(499), SaveOutcome::Rejected);
    assert_eq!(save_outcome(500), SaveOutcome::Failed);
}

#[test]
fn name_id_is_the_source_token() {
    assert_eq!(source("42").name_id(), "jackett:42");
}
