//! The reconciliation engine: for each discovered indexer it decides which
//! record of the media manager to update, or which template to create one
//! from, and fills the record from the indexer's feed. Sending the record is
//! left to the caller, which reports back what the manager answered.
use vstd::prelude::*;
use vstd::string::*;

use crate::indexer::{FeedUrls, Indexer};
use crate::search::{first_where, is_first, lemma_first_where_at, lemma_first_where_none};
use crate::sonarr::{
    is_known, known_records, records, Implementation, IndexerRecord, SonarrIndexer,
};
use crate::text::{chars_of, contains, find_in};
use crate::znab::{bucket_of, numeric_ids, Bucket, Capabilities, Capability, Ids};

verus! {

/// The implementation that an indexer's feeds select, looked for in a fixed
/// order: Newznab, then Torznab, then RSS. `None` where it has none of them.
pub open spec fn chosen_implementation(urls: FeedUrls) -> Option<Implementation> {
    if urls.newznab is Some {
        Some(Implementation::Newznab)
    } else if urls.torznab is Some {
        Some(Implementation::Torznab)
    } else if urls.rss is Some {
        Some(Implementation::TorrentRssIndexer)
    } else {
        None
    }
}

/// The name that the manager's record of a discovered indexer carries: its
/// display name, then its identifying token in braces.
pub open spec fn target_name(ind: Indexer) -> Seq<char> {
    ind.name@ + " {"@ + ind.source.token() + "}"@
}

pub open spec fn key_text(key: Option<String>) -> Seq<char> {
    match key {
        Some(k) => k@,
        None => Seq::empty(),
    }
}

/// A record filled from a Newznab or Torznab feed.
pub open spec fn with_znab_feed(
    base: IndexerRecord,
    key: Option<String>,
    url: String,
    caps: Seq<Capability>,
) -> IndexerRecord {
    IndexerRecord {
        api_key: key_text(key),
        url: url@,
        categories: numeric_ids(bucket_of(caps, Bucket::Series)),
        anime_categories: numeric_ids(bucket_of(caps, Bucket::Anime)),
        ..base
    }
}

/// The record `base` filled from the indexer's selected feed and named for it.
pub open spec fn populated(base: IndexerRecord, ind: Indexer) -> IndexerRecord {
    let filled = if let Some(feed) = ind.urls.newznab {
        with_znab_feed(base, feed.api_key, feed.url, feed.capabilities@)
    } else if let Some(feed) = ind.urls.torznab {
        with_znab_feed(base, feed.api_key, feed.url, feed.capabilities@)
    } else if let Some(feed) = ind.urls.rss {
        IndexerRecord { url: feed.0@, ..base }
    } else {
        base
    };
    IndexerRecord { name: target_name(ind), ..filled }
}

/// A record that stands for the indexer with this token and implementation.
pub open spec fn is_match(token: Seq<char>, imp: Implementation) -> spec_fn(IndexerRecord) -> bool {
    |r: IndexerRecord| contains(r.name, token) && r.implementation == imp
}

pub open spec fn of_implementation(imp: Implementation) -> spec_fn(IndexerRecord) -> bool {
    |r: IndexerRecord| r.implementation == imp
}

/// What the engine does for one discovered indexer.
pub enum Decision {
    /// The indexer has no feed that the manager can use.
    Skip,
    /// The existing record at this position is updated to this record.
    Update(nat, IndexerRecord),
    /// This record, made from a template, is created.
    Create(IndexerRecord),
    /// No template of the implementation is on offer.
    MissingSchema(Implementation),
}

/// The decision for a discovered indexer, against the manager's records and
/// templates: the first record that carries the indexer's token in its name
/// and has the selected implementation is updated; failing that, the first
/// template of the implementation is filled in to create one.
pub open spec fn decide(
    existing: Seq<IndexerRecord>,
    schemas: Seq<IndexerRecord>,
    ind: Indexer,
) -> Decision {
    match chosen_implementation(ind.urls) {
        None => Decision::Skip,
        Some(imp) => match first_where(existing, is_match(ind.source.token(), imp)) {
            Some(i) => Decision::Update(i as nat, populated(existing[i], ind)),
            None => match first_where(schemas, of_implementation(imp)) {
                Some(j) => Decision::Create(populated(schemas[j], ind)),
                None => Decision::MissingSchema(imp),
            },
        },
    }
}

/// Two discovered indexers with the same display name and different
/// identifying tokens get records of different names.
pub proof fn lemma_distinct_tokens_distinct_names(a: Indexer, b: Indexer)
    requires
        a.name@ == b.name@,
        a.source.token() != b.source.token(),
    ensures
        target_name(a) != target_name(b),
{
    reveal_strlit(" {");
    reveal_strlit("}");
    let ta = a.source.token();
    let tb = b.source.token();
    let start: int = a.name@.len() as int + 2;
    if ta.len() == tb.len() {
        assert(target_name(a).subrange(start, start + ta.len() as int) =~= ta);
        assert(target_name(b).subrange(start, start + tb.len() as int) =~= tb);
    } else {
        assert(target_name(a).len() != target_name(b).len());
    }
}

/// Why a discovered indexer could not be reconciled.
#[derive(Clone, Copy, Debug, PartialEq, Eq, Structural)]
pub enum ReconcileError {
    /// The manager offers no template of this implementation.
    MissingSchema(Implementation),
}

/// A record to send to the manager. `slot` is the position of the existing
/// record that it updates, `None` where it is a new one.
#[derive(Debug)]
pub struct Upsert {
    pub slot: Option<usize>,
    pub record: SonarrIndexer,
}

/// How a record is sent: created, or updated under its id.
#[derive(Clone, Copy, Debug, PartialEq, Eq, Structural)]
pub enum UpsertKind {
    Create,
    Update(usize),
}

/// Sends a record with an id as an update of that id, and one without as a
/// creation.
pub fn upsert_kind(record: &SonarrIndexer) -> (k: UpsertKind)
    ensures
        k == match record.id {
            Some(id) => UpsertKind::Update(id),
            None => UpsertKind::Create,
        },
{
    match record.id {
        Some(id) => UpsertKind::Update(id),
        None => UpsertKind::Create,
    }
}

/// What the manager's answer to an upsert means for the engine.
#[derive(Clone, Copy, Debug, PartialEq, Eq, Structural)]
pub enum SaveOutcome {
    /// Created or accepted: the record in the answer replaces the one sent.
    Adopt,
    /// Saved, nothing to take over.
    Saved,
    /// The manager refused the record; its answer says why.
    Rejected,
    /// The manager failed.
    Failed,
}

pub open spec fn outcome_of(status: u16) -> SaveOutcome {
    if 200 <= status <= 299 {
        if status == 201 || status == 202 {
            SaveOutcome::Adopt
        } else {
            SaveOutcome::Saved
        }
    } else if 400 <= status <= 499 {
        SaveOutcome::Rejected
    } else if 500 <= status <= 599 {
        SaveOutcome::Failed
    } else {
        SaveOutcome::Saved
    }
}

/// Reads the HTTP status of the manager's answer to an upsert.
pub fn save_outcome(status: u16) -> (r: SaveOutcome)
    ensures
        r == outcome_of(status),
{
    if 200 <= status && status <= 299 {
        if status == 201 || status == 202 {
            SaveOutcome::Adopt
        } else {
            SaveOutcome::Saved
        }
    } else if 400 <= status && status <= 499 {
        SaveOutcome::Rejected
    } else if 500 <= status && status <= 599 {
        SaveOutcome::Failed
    } else {
        SaveOutcome::Saved
    }
}

/// The implementation that the feeds select.
pub fn selected_implementation(urls: &FeedUrls) -> (r: Option<Implementation>)
    ensures
        r == chosen_implementation(*urls),
{
    if urls.newznab.is_some() {
        Some(Implementation::Newznab)
    } else if urls.torznab.is_some() {
        Some(Implementation::Torznab)
    } else if urls.rss.is_some() {
        Some(Implementation::TorrentRssIndexer)
    } else {
        None
    }
}

/// The name that the manager's record of the indexer carries.
pub fn target_name_of(ind: &Indexer) -> (r: String)
    ensures
        r@ == target_name(*ind),
{
    let token = ind.source.name_id();
    let mut name = ind.name.clone();
    name.append(" {");
    name.append(token.as_str());
    name.append("}");
    name
}

fn key_or_empty(key: &Option<String>) -> (r: String)
    ensures
        r@ == key_text(*key),
{
    match key {
        Some(k) => k.clone(),
        None => String::new(),
    }
}

fn fill_from_znab(r: &mut SonarrIndexer, key: &Option<String>, url: &String, caps: &Vec<Capability>)
    ensures
        final(r)@ == with_znab_feed(old(r)@, *key, *url, caps@),
{
    let series = caps.series();
    let anime = caps.anime();
    let series_ids: Vec<usize> = series.ids();
    let anime_ids: Vec<usize> = anime.ids();
    r.api_key = key_or_empty(key);
    r.url = url.clone();
    r.categories = series_ids;
    r.anime_categories = anime_ids;
}

/// The record `base` filled from the indexer's selected feed and named for it.
pub fn populate(base: &SonarrIndexer, ind: &Indexer) -> (r: SonarrIndexer)
    ensures
        r@ == populated(base@, *ind),
{
    let mut r = base.duplicate();
    if let Some(feed) = &ind.urls.newznab {
        fill_from_znab(&mut r, &feed.api_key, &feed.url, &feed.capabilities);
    } else if let Some(feed) = &ind.urls.torznab {
        fill_from_znab(&mut r, &feed.api_key, &feed.url, &feed.capabilities);
    } else if let Some(feed) = &ind.urls.rss {
        r.url = feed.0.clone();
    }
    r.name = target_name_of(ind);
    r
}

/// The position of the first record that carries the token in its name and
/// has the implementation.
pub fn position_of_match(existing: &Vec<SonarrIndexer>, token: &String, imp: Implementation) -> (r:
    Option<usize>)
    ensures
        match r {
            Some(i) => first_where(records(existing@), is_match(token@, imp)) == Some(i as int),
            None => first_where(records(existing@), is_match(token@, imp)) is None,
        },
{
    let ghost views = records(existing@);
    let ghost pred = is_match(token@, imp);
    let needle = chars_of(token.as_str());
    let mut i: usize = 0;
    while i < existing.len()
        invariant
            i <= existing.len(),
            views == records(existing@),
            pred == is_match(token@, imp),
            needle@ == token@,
            forall|j: int| 0 <= j < i ==> !pred(#[trigger] views[j]),
        decreases existing.len() - i,
    {
        let name = chars_of(existing[i].name.as_str());
        if existing[i].implementation == imp && find_in(&name, &needle) {
            proof {
                assert(is_first(views, pred, i as int));
                lemma_first_where_at(views, pred, i as int);
            }
            return Some(i);
        }
        assert(!pred(views[i as int]));
        i += 1;
    }
    proof {
        lemma_first_where_none(views, pred);
    }
    None
}

/// The templates from which the manager creates records.
#[derive(Debug)]
pub struct IndexerSchemas(pub Vec<SonarrIndexer>);

impl IndexerSchemas {
    /// The first template of the implementation.
    pub fn find(&self, kind: Implementation) -> (r: Option<&SonarrIndexer>)
        ensures
            match first_where(records(self.0@), of_implementation(kind)) {
                Some(j) => r is Some && r->Some_0@ == records(self.0@)[j],
                None => r is None,
            },
    {
        let ghost views = records(self.0@);
        let ghost pred = of_implementation(kind);
        let mut i: usize = 0;
        while i < self.0.len()
            invariant
                i <= self.0.len(),
                views == records(self.0@),
                pred == of_implementation(kind),
                forall|j: int| 0 <= j < i ==> !pred(#[trigger] views[j]),
            decreases self.0.len() - i,
        {
            if self.0[i].implementation == kind {
                proof {
                    assert(is_first(views, pred, i as int));
                    lemma_first_where_at(views, pred, i as int);
                }
                return Some(&self.0[i]);
            }
            i += 1;
        }
        proof {
            lemma_first_where_none(views, pred);
        }
        None
    }
}

/// One reconciliation run: the manager's records and templates as fetched
/// at its start. Records that the run creates are not added to them.
#[derive(Debug)]
pub struct Reconciler {
    pub existing: Vec<SonarrIndexer>,
    pub schemas: IndexerSchemas,
}

impl Reconciler {
    /// A run over the records and templates whose settings contract is known.
    pub fn new(existing: &Vec<SonarrIndexer>, schemas: &Vec<SonarrIndexer>) -> (r: Reconciler)
        ensures
            records(r.existing@) == records(existing@).filter(|x: IndexerRecord| is_known(x)),
            records(r.schemas.0@) == records(schemas@).filter(|x: IndexerRecord| is_known(x)),
    {
        Reconciler {
            existing: known_records(existing),
            schemas: IndexerSchemas(known_records(schemas)),
        }
    }

    /// Decides what to send for the discovered indexer. On the update path the
    /// run's copy of the existing record is updated too.
    pub fn plan(&mut self, indexer: &Indexer) -> (r: Result<Option<Upsert>, ReconcileError>)
        ensures
            final(self).schemas == old(self).schemas,
            match decide(records(old(self).existing@), records(old(self).schemas.0@), *indexer) {
                Decision::Skip => r matches Ok(None) && final(self).existing@ == old(
                    self,
                ).existing@,
                Decision::Update(i, rec) => r matches Ok(Some(u)) && u.slot == Some(i as usize)
                    && u.record@ == rec && records(final(self).existing@) == records(
                    old(self).existing@,
                ).update(i as int, rec),
                Decision::Create(rec) => r matches Ok(Some(u)) && u.slot is None && u.record@
                    == rec && final(self).existing@ == old(self).existing@,
                Decision::MissingSchema(imp) => r == Err::<Option<Upsert>, ReconcileError>(
                    ReconcileError::MissingSchema(imp),
                ) && final(self).existing@ == old(self).existing@,
            },
    {
        let imp = match selected_implementation(&indexer.urls) {
            Some(imp) => imp,
            None => {
                return Ok(None);
            },
        };
        let token = indexer.source.name_id();
        match position_of_match(&self.existing, &token, imp) {
            Some(i) => {
                let record = populate(&self.existing[i], indexer);
                let sent = record.duplicate();
                let ghost before = self.existing@;
                self.existing.set(i, record);
                assert(records(self.existing@) =~= records(before).update(i as int, sent@));
                Ok(Some(Upsert { slot: Some(i), record: sent }))
            },
            None => match self.schemas.find(imp) {
                Some(template) => Ok(Some(Upsert { slot: None, record: populate(template, indexer) })),
                None => Err(ReconcileError::MissingSchema(imp)),
            },
        }
    }

    /// Takes over the record that the manager answered with for an upsert,
    /// where it updated a record of the run.
    pub fn adopt(&mut self, slot: Option<usize>, saved: SonarrIndexer)
        ensures
            final(self).schemas == old(self).schemas,
            match slot {
                Some(i) if i < old(self).existing@.len() => final(self).existing@ == old(
                    self,
                ).existing@.update(i as int, saved),
                _ => final(self).existing@ == old(self).existing@,
            },
    {
        if let Some(i) = slot {
            if i < self.existing.len() {
                self.existing.set(i, saved);
            }
        }
    }
}

} // verus!
