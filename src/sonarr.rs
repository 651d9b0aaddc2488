//! The media manager's indexer record, in its typed form.
use vstd::prelude::*;

verus! {

/// The protocol that the manager's wire form names beside the field list.
#[derive(Clone, Copy, Debug, PartialEq, Eq, Structural)]
pub enum Protocol {
    Torrent,
    Usenet,
}

/// The protocol of a record, with what a torrent indexer is configured with.
/// `seed_ratio` holds the bits of the ratio as a 32-bit IEEE-754 number; the
/// times are in minutes.
#[derive(Clone, Copy, Debug, PartialEq, Eq, Structural)]
pub enum ConfiguredProtocol {
    Torrent {
        minimum_seeders: usize,
        seed_ratio: Option<u32>,
        seed_time: Option<usize>,
        season_pack_seed_time: Option<usize>,
    },
    Usenet,
}

/// The kind of indexer that a record configures.
#[derive(Clone, Copy, Debug, PartialEq, Eq, Structural)]
pub enum Implementation {
    Torznab,
    Newznab,
    TorrentRssIndexer,
    Other,
}

/// The settings contract of a record; `Other` for one this library does not know.
#[derive(Clone, Copy, Debug, PartialEq, Eq, Structural)]
pub enum ConfigContract {
    TorznabSettings,
    NewznabSettings,
    TorrentRssIndexerSettings,
    Other,
}

/// An indexer record of the media manager. `url` holds the serialization of
/// the indexer's URL.
#[derive(Clone, Debug, PartialEq, Eq)]
pub struct SonarrIndexer {
    pub id: Option<usize>,
    pub name: String,
    pub api_key: String,
    pub categories: Vec<usize>,
    pub anime_categories: Vec<usize>,
    pub url: String,
    pub implementation: Implementation,
    pub config_contract: ConfigContract,
    pub protocol: ConfiguredProtocol,
}

/// What a `SonarrIndexer` holds, as mathematical values.
pub struct IndexerRecord {
    pub id: Option<usize>,
    pub name: Seq<char>,
    pub api_key: Seq<char>,
    pub categories: Seq<usize>,
    pub anime_categories: Seq<usize>,
    pub url: Seq<char>,
    pub implementation: Implementation,
    pub config_contract: ConfigContract,
    pub protocol: ConfiguredProtocol,
}

impl View for SonarrIndexer {
    type V = IndexerRecord;

    open spec fn view(&self) -> IndexerRecord {
        IndexerRecord {
            id: self.id,
            name: self.name@,
            api_key: self.api_key@,
            categories: self.categories@,
            anime_categories: self.anime_categories@,
            url: self.url@,
            implementation: self.implementation,
            config_contract: self.config_contract,
            protocol: self.protocol,
        }
    }
}

/// The views of a sequence of records.
pub open spec fn records(s: Seq<SonarrIndexer>) -> Seq<IndexerRecord> {
    s.map_values(|r: SonarrIndexer| r@)
}

/// Records whose settings contract this library knows.
pub open spec fn is_known(r: IndexerRecord) -> bool {
    r.config_contract != ConfigContract::Other
}

/// A copy of the numbers.
pub fn copy_numbers(v: &Vec<usize>) -> (r: Vec<usize>)
    ensures
        r@ == v@,
{
    let mut r: Vec<usize> = Vec::new();
    let mut i: usize = 0;
    while i < v.len()
        invariant
            i <= v.len(),
            r@ == v@.subrange(0, i as int),
        decreases v.len() - i,
    {
        r.push(v[i]);
        i += 1;
        assert(r@ =~= v@.subrange(0, i as int));
    }
    assert(r@ =~= v@);
    r
}

impl SonarrIndexer {
    /// A copy of the record.
    pub fn duplicate(&self) -> (r: SonarrIndexer)
        ensures
            r@ == self@,
    {
        SonarrIndexer {
            id: self.id,
            name: self.name.clone(),
            api_key: self.api_key.clone(),
            categories: copy_numbers(&self.categories),
            anime_categories: copy_numbers(&self.anime_categories),
            url: self.url.clone(),
            implementation: self.implementation,
            config_contract: self.config_contract,
            protocol: self.protocol,
        }
    }
}

/// The records whose settings contract is known, in their order; the others
/// are left out.
pub fn known_records(all: &Vec<SonarrIndexer>) -> (r: Vec<SonarrIndexer>)
    ensures
        records(r@) == records(all@).filter(|x: IndexerRecord| is_known(x)),
{
    let ghost pred = |x: IndexerRecord| is_known(x);
    let mut r: Vec<SonarrIndexer> = Vec::new();
    let mut i: usize = 0;
    while i < all.len()
        invariant
            i <= all.len(),
            pred == (|x: IndexerRecord| is_known(x)),
            records(r@) == records(all@.subrange(0, i as int)).filter(pred),
        decreases all.len() - i,
    {
        proof {
            reveal(Seq::filter);
            assert(records(all@.subrange(0, i + 1)).drop_last() =~= records(
                all@.subrange(0, i as int),
            ));
            assert(records(all@.subrange(0, i + 1)).last() == all@[i as int]@);
        }
        if all[i].config_contract != ConfigContract::Other {
            let ghost before = r@;
            r.push(all[i].duplicate());
            assert(records(r@) =~= records(before).push(all@[i as int]@));
        }
        i += 1;
    }
    assert(all@.subrange(0, all@.len() as int) =~= all@);
    r
}

} // verus!
