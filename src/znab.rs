//! The capability classifier: sorts a tracker's categories into the series,
//! movies and anime buckets, and reads their numeric identifiers.
use vstd::prelude::*;

use crate::text::{folded, mentions, mentions_word, parse_decimal, parse_usize};

verus! {

/// One category that a tracker offers, as the catalog names it.
#[derive(Clone, Debug, PartialEq, Eq)]
pub struct Capability {
    pub id: String,
    pub name: String,
}

impl Capability {
    pub fn new(id: String, name: String) -> (r: Capability)
        ensures
            r.id == id,
            r.name == name,
    {
        Capability { id, name }
    }

    pub fn name(&self) -> (r: &String)
        ensures
            *r == self.name,
    {
        &self.name
    }

    fn duplicate(&self) -> (r: Capability)
        ensures
            r == *self,
    {
        Capability { id: self.id.clone(), name: self.name.clone() }
    }
}

/// The buckets that a capability can be sorted into.
#[derive(Clone, Copy, Debug, PartialEq, Eq)]
pub enum Bucket {
    Series,
    Movies,
    Anime,
}

/// The name speaks of anime.
pub open spec fn is_anime(name: Seq<char>) -> bool {
    mentions(name, "anime"@)
}

/// The name speaks of adult content.
pub open spec fn is_adult(name: Seq<char>) -> bool {
    ||| mentions(name, "xxx"@)
    ||| mentions(name, "adult"@)
    ||| mentions(name, "porn"@)
    ||| mentions(name, "hentai"@)
}

pub open spec fn names_series(name: Seq<char>) -> bool {
    mentions(name, "tv"@) || mentions(name, "series"@) || mentions(name, "episodes"@)
}

pub open spec fn names_movies(name: Seq<char>) -> bool {
    mentions(name, "movie"@) || mentions(name, "film"@) || mentions(name, "movs"@)
}

/// Whether a capability of this name belongs in the bucket.
pub open spec fn in_bucket(name: Seq<char>, bucket: Bucket) -> bool {
    match bucket {
        Bucket::Series => names_series(name) && !is_anime(name) && !is_adult(name),
        Bucket::Movies => names_movies(name) && !is_anime(name) && !is_adult(name),
        Bucket::Anime => is_anime(name) && !is_adult(name),
    }
}

/// The capabilities of `caps` that belong in the bucket, in their order.
pub open spec fn bucket_of(caps: Seq<Capability>, bucket: Bucket) -> Seq<Capability> {
    caps.filter(|c: Capability| in_bucket(c.name@, bucket))
}

/// The identifiers of `caps` that parse as numbers, in their order.
pub open spec fn numeric_ids(caps: Seq<Capability>) -> Seq<usize>
    decreases caps.len(),
{
    if caps.len() == 0 {
        Seq::empty()
    } else {
        let rest = numeric_ids(caps.drop_last());
        match parse_usize(caps.last().id@) {
            Some(n) => rest.push(n),
            None => rest,
        }
    }
}

/// Keeps a capability that does not speak of anime.
pub fn exclude_anime(cap: &&Capability) -> (r: bool)
    ensures
        r == !is_anime(cap.name@),
{
    let name = folded(cap.name.as_str());
    !mentions_word(&name, "anime")
}

/// Keeps a capability that does not speak of adult content.
pub fn exclude_porn(cap: &&Capability) -> (r: bool)
    ensures
        r == !is_adult(cap.name@),
{
    let name = folded(cap.name.as_str());
    !(mentions_word(&name, "xxx") || mentions_word(&name, "adult") || mentions_word(&name, "porn")
        || mentions_word(&name, "hentai"))
}

fn names_bucket(cap: &Capability, bucket: Bucket) -> (r: bool)
    ensures
        r == match bucket {
            Bucket::Series => names_series(cap.name@),
            Bucket::Movies => names_movies(cap.name@),
            Bucket::Anime => is_anime(cap.name@),
        },
{
    let name = folded(cap.name.as_str());
    match bucket {
        Bucket::Series => mentions_word(&name, "tv") || mentions_word(&name, "series")
            || mentions_word(&name, "episodes"),
        Bucket::Movies => mentions_word(&name, "movie") || mentions_word(&name, "film")
            || mentions_word(&name, "movs"),
        Bucket::Anime => mentions_word(&name, "anime"),
    }
}

/// Whether the capability belongs in the bucket.
pub fn belongs(cap: &Capability, bucket: Bucket) -> (r: bool)
    ensures
        r == in_bucket(cap.name@, bucket),
{
    let named = names_bucket(cap, bucket);
    match bucket {
        Bucket::Anime => named && exclude_porn(&cap),
        _ => named && exclude_anime(&cap) && exclude_porn(&cap),
    }
}

/// The capabilities of `caps` that belong in the bucket, in their order.
pub fn select(caps: &Vec<Capability>, bucket: Bucket) -> (r: Vec<Capability>)
    ensures
        r@ == bucket_of(caps@, bucket),
{
    let ghost pred = |c: Capability| in_bucket(c.name@, bucket);
    let mut r: Vec<Capability> = Vec::new();
    let mut i: usize = 0;
    while i < caps.len()
        invariant
            i <= caps.len(),
            pred == (|c: Capability| in_bucket(c.name@, bucket)),
            r@ == caps@.subrange(0, i as int).filter(pred),
        decreases caps.len() - i,
    {
        let keep = belongs(&caps[i], bucket);
        proof {
            reveal(Seq::filter);
            assert(caps@.subrange(0, i + 1).drop_last() =~= caps@.subrange(0, i as int));
        }
        if keep {
            r.push(caps[i].duplicate());
        }
        i += 1;
    }
    assert(caps@.subrange(0, caps@.len() as int) =~= caps@);
    r
}

/// A copy of the capabilities.
pub fn copy_capabilities(caps: &Vec<Capability>) -> (r: Vec<Capability>)
    ensures
        r@ == caps@,
{
    let mut r: Vec<Capability> = Vec::new();
    let mut i: usize = 0;
    while i < caps.len()
        invariant
            i <= caps.len(),
            r@ == caps@.subrange(0, i as int),
        decreases caps.len() - i,
    {
        r.push(caps[i].duplicate());
        i += 1;
        assert(r@ =~= caps@.subrange(0, i as int));
    }
    assert(r@ =~= caps@);
    r
}

/// The identifiers of `caps` that parse as numbers, in their order.
pub fn numeric_id_list(caps: &Vec<Capability>) -> (r: Vec<usize>)
    ensures
        r@ == numeric_ids(caps@),
{
    let mut r: Vec<usize> = Vec::new();
    let mut i: usize = 0;
    while i < caps.len()
        invariant
            i <= caps.len(),
            r@ == numeric_ids(caps@.subrange(0, i as int)),
        decreases caps.len() - i,
    {
        let parsed = parse_decimal(caps[i].id.as_str());
        assert(caps@.subrange(0, i + 1).drop_last() =~= caps@.subrange(0, i as int));
        if let Some(n) = parsed {
            r.push(n);
        }
        i += 1;
    }
    assert(caps@.subrange(0, caps@.len() as int) =~= caps@);
    r
}

/// Sorting a tracker's capabilities into buckets.
pub trait Capabilities {
    spec fn bucket_spec(&self, bucket: Bucket) -> Seq<Capability>;

    fn series(&self) -> (r: Vec<Capability>)
        ensures
            r@ == self.bucket_spec(Bucket::Series),
    ;

    fn movies(&self) -> (r: Vec<Capability>)
        ensures
            r@ == self.bucket_spec(Bucket::Movies),
    ;

    fn anime(&self) -> (r: Vec<Capability>)
        ensures
            r@ == self.bucket_spec(Bucket::Anime),
    ;
}

impl Capabilities for Vec<Capability> {
    open spec fn bucket_spec(&self, bucket: Bucket) -> Seq<Capability> {
        bucket_of(self@, bucket)
    }

    fn series(&self) -> (r: Vec<Capability>) {
        select(self, Bucket::Series)
    }

    fn movies(&self) -> (r: Vec<Capability>) {
        select(self, Bucket::Movies)
    }

    fn anime(&self) -> (r: Vec<Capability>) {
        select(self, Bucket::Anime)
    }
}

/// Reading the identifiers of capabilities.
pub trait Ids<T> {
    spec fn ids_spec(&self) -> Seq<T>;

    fn ids(&self) -> (r: Vec<T>)
        ensures
            r@ == self.ids_spec(),
    ;
}

impl Ids<String> for Vec<Capability> {
    open spec fn ids_spec(&self) -> Seq<String> {
        self@.map_values(|c: Capability| c.id)
    }

    fn ids(&self) -> (r: Vec<String>) {
        let mut r: Vec<String> = Vec::new();
        let mut i: usize = 0;
        while i < self.len()
            invariant
                i <= self.len(),
                r@ == self@.subrange(0, i as int).map_values(|c: Capability| c.id),
            decreases self.len() - i,
        {
            r.push(self[i].id.clone());
            i += 1;
            assert(r@ =~= self@.subrange(0, i as int).map_values(|c: Capability| c.id));
        }
        assert(self@.subrange(0, self@.len() as int) =~= self@);
        r
    }
}

impl Ids<usize> for Vec<Capability> {
    open spec fn ids_spec(&self) -> Seq<usize> {
        numeric_ids(self@)
    }

    fn ids(&self) -> (r: Vec<usize>) {
        numeric_id_list(self)
    }
}

/// No capability is both in the series bucket and in the anime bucket, nor
/// both in the movies bucket and in the anime bucket; a capability whose name
/// speaks of adult content is in no bucket.
pub proof fn lemma_buckets_disjoint(caps: Seq<Capability>, c: Capability)
    ensures
        bucket_of(caps, Bucket::Series).contains(c) ==> !bucket_of(caps, Bucket::Anime).contains(c),
        bucket_of(caps, Bucket::Movies).contains(c) ==> !bucket_of(caps, Bucket::Anime).contains(c),
        is_adult(c.name@) ==> forall|b: Bucket| !(#[trigger] bucket_of(caps, b)).contains(c),
{
    assert forall|b: Bucket| #[trigger] bucket_of(caps, b).contains(c) implies in_bucket(
        c.name@,
        b,
    ) by {
        let pred = |x: Capability| in_bucket(x.name@, b);
        let i = choose|i: int| 0 <= i < caps.filter(pred).len() && caps.filter(pred)[i] == c;
        caps.lemma_filter_pred(pred, i);
    }
    assert(bucket_of(caps, Bucket::Series).contains(c) ==> in_bucket(c.name@, Bucket::Series));
    assert(bucket_of(caps, Bucket::Movies).contains(c) ==> in_bucket(c.name@, Bucket::Movies));
    assert(bucket_of(caps, Bucket::Anime).contains(c) ==> in_bucket(c.name@, Bucket::Anime));
}

} // verus!
