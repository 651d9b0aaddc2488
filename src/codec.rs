//! The schema codec: between the manager's wire form, a record described by
//! a list of tagged fields, and the typed `SonarrIndexer`.
use vstd::prelude::*;

use crate::search::{first_where, is_first, lemma_first_where_at, lemma_first_where_none};
use crate::sonarr::{
    copy_numbers, ConfigContract, ConfiguredProtocol, Implementation, IndexerRecord, Protocol,
    SonarrIndexer,
};
use crate::weburl::{parse_url, url_parsed};

verus! {

/// One tagged entry of a wire record's field list. `Other` stands for every
/// tag that the codec does not know.
#[derive(Clone, Debug, PartialEq, Eq)]
#[allow(inconsistent_fields)]
pub enum Field {
    BaseUrl { value: String },
    ApiPath { value: String },
    ApiKey { value: String },
    Categories { value: Vec<usize> },
    AnimeCategories { value: Vec<usize> },
    MinimumSeeders { value: usize },
    AdditionalParameters { value: String },
    SeedRatio { value: Option<u32> },
    SeedTime { value: Option<usize> },
    SeasonPackSeedTime { value: Option<usize> },
    Other,
}

/// What a `Field` holds, as mathematical values.
#[allow(inconsistent_fields)]
pub enum FieldView {
    BaseUrl { value: Seq<char> },
    ApiPath { value: Seq<char> },
    ApiKey { value: Seq<char> },
    Categories { value: Seq<usize> },
    AnimeCategories { value: Seq<usize> },
    MinimumSeeders { value: usize },
    AdditionalParameters { value: Seq<char> },
    SeedRatio { value: Option<u32> },
    SeedTime { value: Option<usize> },
    SeasonPackSeedTime { value: Option<usize> },
    Other,
}

/// The tag of a field.
#[derive(Clone, Copy, Debug, PartialEq, Eq, Structural)]
pub enum FieldKind {
    BaseUrl,
    ApiPath,
    ApiKey,
    Categories,
    AnimeCategories,
    MinimumSeeders,
    AdditionalParameters,
    SeedRatio,
    SeedTime,
    SeasonPackSeedTime,
    Other,
}

impl View for Field {
    type V = FieldView;

    open spec fn view(&self) -> FieldView {
        match self {
            Field::BaseUrl { value } => FieldView::BaseUrl { value: value@ },
            Field::ApiPath { value } => FieldView::ApiPath { value: value@ },
            Field::ApiKey { value } => FieldView::ApiKey { value: value@ },
            Field::Categories { value } => FieldView::Categories { value: value@ },
            Field::AnimeCategories { value } => FieldView::AnimeCategories { value: value@ },
            Field::MinimumSeeders { value } => FieldView::MinimumSeeders { value: *value },
            Field::AdditionalParameters { value } => FieldView::AdditionalParameters {
                value: value@,
            },
            Field::SeedRatio { value } => FieldView::SeedRatio { value: *value },
            Field::SeedTime { value } => FieldView::SeedTime { value: *value },
            Field::SeasonPackSeedTime { value } => FieldView::SeasonPackSeedTime { value: *value },
            Field::Other => FieldView::Other,
        }
    }
}

pub open spec fn kind_of(f: FieldView) -> FieldKind {
    match f {
        FieldView::BaseUrl { .. } => FieldKind::BaseUrl,
        FieldView::ApiPath { .. } => FieldKind::ApiPath,
        FieldView::ApiKey { .. } => FieldKind::ApiKey,
        FieldView::Categories { .. } => FieldKind::Categories,
        FieldView::AnimeCategories { .. } => FieldKind::AnimeCategories,
        FieldView::MinimumSeeders { .. } => FieldKind::MinimumSeeders,
        FieldView::AdditionalParameters { .. } => FieldKind::AdditionalParameters,
        FieldView::SeedRatio { .. } => FieldKind::SeedRatio,
        FieldView::SeedTime { .. } => FieldKind::SeedTime,
        FieldView::SeasonPackSeedTime { .. } => FieldKind::SeasonPackSeedTime,
        FieldView::Other => FieldKind::Other,
    }
}

/// The manager's wire form of an indexer record.
#[derive(Clone, Debug, PartialEq, Eq)]
pub struct SonarrIndexerSchema {
    pub id: Option<usize>,
    pub config_contract: ConfigContract,
    pub enable_automatic_search: bool,
    pub enable_interactive_search: bool,
    pub enable_rss: bool,
    pub implementation: Implementation,
    pub protocol: Protocol,
    pub name: String,
    pub supports_rss: bool,
    pub supports_search: bool,
    pub fields: Vec<Field>,
}

/// What a `SonarrIndexerSchema` holds, as mathematical values.
pub struct SchemaView {
    pub id: Option<usize>,
    pub config_contract: ConfigContract,
    pub enable_automatic_search: bool,
    pub enable_interactive_search: bool,
    pub enable_rss: bool,
    pub implementation: Implementation,
    pub protocol: Protocol,
    pub name: Seq<char>,
    pub supports_rss: bool,
    pub supports_search: bool,
    pub fields: Seq<FieldView>,
}

impl View for SonarrIndexerSchema {
    type V = SchemaView;

    open spec fn view(&self) -> SchemaView {
        SchemaView {
            id: self.id,
            config_contract: self.config_contract,
            enable_automatic_search: self.enable_automatic_search,
            enable_interactive_search: self.enable_interactive_search,
            enable_rss: self.enable_rss,
            implementation: self.implementation,
            protocol: self.protocol,
            name: self.name@,
            supports_rss: self.supports_rss,
            supports_search: self.supports_search,
            fields: self.fields@.map_values(|f: Field| f@),
        }
    }
}

/// Whether a torrent record lacking a seed field fails to decode, or takes
/// the field's zero value.
#[derive(Clone, Copy, Debug, PartialEq, Eq, Structural)]
pub enum SeedFieldPolicy {
    Required,
    Defaulted,
}

/// The seed fields that a torrent record carries.
#[derive(Clone, Copy, Debug, PartialEq, Eq, Structural)]
pub enum SeedField {
    MinimumSeeders,
    SeedRatio,
    SeedTime,
    SeasonPackSeedTime,
}

/// Why a wire record could not be decoded.
#[derive(Clone, Copy, Debug, PartialEq, Eq, Structural)]
pub enum DecodeError {
    /// A torrent record lacks this seed field.
    MissingSeedField(SeedField),
}

/// The property of carrying the tag.
pub open spec fn has_kind(k: FieldKind) -> spec_fn(FieldView) -> bool {
    |f: FieldView| kind_of(f) == k
}

/// The first field of the list with the tag.
pub open spec fn first_of_kind(fields: Seq<FieldView>, k: FieldKind) -> Option<FieldView> {
    match first_where(fields, has_kind(k)) {
        Some(i) => Some(fields[i]),
        None => None,
    }
}

pub open spec fn base_url_of(fields: Seq<FieldView>) -> Seq<char> {
    match first_of_kind(fields, FieldKind::BaseUrl) {
        Some(FieldView::BaseUrl { value }) => value,
        _ => Seq::empty(),
    }
}

pub open spec fn api_key_of(fields: Seq<FieldView>) -> Seq<char> {
    match first_of_kind(fields, FieldKind::ApiKey) {
        Some(FieldView::ApiKey { value }) => value,
        _ => Seq::empty(),
    }
}

pub open spec fn categories_of(fields: Seq<FieldView>) -> Seq<usize> {
    match first_of_kind(fields, FieldKind::Categories) {
        Some(FieldView::Categories { value }) => value,
        _ => Seq::empty(),
    }
}

pub open spec fn anime_categories_of(fields: Seq<FieldView>) -> Seq<usize> {
    match first_of_kind(fields, FieldKind::AnimeCategories) {
        Some(FieldView::AnimeCategories { value }) => value,
        _ => Seq::empty(),
    }
}

pub open spec fn minimum_seeders_of(fields: Seq<FieldView>) -> Option<usize> {
    match first_of_kind(fields, FieldKind::MinimumSeeders) {
        Some(FieldView::MinimumSeeders { value }) => Some(value),
        _ => None,
    }
}

pub open spec fn seed_ratio_of(fields: Seq<FieldView>) -> Option<Option<u32>> {
    match first_of_kind(fields, FieldKind::SeedRatio) {
        Some(FieldView::SeedRatio { value }) => Some(value),
        _ => None,
    }
}

pub open spec fn seed_time_of(fields: Seq<FieldView>) -> Option<Option<usize>> {
    match first_of_kind(fields, FieldKind::SeedTime) {
        Some(FieldView::SeedTime { value }) => Some(value),
        _ => None,
    }
}

pub open spec fn season_pack_seed_time_of(fields: Seq<FieldView>) -> Option<Option<usize>> {
    match first_of_kind(fields, FieldKind::SeasonPackSeedTime) {
        Some(FieldView::SeasonPackSeedTime { value }) => Some(value),
        _ => None,
    }
}

/// The URL that a record falls back to where its base URL does not parse.
pub open spec fn default_url() -> Seq<char> {
    "http://example.com/"@
}

/// The URL that a decoded record holds for the base URL text.
pub open spec fn decoded_url(base: Seq<char>) -> Seq<char> {
    match url_parsed(base) {
        Some(u) => u,
        None => default_url(),
    }
}

/// The protocol that a wire record decodes to, or the first seed field that
/// a torrent record lacks where the policy requires them.
pub open spec fn decoded_protocol(
    s: SchemaView,
    policy: SeedFieldPolicy,
) -> Result<ConfiguredProtocol, DecodeError> {
    let f = s.fields;
    match s.protocol {
        Protocol::Usenet => Ok(ConfiguredProtocol::Usenet),
        Protocol::Torrent => {
            if policy == SeedFieldPolicy::Required && minimum_seeders_of(f) is None {
                Err(DecodeError::MissingSeedField(SeedField::MinimumSeeders))
            } else if policy == SeedFieldPolicy::Required && seed_ratio_of(f) is None {
                Err(DecodeError::MissingSeedField(SeedField::SeedRatio))
            } else if policy == SeedFieldPolicy::Required && seed_time_of(f) is None {
                Err(DecodeError::MissingSeedField(SeedField::SeedTime))
            } else if policy == SeedFieldPolicy::Required && season_pack_seed_time_of(f) is None {
                Err(DecodeError::MissingSeedField(SeedField::SeasonPackSeedTime))
            } else {
                Ok(
                    ConfiguredProtocol::Torrent {
                        minimum_seeders: match minimum_seeders_of(f) {
                            Some(n) => n,
                            None => 0,
                        },
                        seed_ratio: match seed_ratio_of(f) {
                            Some(v) => v,
                            None => None,
                        },
                        seed_time: match seed_time_of(f) {
                            Some(v) => v,
                            None => None,
                        },
                        season_pack_seed_time: match season_pack_seed_time_of(f) {
                            Some(v) => v,
                            None => None,
                        },
                    },
                )
            }
        },
    }
}

/// The typed record that a wire record decodes to.
pub open spec fn decode_view(
    s: SchemaView,
    policy: SeedFieldPolicy,
) -> Result<IndexerRecord, DecodeError> {
    match decoded_protocol(s, policy) {
        Err(e) => Err(e),
        Ok(protocol) => Ok(
            IndexerRecord {
                id: s.id,
                name: s.name,
                api_key: api_key_of(s.fields),
                categories: categories_of(s.fields),
                anime_categories: anime_categories_of(s.fields),
                url: decoded_url(base_url_of(s.fields)),
                implementation: s.implementation,
                config_contract: s.config_contract,
                protocol,
            },
        ),
    }
}

/// The fields that a record is encoded with.
pub open spec fn encoded_fields(r: IndexerRecord) -> Seq<FieldView> {
    let common = seq![
        FieldView::BaseUrl { value: r.url },
        FieldView::ApiPath { value: "/api"@ },
        FieldView::ApiKey { value: r.api_key },
        FieldView::Categories { value: r.categories },
        FieldView::AnimeCategories { value: r.anime_categories },
        FieldView::AdditionalParameters { value: Seq::empty() },
    ];
    match r.protocol {
        ConfiguredProtocol::Usenet => common,
        ConfiguredProtocol::Torrent {
            minimum_seeders,
            seed_ratio,
            seed_time,
            season_pack_seed_time,
        } => common + seq![
            FieldView::MinimumSeeders { value: minimum_seeders },
            FieldView::SeedRatio { value: seed_ratio },
            FieldView::SeedTime { value: seed_time },
            FieldView::SeasonPackSeedTime { value: season_pack_seed_time },
        ],
    }
}

/// The wire record that a typed record encodes to; the indexer is always
/// fully enabled.
pub open spec fn encode_view(r: IndexerRecord) -> SchemaView {
    SchemaView {
        id: r.id,
        config_contract: r.config_contract,
        enable_automatic_search: true,
        enable_interactive_search: true,
        enable_rss: true,
        implementation: r.implementation,
        protocol: match r.protocol {
            ConfiguredProtocol::Torrent { .. } => Protocol::Torrent,
            ConfiguredProtocol::Usenet => Protocol::Usenet,
        },
        name: r.name,
        supports_rss: true,
        supports_search: true,
        fields: encoded_fields(r),
    }
}

fn field_kind(f: &Field) -> (k: FieldKind)
    ensures
        k == kind_of(f@),
{
    match f {
        Field::BaseUrl { .. } => FieldKind::BaseUrl,
        Field::ApiPath { .. } => FieldKind::ApiPath,
        Field::ApiKey { .. } => FieldKind::ApiKey,
        Field::Categories { .. } => FieldKind::Categories,
        Field::AnimeCategories { .. } => FieldKind::AnimeCategories,
        Field::MinimumSeeders { .. } => FieldKind::MinimumSeeders,
        Field::AdditionalParameters { .. } => FieldKind::AdditionalParameters,
        Field::SeedRatio { .. } => FieldKind::SeedRatio,
        Field::SeedTime { .. } => FieldKind::SeedTime,
        Field::SeasonPackSeedTime { .. } => FieldKind::SeasonPackSeedTime,
        Field::Other => FieldKind::Other,
    }
}

/// The position of the first field with the tag.
pub fn position_of_kind(fields: &Vec<Field>, k: FieldKind) -> (r: Option<usize>)
    ensures
        match r {
            Some(i) => i < fields@.len() && first_of_kind(fields@.map_values(|f: Field| f@), k)
                == Some(fields@[i as int]@),
            None => first_of_kind(fields@.map_values(|f: Field| f@), k) is None,
        },
{
    let ghost views = fields@.map_values(|f: Field| f@);
    let ghost pred = has_kind(k);
    let mut i: usize = 0;
    while i < fields.len()
        invariant
            i <= fields.len(),
            views == fields@.map_values(|f: Field| f@),
            pred == has_kind(k),
            forall|j: int| 0 <= j < i ==> !pred(#[trigger] views[j]),
        decreases fields.len() - i,
    {
        if field_kind(&fields[i]) == k {
            proof {
                assert(is_first(views, pred, i as int));
                lemma_first_where_at(views, pred, i as int);
            }
            return Some(i);
        }
        i += 1;
    }
    proof {
        lemma_first_where_none(views, pred);
    }
    None
}

fn text_field(fields: &Vec<Field>, k: FieldKind) -> (r: String)
    ensures
        k == FieldKind::BaseUrl ==> r@ == base_url_of(fields@.map_values(|f: Field| f@)),
        k == FieldKind::ApiKey ==> r@ == api_key_of(fields@.map_values(|f: Field| f@)),
{
    match position_of_kind(fields, k) {
        Some(i) => match &fields[i] {
            Field::BaseUrl { value } => value.clone(),
            Field::ApiKey { value } => value.clone(),
            _ => String::new(),
        },
        None => String::new(),
    }
}

fn numbers_field(fields: &Vec<Field>, k: FieldKind) -> (r: Vec<usize>)
    ensures
        k == FieldKind::Categories ==> r@ == categories_of(fields@.map_values(|f: Field| f@)),
        k == FieldKind::AnimeCategories ==> r@ == anime_categories_of(
            fields@.map_values(|f: Field| f@),
        ),
{
    match position_of_kind(fields, k) {
        Some(i) => match &fields[i] {
            Field::Categories { value } => copy_numbers(value),
            Field::AnimeCategories { value } => copy_numbers(value),
            _ => Vec::new(),
        },
        None => Vec::new(),
    }
}

fn minimum_seeders_field(fields: &Vec<Field>) -> (r: Option<usize>)
    ensures
        r == minimum_seeders_of(fields@.map_values(|f: Field| f@)),
{
    match position_of_kind(fields, FieldKind::MinimumSeeders) {
        Some(i) => match &fields[i] {
            Field::MinimumSeeders { value } => Some(*value),
            _ => None,
        },
        None => None,
    }
}

fn seed_ratio_field(fields: &Vec<Field>) -> (r: Option<Option<u32>>)
    ensures
        r == seed_ratio_of(fields@.map_values(|f: Field| f@)),
{
    match position_of_kind(fields, FieldKind::SeedRatio) {
        Some(i) => match &fields[i] {
            Field::SeedRatio { value } => Some(*value),
            _ => None,
        },
        None => None,
    }
}

fn seed_time_field(fields: &Vec<Field>, k: FieldKind) -> (r: Option<Option<usize>>)
    ensures
        k == FieldKind::SeedTime ==> r == seed_time_of(fields@.map_values(|f: Field| f@)),
        k == FieldKind::SeasonPackSeedTime ==> r == season_pack_seed_time_of(
            fields@.map_values(|f: Field| f@),
        ),
{
    match position_of_kind(fields, k) {
        Some(i) => match &fields[i] {
            Field::SeedTime { value } => Some(*value),
            Field::SeasonPackSeedTime { value } => Some(*value),
            _ => None,
        },
        None => None,
    }
}

fn decode_protocol(s: &SonarrIndexerSchema, policy: SeedFieldPolicy) -> (r: Result<
    ConfiguredProtocol,
    DecodeError,
>)
    ensures
        r == decoded_protocol(s@, policy),
{
    match s.protocol {
        Protocol::Usenet => Ok(ConfiguredProtocol::Usenet),
        Protocol::Torrent => {
            let required = policy == SeedFieldPolicy::Required;
            let minimum_seeders = minimum_seeders_field(&s.fields);
            let seed_ratio = seed_ratio_field(&s.fields);
            let seed_time = seed_time_field(&s.fields, FieldKind::SeedTime);
            let season_pack_seed_time = seed_time_field(&s.fields, FieldKind::SeasonPackSeedTime);
            if required && minimum_seeders.is_none() {
                return Err(DecodeError::MissingSeedField(SeedField::MinimumSeeders));
            }
            if required && seed_ratio.is_none() {
                return Err(DecodeError::MissingSeedField(SeedField::SeedRatio));
            }
            if required && seed_time.is_none() {
                return Err(DecodeError::MissingSeedField(SeedField::SeedTime));
            }
            if required && season_pack_seed_time.is_none() {
                return Err(DecodeError::MissingSeedField(SeedField::SeasonPackSeedTime));
            }
            Ok(
                ConfiguredProtocol::Torrent {
                    minimum_seeders: match minimum_seeders {
                        Some(n) => n,
                        None => 0,
                    },
                    seed_ratio: match seed_ratio {
                        Some(v) => v,
                        None => None,
                    },
                    seed_time: match seed_time {
                        Some(v) => v,
                        None => None,
                    },
                    season_pack_seed_time: match season_pack_seed_time {
                        Some(v) => v,
                        None => None,
                    },
                },
            )
        },
    }
}

/// The URL that a record falls back to where its base URL does not parse.
pub fn default_url_text() -> (r: String)
    ensures
        r@ == default_url(),
{
    String::from_str("http://example.com/")
}

/// Decodes a wire record under the policy: each known tag is read from the
/// first field that carries it, a missing one takes its zero value, unknown
/// tags are passed over, and a base URL that does not parse becomes
/// `http://example.com/`.
pub fn decode_with(s: &SonarrIndexerSchema, policy: SeedFieldPolicy) -> (r: Result<
    SonarrIndexer,
    DecodeError,
>)
    ensures
        match r {
            Ok(x) => decode_view(s@, policy) == Ok::<IndexerRecord, DecodeError>(x@),
            Err(e) => decode_view(s@, policy) == Err::<IndexerRecord, DecodeError>(e),
        },
{
    let protocol = match decode_protocol(s, policy) {
        Ok(p) => p,
        Err(e) => {
            return Err(e);
        },
    };
    let base_url = text_field(&s.fields, FieldKind::BaseUrl);
    let url = match parse_url(base_url.as_str()) {
        Some(u) => u,
        None => default_url_text(),
    };
    let r = SonarrIndexer {
        id: s.id,
        name: s.name.clone(),
        api_key: text_field(&s.fields, FieldKind::ApiKey),
        categories: numbers_field(&s.fields, FieldKind::Categories),
        anime_categories: numbers_field(&s.fields, FieldKind::AnimeCategories),
        url,
        implementation: s.implementation,
        config_contract: s.config_contract,
        protocol,
    };
    Ok(r)
}

/// Decodes a wire record; a torrent record must carry all four seed fields.
pub fn decode(s: &SonarrIndexerSchema) -> (r: Result<SonarrIndexer, DecodeError>)
    ensures
        match r {
            Ok(x) => decode_view(s@, SeedFieldPolicy::Required) == Ok::<
                IndexerRecord,
                DecodeError,
            >(x@),
            Err(e) => decode_view(s@, SeedFieldPolicy::Required) == Err::<
                IndexerRecord,
                DecodeError,
            >(e),
        },
{
    decode_with(s, SeedFieldPolicy::Required)
}

/// Encodes a typed record into the wire form.
pub fn encode(r: &SonarrIndexer) -> (s: SonarrIndexerSchema)
    ensures
        s@ == encode_view(r@),
{
    let mut fields: Vec<Field> = Vec::new();
    fields.push(Field::BaseUrl { value: r.url.clone() });
    fields.push(Field::ApiPath { value: String::from_str("/api") });
    fields.push(Field::ApiKey { value: r.api_key.clone() });
    fields.push(Field::Categories { value: copy_numbers(&r.categories) });
    fields.push(Field::AnimeCategories { value: copy_numbers(&r.anime_categories) });
    fields.push(Field::AdditionalParameters { value: String::new() });
    let protocol = match r.protocol {
        ConfiguredProtocol::Torrent {
            minimum_seeders,
            seed_ratio,
            seed_time,
            season_pack_seed_time,
        } => {
            fields.push(Field::MinimumSeeders { value: minimum_seeders });
            fields.push(Field::SeedRatio { value: seed_ratio });
            fields.push(Field::SeedTime { value: seed_time });
            fields.push(Field::SeasonPackSeedTime { value: season_pack_seed_time });
            Protocol::Torrent
        },
        ConfiguredProtocol::Usenet => Protocol::Usenet,
    };
    let s = SonarrIndexerSchema {
        id: r.id,
        config_contract: r.config_contract,
        enable_automatic_search: true,
        enable_interactive_search: true,
        enable_rss: true,
        implementation: r.implementation,
        protocol,
        name: r.name.clone(),
        supports_rss: true,
        supports_search: true,
        fields,
    };
    assert(s@.fields =~= encoded_fields(r@));
    s
}

/// Encoding a record and decoding the result gives the record back, its id
/// included, wherever the record's URL is already in the form that parsing
/// gives.
pub proof fn lemma_round_trip(r: IndexerRecord)
    requires
        url_parsed(r.url) == Some(r.url),
    ensures
        decode_view(encode_view(r), SeedFieldPolicy::Required) == Ok::<IndexerRecord, DecodeError>(
            r,
        ),
{
    let f = encoded_fields(r);
    lemma_first_where_at(f, has_kind(FieldKind::BaseUrl), 0);
    lemma_first_where_at(f, has_kind(FieldKind::ApiKey), 2);
    lemma_first_where_at(f, has_kind(FieldKind::Categories), 3);
    lemma_first_where_at(f, has_kind(FieldKind::AnimeCategories), 4);
    if let ConfiguredProtocol::Torrent { .. } = r.protocol {
        lemma_first_where_at(f, has_kind(FieldKind::MinimumSeeders), 6);
        lemma_first_where_at(f, has_kind(FieldKind::SeedRatio), 7);
        lemma_first_where_at(f, has_kind(FieldKind::SeedTime), 8);
        lemma_first_where_at(f, has_kind(FieldKind::SeasonPackSeedTime), 9);
    }
}

/// A torrent wire record without a seed time field fails to decode, and the
/// same record under the Usenet protocol decodes.
pub proof fn lemma_seed_time_required(s: SchemaView)
    requires
        s.protocol == Protocol::Torrent,
        forall|i: int| 0 <= i < s.fields.len() ==> kind_of(#[trigger] s.fields[i]) != FieldKind::SeedTime,
    ensures
        decode_view(s, SeedFieldPolicy::Required) is Err,
        decode_view((SchemaView { protocol: Protocol::Usenet, ..s }), SeedFieldPolicy::Required) is Ok,
{
    lemma_first_where_none(s.fields, has_kind(FieldKind::SeedTime));
}

} // verus!
