use indexer_sync::filter::is_synced;
use indexer_sync::text::parse_decimal;
use indexer_sync::znab::{belongs, exclude_anime, exclude_porn, Bucket, Capabilities, Capability, Ids};

fn cap(id: &str, name: &str) -> Capability {
    Capability::new(id.to_string(), name.to_string())
}

fn all_caps() -> Vec<Capability> {
    let names = [
        "TV", "TV/HD", "TV/SD", "TV/UHD", "TV/4K", "TV HD", "TV SD", "TV UHD", "TV 4K", "Movies",
        "Movies/HD", "Movies/SD", "Movies/UHD", "Movies/4K", "Movies HD", "Movies SD",
        "Movies UHD", "Movies 4K", "Films", "Film", "Anime", "Anime Cartoons", "Anime Dubbed",
        "Anime Subbed", "TV Anime", "TV/Anime", "XXX", "TV/XXX", "Movies/XXX", "Films/XXX",
        "XXX-Anime", "XXX Anime / Hentai", "Anime - Hentai",
    ];
    names.iter().enumerate().map(|(i, n)| cap(&(1000 + i).to_string(), n)).collect()
}

fn names(caps: &[Capability]) -> Vec<String> {
    caps.iter().map(|c| c.name().clone()).collect()
}

fn check(name: &str, included: &[Bucket], excluded: &[Bucket]) {
    let caps = all_caps();
    for (bucket, want) in included.iter().map(|b| (b, true)).chain(excluded.iter().map(|b| (b, false))) {
        let got = match bucket {
            Bucket::Series => caps.series(),
            Bucket::Movies => caps.movies(),
            Bucket::Anime => caps.anime(),
        };
        assert_eq!(names(&got).contains(&name.to_string()), want, "{} in {:?}", name, bucket);
    }
}

#[test]
fn tv_names_are_series_only() {
    for n in ["TV", "TV/HD", "TV/SD", "TV/UHD", "TV/4K", "TV HD", "TV SD", "TV UHD", "TV 4K"] {
        check(n, &[Bucket::Series], &[Bucket::Anime, Bucket::Movies]);
    }
}

#[test]
fn movie_names_are_movies_only() {
    for n in [
        "Movies", "Movies/HD", "Movies/SD", "Movies/UHD", "Movies/4K", "Movies HD", "Movies SD",
        "Movies UHD", "Movies 4K", "Films", "Film",
    ] {
        check(n, &[Bucket::Movies], &[Bucket::Anime, Bucket::Series]);
    }
}

#[test]
fn anime_names_are_anime_only() {
    for n in ["Anime", "Anime Cartoons", "Anime Dubbed", "Anime Subbed", "TV Anime", "TV/Anime"] {
        check(n, &[Bucket::Anime], &[Bucket::Series, Bucket::Movies]);
    }
}

#[test]
fn adult_names_are_in_no_bucket() {
    for n in ["XXX", "TV/XXX", "Movies/XXX", "Films/XXX", "XXX-Anime", "XXX Anime / Hentai", "Anime - Hentai"] {
        check(n, &[], &[Bucket::Anime, Bucket::Series, Bucket::Movies]);
    }
}

#[test]
fn buckets_keep_input_order() {
    let caps = vec![cap("1", "TV/HD"), cap("2", "Movies"), cap("3", "TV/SD"), cap("4", "tv anime")];
    assert_eq!(names(&caps.series()), vec!["TV/HD".to_string(), "TV/SD".to_string()]);
    assert_eq!(names(&caps.movies()), vec!["Movies".to_string()]);
    assert_eq!(names(&caps.anime()), vec!["tv anime".to_string()]);
}

#[test]
fn series_and_anime_never_share_a_capability() {
    let caps = all_caps();
    let series = names(&caps.series());
    let movies = names(&caps.movies());
    for a in names(&caps.anime()) {
        assert!(!series.contains(&a));
        assert!(!movies.contains(&a));
    }
}

#[test]
fn matching_ignores_ascii_case() {
    assert!(belongs(&cap("1", "EPISODES"), Bucket::Series));
    assert!(belongs(&cap("1", "sErIeS"), Bucket::Series));
    assert!(belongs(&cap("1", "MOVS"), Bucket::Movies));
    assert!(!belongs(&cap("1", "Documentary"), Bucket::Series));
    assert!(!belongs(&cap("1", "Documentary"), Bucket::Movies));
}

#[test]
fn tv_movies_lands_in_series_and_movies() {
    let c = cap("1", "TV Movies");
    assert!(belongs(&c, Bucket::Series));
    assert!(belongs(&c, Bucket::Movies));
}

#[test]
fn exclusion_filters() {
    assert!(!exclude_anime(&&cap("1", "TV/ANIME")));
    assert!(exclude_anime(&&cap("1", "TV/HD")));
    assert!(!exclude_porn(&&cap("1", "Adult Films")));
    assert!(!exclude_porn(&&cap("1", "p0rn PORN")));
    assert!(!exclude_porn(&&cap("1", "hentai")));
    assert!(exclude_porn(&&cap("1", "Movies")));
}

#[test]
fn numeric_ids_drop_the_rest_in_order() {
    let caps = vec![cap("5000", "TV"), cap("abc", "TV/HD"), cap("5040", "TV/SD"), cap("", "x"), cap("-3", "y"), cap("+7", "z")];
    let ids: Vec<usize> = caps.ids();
    assert_eq!(ids, vec![5000, 5040, 7]);
}

#[test]
fn string_ids_keep_everything() {
    let caps = vec![cap("5000", "TV"), cap("abc", "TV/HD")];
    let ids: Vec<String> = caps.ids();
    assert_eq!(ids, vec!["5000".to_string(), "abc".to_string()]);
}

#[test]
fn decimal_parsing_limits() {
    assert_eq!(parse_decimal("0"), Some(0));
    assert_eq!(parse_decimal("007"), Some(7));
    assert_eq!(parse_decimal("+"), None);
    assert_eq!(parse_decimal(""), None);
    assert_eq!(parse_decimal("12a"), None);
    assert_eq!(parse_decimal(&usize::MAX.to_string()), Some(usize::MAX));
    assert_eq!(parse_decimal("99999999999999999999999"), None);
    assert_eq!(parse_decimal("\u{663}"), None);
}

#[test]
fn name_filter_is_case_insensitive_substring() {
    let terms = vec!["rarbg".to_string(), "ÉCLAIR".to_string()];
    assert!(is_synced("RARBG Mirror", &terms));
    assert!(is_synced("Les éclairs", &terms));
    assert!(!is_synced("Nyaa", &terms));
    assert!(is_synced("Nyaa", &vec![]));
}
