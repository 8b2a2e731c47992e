use pibot::city::{autocomplete, cities_from_json, lookup, City};

fn sample_cities() -> Vec<City> {
    vec![
        City {
            name: "London".to_owned(),
            lon: "-0.1257".to_owned(),
            lat: "51.5085".to_owned(),
            country: "GB".to_owned(),
        },
        City {
            name: "Lisbon".to_owned(),
            lon: "-9.1333".to_owned(),
            lat: "38.7167".to_owned(),
            country: "PT".to_owned(),
        },
        City {
            name: "Berlin".to_owned(),
            lon: "13.4105".to_owned(),
            lat: "52.5244".to_owned(),
            country: "DE".to_owned(),
        },
    ]
}

#[test]
fn lookup_finds_every_listed_city() {
    let cities = sample_cities();
    for city in &cities {
        let found = lookup(&cities, &city.name);
        assert!(found.is_some());
        assert_eq!(found.unwrap().name, city.name);
    }
}

#[test]
fn lookup_returns_fields_of_the_match() {
    let cities = sample_cities();
    let c = lookup(&cities, "London").unwrap();
    assert_eq!(c.lat, "51.5085");
    assert_eq!(c.lon, "-0.1257");
    assert_eq!(c.country, "GB");
}

#[test]
fn lookup_absent_query_is_not_found() {
    let cities = sample_cities();
    assert!(lookup(&cities, "Paris").is_none());
    assert!(lookup(&cities, "").is_none());
}

#[test]
fn lookup_is_case_sensitive() {
    let cities = sample_cities();
    assert!(lookup(&cities, "london").is_none());
    assert!(lookup(&cities, "LONDON").is_none());
}

#[test]
fn autocomplete_is_case_insensitive_substring() {
    let cities = sample_cities();
    let lower = autocomplete(&cities, "lon");
    assert!(lower.contains(&"London".to_owned()));
    let upper = autocomplete(&cities, "LON");
    assert_eq!(lower, upper);
}

#[test]
fn autocomplete_matches_country_codes() {
    let cities = sample_cities();
    let by_country = autocomplete(&cities, "gb");
    assert_eq!(by_country, vec!["London".to_owned()]);
}

#[test]
fn autocomplete_is_restartable() {
    let cities = sample_cities();
    let first = autocomplete(&cities, "li");
    let second = autocomplete(&cities, "li");
    assert_eq!(first, second);
    assert_eq!(first, vec!["Lisbon".to_owned(), "Berlin".to_owned()]);
}

#[test]
fn autocomplete_empty_partial_lists_everything() {
    let cities = sample_cities();
    let all = autocomplete(&cities, "");
    assert_eq!(
        all,
        vec!["London".to_owned(), "Lisbon".to_owned(), "Berlin".to_owned()]
    );
}

#[test]
fn cities_load_from_json_text() {
    let text = r#"[
        {"name": "London", "lon": "-0.1257", "lat": "51.5085", "country": "GB"},
        {"name": "Berlin", "lon": "13.4105", "lat": "52.5244", "country": "DE"}
    ]"#;
    let cities = cities_from_json(text).unwrap();
    assert_eq!(cities.len(), 2);
    assert_eq!(cities[0].name, "London");
    assert_eq!(cities[0].lat, "51.5085");
    assert_eq!(cities[1].country, "DE");
}

#[test]
fn cities_refuse_malformed_text() {
    assert!(cities_from_json("not json").is_none());
    assert!(cities_from_json("{\"name\": \"London\"}").is_none());
    assert!(cities_from_json("[{\"name\": \"London\"}]").is_none());
    assert!(cities_from_json("[{\"name\": 5, \"lon\": \"1\", \"lat\": \"2\", \"country\": \"GB\"}]").is_none());
}
