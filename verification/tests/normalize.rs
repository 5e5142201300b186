use moviebot::dates::CalDate;
use moviebot::dates::format_date;
use moviebot::dates::parse_release_date;
use moviebot::imdb::IdentityObj;
use moviebot::imdb::ImdbApiMovieInfo;
use moviebot::imdb::KeyValueObj;
use moviebot::imdb::MovieInfo;

fn full_provider_record() -> ImdbApiMovieInfo {
    ImdbApiMovieInfo {
        id: "tt0133093".to_string(),
        title: "The Matrix".to_string(),
        original_title: None,
        full_title: Some("The Matrix (1999)".to_string()),
        movie_type: Some("Movie".to_string()),
        year: Some("1999".to_string()),
        image: Some("https://example.org/poster.jpg".to_string()),
        release_date: Some("1999-03-31".to_string()),
        runtime_mins: Some("136".to_string()),
        plot: Some("A hacker learns the truth.".to_string()),
        plot_local: None,
        director_list: vec![
            IdentityObj { id: "nm1".to_string(), name: "Lana Wachowski".to_string() },
            IdentityObj { id: "nm2".to_string(), name: "Lilly Wachowski".to_string() },
        ],
        star_list: vec![IdentityObj { id: "nm3".to_string(), name: "Keanu Reeves".to_string() }],
        genre_list: vec![
            KeyValueObj { key: "g".to_string(), value: "Action".to_string() },
            KeyValueObj { key: "g".to_string(), value: "Sci-Fi".to_string() },
        ],
        country_list: vec![KeyValueObj { key: "c".to_string(), value: "USA".to_string() }],
        language_list: vec![KeyValueObj { key: "l".to_string(), value: "English".to_string() }],
        content_rating: Some("R".to_string()),
        imdb_rating: Some("8.7".to_string()),
        keyword_list: vec!["simulation".to_string()],
    }
}

fn empty_provider_record() -> ImdbApiMovieInfo {
    ImdbApiMovieInfo {
        id: "tt0000001".to_string(),
        title: "Bare".to_string(),
        original_title: None,
        full_title: None,
        movie_type: None,
        year: None,
        image: None,
        release_date: None,
        runtime_mins: None,
        plot: None,
        plot_local: None,
        director_list: Vec::new(),
        star_list: Vec::new(),
        genre_list: Vec::new(),
        country_list: Vec::new(),
        language_list: Vec::new(),
        content_rating: None,
        imdb_rating: None,
        keyword_list: Vec::new(),
    }
}

#[test]
fn full_record_normalizes_field_by_field() {
    let info = MovieInfo::from_provider(full_provider_record());
    assert_eq!(info.title, "The Matrix");
    assert_eq!(info.movie_type, "Movie");
    assert_eq!(info.year, Some(1999));
    assert_eq!(info.image, "https://example.org/poster.jpg");
    assert_eq!(info.release_date, Some(CalDate { year: 1999, month: 3, day: 31 }));
    assert_eq!(info.runtime, Some(136));
    assert_eq!(info.plot, "A hacker learns the truth.");
    assert_eq!(info.director_list, vec!["Lana Wachowski", "Lilly Wachowski"]);
    assert_eq!(info.star_list, vec!["Keanu Reeves"]);
    assert_eq!(info.genre_list, vec!["Action", "Sci-Fi"]);
    assert_eq!(info.country_list, vec!["USA"]);
    assert_eq!(info.language_list, vec!["English"]);
    assert_eq!(info.content_rating, "R");
    assert_eq!(info.imdb_rating.as_deref(), Some("8.7"));
    assert_eq!(info.imdb_link, "https://www.imdb.com/title/tt0133093");
}

#[test]
fn absent_fields_stay_absent() {
    let info = MovieInfo::from_provider(empty_provider_record());
    assert_eq!(info.movie_type, "");
    assert_eq!(info.year, None);
    assert_eq!(info.image, "");
    assert_eq!(info.release_date, None);
    assert_eq!(info.runtime, None);
    assert_eq!(info.plot, "");
    assert!(info.director_list.is_empty());
    assert_eq!(info.content_rating, "");
    assert_eq!(info.imdb_rating, None);
    assert_eq!(info.imdb_link, "https://www.imdb.com/title/tt0000001");
}

#[test]
fn unparseable_numeric_text_is_dropped() {
    let mut raw = full_provider_record();
    raw.year = Some("199x".to_string());
    raw.runtime_mins = Some("".to_string());
    raw.imdb_rating = Some("N/A".to_string());
    raw.release_date = Some("31 March 1999".to_string());
    let info = MovieInfo::from_provider(raw);
    assert_eq!(info.year, None);
    assert_eq!(info.runtime, None);
    assert_eq!(info.imdb_rating, None);
    assert_eq!(info.release_date, None);
}

#[test]
fn release_dates_are_validated_by_the_calendar() {
    assert_eq!(
        parse_release_date("2015-09-05"),
        Some(CalDate { year: 2015, month: 9, day: 5 })
    );
    assert_eq!(parse_release_date("2015-02-30"), None);
    assert_eq!(parse_release_date("2016-02-29"), Some(CalDate { year: 2016, month: 2, day: 29 }));
    assert_eq!(parse_release_date("2015-02-29"), None);
    assert_eq!(parse_release_date("not a date"), None);
}

#[test]
fn dates_serialize_as_four_two_two() {
    assert_eq!(format_date(&CalDate { year: 1999, month: 3, day: 31 }), "1999-03-31");
    assert_eq!(format_date(&CalDate { year: 500, month: 1, day: 5 }), "0500-01-05");
}
