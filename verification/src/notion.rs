//! The document-store client model: page-reference parsing, the fixed
//! collection schema, the record mapper, and failure classification.
//!
//! The HTTP transfer and the JSON wire format are external collaborators; this
//! module owns what is decided: which page a collection is created under, the
//! schema it is created with, exactly which properties a record carries, and
//! how each store response is classified.

use crate::dates::CalDate;
use crate::error::BotError;
use crate::error::Cause;
use crate::imdb::MovieInfo;
use crate::text::after_last_hyphen;
use crate::text::ends_with_spec;
use crate::text::last_hyphen_piece;
use crate::text::str_ends_with;
use crate::transcripts;
use crate::transcripts::Language;
use vstd::prelude::*;
use vstd::string::StringExecFns;

verus! {

#[derive(Debug, Clone, PartialEq, Eq)]
pub struct DatabaseObj {
    pub id: String,
}

/// The structured error body a non-2xx store response carries.
#[derive(Debug, Clone, PartialEq, Eq)]
pub struct NotionErrorObj {
    pub object: String,
    pub status: u16,
    pub code: String,
    pub message: String,
}

/// Whether `s` parses as an absolute URL.
pub uninterp spec fn url_parse_ok(s: Seq<char>) -> bool;

/// The domain of the URL `s`, when its host is a domain name.
pub uninterp spec fn url_domain_of(s: Seq<char>) -> Option<Seq<char>>;

/// The last path segment of the URL `s`, when it has a path to split.
pub uninterp spec fn url_last_segment_of(s: Seq<char>) -> Option<Seq<char>>;

/// What URL parsing found in a user-supplied reference.
enum UrlParts {
    NotAbsolute,
    NoDomain,
    Parsed { domain: String, last_segment: Option<String> },
}

/// Relies on `url::Url::parse` (the type reqwest re-exports): it returns
/// `Err` exactly when the input is not an absolute URL; on `Url::domain`,
/// which gives the host only when it is a domain name; and on
/// `Url::path_segments`, whose last element is the final path segment.
#[verifier::external_body]
fn split_absolute_url(input: &str) -> (r: UrlParts)
    ensures
        (r is NotAbsolute) == !url_parse_ok(input@),
        r is NoDomain ==> url_parse_ok(input@) && url_domain_of(input@) is None,
        r matches UrlParts::Parsed { domain, last_segment } ==> url_parse_ok(input@)
            && url_domain_of(input@) == Some(domain@) && last_segment.deep_view()
            == url_last_segment_of(input@),
{
    match reqwest::Url::parse(input) {
        Ok(url) => match url.domain() {
            Some(d) => {
                let domain = d.to_owned();
                let last_segment = url.path_segments().and_then(|sgm| sgm.last()).map(
                    |s: &str| s.to_owned(),
                );
                UrlParts::Parsed { domain, last_segment }
            },
            None => UrlParts::NoDomain,
        },
        Err(_) => UrlParts::NotAbsolute,
    }
}

/// The page identifier named by a user-supplied reference. Input that is not
/// an absolute URL is already a raw identifier and passes through unchanged;
/// a URL on the workspace domain names the identifier in the last
/// hyphen-delimited token of its final path segment; any other URL — on a
/// foreign domain, or without a domain or a path — names nothing.
pub open spec fn page_id_of(input: Seq<char>) -> Option<Seq<char>> {
    if !url_parse_ok(input) {
        Some(input)
    } else {
        match url_domain_of(input) {
            Some(domain) => if ends_with_spec(domain, "notion.so"@) {
                match url_last_segment_of(input) {
                    Some(seg) => Some(after_last_hyphen(seg)),
                    None => None,
                }
            } else {
                None
            },
            None => None,
        }
    }
}

pub fn get_notion_page_id_from_user_input(input: &str) -> (r: Option<String>)
    ensures
        r.deep_view() == page_id_of(input@),
{
    match split_absolute_url(input) {
        UrlParts::NotAbsolute => Some(input.to_owned()),
        UrlParts::NoDomain => None,
        UrlParts::Parsed { domain, last_segment } => {
            if str_ends_with(domain.as_str(), "notion.so") {
                match last_segment {
                    Some(seg) => Some(last_hyphen_piece(seg.as_str()).to_owned()),
                    None => None,
                }
            } else {
                None
            }
        },
    }
}

pub fn parse_notion_page_id_from_user_input(input: &str, fb_lang: Language) -> (r: Result<
    String,
    BotError,
>)
    ensures
        match page_id_of(input@) {
            Some(id) => r matches Ok(s) && s@ == id,
            None => r matches Err(BotError::FeedBack(c)) && c.message@
                == transcripts::invalid_notion_page_url_text(fb_lang) && c.source is None,
        },
{
    match get_notion_page_id_from_user_input(input) {
        Some(id) => Ok(id),
        None => Err(
            BotError::FeedBack(
                Cause {
                    message: String::from_str(transcripts::invalid_notion_page_url(fb_lang)),
                    source: None,
                },
            ),
        ),
    }
}

/// Law: reference parsing is idempotent on raw identifiers. Input that is not
/// an absolute URL comes back unchanged, so parsing what parsing returned
/// yields the same identifier again.
pub proof fn lemma_parse_reference_idempotent_on_raw_id(input: Seq<char>)
    requires
        !url_parse_ok(input),
    ensures
        page_id_of(input) == Some(input),
        page_id_of(input) matches Some(id) ==> page_id_of(id) == page_id_of(input),
{
}

/// The store's property names, as this system's fixed schema uses them.
#[derive(Debug, Clone, Copy, PartialEq, Eq, Structural)]
pub enum PropertyKey {
    Title,
    Type,
    Year,
    ReleaseDate,
    Runtime,
    Plot,
    Director,
    Star,
    Genre,
    Country,
    Language,
    ContentRating,
    ImdbRating,
    ImdbLink,
}

pub open spec fn key_name_text(k: PropertyKey) -> Seq<char> {
    match k {
        PropertyKey::Title => "Title"@,
        PropertyKey::Type => "Type"@,
        PropertyKey::Year => "Year"@,
        PropertyKey::ReleaseDate => "Release Date"@,
        PropertyKey::Runtime => "Runtime"@,
        PropertyKey::Plot => "Plot"@,
        PropertyKey::Director => "Director"@,
        PropertyKey::Star => "Star"@,
        PropertyKey::Genre => "Genre"@,
        PropertyKey::Country => "Country"@,
        PropertyKey::Language => "Language"@,
        PropertyKey::ContentRating => "Content Rating"@,
        PropertyKey::ImdbRating => "IMDb Rating"@,
        PropertyKey::ImdbLink => "IMDb Link"@,
    }
}

pub fn key_name(k: PropertyKey) -> (r: &'static str)
    ensures
        r@ == key_name_text(k),
{
    match k {
        PropertyKey::Title => "Title",
        PropertyKey::Type => "Type",
        PropertyKey::Year => "Year",
        PropertyKey::ReleaseDate => "Release Date",
        PropertyKey::Runtime => "Runtime",
        PropertyKey::Plot => "Plot",
        PropertyKey::Director => "Director",
        PropertyKey::Star => "Star",
        PropertyKey::Genre => "Genre",
        PropertyKey::Country => "Country",
        PropertyKey::Language => "Language",
        PropertyKey::ContentRating => "Content Rating",
        PropertyKey::ImdbRating => "IMDb Rating",
        PropertyKey::ImdbLink => "IMDb Link",
    }
}

/// A property value in a store record, as plain values. The decimal rating
/// stays text here: only the process edge, outside this library, turns it
/// into the store's floating number.
#[derive(Debug, Clone, PartialEq, Eq)]
pub enum PropertyValue {
    TitleText(String),
    RichText(String),
    UrlText(String),
    UintNumber(u32),
    DecimalText(String),
    SelectName(String),
    MultiSelect(Vec<String>),
    DateValue(CalDate),
}

/// One record ready for insertion into a collection.
#[derive(Debug, Clone, PartialEq, Eq)]
pub struct StoreRecord {
    pub parent_database_id: String,
    pub cover: Option<String>,
    pub properties: Vec<(PropertyKey, PropertyValue)>,
}

/// The properties a record carries for `m`: a property appears exactly when
/// its source field is present, in fixed order, with Title and the canonical
/// link always emitted.
pub open spec fn page_properties_of(m: MovieInfo) -> Seq<(PropertyKey, PropertyValue)> {
    seq![(PropertyKey::Title, PropertyValue::TitleText(m.title))] + (if m.movie_type@.len() > 0 {
        seq![(PropertyKey::Type, PropertyValue::SelectName(m.movie_type))]
    } else {
        Seq::empty()
    }) + (match m.year {
        Some(y) => seq![(PropertyKey::Year, PropertyValue::UintNumber(y))],
        None => Seq::empty(),
    }) + (match m.release_date {
        Some(d) => seq![(PropertyKey::ReleaseDate, PropertyValue::DateValue(d))],
        None => Seq::empty(),
    }) + (match m.runtime {
        Some(rt) => seq![(PropertyKey::Runtime, PropertyValue::UintNumber(rt))],
        None => Seq::empty(),
    }) + (if m.plot@.len() > 0 {
        seq![(PropertyKey::Plot, PropertyValue::RichText(m.plot))]
    } else {
        Seq::empty()
    }) + (if m.director_list@.len() > 0 {
        seq![(PropertyKey::Director, PropertyValue::MultiSelect(m.director_list))]
    } else {
        Seq::empty()
    }) + (if m.star_list@.len() > 0 {
        seq![(PropertyKey::Star, PropertyValue::MultiSelect(m.star_list))]
    } else {
        Seq::empty()
    }) + (if m.genre_list@.len() > 0 {
        seq![(PropertyKey::Genre, PropertyValue::MultiSelect(m.genre_list))]
    } else {
        Seq::empty()
    }) + (if m.country_list@.len() > 0 {
        seq![(PropertyKey::Country, PropertyValue::MultiSelect(m.country_list))]
    } else {
        Seq::empty()
    }) + (if m.language_list@.len() > 0 {
        seq![(PropertyKey::Language, PropertyValue::MultiSelect(m.language_list))]
    } else {
        Seq::empty()
    }) + (if m.content_rating@.len() > 0 {
        seq![(PropertyKey::ContentRating, PropertyValue::RichText(m.content_rating))]
    } else {
        Seq::empty()
    }) + (match m.imdb_rating {
        Some(rr) => seq![(PropertyKey::ImdbRating, PropertyValue::DecimalText(rr))],
        None => Seq::empty(),
    }) + seq![(PropertyKey::ImdbLink, PropertyValue::UrlText(m.imdb_link))]
}

/// Builds the record inserted for one normalized item: every present field
/// becomes its property, every absent field is omitted entirely, and the
/// cover image is set only when the item has one.
#[verifier::rlimit(100)]
pub fn notion_create_page_body(db_id: String, movie_info: MovieInfo) -> (r: StoreRecord)
    ensures
        r.parent_database_id == db_id,
        r.cover == (if movie_info.image@.len() > 0 {
            Some(movie_info.image)
        } else {
            None::<String>
        }),
        r.properties@ == page_properties_of(movie_info),
{
    let ghost m = movie_info;
    let MovieInfo {
        title,
        movie_type,
        year,
        image,
        release_date,
        runtime,
        plot,
        director_list,
        star_list,
        genre_list,
        country_list,
        language_list,
        content_rating,
        imdb_rating,
        imdb_link,
    } = movie_info;
    let cover = if image.as_str().is_empty() {
        None
    } else {
        Some(image)
    };
    let mut props: Vec<(PropertyKey, PropertyValue)> = Vec::new();
    let ghost mut expected: Seq<(PropertyKey, PropertyValue)> = seq![
        (PropertyKey::Title, PropertyValue::TitleText(m.title)),
    ];
    props.push((PropertyKey::Title, PropertyValue::TitleText(title)));
    proof {
        assert(props@ =~= expected);
    }
    if !movie_type.as_str().is_empty() {
        props.push((PropertyKey::Type, PropertyValue::SelectName(movie_type)));
        proof {
            lemma_push_is_append(
                expected,
                (PropertyKey::Type, PropertyValue::SelectName(m.movie_type)),
            );
        }
    } else {
        proof {
            lemma_append_empty(expected);
        }
    }
    proof {
        expected = expected + (if m.movie_type@.len() > 0 {
            seq![(PropertyKey::Type, PropertyValue::SelectName(m.movie_type))]
        } else {
            Seq::empty()
        });
        assert(props@ == expected);
    }
    if let Some(y) = year {
        props.push((PropertyKey::Year, PropertyValue::UintNumber(y)));
        proof {
            lemma_push_is_append(expected, (PropertyKey::Year, PropertyValue::UintNumber(y)));
        }
    } else {
        proof {
            lemma_append_empty(expected);
        }
    }
    proof {
        expected = expected + (match m.year {
            Some(y) => seq![(PropertyKey::Year, PropertyValue::UintNumber(y))],
            None => Seq::empty(),
        });
        assert(props@ == expected);
    }
    if let Some(d) = release_date {
        props.push((PropertyKey::ReleaseDate, PropertyValue::DateValue(d)));
        proof {
            lemma_push_is_append(
                expected,
                (PropertyKey::ReleaseDate, PropertyValue::DateValue(d)),
            );
        }
    } else {
        proof {
            lemma_append_empty(expected);
        }
    }
    proof {
        expected = expected + (match m.release_date {
            Some(d) => seq![(PropertyKey::ReleaseDate, PropertyValue::DateValue(d))],
            None => Seq::empty(),
        });
        assert(props@ == expected);
    }
    if let Some(rt) = runtime {
        props.push((PropertyKey::Runtime, PropertyValue::UintNumber(rt)));
        proof {
            lemma_push_is_append(expected, (PropertyKey::Runtime, PropertyValue::UintNumber(rt)));
        }
    } else {
        proof {
            lemma_append_empty(expected);
        }
    }
    proof {
        expected = expected + (match m.runtime {
            Some(rt) => seq![(PropertyKey::Runtime, PropertyValue::UintNumber(rt))],
            None => Seq::empty(),
        });
        assert(props@ == expected);
    }
    if !plot.as_str().is_empty() {
        props.push((PropertyKey::Plot, PropertyValue::RichText(plot)));
        proof {
            lemma_push_is_append(expected, (PropertyKey::Plot, PropertyValue::RichText(m.plot)));
        }
    } else {
        proof {
            lemma_append_empty(expected);
        }
    }
    proof {
        expected = expected + (if m.plot@.len() > 0 {
            seq![(PropertyKey::Plot, PropertyValue::RichText(m.plot))]
        } else {
            Seq::empty()
        });
        assert(props@ == expected);
    }
    if director_list.len() > 0 {
        props.push((PropertyKey::Director, PropertyValue::MultiSelect(director_list)));
        proof {
            lemma_push_is_append(
                expected,
                (PropertyKey::Director, PropertyValue::MultiSelect(m.director_list)),
            );
        }
    } else {
        proof {
            lemma_append_empty(expected);
        }
    }
    proof {
        expected = expected + (if m.director_list@.len() > 0 {
            seq![(PropertyKey::Director, PropertyValue::MultiSelect(m.director_list))]
        } else {
            Seq::empty()
        });
        assert(props@ == expected);
    }
    if star_list.len() > 0 {
        props.push((PropertyKey::Star, PropertyValue::MultiSelect(star_list)));
        proof {
            lemma_push_is_append(
                expected,
                (PropertyKey::Star, PropertyValue::MultiSelect(m.star_list)),
            );
        }
    } else {
        proof {
            lemma_append_empty(expected);
        }
    }
    proof {
        expected = expected + (if m.star_list@.len() > 0 {
            seq![(PropertyKey::Star, PropertyValue::MultiSelect(m.star_list))]
        } else {
            Seq::empty()
        });
        assert(props@ == expected);
    }
    if genre_list.len() > 0 {
        props.push((PropertyKey::Genre, PropertyValue::MultiSelect(genre_list)));
        proof {
            lemma_push_is_append(
                expected,
                (PropertyKey::Genre, PropertyValue::MultiSelect(m.genre_list)),
            );
        }
    } else {
        proof {
            lemma_append_empty(expected);
        }
    }
    proof {
        expected = expected + (if m.genre_list@.len() > 0 {
            seq![(PropertyKey::Genre, PropertyValue::MultiSelect(m.genre_list))]
        } else {
            Seq::empty()
        });
        assert(props@ == expected);
    }
    if country_list.len() > 0 {
        props.push((PropertyKey::Country, PropertyValue::MultiSelect(country_list)));
        proof {
            lemma_push_is_append(
                expected,
                (PropertyKey::Country, PropertyValue::MultiSelect(m.country_list)),
            );
        }
    } else {
        proof {
            lemma_append_empty(expected);
        }
    }
    proof {
        expected = expected + (if m.country_list@.len() > 0 {
            seq![(PropertyKey::Country, PropertyValue::MultiSelect(m.country_list))]
        } else {
            Seq::empty()
        });
        assert(props@ == expected);
    }
    if language_list.len() > 0 {
        props.push((PropertyKey::Language, PropertyValue::MultiSelect(language_list)));
        proof {
            lemma_push_is_append(
                expected,
                (PropertyKey::Language, PropertyValue::MultiSelect(m.language_list)),
            );
        }
    } else {
        proof {
            lemma_append_empty(expected);
        }
    }
    proof {
        expected = expected + (if m.language_list@.len() > 0 {
            seq![(PropertyKey::Language, PropertyValue::MultiSelect(m.language_list))]
        } else {
            Seq::empty()
        });
        assert(props@ == expected);
    }
    if !content_rating.as_str().is_empty() {
        props.push((PropertyKey::ContentRating, PropertyValue::RichText(content_rating)));
        proof {
            lemma_push_is_append(
                expected,
                (PropertyKey::ContentRating, PropertyValue::RichText(m.content_rating)),
            );
        }
    } else {
        proof {
            lemma_append_empty(expected);
        }
    }
    proof {
        expected = expected + (if m.content_rating@.len() > 0 {
            seq![(PropertyKey::ContentRating, PropertyValue::RichText(m.content_rating))]
        } else {
            Seq::empty()
        });
        assert(props@ == expected);
    }
    if let Some(rr) = imdb_rating {
        proof {
            lemma_push_is_append(
                expected,
                (PropertyKey::ImdbRating, PropertyValue::DecimalText(rr)),
            );
        }
        props.push((PropertyKey::ImdbRating, PropertyValue::DecimalText(rr)));
    } else {
        proof {
            lemma_append_empty(expected);
        }
    }
    proof {
        expected = expected + (match m.imdb_rating {
            Some(rr) => seq![(PropertyKey::ImdbRating, PropertyValue::DecimalText(rr))],
            None => Seq::empty(),
        });
        assert(props@ == expected);
    }
    props.push((PropertyKey::ImdbLink, PropertyValue::UrlText(imdb_link)));
    proof {
        lemma_push_is_append(
            expected,
            (PropertyKey::ImdbLink, PropertyValue::UrlText(m.imdb_link)),
        );
        expected = expected + seq![(PropertyKey::ImdbLink, PropertyValue::UrlText(m.imdb_link))];
        assert(props@ == expected);
        assert(expected == page_properties_of(m));
    }
    StoreRecord { parent_database_id: db_id, cover, properties: props }
}

/// Whether the property list carries key `k`.
#[verifier::opaque]
pub open spec fn has_key(props: Seq<(PropertyKey, PropertyValue)>, k: PropertyKey) -> bool
    decreases props.len(),
{
    if props.len() == 0 {
        false
    } else {
        props[0].0 == k || has_key(props.drop_first(), k)
    }
}

proof fn lemma_index_has_key(props: Seq<(PropertyKey, PropertyValue)>, i: int)
    requires
        0 <= i < props.len(),
    ensures
        has_key(props, props[i].0),
    decreases props.len(),
{
    reveal(has_key);
    if i > 0 {
        lemma_index_has_key(props.drop_first(), i - 1);
    }
}

proof fn lemma_push_is_append(a: Seq<(PropertyKey, PropertyValue)>, x: (PropertyKey, PropertyValue))
    ensures
        a.push(x) == a + seq![x],
{
    assert(a.push(x) =~= a + seq![x]);
}

proof fn lemma_append_empty(a: Seq<(PropertyKey, PropertyValue)>)
    ensures
        a + Seq::<(PropertyKey, PropertyValue)>::empty() == a,
{
    assert(a + Seq::<(PropertyKey, PropertyValue)>::empty() =~= a);
}

/// Whether `m` has the source field that property key `k` is built from;
/// Title and the canonical link are always present.
pub open spec fn key_source_present(m: MovieInfo, k: PropertyKey) -> bool {
    match k {
        PropertyKey::Title => true,
        PropertyKey::Type => m.movie_type@.len() > 0,
        PropertyKey::Year => m.year is Some,
        PropertyKey::ReleaseDate => m.release_date is Some,
        PropertyKey::Runtime => m.runtime is Some,
        PropertyKey::Plot => m.plot@.len() > 0,
        PropertyKey::Director => m.director_list@.len() > 0,
        PropertyKey::Star => m.star_list@.len() > 0,
        PropertyKey::Genre => m.genre_list@.len() > 0,
        PropertyKey::Country => m.country_list@.len() > 0,
        PropertyKey::Language => m.language_list@.len() > 0,
        PropertyKey::ContentRating => m.content_rating@.len() > 0,
        PropertyKey::ImdbRating => m.imdb_rating is Some,
        PropertyKey::ImdbLink => true,
    }
}

proof fn lemma_has_key_append(
    a: Seq<(PropertyKey, PropertyValue)>,
    b: Seq<(PropertyKey, PropertyValue)>,
    k: PropertyKey,
)
    ensures
        has_key(a + b, k) <==> (has_key(a, k) || has_key(b, k)),
    decreases a.len(),
{
    reveal(has_key);
    if a.len() == 0 {
        assert(a + b =~= b);
    } else {
        assert((a + b).drop_first() =~= a.drop_first() + b);
        assert((a + b)[0] == a[0]);
        lemma_has_key_append(a.drop_first(), b, k);
    }
}

proof fn lemma_has_key_opt(
    piece: Seq<(PropertyKey, PropertyValue)>,
    key: PropertyKey,
    cond: bool,
    k: PropertyKey,
)
    requires
        cond ==> piece.len() == 1 && piece[0].0 == key,
        !cond ==> piece.len() == 0,
    ensures
        has_key(piece, k) <==> (cond && k == key),
{
    reveal(has_key);
    if cond {
        assert(piece.drop_first().len() == 0);
        assert(!has_key(piece.drop_first(), k));
    }
}

/// Law: the mapper emits exactly the property keys whose source fields are
/// present — in particular Title and the canonical link always, and never a
/// key whose source field is absent.
#[verifier::rlimit(100)]
pub proof fn lemma_mapper_emits_exactly_present(m: MovieInfo, k: PropertyKey)
    ensures
        has_key(page_properties_of(m), k) <==> key_source_present(m, k),
{
    let t1 = seq![(PropertyKey::Title, PropertyValue::TitleText(m.title))];
    let t2 = if m.movie_type@.len() > 0 {
        seq![(PropertyKey::Type, PropertyValue::SelectName(m.movie_type))]
    } else {
        Seq::empty()
    };
    let t3 = match m.year {
        Some(y) => seq![(PropertyKey::Year, PropertyValue::UintNumber(y))],
        None => Seq::empty(),
    };
    let t4 = match m.release_date {
        Some(d) => seq![(PropertyKey::ReleaseDate, PropertyValue::DateValue(d))],
        None => Seq::empty(),
    };
    let t5 = match m.runtime {
        Some(rt) => seq![(PropertyKey::Runtime, PropertyValue::UintNumber(rt))],
        None => Seq::empty(),
    };
    let t6 = if m.plot@.len() > 0 {
        seq![(PropertyKey::Plot, PropertyValue::RichText(m.plot))]
    } else {
        Seq::empty()
    };
    let t7 = if m.director_list@.len() > 0 {
        seq![(PropertyKey::Director, PropertyValue::MultiSelect(m.director_list))]
    } else {
        Seq::empty()
    };
    let t8 = if m.star_list@.len() > 0 {
        seq![(PropertyKey::Star, PropertyValue::MultiSelect(m.star_list))]
    } else {
        Seq::empty()
    };
    let t9 = if m.genre_list@.len() > 0 {
        seq![(PropertyKey::Genre, PropertyValue::MultiSelect(m.genre_list))]
    } else {
        Seq::empty()
    };
    let t10 = if m.country_list@.len() > 0 {
        seq![(PropertyKey::Country, PropertyValue::MultiSelect(m.country_list))]
    } else {
        Seq::empty()
    };
    let t11 = if m.language_list@.len() > 0 {
        seq![(PropertyKey::Language, PropertyValue::MultiSelect(m.language_list))]
    } else {
        Seq::empty()
    };
    let t12 = if m.content_rating@.len() > 0 {
        seq![(PropertyKey::ContentRating, PropertyValue::RichText(m.content_rating))]
    } else {
        Seq::empty()
    };
    let t13 = match m.imdb_rating {
        Some(rr) => seq![(PropertyKey::ImdbRating, PropertyValue::DecimalText(rr))],
        None => Seq::empty(),
    };
    let t14 = seq![(PropertyKey::ImdbLink, PropertyValue::UrlText(m.imdb_link))];
    lemma_has_key_opt(t1, PropertyKey::Title, true, k);
    lemma_has_key_opt(t2, PropertyKey::Type, m.movie_type@.len() > 0, k);
    lemma_has_key_opt(t3, PropertyKey::Year, m.year is Some, k);
    lemma_has_key_opt(t4, PropertyKey::ReleaseDate, m.release_date is Some, k);
    lemma_has_key_opt(t5, PropertyKey::Runtime, m.runtime is Some, k);
    lemma_has_key_opt(t6, PropertyKey::Plot, m.plot@.len() > 0, k);
    lemma_has_key_opt(t7, PropertyKey::Director, m.director_list@.len() > 0, k);
    lemma_has_key_opt(t8, PropertyKey::Star, m.star_list@.len() > 0, k);
    lemma_has_key_opt(t9, PropertyKey::Genre, m.genre_list@.len() > 0, k);
    lemma_has_key_opt(t10, PropertyKey::Country, m.country_list@.len() > 0, k);
    lemma_has_key_opt(t11, PropertyKey::Language, m.language_list@.len() > 0, k);
    lemma_has_key_opt(t12, PropertyKey::ContentRating, m.content_rating@.len() > 0, k);
    lemma_has_key_opt(t13, PropertyKey::ImdbRating, m.imdb_rating is Some, k);
    lemma_has_key_opt(t14, PropertyKey::ImdbLink, true, k);
    let c2 = t1 + t2;
    lemma_has_key_append(t1, t2, k);
    let c3 = c2 + t3;
    lemma_has_key_append(c2, t3, k);
    let c4 = c3 + t4;
    lemma_has_key_append(c3, t4, k);
    let c5 = c4 + t5;
    lemma_has_key_append(c4, t5, k);
    let c6 = c5 + t6;
    lemma_has_key_append(c5, t6, k);
    let c7 = c6 + t7;
    lemma_has_key_append(c6, t7, k);
    let c8 = c7 + t8;
    lemma_has_key_append(c7, t8, k);
    let c9 = c8 + t9;
    lemma_has_key_append(c8, t9, k);
    let c10 = c9 + t10;
    lemma_has_key_append(c9, t10, k);
    let c11 = c10 + t11;
    lemma_has_key_append(c10, t11, k);
    let c12 = c11 + t12;
    lemma_has_key_append(c11, t12, k);
    let c13 = c12 + t13;
    lemma_has_key_append(c12, t13, k);
    let c14 = c13 + t14;
    lemma_has_key_append(c13, t14, k);
    assert(c14 == page_properties_of(m));
    assert(has_key(c14, k) <==> (k == PropertyKey::Title || (m.movie_type@.len() > 0 && k
        == PropertyKey::Type) || (m.year is Some && k == PropertyKey::Year) || (
    m.release_date is Some && k == PropertyKey::ReleaseDate) || (m.runtime is Some && k
        == PropertyKey::Runtime) || (m.plot@.len() > 0 && k == PropertyKey::Plot) || (
    m.director_list@.len() > 0 && k == PropertyKey::Director) || (m.star_list@.len() > 0 && k
        == PropertyKey::Star) || (m.genre_list@.len() > 0 && k == PropertyKey::Genre) || (
    m.country_list@.len() > 0 && k == PropertyKey::Country) || (m.language_list@.len() > 0 && k
        == PropertyKey::Language) || (m.content_rating@.len() > 0 && k
        == PropertyKey::ContentRating) || (m.imdb_rating is Some && k == PropertyKey::ImdbRating)
        || k == PropertyKey::ImdbLink));
}

/// Law: the mapper never emits a property whose source field is absent.
pub proof fn lemma_mapper_never_emits_absent(m: MovieInfo)
    ensures
        forall|i: int|
            0 <= i < page_properties_of(m).len() ==> key_source_present(
                m,
                (#[trigger] page_properties_of(m)[i]).0,
            ),
{
    let p = page_properties_of(m);
    assert forall|i: int| 0 <= i < p.len() implies key_source_present(m, (#[trigger] p[i]).0) by {
        lemma_index_has_key(p, i);
        lemma_mapper_emits_exactly_present(m, p[i].0);
    }
}

/// The store's fixed property kinds.
#[derive(Debug, Clone, Copy, PartialEq, Eq, Structural)]
pub enum PropertyKind {
    TitleKind,
    SelectKind,
    NumberKind,
    DateKind,
    RichTextKind,
    MultiSelectKind,
    UrlKind,
}

/// The fixed schema every movie-list collection is created with.
pub open spec fn movie_list_schema_spec() -> Seq<(PropertyKey, PropertyKind)> {
    seq![
        (PropertyKey::Title, PropertyKind::TitleKind),
        (PropertyKey::Type, PropertyKind::SelectKind),
        (PropertyKey::Year, PropertyKind::NumberKind),
        (PropertyKey::ReleaseDate, PropertyKind::DateKind),
        (PropertyKey::Runtime, PropertyKind::NumberKind),
        (PropertyKey::Plot, PropertyKind::RichTextKind),
        (PropertyKey::Director, PropertyKind::MultiSelectKind),
        (PropertyKey::Star, PropertyKind::MultiSelectKind),
        (PropertyKey::Genre, PropertyKind::MultiSelectKind),
        (PropertyKey::Country, PropertyKind::MultiSelectKind),
        (PropertyKey::Language, PropertyKind::MultiSelectKind),
        (PropertyKey::ContentRating, PropertyKind::RichTextKind),
        (PropertyKey::ImdbRating, PropertyKind::NumberKind),
        (PropertyKey::ImdbLink, PropertyKind::UrlKind),
    ]
}

pub fn movie_list_schema() -> (r: Vec<(PropertyKey, PropertyKind)>)
    ensures
        r@ == movie_list_schema_spec(),
{
    let mut v: Vec<(PropertyKey, PropertyKind)> = Vec::new();
    v.push((PropertyKey::Title, PropertyKind::TitleKind));
    v.push((PropertyKey::Type, PropertyKind::SelectKind));
    v.push((PropertyKey::Year, PropertyKind::NumberKind));
    v.push((PropertyKey::ReleaseDate, PropertyKind::DateKind));
    v.push((PropertyKey::Runtime, PropertyKind::NumberKind));
    v.push((PropertyKey::Plot, PropertyKind::RichTextKind));
    v.push((PropertyKey::Director, PropertyKind::MultiSelectKind));
    v.push((PropertyKey::Star, PropertyKind::MultiSelectKind));
    v.push((PropertyKey::Genre, PropertyKind::MultiSelectKind));
    v.push((PropertyKey::Country, PropertyKind::MultiSelectKind));
    v.push((PropertyKey::Language, PropertyKind::MultiSelectKind));
    v.push((PropertyKey::ContentRating, PropertyKind::RichTextKind));
    v.push((PropertyKey::ImdbRating, PropertyKind::NumberKind));
    v.push((PropertyKey::ImdbLink, PropertyKind::UrlKind));
    proof {
        assert(v@ =~= movie_list_schema_spec());
    }
    v
}

/// One request to create a movie-list collection under a workspace page: the
/// fixed icon, the fixed list title, and the fixed schema.
#[derive(Debug, Clone, PartialEq, Eq)]
pub struct CreateCollectionRequest {
    pub parent_page_id: String,
    pub icon_emoji: String,
    pub title_text: String,
    pub schema: Vec<(PropertyKey, PropertyKind)>,
}

pub fn create_database_request(page_id: String) -> (r: CreateCollectionRequest)
    ensures
        r.parent_page_id == page_id,
        r.icon_emoji@ == "🎬"@,
        r.title_text@ == "Movie List"@,
        r.schema@ == movie_list_schema_spec(),
{
    CreateCollectionRequest {
        parent_page_id: page_id,
        icon_emoji: String::from_str("🎬"),
        title_text: String::from_str("Movie List"),
        schema: movie_list_schema(),
    }
}

/// Classifies a failure to reach the document store at all: the user sees a
/// safe generic message and the technical cause is escalated.
pub fn classify_notion_send_failure(lang: Language, source: String) -> (r: BotError)
    ensures
        r matches BotError::FeedBackPropagate(c) && c.message@
            == transcripts::cannot_reach_server_text(lang, "Notion"@) && c.source == Some(source),
{
    BotError::FeedBackPropagate(
        Cause { message: transcripts::cannot_reach_server(lang, "Notion"), source: Some(source) },
    )
}

/// Classifies a non-success response to collection creation: the store's own
/// message is shown verbatim when its error body is readable; otherwise the
/// user sees the parse-failed message, with the technical cause attached but
/// not escalated.
pub fn create_database_failure(parsed_error: Option<NotionErrorObj>, lang: Language, source: String) -> (r: BotError)
    ensures
        match parsed_error {
            Some(e) => r matches BotError::FeedBack(c) && c.message == e.message && c.source is None,
            None => r matches BotError::FeedBack(c) && c.message@
                == transcripts::parse_notion_error_message_failed_text(lang) && c.source == Some(
                source,
            ),
        },
{
    match parsed_error {
        Some(e) => BotError::FeedBack(Cause { message: e.message, source: None }),
        None => BotError::FeedBack(
            Cause {
                message: String::from_str(transcripts::parse_notion_error_message_failed(lang)),
                source: Some(source),
            },
        ),
    }
}

/// Classifies a non-success response to record insertion: the store's own
/// message is shown verbatim when its error body is readable; an unreadable
/// error body is unexpected, so the user sees the parse-failed message and
/// the technical cause is escalated.
pub fn handle_notion_error_response(parsed_error: Option<NotionErrorObj>, lang: Language, source: String) -> (r: BotError)
    ensures
        match parsed_error {
            Some(e) => r matches BotError::FeedBack(c) && c.message == e.message && c.source is None,
            None => r matches BotError::FeedBackPropagate(c) && c.message@
                == transcripts::parse_notion_error_message_failed_text(lang) && c.source == Some(
                source,
            ),
        },
{
    match parsed_error {
        Some(e) => BotError::FeedBack(Cause { message: e.message, source: None }),
        None => BotError::FeedBackPropagate(
            Cause {
                message: String::from_str(transcripts::parse_notion_error_message_failed(lang)),
                source: Some(source),
            },
        ),
    }
}

} // verus!
