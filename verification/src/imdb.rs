//! The metadata-provider client model: request URLs, the provider's record
//! shape, and the translation into the provider-agnostic [`MovieInfo`].
//!
//! The HTTP transfer itself is an external collaborator; this module owns
//! everything decided about its inputs and outputs: which URL a call uses,
//! how a provider-level error in a response body is classified, how raw
//! search results are capped and trimmed, and how a provider record is
//! normalized field by field.

use crate::dates::CalDate;
use crate::dates::release_date_of;
use crate::error::BotError;
use crate::error::Cause;
use crate::text::first_sentence_spec;
use crate::text::is_plain_decimal;
use crate::text::check_plain_decimal;
use crate::text::parse_u32_decimal;
use crate::text::truncate_first_sentence;
use crate::text::u32_from_decimal;
use crate::transcripts;
use crate::transcripts::Language;
use vstd::prelude::*;
use vstd::string::StringExecFns;

verus! {

#[derive(Debug, Clone, PartialEq, Eq)]
pub struct ImdbApi {
    pub url: String,
    pub default_key: String,
}

impl ImdbApi {
    pub fn new(default_key: String) -> (r: Self)
        ensures
            r.url@ == "https://imdb-api.com"@,
            r.default_key == default_key,
    {
        ImdbApi { url: String::from_str("https://imdb-api.com"), default_key }
    }

    /// The key a request uses: the caller's own, or the shared default when
    /// the caller has not configured one.
    pub open spec fn spec_api_key_or_default(&self, api_key: Seq<char>) -> Seq<char> {
        if api_key.len() == 0 {
            self.default_key@
        } else {
            api_key
        }
    }

    pub fn api_key_or_default<'a>(&'a self, api_key: &'a str) -> (r: &'a str)
        ensures
            r@ == self.spec_api_key_or_default(api_key@),
    {
        if api_key.is_empty() {
            self.default_key.as_str()
        } else {
            api_key
        }
    }

    pub open spec fn usage_api_text(&self, api_key: Seq<char>) -> Seq<char> {
        self.url@ + "/Usage/"@ + self.spec_api_key_or_default(api_key)
    }

    pub fn usage_api(&self, api_key: &str) -> (r: String)
        ensures
            r@ == self.usage_api_text(api_key@),
    {
        let mut r = self.url.clone();
        r.append("/Usage/");
        r.append(self.api_key_or_default(api_key));
        r
    }

    pub open spec fn search_api_text(&self, api_key: Seq<char>, title: Seq<char>) -> Seq<char> {
        self.url@ + "/API/SearchTitle/"@ + self.spec_api_key_or_default(api_key) + "/"@ + title
    }

    pub fn search_api(&self, api_key: &str, title: &str) -> (r: String)
        ensures
            r@ == self.search_api_text(api_key@, title@),
    {
        let mut r = self.url.clone();
        r.append("/API/SearchTitle/");
        r.append(self.api_key_or_default(api_key));
        r.append("/");
        r.append(title);
        r
    }

    pub open spec fn title_info_api_text(
        &self,
        api_key: Seq<char>,
        id: Seq<char>,
        lang: Language,
    ) -> Seq<char> {
        self.url@ + "/"@ + lang_code_text(lang) + "/API/Title/"@ + self.spec_api_key_or_default(
            api_key,
        ) + "/"@ + id
    }

    pub fn title_info_api(&self, api_key: &str, id: &str, lang: Language) -> (r: String)
        ensures
            r@ == self.title_info_api_text(api_key@, id@, lang),
    {
        let mut r = self.url.clone();
        r.append("/");
        r.append(lang_code(lang));
        r.append("/API/Title/");
        r.append(self.api_key_or_default(api_key));
        r.append("/");
        r.append(id);
        r
    }
}

impl Default for ImdbApi {
    fn default() -> (r: Self)
        ensures
            r.url@ == "https://imdb-api.com"@,
            r.default_key@ == Seq::<char>::empty(),
    {
        ImdbApi { url: String::from_str("https://imdb-api.com"), default_key: String::new() }
    }
}

pub open spec fn lang_code_text(lang: Language) -> Seq<char> {
    match lang {
        Language::En => "en"@,
    }
}

pub fn lang_code(lang: Language) -> (r: &'static str)
    ensures
        r@ == lang_code_text(lang),
{
    match lang {
        Language::En => "en",
    }
}

#[derive(Debug, Clone, PartialEq, Eq)]
pub struct UsageData {
    pub count: u64,
    pub maximum: u64,
}

impl UsageData {
    pub fn new(count: u64, maximum: u64) -> (r: Self)
        ensures
            r.count == count,
            r.maximum == maximum,
    {
        Self { count, maximum }
    }
}

/// One search hit, correlated back to a later selection only through its
/// opaque provider-assigned `id`.
#[derive(Debug, Clone, PartialEq, Eq)]
pub struct SearchResult {
    pub id: String,
    pub title: String,
    pub description: String,
}

#[derive(Debug, Clone, PartialEq, Eq)]
pub struct KeyValueObj {
    pub key: String,
    pub value: String,
}

#[derive(Debug, Clone, PartialEq, Eq)]
pub struct IdentityObj {
    pub id: String,
    pub name: String,
}

/// A provider record exactly as the metadata provider shapes it: every field
/// beyond `id` and `title` may be missing, and the numeric ones are text.
#[derive(Debug, Clone, PartialEq, Eq)]
pub struct ImdbApiMovieInfo {
    pub id: String,
    pub title: String,
    pub original_title: Option<String>,
    pub full_title: Option<String>,
    pub movie_type: Option<String>,
    pub year: Option<String>,
    pub image: Option<String>,
    pub release_date: Option<String>,
    pub runtime_mins: Option<String>,
    pub plot: Option<String>,
    pub plot_local: Option<String>,
    pub director_list: Vec<IdentityObj>,
    pub star_list: Vec<IdentityObj>,
    pub genre_list: Vec<KeyValueObj>,
    pub country_list: Vec<KeyValueObj>,
    pub language_list: Vec<KeyValueObj>,
    pub content_rating: Option<String>,
    pub imdb_rating: Option<String>,
    pub keyword_list: Vec<String>,
}

/// The provider-agnostic record written to the document store. Absent
/// optional fields stay absent; the rating stays plain decimal text, since
/// only the store payload at the process edge carries it as a float.
#[derive(Debug, Clone, PartialEq, Eq)]
pub struct MovieInfo {
    pub title: String,
    pub movie_type: String,
    pub year: Option<u32>,
    pub image: String,
    pub release_date: Option<CalDate>,
    pub runtime: Option<u32>,
    pub plot: String,
    pub director_list: Vec<String>,
    pub star_list: Vec<String>,
    pub genre_list: Vec<String>,
    pub country_list: Vec<String>,
    pub language_list: Vec<String>,
    pub content_rating: String,
    pub imdb_rating: Option<String>,
    pub imdb_link: String,
}

pub open spec fn opt_text(o: Option<String>) -> Seq<char> {
    match o {
        Some(s) => s@,
        None => Seq::<char>::empty(),
    }
}

pub open spec fn opt_u32_of(o: Option<String>) -> Option<u32> {
    match o {
        Some(s) => u32_from_decimal(s@),
        None => None,
    }
}

pub open spec fn opt_date_of(o: Option<String>) -> Option<CalDate> {
    match o {
        Some(s) => release_date_of(s@),
        None => None,
    }
}

pub open spec fn opt_rating_of(o: Option<String>) -> Option<Seq<char>> {
    match o {
        Some(s) => if is_plain_decimal(s@) {
            Some(s@)
        } else {
            None
        },
        None => None,
    }
}

fn opt_into_string(o: Option<String>) -> (r: String)
    ensures
        r@ == opt_text(o),
{
    match o {
        Some(s) => s,
        None => String::new(),
    }
}

fn names_of(list: &Vec<IdentityObj>) -> (r: Vec<String>)
    ensures
        r.deep_view() == list@.map_values(|d: IdentityObj| d.name@),
{
    let mut r: Vec<String> = Vec::new();
    let mut i: usize = 0;
    while i < list.len()
        invariant
            0 <= i <= list@.len(),
            r@.len() == i,
            forall|j: int| 0 <= j < i ==> r@[j]@ == list@[j].name@,
        decreases list@.len() - i,
    {
        r.push(list[i].name.clone());
        i += 1;
    }
    proof {
        assert(r.deep_view() =~= list@.map_values(|d: IdentityObj| d.name@));
    }
    r
}

fn values_of(list: &Vec<KeyValueObj>) -> (r: Vec<String>)
    ensures
        r.deep_view() == list@.map_values(|d: KeyValueObj| d.value@),
{
    let mut r: Vec<String> = Vec::new();
    let mut i: usize = 0;
    while i < list.len()
        invariant
            0 <= i <= list@.len(),
            r@.len() == i,
            forall|j: int| 0 <= j < i ==> r@[j]@ == list@[j].value@,
        decreases list@.len() - i,
    {
        r.push(list[i].value.clone());
        i += 1;
    }
    proof {
        assert(r.deep_view() =~= list@.map_values(|d: KeyValueObj| d.value@));
    }
    r
}

impl MovieInfo {
    /// Normalizes one provider record: names and category values are kept in
    /// order, numeric text is parsed, the release date is validated, the
    /// rating is kept only when it is plain decimal text, and a missing
    /// optional field stays missing. The canonical link is always built from
    /// the record's identifier.
    pub fn from_provider(info: ImdbApiMovieInfo) -> (r: MovieInfo)
        ensures
            r.title == info.title,
            r.movie_type@ == opt_text(info.movie_type),
            r.year == opt_u32_of(info.year),
            r.image@ == opt_text(info.image),
            r.release_date == opt_date_of(info.release_date),
            r.runtime == opt_u32_of(info.runtime_mins),
            r.plot@ == opt_text(info.plot),
            r.director_list.deep_view() == info.director_list@.map_values(
                |d: IdentityObj| d.name@,
            ),
            r.star_list.deep_view() == info.star_list@.map_values(|d: IdentityObj| d.name@),
            r.genre_list.deep_view() == info.genre_list@.map_values(|d: KeyValueObj| d.value@),
            r.country_list.deep_view() == info.country_list@.map_values(|d: KeyValueObj| d.value@),
            r.language_list.deep_view() == info.language_list@.map_values(
                |d: KeyValueObj| d.value@,
            ),
            r.content_rating@ == opt_text(info.content_rating),
            r.imdb_rating.deep_view() == opt_rating_of(info.imdb_rating),
            r.imdb_link@ == "https://www.imdb.com/title/"@ + info.id@,
    {
        let year = match &info.year {
            Some(y) => parse_u32_decimal(y.as_str()),
            None => None,
        };
        let release_date = match &info.release_date {
            Some(t) => crate::dates::parse_release_date(t.as_str()),
            None => None,
        };
        let runtime = match &info.runtime_mins {
            Some(t) => parse_u32_decimal(t.as_str()),
            None => None,
        };
        let director_list = names_of(&info.director_list);
        let star_list = names_of(&info.star_list);
        let genre_list = values_of(&info.genre_list);
        let country_list = values_of(&info.country_list);
        let language_list = values_of(&info.language_list);
        let imdb_rating = match info.imdb_rating {
            Some(t) => {
                if check_plain_decimal(t.as_str()) {
                    Some(t)
                } else {
                    None
                }
            },
            None => None,
        };
        let mut imdb_link = String::from_str("https://www.imdb.com/title/");
        imdb_link.append(info.id.as_str());
        MovieInfo {
            title: info.title,
            movie_type: opt_into_string(info.movie_type),
            year,
            image: opt_into_string(info.image),
            release_date,
            runtime,
            plot: opt_into_string(info.plot),
            director_list,
            star_list,
            genre_list,
            country_list,
            language_list,
            content_rating: opt_into_string(info.content_rating),
            imdb_rating,
            imdb_link,
        }
    }
}

/// The fields of a search result as plain sequences.
pub open spec fn sr_model(r: SearchResult) -> (Seq<char>, Seq<char>, Seq<char>) {
    (r.id@, r.title@, r.description@)
}

pub open spec fn models_of(rs: Seq<SearchResult>) -> Seq<(Seq<char>, Seq<char>, Seq<char>)> {
    rs.map_values(|r: SearchResult| sr_model(r))
}

/// What search-response processing yields: of the first `limits` raw entries,
/// the readable ones in order, each description cut at its first sentence.
pub open spec fn processed_models(items: Seq<Option<SearchResult>>, limits: int) -> Seq<
    (Seq<char>, Seq<char>, Seq<char>),
>
    decreases items.len(),
{
    if items.len() == 0 || limits <= 0 {
        Seq::empty()
    } else {
        let rest = processed_models(items.drop_first(), limits - 1);
        match items[0] {
            Some(r) => seq![(r.id@, r.title@, first_sentence_spec(r.description@))] + rest,
            None => rest,
        }
    }
}

/// Caps the raw entries at `limits` and trims each readable one: an entry the
/// transport could not decode is dropped but still spends the cap, as the
/// provider ranked it.
pub fn process_search_results(items: Vec<Option<SearchResult>>, limits: usize) -> (r: Vec<
    SearchResult,
>)
    ensures
        models_of(r@) == processed_models(items@, limits as int),
{
    let n = items.len();
    let end = if limits < n {
        limits
    } else {
        n
    };
    let mut out: Vec<SearchResult> = Vec::new();
    let mut i: usize = 0;
    proof {
        assert(items@.subrange(0, items@.len() as int) =~= items@);
        assert(models_of(out@) + processed_models(items@, limits as int) =~= processed_models(
            items@,
            limits as int,
        ));
    }
    while i < end
        invariant
            0 <= i <= end,
            end == if limits < items@.len() {
                limits as int
            } else {
                items@.len() as int
            },
            end <= limits,
            models_of(out@) + processed_models(
                items@.subrange(i as int, items@.len() as int),
                limits - i,
            ) == processed_models(items@, limits as int),
        decreases end - i,
    {
        let ghost tail = items@.subrange(i as int, items@.len() as int);
        proof {
            assert(tail.drop_first() =~= items@.subrange(i + 1, items@.len() as int));
            assert(tail[0] == items@[i as int]);
        }
        match &items[i] {
            Some(sr) => {
                let nr = SearchResult {
                    id: sr.id.clone(),
                    title: sr.title.clone(),
                    description: truncate_first_sentence(sr.description.as_str()).to_owned(),
                };
                let ghost m = sr_model(nr);
                let ghost prev = out@;
                out.push(nr);
                proof {
                    assert(models_of(out@) =~= models_of(prev).push(m));
                    assert(models_of(prev).push(m) + processed_models(
                        items@.subrange(i + 1, items@.len() as int),
                        limits - i - 1,
                    ) =~= models_of(prev) + (seq![m] + processed_models(
                        items@.subrange(i + 1, items@.len() as int),
                        limits - i - 1,
                    )));
                }
            },
            None => {},
        }
        i += 1;
    }
    proof {
        if i < items@.len() {
            assert(processed_models(
                items@.subrange(i as int, items@.len() as int),
                limits - i,
            ) =~= Seq::<(Seq<char>, Seq<char>, Seq<char>)>::empty());
        } else {
            assert(items@.subrange(i as int, items@.len() as int) =~= Seq::<
                Option<SearchResult>,
            >::empty());
        }
        assert(models_of(out@) + Seq::<(Seq<char>, Seq<char>, Seq<char>)>::empty() =~= models_of(
            out@,
        ));
    }
    out
}

/// Law: when every raw entry is readable, processing yields exactly
/// `min(limits, n)` results — a cap of five against eight readable hits
/// yields exactly five.
pub proof fn lemma_processed_count_all_readable(items: Seq<Option<SearchResult>>, limits: int)
    requires
        limits >= 0,
        forall|i: int| 0 <= i < items.len() ==> items[i] is Some,
    ensures
        processed_models(items, limits).len() == if limits < items.len() {
            limits
        } else {
            items.len() as int
        },
    decreases items.len(),
{
    if items.len() > 0 && limits > 0 {
        lemma_processed_count_all_readable(items.drop_first(), limits - 1);
    }
}

/// A provider response reports failure through a non-empty `errorMessage`
/// field; that text is itself the user-facing message.
pub fn provider_error_gate(error_message: Option<String>) -> (r: Result<(), BotError>)
    ensures
        match error_message {
            Some(m) => if m@.len() > 0 {
                r matches Err(BotError::FeedBack(c)) && c.message == m && c.source is None
            } else {
                r is Ok
            },
            None => r is Ok,
        },
{
    match error_message {
        Some(m) => {
            if m.as_str().is_empty() {
                Ok(())
            } else {
                Err(BotError::FeedBack(Cause { message: m, source: None }))
            }
        },
        None => Ok(()),
    }
}

/// The ways fetching or reading a provider response can fail at the
/// transport, before any record is obtained.
#[derive(Debug, Clone, Copy, PartialEq, Eq, Structural)]
pub enum ProviderFailure {
    /// The request itself did not complete.
    Unreachable,
    /// The response body was not readable as a response at all.
    ErrorUnreadable,
    /// The response was readable but its record was not.
    RecordUnreadable,
}

pub open spec fn provider_failure_text(kind: ProviderFailure, lang: Language) -> Seq<char> {
    match kind {
        ProviderFailure::Unreachable => transcripts::cannot_reach_server_text(lang, "IMDb-API"@),
        ProviderFailure::ErrorUnreadable => transcripts::parse_imdb_api_error_message_failed_text(
            lang,
        ),
        ProviderFailure::RecordUnreadable => transcripts::parse_imdb_api_response_failed_text(lang),
    }
}

/// Classifies a transport-level provider failure: the user sees a safe
/// generic message and the technical cause is escalated.
pub fn classify_provider_failure(kind: ProviderFailure, lang: Language, source: String) -> (r:
    BotError)
    ensures
        r matches BotError::FeedBackPropagate(c) && c.message@ == provider_failure_text(kind, lang)
            && c.source == Some(source),
{
    let message = match kind {
        ProviderFailure::Unreachable => transcripts::cannot_reach_server(lang, "IMDb-API"),
        ProviderFailure::ErrorUnreadable => String::from_str(
            transcripts::parse_imdb_api_error_message_failed(lang),
        ),
        ProviderFailure::RecordUnreadable => String::from_str(
            transcripts::parse_imdb_api_response_failed(lang),
        ),
    };
    BotError::FeedBackPropagate(Cause { message, source: Some(source) })
}

} // verus!
