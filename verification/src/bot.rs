//! The per-command workflow steps.
//!
//! Each inbound event is one unit of work whose remote calls run strictly in
//! sequence: credential lookup, then provider call, then store write. The
//! transport shell performs the calls; every decision between them — what is
//! valid input, which call comes next, what the user is told — is a function
//! here, from plain values to plain values, ending in `Ok` or a classified
//! [`BotError`] that the uniform reporting policy then handles.

use crate::db::UserTokens;
use crate::error::BotError;
use crate::error::Cause;
use crate::imdb::SearchResult;
use crate::notion::CreateCollectionRequest;
use crate::notion::create_database_request;
use crate::notion::movie_list_schema_spec;
use crate::notion::page_id_of;
use crate::notion::parse_notion_page_id_from_user_input;
use crate::text::trim_spec;
use crate::text::trim_str;
use crate::transcripts;
use crate::transcripts::Language;
use vstd::prelude::*;
use vstd::string::StringExecFns;

verus! {

/// The cap on how many search results one query may yield.
pub const SEARCH_RESULT_CAP: usize = 5;

/// An inbound event must name its originating user. One that does not
/// breaks a precondition that should never fail in normal operation, so the
/// failure is escalated directly and no message goes back to the chat.
pub fn get_user_from_msg(user_id: Option<u64>, lang: Language) -> (r: Result<u64, BotError>)
    ensures
        match user_id {
            Some(u) => r == Ok::<u64, BotError>(u),
            None => r matches Err(BotError::Propagate(c)) && c.message@
                == transcripts::message_from_no_one_text(lang) && c.source is None,
        },
{
    match user_id {
        Some(u) => Ok(u),
        None => Err(
            BotError::Propagate(
                Cause {
                    message: String::from_str(transcripts::message_from_no_one(lang)),
                    source: None,
                },
            ),
        ),
    }
}

/// Validates the token sent with the set-metadata-token command: trimmed,
/// and rejected with a usage hint when empty.
pub fn set_imdb_token_request(token: &str, lang: Language) -> (r: Result<String, BotError>)
    ensures
        trim_spec(token@).len() > 0 ==> (r matches Ok(t) && t@ == trim_spec(token@)),
        trim_spec(token@).len() == 0 ==> (r matches Err(BotError::FeedBack(c)) && c.message@
            == transcripts::input_empty_imdb_token_text(lang) && c.source is None),
{
    let t = trim_str(token);
    if t.is_empty() {
        Err(
            BotError::FeedBack(
                Cause {
                    message: String::from_str(transcripts::input_empty_imdb_token(lang)),
                    source: None,
                },
            ),
        )
    } else {
        Ok(t.to_owned())
    }
}

/// The confirmation for a stored metadata token: the stored value is echoed
/// back verbatim; a store that touched no row means the user must
/// re-initialize.
pub fn set_imdb_token_reply(stored: bool, token: &str, lang: Language) -> (r: Result<
    String,
    BotError,
>)
    ensures
        stored ==> (r matches Ok(t) && t@ == transcripts::imdb_token_set_as_text(lang, token@)),
        !stored ==> (r matches Err(BotError::FeedBack(c)) && c.message@
            == transcripts::configure_again_text(lang) && c.source is None),
{
    if stored {
        Ok(transcripts::imdb_token_set_as(lang, token))
    } else {
        Err(
            BotError::FeedBack(
                Cause {
                    message: String::from_str(transcripts::configure_again(lang)),
                    source: None,
                },
            ),
        )
    }
}

/// Validates the token sent with the set-store-token command: trimmed, and
/// rejected with a usage hint when empty.
pub fn set_notion_token_request(token: &str, lang: Language) -> (r: Result<String, BotError>)
    ensures
        trim_spec(token@).len() > 0 ==> (r matches Ok(t) && t@ == trim_spec(token@)),
        trim_spec(token@).len() == 0 ==> (r matches Err(BotError::FeedBack(c)) && c.message@
            == transcripts::input_empty_notion_token_text(lang) && c.source is None),
{
    let t = trim_str(token);
    if t.is_empty() {
        Err(
            BotError::FeedBack(
                Cause {
                    message: String::from_str(transcripts::input_empty_notion_token(lang)),
                    source: None,
                },
            ),
        )
    } else {
        Ok(t.to_owned())
    }
}

/// The confirmation for a stored store token, echoed back verbatim.
pub fn set_notion_token_reply(stored: bool, token: &str, lang: Language) -> (r: Result<
    String,
    BotError,
>)
    ensures
        stored ==> (r matches Ok(t) && t@ == transcripts::notion_token_set_as_text(lang, token@)),
        !stored ==> (r matches Err(BotError::FeedBack(c)) && c.message@
            == transcripts::configure_again_text(lang) && c.source is None),
{
    if stored {
        Ok(transcripts::notion_token_set_as(lang, token))
    } else {
        Err(
            BotError::FeedBack(
                Cause {
                    message: String::from_str(transcripts::configure_again(lang)),
                    source: None,
                },
            ),
        )
    }
}

/// Validates the page reference sent with the create-collection command:
/// trimmed, and rejected with a usage hint when empty.
pub fn create_collection_input(input: &str, lang: Language) -> (r: Result<String, BotError>)
    ensures
        trim_spec(input@).len() > 0 ==> (r matches Ok(t) && t@ == trim_spec(input@)),
        trim_spec(input@).len() == 0 ==> (r matches Err(BotError::FeedBack(c)) && c.message@
            == transcripts::input_empty_notion_page_id_text(lang) && c.source is None),
{
    let t = trim_str(input);
    if t.is_empty() {
        Err(
            BotError::FeedBack(
                Cause {
                    message: String::from_str(transcripts::input_empty_notion_page_id(lang)),
                    source: None,
                },
            ),
        )
    } else {
        Ok(t.to_owned())
    }
}

/// Decides the collection-creation call: the store token must be configured,
/// the page reference must name a page, and the request then carries the
/// fixed icon, list title and schema for that page.
pub fn plan_create_collection(page_ref: &str, notion_token: &str, lang: Language) -> (r: Result<
    CreateCollectionRequest,
    BotError,
>)
    ensures
        notion_token@.len() == 0 ==> (r matches Err(BotError::FeedBack(c)) && c.message@
            == transcripts::need_notion_token_first_text(lang) && c.source is None),
        notion_token@.len() > 0 ==> match page_id_of(page_ref@) {
            Some(id) => r matches Ok(req) && req.parent_page_id@ == id && req.icon_emoji@ == "🎬"@
                && req.title_text@ == "Movie List"@ && req.schema@ == movie_list_schema_spec(),
            None => r matches Err(BotError::FeedBack(c)) && c.message@
                == transcripts::invalid_notion_page_url_text(lang) && c.source is None,
        },
{
    if notion_token.is_empty() {
        return Err(
            BotError::FeedBack(
                Cause {
                    message: String::from_str(transcripts::need_notion_token_first(lang)),
                    source: None,
                },
            ),
        );
    }
    match parse_notion_page_id_from_user_input(page_ref, lang) {
        Ok(page_id) => Ok(create_database_request(page_id)),
        Err(e) => Err(e),
    }
}

/// The confirmation once the new collection's identifier is persisted.
pub fn collection_created_reply(stored: bool, lang: Language) -> (r: Result<String, BotError>)
    ensures
        stored ==> (r matches Ok(t) && t@ == transcripts::notion_database_created_text(lang)),
        !stored ==> (r matches Err(BotError::FeedBack(c)) && c.message@
            == transcripts::configure_again_text(lang) && c.source is None),
{
    if stored {
        Ok(String::from_str(transcripts::notion_database_created(lang)))
    } else {
        Err(
            BotError::FeedBack(
                Cause {
                    message: String::from_str(transcripts::configure_again(lang)),
                    source: None,
                },
            ),
        )
    }
}

/// The credential-readiness gate, evaluated fresh before every operation
/// that writes to the store: when it fails, the user is told exactly which
/// fields are missing.
pub fn search_gate(tokens: &UserTokens, lang: Language) -> (r: Result<(), BotError>)
    ensures
        tokens.spec_notion_token_is_good() ==> r is Ok,
        !tokens.spec_notion_token_is_good() ==> (r matches Err(BotError::FeedBack(c)) && c.message@
            == tokens.user_hint_text(lang) && c.source is None),
{
    if tokens.notion_token_is_good() {
        Ok(())
    } else {
        Err(BotError::FeedBack(Cause { message: tokens.user_hint(lang), source: None }))
    }
}

/// Requires a non-empty trimmed search phrase from the inbound message.
pub fn search_keyword(text: Option<&str>, lang: Language) -> (r: Result<String, BotError>)
    ensures
        match text {
            Some(t) => if trim_spec(t@).len() > 0 {
                r matches Ok(s) && s@ == trim_spec(t@)
            } else {
                r matches Err(BotError::FeedBack(c)) && c.message@
                    == transcripts::input_empty_keyword_text(lang) && c.source is None
            },
            None => r matches Err(BotError::FeedBack(c)) && c.message@
                == transcripts::input_empty_keyword_text(lang) && c.source is None,
        },
{
    match text {
        Some(t) => {
            let s = trim_str(t);
            if s.is_empty() {
                Err(
                    BotError::FeedBack(
                        Cause {
                            message: String::from_str(transcripts::input_empty_keyword(lang)),
                            source: None,
                        },
                    ),
                )
            } else {
                Ok(s.to_owned())
            }
        },
        None => Err(
            BotError::FeedBack(
                Cause {
                    message: String::from_str(transcripts::input_empty_keyword(lang)),
                    source: None,
                },
            ),
        ),
    }
}

/// One outbound search-result message: the linked title, and a button whose
/// callback carries the result's opaque identifier.
#[derive(Debug, Clone, PartialEq, Eq)]
pub struct ResultMessage {
    pub html_text: String,
    pub button_label: String,
    pub callback_id: String,
}

/// What the Search command sends: one "no results" message, or one message
/// per result.
#[derive(Debug, Clone, PartialEq, Eq)]
pub enum SearchReply {
    NoResults(String),
    Messages(Vec<ResultMessage>),
}

pub open spec fn result_html_text(id: Seq<char>, title: Seq<char>) -> Seq<char> {
    "<a href=\"https://www.imdb.com/title/"@ + id + "\"><b>"@ + title + "</b></a>"@
}

pub open spec fn no_results_html(lang: Language) -> Seq<char> {
    "<b>"@ + transcripts::no_search_result_text(lang) + "</b>"@
}

/// Whether `msg` is the outbound message for search hit `src`.
pub open spec fn message_for(msg: ResultMessage, src: SearchResult, lang: Language) -> bool {
    msg.html_text@ == result_html_text(src.id@, src.title@) && msg.button_label@
        == transcripts::add_to_movie_list_text(lang) && msg.callback_id@ == src.id@
}

/// Builds the Search command's outbound messages: one per result, in reverse
/// of the provider's order, so the most relevant result lands lowest in the
/// chat; no results yields the single "no results" message.
pub fn search_replies(results: Vec<SearchResult>, lang: Language) -> (r: SearchReply)
    ensures
        results@.len() == 0 ==> (r matches SearchReply::NoResults(s) && s@ == no_results_html(
            lang,
        )),
        results@.len() > 0 ==> (r matches SearchReply::Messages(msgs) && msgs@.len()
            == results@.len() && forall|i: int|
            0 <= i < msgs@.len() ==> message_for(
                #[trigger] msgs@[i],
                results@[results@.len() - 1 - i],
                lang,
            )),
{
    if results.is_empty() {
        let mut s = String::from_str("<b>");
        s.append(transcripts::no_search_result(lang));
        s.append("</b>");
        return SearchReply::NoResults(s);
    }
    let n = results.len();
    let mut msgs: Vec<ResultMessage> = Vec::new();
    let mut i: usize = 0;
    while i < n
        invariant
            0 <= i <= n,
            n == results@.len(),
            msgs@.len() == i,
            forall|t: int|
                0 <= t < i ==> message_for(#[trigger] msgs@[t], results@[n - 1 - t], lang),
        decreases n - i,
    {
        let src = &results[n - 1 - i];
        let mut html = String::from_str("<a href=\"https://www.imdb.com/title/");
        html.append(src.id.as_str());
        html.append("\"><b>");
        html.append(src.title.as_str());
        html.append("</b></a>");
        let msg = ResultMessage {
            html_text: html,
            button_label: String::from_str(transcripts::add_to_movie_list(lang)),
            callback_id: src.id.clone(),
        };
        msgs.push(msg);
        i += 1;
    }
    SearchReply::Messages(msgs)
}

/// The confirmation sent once a selected item is written to the store.
pub fn item_added_reply(title: &str, lang: Language) -> (r: String)
    ensures
        r@ == transcripts::add_to_movie_list_successfully_text(lang, title@),
{
    transcripts::add_to_movie_list_successfully(lang, title)
}

} // verus!
