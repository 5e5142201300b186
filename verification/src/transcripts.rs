//! All user-facing text, keyed by language.
//!
//! Every message has a spec-level counterpart (`*_text`) so that contracts
//! elsewhere in the crate can state exactly which message a failure carries.

use vstd::prelude::*;
use vstd::string::StringExecFns;

verus! {

#[derive(Debug, Copy, Clone, PartialEq, Eq, Structural)]
pub enum Language {
    En,
}

impl Default for Language {
    fn default() -> (r: Self)
        ensures
            r == Language::En,
    {
        Self::En
    }
}

pub open spec fn transcript_welcome_text(lang: Language) -> Seq<char> {
    match lang {
        Language::En => {
            "Welcome to work with me! But we need to configure something first.\nPlease use:\n\n/help to check more details."@
        },
    }
}

pub fn transcript_welcome(lang: Language) -> (r: &'static str)
    ensures
        r@ == transcript_welcome_text(lang),
{
    match lang {
        Language::En => {
            "Welcome to work with me! But we need to configure something first.\nPlease use:\n\n/help to check more details."
        },
    }
}

pub open spec fn database_error_text(lang: Language) -> Seq<char> {
    match lang {
        Language::En => "I got a bad memory...\nPlease let me stay alone for a while."@,
    }
}

pub fn database_error(lang: Language) -> (r: &'static str)
    ensures
        r@ == database_error_text(lang),
{
    match lang {
        Language::En => "I got a bad memory...\nPlease let me stay alone for a while.",
    }
}

pub open spec fn message_from_no_one_text(lang: Language) -> Seq<char> {
    match lang {
        Language::En => "I don't know who you are, it's better not to talk to strangers"@,
    }
}

pub fn message_from_no_one(lang: Language) -> (r: &'static str)
    ensures
        r@ == message_from_no_one_text(lang),
{
    match lang {
        Language::En => "I don't know who you are, it's better not to talk to strangers",
    }
}

pub open spec fn configure_again_text(lang: Language) -> Seq<char> {
    match lang {
        Language::En => "I'm so sorry I forgot who you are, can we /start all over again? 🥺"@,
    }
}

pub fn configure_again(lang: Language) -> (r: &'static str)
    ensures
        r@ == configure_again_text(lang),
{
    match lang {
        Language::En => "I'm so sorry I forgot who you are, can we /start all over again? 🥺",
    }
}

pub open spec fn input_empty_imdb_token_text(lang: Language) -> Seq<char> {
    match lang {
        Language::En => {
            "IMDb API token should follow the /set_imdb_token command.\n e.g. /set_imdb_token abc123"@
        },
    }
}

pub fn input_empty_imdb_token(lang: Language) -> (r: &'static str)
    ensures
        r@ == input_empty_imdb_token_text(lang),
{
    match lang {
        Language::En => {
            "IMDb API token should follow the /set_imdb_token command.\n e.g. /set_imdb_token abc123"
        },
    }
}

pub open spec fn input_empty_notion_token_text(lang: Language) -> Seq<char> {
    match lang {
        Language::En => {
            "Notion token should follow the /set_notion_token command.\n e.g. /set_notion_token abc123"@
        },
    }
}

pub fn input_empty_notion_token(lang: Language) -> (r: &'static str)
    ensures
        r@ == input_empty_notion_token_text(lang),
{
    match lang {
        Language::En => {
            "Notion token should follow the /set_notion_token command.\n e.g. /set_notion_token abc123"
        },
    }
}

pub open spec fn input_empty_notion_page_id_text(lang: Language) -> Seq<char> {
    match lang {
        Language::En => {
            "Notion page ID or its link should follow the /create_notion_db command.\n e.g. /create_notion_db abc123"@
        },
    }
}

pub fn input_empty_notion_page_id(lang: Language) -> (r: &'static str)
    ensures
        r@ == input_empty_notion_page_id_text(lang),
{
    match lang {
        Language::En => {
            "Notion page ID or its link should follow the /create_notion_db command.\n e.g. /create_notion_db abc123"
        },
    }
}

pub open spec fn input_empty_keyword_text(lang: Language) -> Seq<char> {
    match lang {
        Language::En => "Please send me the title"@,
    }
}

pub fn input_empty_keyword(lang: Language) -> (r: &'static str)
    ensures
        r@ == input_empty_keyword_text(lang),
{
    match lang {
        Language::En => "Please send me the title",
    }
}

pub open spec fn imdb_token_set_as_text(lang: Language, token: Seq<char>) -> Seq<char> {
    match lang {
        Language::En => "IMDb token has been set as: "@ + token,
    }
}

pub fn imdb_token_set_as(lang: Language, token: &str) -> (r: String)
    ensures
        r@ == imdb_token_set_as_text(lang, token@),
{
    match lang {
        Language::En => {
            let mut r = String::from_str("IMDb token has been set as: ");
            r.append(token);
            r
        },
    }
}

pub open spec fn notion_token_set_as_text(lang: Language, token: Seq<char>) -> Seq<char> {
    match lang {
        Language::En => "Notion token has been set as: "@ + token,
    }
}

pub fn notion_token_set_as(lang: Language, token: &str) -> (r: String)
    ensures
        r@ == notion_token_set_as_text(lang, token@),
{
    match lang {
        Language::En => {
            let mut r = String::from_str("Notion token has been set as: ");
            r.append(token);
            r
        },
    }
}

pub open spec fn notion_database_created_text(lang: Language) -> Seq<char> {
    match lang {
        Language::En => "Movie list database ID token has been created"@,
    }
}

pub fn notion_database_created(lang: Language) -> (r: &'static str)
    ensures
        r@ == notion_database_created_text(lang),
{
    match lang {
        Language::En => "Movie list database ID token has been created",
    }
}

pub open spec fn need_notion_token_first_text(lang: Language) -> Seq<char> {
    match lang {
        Language::En => "Please /set_notion_token first."@,
    }
}

pub fn need_notion_token_first(lang: Language) -> (r: &'static str)
    ensures
        r@ == need_notion_token_first_text(lang),
{
    match lang {
        Language::En => "Please /set_notion_token first.",
    }
}

pub open spec fn no_search_result_text(lang: Language) -> Seq<char> {
    match lang {
        Language::En => "No result was found."@,
    }
}

pub fn no_search_result(lang: Language) -> (r: &'static str)
    ensures
        r@ == no_search_result_text(lang),
{
    match lang {
        Language::En => "No result was found.",
    }
}

pub open spec fn add_to_movie_list_text(lang: Language) -> Seq<char> {
    match lang {
        Language::En => "Add to Movie List"@,
    }
}

pub fn add_to_movie_list(lang: Language) -> (r: &'static str)
    ensures
        r@ == add_to_movie_list_text(lang),
{
    match lang {
        Language::En => "Add to Movie List",
    }
}

pub open spec fn add_to_movie_list_successfully_text(lang: Language, title: Seq<char>) -> Seq<
    char,
> {
    match lang {
        Language::En => "<b>"@ + title + "</b> has been added to your movie list successfully!"@,
    }
}

pub fn add_to_movie_list_successfully(lang: Language, title: &str) -> (r: String)
    ensures
        r@ == add_to_movie_list_successfully_text(lang, title@),
{
    match lang {
        Language::En => {
            let mut r = String::from_str("<b>");
            r.append(title);
            r.append("</b> has been added to your movie list successfully!");
            r
        },
    }
}

pub open spec fn not_set_text(lang: Language) -> Seq<char> {
    match lang {
        Language::En => "not set"@,
    }
}

pub fn not_set(lang: Language) -> (r: &'static str)
    ensures
        r@ == not_set_text(lang),
{
    match lang {
        Language::En => "not set",
    }
}

pub open spec fn user_hint_title_text(lang: Language) -> Seq<char> {
    match lang {
        Language::En => "Please config required settings."@,
    }
}

pub fn user_hint_title(lang: Language) -> (r: &'static str)
    ensures
        r@ == user_hint_title_text(lang),
{
    match lang {
        Language::En => "Please config required settings.",
    }
}

pub open spec fn user_hint_help_command_text(lang: Language) -> Seq<char> {
    match lang {
        Language::En => "/help - display this text."@,
    }
}

pub fn user_hint_help_command(lang: Language) -> (r: &'static str)
    ensures
        r@ == user_hint_help_command_text(lang),
{
    match lang {
        Language::En => "/help - display this text.",
    }
}

pub open spec fn user_hint_start_command_text(lang: Language) -> Seq<char> {
    match lang {
        Language::En => "/start - start to do some work with me."@,
    }
}

pub fn user_hint_start_command(lang: Language) -> (r: &'static str)
    ensures
        r@ == user_hint_start_command_text(lang),
{
    match lang {
        Language::En => "/start - start to do some work with me.",
    }
}

pub open spec fn user_hint_settings_command_text(lang: Language) -> Seq<char> {
    match lang {
        Language::En => "/settings - show your tokens information."@,
    }
}

pub fn user_hint_settings_command(lang: Language) -> (r: &'static str)
    ensures
        r@ == user_hint_settings_command_text(lang),
{
    match lang {
        Language::En => "/settings - show your tokens information.",
    }
}

pub open spec fn user_hint_set_imdb_token_text(lang: Language) -> Seq<char> {
    match lang {
        Language::En => {
            "/set_imdb_token `token` - set the IMDb API token for getting movie information. If not set, the shared default API token will be used. This token can easily reach the limit of 100 requests per day, please set your own API token."@
        },
    }
}

pub fn user_hint_set_imdb_token(lang: Language) -> (r: &'static str)
    ensures
        r@ == user_hint_set_imdb_token_text(lang),
{
    match lang {
        Language::En => {
            "/set_imdb_token `token` - set the IMDb API token for getting movie information. If not set, the shared default API token will be used. This token can easily reach the limit of 100 requests per day, please set your own API token."
        },
    }
}

pub open spec fn user_hint_set_notion_token_text(lang: Language) -> Seq<char> {
    match lang {
        Language::En => "/set_notion_token `token` - set the Notion internal integration token."@,
    }
}

pub fn user_hint_set_notion_token(lang: Language) -> (r: &'static str)
    ensures
        r@ == user_hint_set_notion_token_text(lang),
{
    match lang {
        Language::En => "/set_notion_token `token` - set the Notion internal integration token.",
    }
}

pub open spec fn user_hint_create_notion_database_text(lang: Language) -> Seq<char> {
    match lang {
        Language::En => {
            "/create_notion_db `page link or id` - create a Notion database as your movie list."@
        },
    }
}

pub fn user_hint_create_notion_database(lang: Language) -> (r: &'static str)
    ensures
        r@ == user_hint_create_notion_database_text(lang),
{
    match lang {
        Language::En => {
            "/create_notion_db `page link or id` - create a Notion database as your movie list."
        },
    }
}

pub open spec fn invalid_notion_page_url_text(lang: Language) -> Seq<char> {
    match lang {
        Language::En => "Invalid Notion Page Url"@,
    }
}

pub fn invalid_notion_page_url(lang: Language) -> (r: &'static str)
    ensures
        r@ == invalid_notion_page_url_text(lang),
{
    match lang {
        Language::En => "Invalid Notion Page Url",
    }
}

pub open spec fn parse_notion_error_message_failed_text(lang: Language) -> Seq<char> {
    match lang {
        Language::En => "Can't understand what's wrong with Notion..."@,
    }
}

pub fn parse_notion_error_message_failed(lang: Language) -> (r: &'static str)
    ensures
        r@ == parse_notion_error_message_failed_text(lang),
{
    match lang {
        Language::En => "Can't understand what's wrong with Notion...",
    }
}

pub open spec fn cannot_reach_server_text(lang: Language, server_name: Seq<char>) -> Seq<char> {
    match lang {
        Language::En => "There's something wrong when I was requesting data from "@ + server_name,
    }
}

pub fn cannot_reach_server(lang: Language, server_name: &str) -> (r: String)
    ensures
        r@ == cannot_reach_server_text(lang, server_name@),
{
    match lang {
        Language::En => {
            let mut r = String::from_str(
                "There's something wrong when I was requesting data from ",
            );
            r.append(server_name);
            r
        },
    }
}

pub open spec fn parse_imdb_api_error_message_failed_text(lang: Language) -> Seq<char> {
    match lang {
        Language::En => "Can't understand what's wrong with IMDb-API..."@,
    }
}

pub fn parse_imdb_api_error_message_failed(lang: Language) -> (r: &'static str)
    ensures
        r@ == parse_imdb_api_error_message_failed_text(lang),
{
    match lang {
        Language::En => "Can't understand what's wrong with IMDb-API...",
    }
}

pub open spec fn parse_imdb_api_response_failed_text(lang: Language) -> Seq<char> {
    match lang {
        Language::En => "IMDb-API told me bullshit..."@,
    }
}

pub fn parse_imdb_api_response_failed(lang: Language) -> (r: &'static str)
    ensures
        r@ == parse_imdb_api_response_failed_text(lang),
{
    match lang {
        Language::En => "IMDb-API told me bullshit...",
    }
}

pub open spec fn help_message_text(lang: Language, help_page: Seq<char>) -> Seq<char> {
    match lang {
        Language::En => "<b>Supported commands:</b>\n\n"@ + user_hint_help_command_text(lang)
            + "\n"@ + user_hint_start_command_text(lang) + "\n"@ + user_hint_settings_command_text(
            lang,
        ) + "\n"@ + user_hint_set_imdb_token_text(lang) + "\n"@ + user_hint_set_notion_token_text(
            lang,
        ) + "\n"@ + user_hint_create_notion_database_text(lang) + "\n\nPlease visit <a href=\""@
            + help_page + "\"><b>this page</b></a> to get more help."@,
    }
}

pub fn help_message(lang: Language, help_page: &str) -> (r: String)
    ensures
        r@ == help_message_text(lang, help_page@),
{
    match lang {
        Language::En => {
            let mut r = String::from_str("<b>Supported commands:</b>\n\n");
            r.append(user_hint_help_command(lang));
            r.append("\n");
            r.append(user_hint_start_command(lang));
            r.append("\n");
            r.append(user_hint_settings_command(lang));
            r.append("\n");
            r.append(user_hint_set_imdb_token(lang));
            r.append("\n");
            r.append(user_hint_set_notion_token(lang));
            r.append("\n");
            r.append(user_hint_create_notion_database(lang));
            r.append("\n\nPlease visit <a href=\"");
            r.append(help_page);
            r.append("\"><b>this page</b></a> to get more help.");
            r
        },
    }
}

} // verus!
