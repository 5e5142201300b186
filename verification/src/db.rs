//! Per-user credentials and the credential-store failure policy.
//!
//! One row per user: an opaque metadata-provider token (empty means "use the
//! shared default"), an opaque document-store integration token and a target
//! collection identifier (empty means "not configured"). The relational store
//! holding the rows is an external collaborator; this module owns the shape of
//! a row, the readiness rules over it, and how store failures are classified.

use crate::error::BotError;
use crate::error::Cause;
use crate::transcripts;
use crate::transcripts::Language;
use vstd::prelude::*;
use vstd::string::StringExecFns;

verus! {

#[derive(Debug, Clone, PartialEq, Eq)]
pub struct NotionToken {
    pub integration_token: String,
    pub database_id: String,
}

#[derive(Debug, Clone, PartialEq, Eq)]
pub struct UserTokens {
    pub user_id: u64,
    pub imdb_token: String,
    pub notion_token: NotionToken,
}

impl UserTokens {
    /// Credential readiness: both the store token and the target collection
    /// identifier are configured.
    pub open spec fn spec_notion_token_is_good(&self) -> bool {
        self.notion_token.integration_token@.len() > 0 && self.notion_token.database_id@.len() > 0
    }

    pub fn notion_token_is_good(&self) -> (b: bool)
        ensures
            b == self.spec_notion_token_is_good(),
    {
        !(self.notion_token.integration_token.as_str().is_empty()
            || self.notion_token.database_id.as_str().is_empty())
    }

    /// The hint shown when the readiness gate fails: a title line, then one
    /// line for each of the two fields that is missing — never a generic
    /// message.
    pub open spec fn user_hint_text(&self, lang: Language) -> Seq<char> {
        transcripts::user_hint_title_text(lang) + "\n"@ + (if self.notion_token.integration_token@.len()
            == 0 {
            "\n"@ + transcripts::user_hint_set_notion_token_text(lang)
        } else {
            Seq::<char>::empty()
        }) + (if self.notion_token.database_id@.len() == 0 {
            "\n"@ + transcripts::user_hint_create_notion_database_text(lang)
        } else {
            Seq::<char>::empty()
        })
    }

    pub fn user_hint(&self, lang: Language) -> (r: String)
        ensures
            r@ == self.user_hint_text(lang),
    {
        let mut hint_msg = String::from_str(transcripts::user_hint_title(lang));
        hint_msg.append("\n");
        if self.notion_token.integration_token.as_str().is_empty() {
            hint_msg.append("\n");
            hint_msg.append(transcripts::user_hint_set_notion_token(lang));
        }
        if self.notion_token.database_id.as_str().is_empty() {
            hint_msg.append("\n");
            hint_msg.append(transcripts::user_hint_create_notion_database(lang));
        }
        hint_msg
    }

    /// The settings summary: every unset field prints as the localized
    /// "not set" placeholder, never as an empty string.
    pub open spec fn summary_text(&self, lang: Language) -> Seq<char> {
        "Tokens:\nIMDb token: "@ + token_display(self.imdb_token@, lang) + "\nNotion token:"@
            + token_display(self.notion_token.integration_token@, lang)
            + "\nNotion database ID: "@ + token_display(self.notion_token.database_id@, lang)
    }

    pub fn summary(&self, lang: Language) -> (r: String)
        ensures
            r@ == self.summary_text(lang),
    {
        let mut r = String::from_str("Tokens:\nIMDb token: ");
        r.append(token_to_string(self.imdb_token.as_str(), lang));
        r.append("\nNotion token:");
        r.append(token_to_string(self.notion_token.integration_token.as_str(), lang));
        r.append("\nNotion database ID: ");
        r.append(token_to_string(self.notion_token.database_id.as_str(), lang));
        r
    }
}

/// How a token renders: itself, or the "not set" placeholder when empty.
pub open spec fn token_display(t: Seq<char>, lang: Language) -> Seq<char> {
    if t.len() == 0 {
        transcripts::not_set_text(lang)
    } else {
        t
    }
}

pub fn token_to_string<'a>(s: &'a str, lang: Language) -> (r: &'a str)
    ensures
        r@ == token_display(s@, lang),
{
    if s.is_empty() {
        not_set_static(lang)
    } else {
        s
    }
}

fn not_set_static(lang: Language) -> (r: &'static str)
    ensures
        r@ == transcripts::not_set_text(lang),
{
    transcripts::not_set(lang)
}

/// Law: credential readiness holds exactly when neither field is missing,
/// and the hint lists exactly the missing fields — both lines when both are
/// missing, only the matching line when one is.
pub proof fn lemma_credential_readiness(t: UserTokens, lang: Language)
    ensures
        t.spec_notion_token_is_good() <==> (t.notion_token.integration_token@.len() > 0
            && t.notion_token.database_id@.len() > 0),
        (t.notion_token.integration_token@.len() == 0 && t.notion_token.database_id@.len() == 0)
            ==> !t.spec_notion_token_is_good() && t.user_hint_text(lang)
            == transcripts::user_hint_title_text(lang) + "\n"@ + "\n"@
            + transcripts::user_hint_set_notion_token_text(lang) + "\n"@
            + transcripts::user_hint_create_notion_database_text(lang),
        (t.notion_token.integration_token@.len() == 0 && t.notion_token.database_id@.len() > 0)
            ==> !t.spec_notion_token_is_good() && t.user_hint_text(lang)
            == transcripts::user_hint_title_text(lang) + "\n"@ + "\n"@
            + transcripts::user_hint_set_notion_token_text(lang),
        (t.notion_token.integration_token@.len() > 0 && t.notion_token.database_id@.len() == 0)
            ==> !t.spec_notion_token_is_good() && t.user_hint_text(lang)
            == transcripts::user_hint_title_text(lang) + "\n"@ + "\n"@
            + transcripts::user_hint_create_notion_database_text(lang),
        (t.notion_token.integration_token@.len() > 0 && t.notion_token.database_id@.len() > 0)
            ==> t.spec_notion_token_is_good(),
{
    if t.notion_token.integration_token@.len() == 0 && t.notion_token.database_id@.len() == 0 {
        assert(t.user_hint_text(lang) =~= transcripts::user_hint_title_text(lang) + "\n"@ + "\n"@
            + transcripts::user_hint_set_notion_token_text(lang) + "\n"@
            + transcripts::user_hint_create_notion_database_text(lang));
    }
    if t.notion_token.integration_token@.len() == 0 && t.notion_token.database_id@.len() > 0 {
        assert(t.user_hint_text(lang) =~= transcripts::user_hint_title_text(lang) + "\n"@ + "\n"@
            + transcripts::user_hint_set_notion_token_text(lang));
    }
    if t.notion_token.integration_token@.len() > 0 && t.notion_token.database_id@.len() == 0 {
        assert(t.user_hint_text(lang) =~= transcripts::user_hint_title_text(lang) + "\n"@ + "\n"@
            + transcripts::user_hint_create_notion_database_text(lang));
    }
}

/// Classifies a credential-store failure: the user sees the generic store
/// message, and the technical cause is escalated.
pub fn database_failure(lang: Language, source: String) -> (r: BotError)
    ensures
        r matches BotError::FeedBackPropagate(c) && c.message@ == transcripts::database_error_text(
            lang,
        ) && c.source == Some(source),
{
    BotError::FeedBackPropagate(
        Cause { message: String::from_str(transcripts::database_error(lang)), source: Some(source) },
    )
}

/// A value that had to be configured already: a missing row means the user
/// must re-initialize, an expected and user-correctable condition.
pub fn require_configured<T>(value: Option<T>, lang: Language) -> (r: Result<T, BotError>)
    ensures
        match value {
            Some(v) => r == Ok::<T, BotError>(v),
            None => r matches Err(BotError::FeedBack(c)) && c.message@
                == transcripts::configure_again_text(lang) && c.source is None,
        },
{
    match value {
        Some(v) => Ok(v),
        None => Err(
            BotError::FeedBack(
                Cause { message: String::from_str(transcripts::configure_again(lang)), source: None },
            ),
        ),
    }
}

} // verus!
