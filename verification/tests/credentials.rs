use moviebot::db::NotionToken;
use moviebot::db::UserTokens;
use moviebot::db::database_failure;
use moviebot::db::require_configured;
use moviebot::db::token_to_string;
use moviebot::error::BotError;
use moviebot::transcripts::Language;

fn tokens(imdb: &str, integration: &str, database: &str) -> UserTokens {
    UserTokens {
        user_id: 7,
        imdb_token: imdb.to_string(),
        notion_token: NotionToken {
            integration_token: integration.to_string(),
            database_id: database.to_string(),
        },
    }
}

#[test]
fn gate_fails_listing_both_missing_fields() {
    let t = tokens("", "", "");
    assert!(!t.notion_token_is_good());
    let hint = t.user_hint(Language::En);
    assert_eq!(
        hint,
        "Please config required settings.\n\
         \n/set_notion_token `token` - set the Notion internal integration token.\
         \n/create_notion_db `page link or id` - create a Notion database as your movie list."
    );
}

#[test]
fn gate_fails_listing_only_the_missing_token() {
    let t = tokens("", "", "db-1");
    assert!(!t.notion_token_is_good());
    let hint = t.user_hint(Language::En);
    assert!(hint.contains("/set_notion_token"));
    assert!(!hint.contains("/create_notion_db"));
}

#[test]
fn gate_fails_listing_only_the_missing_collection() {
    let t = tokens("", "secret", "");
    assert!(!t.notion_token_is_good());
    let hint = t.user_hint(Language::En);
    assert!(!hint.contains("/set_notion_token"));
    assert!(hint.contains("/create_notion_db"));
}

#[test]
fn gate_passes_when_both_are_set() {
    let t = tokens("", "secret", "db-1");
    assert!(t.notion_token_is_good());
}

#[test]
fn summary_prints_placeholders_for_unset_fields() {
    let t = tokens("", "secret", "");
    assert_eq!(
        t.summary(Language::En),
        "Tokens:\nIMDb token: not set\nNotion token:secret\nNotion database ID: not set"
    );
    assert_eq!(token_to_string("", Language::En), "not set");
    assert_eq!(token_to_string("abc", Language::En), "abc");
}

#[test]
fn store_failures_are_shown_and_escalated() {
    match database_failure(Language::En, "pool timed out".to_string()) {
        BotError::FeedBackPropagate(c) => {
            assert_eq!(
                c.message,
                "I got a bad memory...\nPlease let me stay alone for a while."
            );
            assert_eq!(c.source.as_deref(), Some("pool timed out"));
        }
        other => panic!("wrong classification: {:?}", other),
    }
}

#[test]
fn missing_row_asks_to_start_over() {
    assert_eq!(require_configured(Some(3u64), Language::En).unwrap(), 3);
    match require_configured::<u64>(None, Language::En) {
        Err(BotError::FeedBack(c)) => {
            assert_eq!(
                c.message,
                "I'm so sorry I forgot who you are, can we /start all over again? 🥺"
            );
        }
        other => panic!("wrong classification: {:?}", other),
    }
}
