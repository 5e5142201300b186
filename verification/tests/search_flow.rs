use moviebot::bot::SEARCH_RESULT_CAP;
use moviebot::bot::SearchReply;
use moviebot::bot::search_gate;
use moviebot::bot::search_keyword;
use moviebot::bot::search_replies;
use moviebot::db::NotionToken;
use moviebot::db::UserTokens;
use moviebot::error::BotError;
use moviebot::imdb::ProviderFailure;
use moviebot::imdb::SearchResult;
use moviebot::imdb::classify_provider_failure;
use moviebot::imdb::process_search_results;
use moviebot::imdb::provider_error_gate;
use moviebot::transcripts::Language;

fn result(id: &str, title: &str, description: &str) -> SearchResult {
    SearchResult {
        id: id.to_string(),
        title: title.to_string(),
        description: description.to_string(),
    }
}

#[test]
fn cap_of_five_on_eight_results_yields_exactly_five() {
    let raw: Vec<Option<SearchResult>> = (0..8)
        .map(|i| Some(result(&format!("tt{i}"), &format!("Movie {i}"), "(1999)")))
        .collect();
    let processed = process_search_results(raw, SEARCH_RESULT_CAP);
    assert_eq!(processed.len(), 5);
    for (i, r) in processed.iter().enumerate() {
        assert_eq!(r.id, format!("tt{i}"));
    }
}

#[test]
fn outbound_messages_come_in_reverse_provider_order() {
    let results = vec![
        result("tt0", "First", ""),
        result("tt1", "Second", ""),
        result("tt2", "Third", ""),
    ];
    match search_replies(results, Language::En) {
        SearchReply::Messages(msgs) => {
            assert_eq!(msgs.len(), 3);
            assert_eq!(msgs[0].callback_id, "tt2");
            assert_eq!(msgs[1].callback_id, "tt1");
            assert_eq!(msgs[2].callback_id, "tt0");
            assert_eq!(
                msgs[0].html_text,
                "<a href=\"https://www.imdb.com/title/tt2\"><b>Third</b></a>"
            );
            assert_eq!(msgs[0].button_label, "Add to Movie List");
        }
        SearchReply::NoResults(_) => panic!("expected messages"),
    }
}

#[test]
fn no_results_sends_one_bold_message() {
    match search_replies(Vec::new(), Language::En) {
        SearchReply::NoResults(s) => assert_eq!(s, "<b>No result was found.</b>"),
        SearchReply::Messages(_) => panic!("expected the no-results message"),
    }
}

#[test]
fn descriptions_are_cut_at_the_first_sentence_unit() {
    let raw = vec![Some(result(
        "tt1",
        "Movie",
        "(1999) A long tale (with more) text",
    ))];
    let processed = process_search_results(raw, 5);
    assert_eq!(processed[0].description, "(1999)");
}

#[test]
fn unreadable_entries_are_dropped_but_spend_the_cap() {
    let raw = vec![
        Some(result("tt0", "A", "")),
        None,
        Some(result("tt2", "C", "")),
        Some(result("tt3", "D", "")),
    ];
    let processed = process_search_results(raw, 3);
    assert_eq!(processed.len(), 2);
    assert_eq!(processed[0].id, "tt0");
    assert_eq!(processed[1].id, "tt2");
}

#[test]
fn provider_error_message_is_shown_verbatim() {
    match provider_error_gate(Some("Invalid API Key".to_string())) {
        Err(BotError::FeedBack(c)) => assert_eq!(c.message, "Invalid API Key"),
        other => panic!("wrong classification: {:?}", other),
    }
    assert!(provider_error_gate(Some(String::new())).is_ok());
    assert!(provider_error_gate(None).is_ok());
}

#[test]
fn transport_failures_are_shown_generically_and_escalated() {
    match classify_provider_failure(ProviderFailure::Unreachable, Language::En, "timeout".into()) {
        BotError::FeedBackPropagate(c) => {
            assert_eq!(
                c.message,
                "There's something wrong when I was requesting data from IMDb-API"
            );
            assert_eq!(c.source.as_deref(), Some("timeout"));
        }
        other => panic!("wrong classification: {:?}", other),
    }
    match classify_provider_failure(ProviderFailure::ErrorUnreadable, Language::En, "x".into()) {
        BotError::FeedBackPropagate(c) => {
            assert_eq!(c.message, "Can't understand what's wrong with IMDb-API...");
        }
        other => panic!("wrong classification: {:?}", other),
    }
    match classify_provider_failure(ProviderFailure::RecordUnreadable, Language::En, "x".into()) {
        BotError::FeedBackPropagate(c) => {
            assert_eq!(c.message, "IMDb-API told me bullshit...");
        }
        other => panic!("wrong classification: {:?}", other),
    }
}

#[test]
fn search_needs_ready_credentials_and_a_title() {
    let not_ready = UserTokens {
        user_id: 1,
        imdb_token: String::new(),
        notion_token: NotionToken {
            integration_token: String::new(),
            database_id: String::new(),
        },
    };
    assert!(matches!(
        search_gate(&not_ready, Language::En),
        Err(BotError::FeedBack(_))
    ));

    let ready = UserTokens {
        user_id: 1,
        imdb_token: String::new(),
        notion_token: NotionToken {
            integration_token: "secret".to_string(),
            database_id: "db".to_string(),
        },
    };
    assert!(search_gate(&ready, Language::En).is_ok());

    assert_eq!(search_keyword(Some("  The Matrix  "), Language::En).unwrap(), "The Matrix");
    match search_keyword(Some("   "), Language::En) {
        Err(BotError::FeedBack(c)) => assert_eq!(c.message, "Please send me the title"),
        other => panic!("wrong classification: {:?}", other),
    }
    match search_keyword(None, Language::En) {
        Err(BotError::FeedBack(c)) => assert_eq!(c.message, "Please send me the title"),
        other => panic!("wrong classification: {:?}", other),
    }
}
