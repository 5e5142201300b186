use moviebot::bot::collection_created_reply;
use moviebot::bot::create_collection_input;
use moviebot::bot::get_user_from_msg;
use moviebot::bot::item_added_reply;
use moviebot::bot::plan_create_collection;
use moviebot::bot::set_imdb_token_reply;
use moviebot::bot::set_imdb_token_request;
use moviebot::bot::set_notion_token_reply;
use moviebot::bot::set_notion_token_request;
use moviebot::error::BotError;
use moviebot::notion::handle_notion_error_response;
use moviebot::notion::create_database_failure;
use moviebot::notion::classify_notion_send_failure;
use moviebot::notion::NotionErrorObj;
use moviebot::transcripts::Language;

fn user_message(e: BotError) -> String {
    match e {
        BotError::FeedBack(c) => c.message,
        other => panic!("expected a user-facing failure, got {:?}", other),
    }
}

#[test]
fn events_without_a_user_escalate_without_replying() {
    assert_eq!(get_user_from_msg(Some(9), Language::En).unwrap(), 9);
    match get_user_from_msg(None, Language::En) {
        Err(BotError::Propagate(c)) => {
            assert_eq!(c.message, "I don't know who you are, it's better not to talk to strangers");
            assert!(c.source.is_none());
        }
        other => panic!("expected an escalated failure, got {:?}", other),
    }
}

#[test]
fn token_inputs_are_trimmed_and_empty_ones_get_usage_hints() {
    assert_eq!(set_imdb_token_request("  abc123  ", Language::En).unwrap(), "abc123");
    let msg = user_message(set_imdb_token_request("   ", Language::En).unwrap_err());
    assert_eq!(
        msg,
        "IMDb API token should follow the /set_imdb_token command.\n e.g. /set_imdb_token abc123"
    );

    assert_eq!(set_notion_token_request("\tsecret\n", Language::En).unwrap(), "secret");
    let msg = user_message(set_notion_token_request("", Language::En).unwrap_err());
    assert_eq!(
        msg,
        "Notion token should follow the /set_notion_token command.\n e.g. /set_notion_token abc123"
    );
}

#[test]
fn stored_tokens_are_echoed_back_verbatim() {
    assert_eq!(
        set_imdb_token_reply(true, "abc123", Language::En).unwrap(),
        "IMDb token has been set as: abc123"
    );
    assert_eq!(
        set_notion_token_reply(true, "secret", Language::En).unwrap(),
        "Notion token has been set as: secret"
    );
    let msg = user_message(set_imdb_token_reply(false, "abc123", Language::En).unwrap_err());
    assert_eq!(msg, "I'm so sorry I forgot who you are, can we /start all over again? 🥺");
}

#[test]
fn collection_creation_needs_input_token_and_a_valid_reference() {
    let msg = user_message(create_collection_input("  ", Language::En).unwrap_err());
    assert_eq!(
        msg,
        "Notion page ID or its link should follow the /create_notion_db command.\n e.g. /create_notion_db abc123"
    );
    assert_eq!(create_collection_input(" page-1 ", Language::En).unwrap(), "page-1");

    let msg = user_message(plan_create_collection("page-1", "", Language::En).unwrap_err());
    assert_eq!(msg, "Please /set_notion_token first.");

    let req = plan_create_collection("raw-page-id", "secret", Language::En).unwrap();
    assert_eq!(req.parent_page_id, "raw-page-id");
    let req = plan_create_collection("25195fba545b4a5636d20ae776bf3189", "secret", Language::En)
        .unwrap();
    assert_eq!(req.parent_page_id, "25195fba545b4a5636d20ae776bf3189");

    let msg = user_message(
        plan_create_collection("https://www.example.com/x", "secret", Language::En).unwrap_err(),
    );
    assert_eq!(msg, "Invalid Notion Page Url");

    assert_eq!(
        collection_created_reply(true, Language::En).unwrap(),
        "Movie list database ID token has been created"
    );
    let msg = user_message(collection_created_reply(false, Language::En).unwrap_err());
    assert_eq!(msg, "I'm so sorry I forgot who you are, can we /start all over again? 🥺");
}

#[test]
fn added_items_are_confirmed_with_their_title() {
    assert_eq!(
        item_added_reply("The Matrix", Language::En),
        "<b>The Matrix</b> has been added to your movie list successfully!"
    );
}

#[test]
fn store_responses_are_classified_by_their_error_body() {
    let body = NotionErrorObj {
        object: "error".to_string(),
        status: 400,
        code: "validation_error".to_string(),
        message: "parent page not found".to_string(),
    };
    match create_database_failure(Some(body.clone()), Language::En, "400".to_string()) {
        BotError::FeedBack(c) => assert_eq!(c.message, "parent page not found"),
        other => panic!("wrong classification: {:?}", other),
    }
    match create_database_failure(None, Language::En, "gibberish body".to_string()) {
        BotError::FeedBack(c) => {
            assert_eq!(c.message, "Can't understand what's wrong with Notion...");
            assert_eq!(c.source.as_deref(), Some("gibberish body"));
        }
        other => panic!("wrong classification: {:?}", other),
    }
    match handle_notion_error_response(Some(body), Language::En, "400".to_string()) {
        BotError::FeedBack(c) => assert_eq!(c.message, "parent page not found"),
        other => panic!("wrong classification: {:?}", other),
    }
    match handle_notion_error_response(None, Language::En, "gibberish body".to_string()) {
        BotError::FeedBackPropagate(c) => {
            assert_eq!(c.message, "Can't understand what's wrong with Notion...");
            assert_eq!(c.source.as_deref(), Some("gibberish body"));
        }
        other => panic!("wrong classification: {:?}", other),
    }
    match classify_notion_send_failure(Language::En, "connection refused".to_string()) {
        BotError::FeedBackPropagate(c) => {
            assert_eq!(c.message, "There's something wrong when I was requesting data from Notion");
            assert_eq!(c.source.as_deref(), Some("connection refused"));
        }
        other => panic!("wrong classification: {:?}", other),
    }
}
