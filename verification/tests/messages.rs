use moviebot::transcripts;
use moviebot::transcripts::Language;

#[test]
fn language_defaults_to_english() {
    assert!(matches!(Language::default(), Language::En));
}

#[test]
fn fixed_messages_read_exactly_as_expected() {
    let lang = Language::En;
    assert_eq!(
        transcripts::transcript_welcome(lang),
        "Welcome to work with me! But we need to configure something first.\nPlease use:\n\n/help to check more details."
    );
    assert_eq!(transcripts::no_search_result(lang), "No result was found.");
    assert_eq!(transcripts::add_to_movie_list(lang), "Add to Movie List");
    assert_eq!(transcripts::not_set(lang), "not set");
    assert_eq!(transcripts::invalid_notion_page_url(lang), "Invalid Notion Page Url");
    assert_eq!(
        transcripts::need_notion_token_first(lang),
        "Please /set_notion_token first."
    );
    assert_eq!(
        transcripts::notion_database_created(lang),
        "Movie list database ID token has been created"
    );
}

#[test]
fn parameterized_messages_embed_their_arguments() {
    let lang = Language::En;
    assert_eq!(
        transcripts::imdb_token_set_as(lang, "k1"),
        "IMDb token has been set as: k1"
    );
    assert_eq!(
        transcripts::notion_token_set_as(lang, "k2"),
        "Notion token has been set as: k2"
    );
    assert_eq!(
        transcripts::cannot_reach_server(lang, "IMDb-API"),
        "There's something wrong when I was requesting data from IMDb-API"
    );
    assert_eq!(
        transcripts::add_to_movie_list_successfully(lang, "Dune"),
        "<b>Dune</b> has been added to your movie list successfully!"
    );
}

#[test]
fn help_message_lists_every_command_and_the_help_page() {
    let lang = Language::En;
    let help = transcripts::help_message(lang, "https://example.org/help");
    assert!(help.starts_with("<b>Supported commands:</b>\n\n/help - display this text.\n"));
    assert!(help.contains(transcripts::user_hint_start_command(lang)));
    assert!(help.contains(transcripts::user_hint_settings_command(lang)));
    assert!(help.contains(transcripts::user_hint_set_imdb_token(lang)));
    assert!(help.contains(transcripts::user_hint_set_notion_token(lang)));
    assert!(help.contains(transcripts::user_hint_create_notion_database(lang)));
    assert!(help.ends_with(
        "\n\nPlease visit <a href=\"https://example.org/help\"><b>this page</b></a> to get more help."
    ));
}
