use moviebot::error::BotError;
use moviebot::notion::get_notion_page_id_from_user_input;
use moviebot::notion::parse_notion_page_id_from_user_input;
use moviebot::transcripts::Language;

#[test]
fn test_get_notion_token() {
    let input = "https://www.notion.so/xxxx/25195fba545b4a5636d20ae776bf3189?v=d408c958e7c74846a298243fd4334f27";
    assert_eq!(
        get_notion_page_id_from_user_input(input).unwrap(),
        "25195fba545b4a5636d20ae776bf3189"
    );

    let input = "25195fba545b4a5636d20ae776bf3189";
    assert_eq!(
        get_notion_page_id_from_user_input(input).unwrap(),
        "25195fba545b4a5636d20ae776bf3189"
    );

    let input = "https://www.example.com/xxxx/25195fba545b4a5636d20ae776bf3189?v=d408c958e7c74846a298243fd4334f27";
    assert!(get_notion_page_id_from_user_input(input).is_none());

    let input = "https://www.example.com/?v=d408c958e7c74846a298243fd4334f27";
    assert!(get_notion_page_id_from_user_input(input).is_none());
}

#[test]
fn hyphenated_page_title_keeps_final_token() {
    let input = "https://www.notion.so/myws/My-Movie-Page-25195fba545b4a5636d20ae776bf3189";
    assert_eq!(
        get_notion_page_id_from_user_input(input).unwrap(),
        "25195fba545b4a5636d20ae776bf3189"
    );
}

#[test]
fn raw_id_is_idempotent() {
    let raw = "25195fba545b4a5636d20ae776bf3189";
    let once = get_notion_page_id_from_user_input(raw).unwrap();
    let twice = get_notion_page_id_from_user_input(&once).unwrap();
    assert_eq!(once, raw);
    assert_eq!(twice, once);
}

#[test]
fn workspace_url_without_path_segments_gives_empty_id() {
    // The workspace root URL has a single empty path segment.
    let input = "https://www.notion.so";
    assert_eq!(get_notion_page_id_from_user_input(input).unwrap(), "");
}

#[test]
fn parse_reference_reports_invalid_page_url() {
    let ok = parse_notion_page_id_from_user_input("25195fba545b4a5636d20ae776bf3189", Language::En);
    assert_eq!(ok.unwrap(), "25195fba545b4a5636d20ae776bf3189");

    let err = parse_notion_page_id_from_user_input("https://www.example.com/x", Language::En);
    match err {
        Err(BotError::FeedBack(c)) => {
            assert_eq!(c.message, "Invalid Notion Page Url");
            assert!(c.source.is_none());
        }
        other => panic!("expected a user-facing failure, got {:?}", other),
    }
}
