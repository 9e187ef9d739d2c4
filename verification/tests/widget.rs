use feedback::feedback_popover::{
    feedback_chars_remaining, resolve_server_url, FeedbackButton, FeedbackError, FeedbackPopover,
    FeedbackRequestBody, SystemSpecs, FEEDBACK_CHAR_COUNT_MAX, FEEDBACK_CHAR_COUNT_MIN,
};

fn specs() -> SystemSpecs {
    SystemSpecs {
        json: String::from("{\"os\":\"linux\",\"app_version\":\"0.1.0\"}"),
    }
}

#[test]
fn toggle_when_closed_opens_one_focused_popover() {
    let mut button = FeedbackButton::new();
    assert!(!button.popover_open());

    button.toggle_feedback();

    assert!(button.popover_open());
    let popover = button.feedback_popover.as_ref().unwrap();
    assert_eq!(popover.feedback_editor.text, "");
    assert!(popover.feedback_editor.focused);
}

#[test]
fn toggle_when_open_keeps_popover_open() {
    let mut button = FeedbackButton::new();
    button.toggle_feedback();
    let mut popover = button.feedback_popover.clone().unwrap();
    popover.buffer_edited(String::from("draft text"));
    button.feedback_popover = Some(popover);
    let before = button.clone();

    // Regression candidate: re-invoking the toggle is a no-op, so the button
    // cannot dismiss the popover. This asserts the behaviour as it stands.
    button.toggle_feedback();

    assert!(button.popover_open());
    assert_eq!(button, before);
}

#[test]
fn submit_body_for_hello_is_exact() {
    let mut popover = FeedbackPopover::new();
    popover.buffer_edited(String::from("hello"));

    let request = popover.submit_feedback(
        Some(String::from("metrics-0001")),
        specs(),
        "client-token",
        "https://zed.dev",
    );

    assert_eq!(
        request.body,
        "{\"feedback_text\":\"hello\",\"metrics_id\":\"metrics-0001\",\
         \"system_specs\":{\"os\":\"linux\",\"app_version\":\"0.1.0\"},\
         \"token\":\"client-token\"}"
    );
}

#[test]
fn submit_body_without_metrics_id_omits_the_field() {
    let mut popover = FeedbackPopover::new();
    popover.buffer_edited(String::from("hello"));

    let request = popover.submit_feedback(None, specs(), "client-token", "https://zed.dev");

    assert_eq!(
        request.body,
        "{\"feedback_text\":\"hello\",\
         \"system_specs\":{\"os\":\"linux\",\"app_version\":\"0.1.0\"},\
         \"token\":\"client-token\"}"
    );
}

#[test]
fn submit_is_one_post_to_the_endpoint() {
    let mut popover = FeedbackPopover::new();
    popover.buffer_edited(String::from("hello"));

    let request = popover.submit_feedback(None, specs(), "client-token", "https://zed.dev");

    assert_eq!(request.method, "POST");
    assert_eq!(request.url, "https://zed.dev/api/feedback");
    assert_eq!(request.content_type, "application/json");
}

#[test]
fn submit_is_not_blocked_below_the_character_minimum() {
    let mut popover = FeedbackPopover::new();
    let short = String::from("hi");
    assert!(short.chars().count() < FEEDBACK_CHAR_COUNT_MIN);
    popover.buffer_edited(short);

    let request = popover.submit_feedback(None, specs(), "client-token", "https://zed.dev");

    assert_eq!(request.url, "https://zed.dev/api/feedback");
    assert_eq!(
        request.body,
        "{\"feedback_text\":\"hi\",\
         \"system_specs\":{\"os\":\"linux\",\"app_version\":\"0.1.0\"},\
         \"token\":\"client-token\"}"
    );
}

#[test]
fn server_url_override_moves_the_endpoint() {
    let base = resolve_server_url(Some(String::from("http://localhost:3000")));
    assert_eq!(base, "http://localhost:3000");

    let popover = FeedbackPopover::new();
    let request = popover.submit_feedback(None, specs(), "client-token", base.as_str());
    assert_eq!(request.url, "http://localhost:3000/api/feedback");
}

#[test]
fn server_url_defaults_without_an_override() {
    let base = resolve_server_url(None);
    assert_eq!(base, "https://zed.dev");

    let popover = FeedbackPopover::new();
    let request = popover.submit_feedback(None, specs(), "client-token", base.as_str());
    assert_eq!(request.url, "https://zed.dev/api/feedback");
}

#[test]
fn non_success_response_changes_no_visible_state() {
    let mut button = FeedbackButton::new();
    button.toggle_feedback();
    let before = button.clone();

    let outcome = button.on_submit_response(500);

    assert_eq!(outcome, Err(FeedbackError::UnsuccessfulStatus(500)));
    assert_eq!(button, before);
}

#[test]
fn response_status_classification() {
    let mut button = FeedbackButton::new();
    assert_eq!(button.on_submit_response(200), Ok(()));
    assert_eq!(button.on_submit_response(204), Ok(()));
    assert_eq!(button.on_submit_response(299), Ok(()));
    assert_eq!(
        button.on_submit_response(199),
        Err(FeedbackError::UnsuccessfulStatus(199))
    );
    assert_eq!(
        button.on_submit_response(300),
        Err(FeedbackError::UnsuccessfulStatus(300))
    );
    assert_eq!(
        button.on_submit_response(404),
        Err(FeedbackError::UnsuccessfulStatus(404))
    );
}

#[test]
fn request_body_serialization_matches_by_hand_form() {
    let body = FeedbackRequestBody {
        feedback_text: String::from("a \"quoted\" line\nand a \\ backslash"),
        metrics_id: Some(String::from("metrics-0002")),
        system_specs: SystemSpecs {
            json: String::from("{}"),
        },
        token: String::from("client-token"),
    };

    assert_eq!(
        body.to_json(),
        "{\"feedback_text\":\"a \\\"quoted\\\" line\\nand a \\\\ backslash\",\
         \"metrics_id\":\"metrics-0002\",\"system_specs\":{},\
         \"token\":\"client-token\"}"
    );
}

#[test]
fn chars_remaining_counts_down_from_the_maximum() {
    assert_eq!(feedback_chars_remaining(0), FEEDBACK_CHAR_COUNT_MAX);
    assert_eq!(feedback_chars_remaining(5), 995);
    assert_eq!(feedback_chars_remaining(FEEDBACK_CHAR_COUNT_MAX), 0);
}

#[test]
fn ui_names() {
    assert_eq!(FeedbackButton::ui_name(), "FeedbackButton");
    assert_eq!(FeedbackPopover::ui_name(), "FeedbackPopover");
}
