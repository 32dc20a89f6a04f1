use cant_happen::utils::{cant_happen_fmt, issue_ctor_url};
use cant_happen::{CantHappen, Registry, set_repository_new_issue_url};

const INTRO_PREFIX: &str =
    "During development this potential error has been marked as not likely to occur because `";
const FALLBACK: &str = "The developer didn't provide the GitHub repository URL \u{1f62d}";

#[test]
fn success_values_pass_through() {
    let ok: Result<i32, String> = Ok(41);
    assert_eq!(ok.cant_happen("the parser already validated this"), 41);

    let some: Option<&str> = Some("payload");
    assert_eq!(some.cant_happen("the key was just inserted"), "payload");
}

#[test]
fn absent_detail_yields_empty_message() {
    let registry = Registry::new();
    let message = cant_happen_fmt("whatever", None, true, &registry);
    assert_eq!(message, "");
}

#[test]
fn intro_line_is_exact_without_link_generation() {
    let registry = Registry::new();
    let message = cant_happen_fmt("the index is in bounds", Some("boom"), false, &registry);
    assert_eq!(
        message,
        format!("{}the index is in bounds`", INTRO_PREFIX)
    );
}

#[test]
fn the_cause_is_included_works() {
    let message_text = "Regex::new should not fail";
    let registry = Registry::new();
    let detail = format!("Syntax error in pattern {:#?}", r"^\d{+$");
    let message = cant_happen_fmt(message_text, Some(&detail), false, &registry);
    assert!(message.contains(message_text));
    assert!(!message.contains("click"));
}

#[test]
fn fallback_when_registry_unset() {
    let registry = Registry::new();
    let link = issue_ctor_url("why", "detail", &registry);
    assert_eq!(link, FALLBACK);

    let message = cant_happen_fmt("why", Some("detail"), true, &registry);
    assert!(message.contains(FALLBACK));
    assert!(!message.contains("/issues/new"));
}

#[test]
fn message_with_link_quotes_justification_and_invites_click() {
    let mut registry = Registry::new();
    set_repository_new_issue_url(&mut registry, "https://example.com/repo");
    let message = cant_happen_fmt("it can't break", Some("it broke"), true, &registry);
    assert!(message.starts_with(INTRO_PREFIX));
    assert!(message.contains("it can't break"));
    assert!(message.contains("Please click the link below to automatically open a GitHub issue:"));
    assert!(message.contains(
        "Please describe what you were doing when it occurred. Details below will be automatically included"
    ));
}

#[test]
fn link_title_is_percent_encoded_exactly() {
    let mut registry = Registry::new();
    set_repository_new_issue_url(&mut registry, "https://example.com/repo");
    let link = issue_ctor_url("it broke", "detail", &registry);
    assert!(link.starts_with(
        "https://example.com/repo/issues/new?title=Unexpected%20state%20as%20%60it%20broke%60&body="
    ));
}

#[test]
fn query_parameters_round_trip() {
    let mut registry = Registry::new();
    set_repository_new_issue_url(&mut registry, "https://example.com/repo");
    let why = "numbers & spaces #1 `quoted`\nnext line";
    let detail = "line one\nline two: 100%";
    let link = issue_ctor_url(why, detail, &registry);

    let base = "https://example.com/repo/issues/new?title=";
    assert!(link.starts_with(base));
    let query = &link[base.len()..];
    let split = query.find("&body=").expect("the body parameter is present");
    let title_param = &query[..split];
    let body_param = &query[split + "&body=".len()..];

    // neither parameter may hold characters that are unsafe in a query
    for raw in [' ', '#', '&', '`', '\n'] {
        assert!(!title_param.contains(raw));
        assert!(!body_param.contains(raw));
    }

    let title = urlencoding::decode(title_param).expect("title decodes as UTF-8");
    assert_eq!(title, format!("Unexpected state as `{}`", why));

    let body = urlencoding::decode(body_param).expect("body decodes as UTF-8");
    assert_eq!(
        body,
        format!(
            "<Please replace this placeholder with a brief description what command you tried to run>\n\n```\n{}\n```",
            detail
        )
    );
    assert!(body.contains(&format!("```\n{}\n```", detail)));
}

#[test]
fn non_ascii_text_is_encoded_and_round_trips() {
    let mut registry = Registry::new();
    set_repository_new_issue_url(&mut registry, "https://example.com/repo");
    let link = issue_ctor_url("café détruit", "détail", &registry);
    assert!(link.contains("caf%C3%A9"));

    let base = "https://example.com/repo/issues/new?title=";
    let query = &link[base.len()..];
    let split = query.find("&body=").expect("the body parameter is present");
    let title = urlencoding::decode(&query[..split]).expect("title decodes as UTF-8");
    assert_eq!(title, "Unexpected state as `café détruit`");
}

#[test]
fn second_set_is_refused_and_first_value_kept() {
    let mut registry = Registry::new();
    assert!(registry.get().is_none());

    let first = registry.try_set(String::from("https://example.com/first"));
    assert!(first.is_ok());

    let second = registry.try_set(String::from("https://example.com/second"));
    assert_eq!(second, Err(String::from("https://example.com/second")));

    assert_eq!(
        registry.get().map(String::as_str),
        Some("https://example.com/first")
    );
}
