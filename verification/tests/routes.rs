use rusthunter::errors::AppError;
use rusthunter::models::{ApplyRequest, SearchQuery};
use rusthunter::routes::apply::{apply_reply, validate_apply, ApplyReply};
use rusthunter::routes::search::validate_search;

fn params(query: Option<&str>, text: Option<&str>, page: Option<u32>, with_description: Option<bool>) -> SearchQuery {
    SearchQuery {
        query: query.map(str::to_owned),
        text: text.map(str::to_owned),
        page,
        include_description: with_description,
    }
}

fn apply(url: Option<&str>, letter: &str, resume: Option<&str>) -> ApplyRequest {
    ApplyRequest {
        vacancy_url: url.map(str::to_owned),
        url: None,
        cover_letter: letter.to_owned(),
        resume_id: resume.map(str::to_owned),
        extra: vec![],
    }
}

#[test]
fn search_defaults() {
    let r = validate_search(&params(None, Some("  AI Automation Engineer "), None, None)).unwrap();
    assert_eq!(r.query, "AI Automation Engineer");
    assert_eq!(r.page, 1);
    assert!(r.include_description);
    let r = validate_search(&params(Some("x"), Some("y"), Some(3), Some(false))).unwrap();
    assert_eq!(r.query, "x");
    assert_eq!(r.page, 3);
    assert!(!r.include_description);
}

#[test]
fn search_rejects_empty_query_and_page_zero() {
    assert_eq!(validate_search(&params(None, None, None, None)).unwrap_err(), AppError::EmptyQuery);
    assert_eq!(validate_search(&params(Some(" \t"), None, Some(0), None)).unwrap_err(), AppError::EmptyQuery);
    assert_eq!(validate_search(&params(Some("x"), None, Some(0), None)).unwrap_err(), AppError::InvalidPage);
}

#[test]
fn apply_validation() {
    let ok = validate_apply(&apply(Some(" https://hh.ru/vacancy/1 "), " Hi ", Some(" r1 "))).unwrap();
    assert_eq!(ok.vacancy_url, "https://hh.ru/vacancy/1");
    assert_eq!(ok.cover_letter, "Hi");
    assert_eq!(ok.resume_id.as_deref(), Some("r1"));
    let blank_resume = validate_apply(&apply(Some("http://hh.ru/vacancy/2"), "Hi", Some("  "))).unwrap();
    assert_eq!(blank_resume.resume_id, None);

    let (status, body) = validate_apply(&apply(None, "Hi", None)).unwrap_err();
    assert_eq!(status, 400);
    assert_eq!(body.detail.as_deref(), Some("vacancy_url must not be empty"));
    assert_eq!(body.status, "failed");
    assert_eq!(body.applied, Some(false));

    let (status, body) = validate_apply(&apply(Some("https://example.com/vacancy/1"), "Hi", None)).unwrap_err();
    assert_eq!(status, 400);
    assert_eq!(body.detail.as_deref(), Some("vacancy_url must be an HH.ru vacancy URL"));

    let (status, body) = validate_apply(&apply(Some("https://hh.ru/vacancy/1"), "   ", None)).unwrap_err();
    assert_eq!(status, 400);
    assert_eq!(body.detail.as_deref(), Some("cover_letter must not be empty"));
}

#[test]
fn apply_replies() {
    let (status, reply) = apply_reply(apply(Some("https://hh.ru/vacancy/1"), "Hi", None), Ok(()));
    assert_eq!(status, 200);
    match reply {
        ApplyReply::Applied(r) => assert_eq!(r.overrides.last().unwrap(), &("status".to_owned(), "applied".to_owned())),
        ApplyReply::Failed(_) => panic!("expected applied"),
    }
    let (status, reply) = apply_reply(apply(Some("https://hh.ru/vacancy/1"), "Hi", None), Err(AppError::CaptchaDetected));
    assert_eq!(status, 503);
    match reply {
        ApplyReply::Failed(r) => assert_eq!(r.detail.as_deref(), Some("captcha detected")),
        ApplyReply::Applied(_) => panic!("expected failure"),
    }
}
