use rusthunter::models::{health_response, ApplyRequest, ApplyResponse, SearchQuery};
use serde_json::Value;

fn query(query: Option<&str>, text: Option<&str>) -> SearchQuery {
    SearchQuery {
        query: query.map(str::to_owned),
        text: text.map(str::to_owned),
        page: None,
        include_description: None,
    }
}

fn request(vacancy_url: Option<&str>, url: Option<&str>) -> ApplyRequest {
    ApplyRequest {
        vacancy_url: vacancy_url.map(str::to_owned),
        url: url.map(str::to_owned),
        cover_letter: "Letter".to_owned(),
        resume_id: None,
        extra: vec![],
    }
}

#[test]
fn search_text_prefers_query() {
    assert_eq!(query(Some("a"), Some("b")).search_text(), Some("a"));
    assert_eq!(query(None, Some("b")).search_text(), Some("b"));
    assert_eq!(query(None, None).search_text(), None);
}

#[test]
fn vacancy_url_prefers_vacancy_url() {
    assert_eq!(request(Some("a"), Some("b")).vacancy_url(), Some("a"));
    assert_eq!(request(None, Some("b")).vacancy_url(), Some("b"));
    assert_eq!(request(None, None).vacancy_url(), None);
}

#[test]
fn health_is_ok() {
    assert_eq!(health_response().status, "ok");
}

#[test]
fn failed_response() {
    let r = ApplyResponse::failed("Reason".to_owned());
    assert_eq!(r.status, "failed");
    assert_eq!(r.message, None);
    assert_eq!(r.detail.as_deref(), Some("Reason"));
    assert_eq!(r.vacancy_url, None);
    assert_eq!(r.applied, Some(false));
}

#[test]
fn applied_response_keeps_row_and_marks_applied() {
    let req = ApplyRequest {
        vacancy_url: None,
        url: Some("https://hh.ru/vacancy/1".to_owned()),
        cover_letter: "Hello".to_owned(),
        resume_id: Some("r1".to_owned()),
        extra: vec![
            ("row_number".to_owned(), Value::from(8)),
            ("title".to_owned(), Value::from("Example vacancy")),
            ("status".to_owned(), Value::from("ready")),
        ],
    };
    let r = req.into_applied_response();
    assert_eq!(r.fields.len(), 3);
    assert_eq!(r.fields[0], ("row_number".to_owned(), Value::from(8)));
    assert_eq!(
        r.overrides,
        vec![
            ("url".to_owned(), "https://hh.ru/vacancy/1".to_owned()),
            ("cover_letter".to_owned(), "Hello".to_owned()),
            ("resume_id".to_owned(), "r1".to_owned()),
            ("status".to_owned(), "applied".to_owned()),
        ]
    );
}
