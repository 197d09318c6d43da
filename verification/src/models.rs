//! Request and response data of the HTTP API.
use vstd::prelude::*;

use crate::text::owned;

verus! {

/// `serde_json::Value`: an arbitrary JSON value that an apply request carries
/// through unchanged.
#[verifier::external_type_specification]
#[verifier::external_body]
pub struct ExJsonValue(serde_json::Value);

/// Query parameters of `GET /search`. `query` and `text` are aliases for the
/// search text; `query` wins when both are given.
#[derive(Debug, Clone)]
pub struct SearchQuery {
    pub query: Option<String>,
    pub text: Option<String>,
    pub page: Option<u32>,
    pub include_description: Option<bool>,
}

/// The view of an optional string.
pub open spec fn opt_view(o: Option<String>) -> Option<Seq<char>> {
    match o {
        Some(s) => Some(s@),
        None => None,
    }
}

/// The view of an optional string slice.
pub open spec fn opt_str_view(o: Option<&str>) -> Option<Seq<char>> {
    match o {
        Some(s) => Some(s@),
        None => None,
    }
}

/// The first of two optional strings that is present.
pub open spec fn first_present(a: Option<String>, b: Option<String>) -> Option<Seq<char>> {
    if a is Some {
        opt_view(a)
    } else {
        opt_view(b)
    }
}

fn as_str_opt(o: &Option<String>) -> (r: Option<&str>)
    ensures
        opt_str_view(r) == opt_view(*o),
{
    match o {
        Some(s) => Some(s.as_str()),
        None => None,
    }
}

impl SearchQuery {
    /// The search text: `query` if present, else `text`.
    pub fn search_text(&self) -> (r: Option<&str>)
        ensures
            opt_str_view(r) == first_present(self.query, self.text),
    {
        if self.query.is_some() {
            as_str_opt(&self.query)
        } else {
            as_str_opt(&self.text)
        }
    }
}

/// Body of `GET /health`.
#[derive(Debug, Clone, Copy)]
pub struct HealthResponse {
    pub status: &'static str,
}

/// The health answer: status `ok`.
pub fn health_response() -> (r: HealthResponse)
    ensures
        r.status@ == "ok"@,
{
    HealthResponse { status: "ok" }
}

/// One vacancy of a search result.
#[derive(Debug, Clone, PartialEq, Eq)]
pub struct JobListing {
    pub title: String,
    pub url: String,
    pub employer: String,
    pub description: String,
}

/// Body of `POST /apply`. `vacancy_url` and `url` are aliases for the vacancy
/// address; every other field of the request row is kept in `extra`, in order.
#[derive(Debug, Clone)]
pub struct ApplyRequest {
    pub vacancy_url: Option<String>,
    pub url: Option<String>,
    pub cover_letter: String,
    pub resume_id: Option<String>,
    pub extra: Vec<(String, serde_json::Value)>,
}

/// A field of the JSON object answered to a successful apply: either a value
/// carried over from the request row or a text.
pub enum FieldView {
    Carried(serde_json::Value),
    Text(Seq<char>),
}

/// The JSON object answered to a successful apply: the fields of the request
/// row, then fields that override them.
#[derive(Debug, Clone)]
pub struct AppliedResponse {
    pub fields: Vec<(String, serde_json::Value)>,
    pub overrides: Vec<(String, String)>,
}

/// The object described by carried fields, later keys replacing earlier ones.
pub open spec fn carried_object(fields: Seq<(String, serde_json::Value)>) -> Map<
    Seq<char>,
    FieldView,
>
    decreases fields.len(),
{
    if fields.len() == 0 {
        Map::empty()
    } else {
        let last = fields.last();
        carried_object(fields.drop_last()).insert(last.0@, FieldView::Carried(last.1))
    }
}

/// `base` updated with text fields, later keys replacing earlier ones.
pub open spec fn with_texts(base: Map<Seq<char>, FieldView>, texts: Seq<(String, String)>) -> Map<
    Seq<char>,
    FieldView,
>
    decreases texts.len(),
{
    if texts.len() == 0 {
        base
    } else {
        let last = texts.last();
        with_texts(base, texts.drop_last()).insert(last.0@, FieldView::Text(last.1@))
    }
}

/// The JSON object that an applied response stands for.
pub open spec fn applied_object(r: AppliedResponse) -> Map<Seq<char>, FieldView> {
    with_texts(carried_object(r.fields@), r.overrides@)
}

/// The object answered to a successful apply of `req`: the request row with
/// `vacancy_url`, `url`, `cover_letter` and `resume_id` set from the request
/// and `status` set to `applied`.
pub open spec fn applied_object_of(req: ApplyRequest) -> Map<Seq<char>, FieldView> {
    let m0 = carried_object(req.extra@);
    let m1 = match req.vacancy_url {
        Some(v) => m0.insert("vacancy_url"@, FieldView::Text(v@)),
        None => m0,
    };
    let m2 = match req.url {
        Some(u) => m1.insert("url"@, FieldView::Text(u@)),
        None => m1,
    };
    let m3 = m2.insert("cover_letter"@, FieldView::Text(req.cover_letter@));
    let m4 = match req.resume_id {
        Some(id) => m3.insert("resume_id"@, FieldView::Text(id@)),
        None => m3,
    };
    m4.insert("status"@, FieldView::Text("applied"@))
}

fn text_field(key: &str, value: String) -> (r: (String, String))
    ensures
        r.0@ == key@,
        r.1 == value,
{
    (owned(key), value)
}

impl ApplyRequest {
    /// The vacancy address: `vacancy_url` if present, else `url`.
    pub fn vacancy_url(&self) -> (r: Option<&str>)
        ensures
            opt_str_view(r) == first_present(self.vacancy_url, self.url),
    {
        if self.vacancy_url.is_some() {
            as_str_opt(&self.vacancy_url)
        } else {
            as_str_opt(&self.url)
        }
    }

    /// The answer to a successful apply: the request row, with the request's
    /// own fields written back and `status` set to `applied`.
    pub fn into_applied_response(self) -> (r: AppliedResponse)
        ensures
            applied_object(r) == applied_object_of(self),
            r.fields@ == self.extra@,
    {
        let ghost req = self;
        let mut overrides: Vec<(String, String)> = Vec::new();
        if let Some(v) = self.vacancy_url {
            overrides.push(text_field("vacancy_url", v));
        }
        if let Some(u) = self.url {
            overrides.push(text_field("url", u));
        }
        overrides.push(text_field("cover_letter", self.cover_letter));
        if let Some(id) = self.resume_id {
            overrides.push(text_field("resume_id", id));
        }
        overrides.push(text_field("status", owned("applied")));
        let r = AppliedResponse { fields: self.extra, overrides };
        proof {
            reveal_with_fuel(with_texts, 6);
        }
        r
    }
}

/// Body of a failed apply.
#[derive(Debug, Clone)]
pub struct ApplyResponse {
    pub status: String,
    pub message: Option<String>,
    pub detail: Option<String>,
    pub vacancy_url: Option<String>,
    pub applied: Option<bool>,
}

impl ApplyResponse {
    /// A failed-apply answer with the given reason.
    pub fn failed(detail: String) -> (r: ApplyResponse)
        ensures
            r.status@ == "failed"@,
            r.message is None,
            r.detail == Some(detail),
            r.vacancy_url is None,
            r.applied == Some(false),
    {
        ApplyResponse {
            status: owned("failed"),
            message: None,
            detail: Some(detail),
            vacancy_url: None,
            applied: Some(false),
        }
    }
}

/// A successful apply answers with the submitted row: every field of the row
/// other than those the request sets is kept as it was, `cover_letter` is the
/// request's cover letter and `status` is `applied`.
pub proof fn law_applied_response_keeps_row(req: ApplyRequest, k: Seq<char>)
    requires
        carried_object(req.extra@).dom().contains(k),
        k != "vacancy_url"@,
        k != "url"@,
        k != "cover_letter"@,
        k != "resume_id"@,
        k != "status"@,
    ensures
        applied_object_of(req).dom().contains(k),
        applied_object_of(req)[k] == carried_object(req.extra@)[k],
        applied_object_of(req)["status"@] == FieldView::Text("applied"@),
        applied_object_of(req)["cover_letter"@] == FieldView::Text(req.cover_letter@),
{
    reveal_strlit("status");
    reveal_strlit("cover_letter");
    reveal_strlit("resume_id");
    assert("cover_letter"@.len() != "status"@.len());
    assert("cover_letter"@.len() != "resume_id"@.len());
}

} // verus!
