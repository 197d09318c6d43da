//! `POST /apply`: validation of the request and the answer to it.
use vstd::prelude::*;

use crate::errors::{error_message, error_status, AppError};
use crate::models::{
    applied_object, applied_object_of, first_present, opt_view, AppliedResponse, ApplyRequest,
    ApplyResponse,
};
use crate::text::{owned, starts_with, str_starts_with, trim, trim_str};

verus! {

/// A validated apply request.
#[derive(Debug, Clone)]
pub struct ApplyInput {
    pub vacancy_url: String,
    pub cover_letter: String,
    pub resume_id: Option<String>,
}

/// The answer to `POST /apply`: the applied row or a failure.
#[derive(Debug, Clone)]
pub enum ApplyReply {
    Applied(AppliedResponse),
    Failed(ApplyResponse),
}

/// The requested vacancy address (`vacancy_url`, else `url`, else empty),
/// trimmed.
pub open spec fn requested_url(p: ApplyRequest) -> Seq<char> {
    match first_present(p.vacancy_url, p.url) {
        Some(s) => trim(s),
        None => trim(Seq::empty()),
    }
}

/// The requested resume id, trimmed, when it is present and not blank.
pub open spec fn requested_resume(p: ApplyRequest) -> Option<Seq<char>> {
    match p.resume_id {
        Some(id) => if trim(id@).len() > 0 {
            Some(trim(id@))
        } else {
            None
        },
        None => None,
    }
}

/// An HH.ru vacancy page address.
pub open spec fn is_vacancy_url(u: Seq<char>) -> bool {
    starts_with(u, "https://hh.ru/vacancy/"@) || starts_with(u, "http://hh.ru/vacancy/"@)
}

/// A failed answer with status `status` and reason `detail`.
pub open spec fn is_failure(r: (u16, ApplyResponse), status: u16, detail: Seq<char>) -> bool {
    &&& r.0 == status
    &&& r.1.status@ == "failed"@
    &&& r.1.message is None
    &&& opt_view(r.1.detail) == Some(detail)
    &&& r.1.vacancy_url is None
    &&& r.1.applied == Some(false)
}

fn failed(status: u16, detail: &str) -> (r: (u16, ApplyResponse))
    ensures
        is_failure(r, status, detail@),
{
    (status, ApplyResponse::failed(owned(detail)))
}

/// Validates an apply request. The trimmed vacancy address must not be empty
/// and must be an HH.ru vacancy page, and the trimmed cover letter must not be
/// empty; each violation is answered with status 400 and its reason. A blank
/// resume id counts as none.
pub fn validate_apply(payload: &ApplyRequest) -> (r: Result<ApplyInput, (u16, ApplyResponse)>)
    ensures
        requested_url(*payload).len() == 0 ==> r is Err && is_failure(
            r->Err_0,
            400,
            "vacancy_url must not be empty"@,
        ),
        requested_url(*payload).len() > 0 && !is_vacancy_url(requested_url(*payload)) ==> r is Err
            && is_failure(r->Err_0, 400, "vacancy_url must be an HH.ru vacancy URL"@),
        is_vacancy_url(requested_url(*payload)) && trim(payload.cover_letter@).len() == 0 ==> r is Err
            && is_failure(r->Err_0, 400, "cover_letter must not be empty"@),
        requested_url(*payload).len() > 0 && is_vacancy_url(requested_url(*payload)) && trim(
            payload.cover_letter@,
        ).len() > 0 ==> {
            &&& r is Ok
            &&& r->Ok_0.vacancy_url@ == requested_url(*payload)
            &&& r->Ok_0.cover_letter@ == trim(payload.cover_letter@)
            &&& opt_view(r->Ok_0.resume_id) == requested_resume(*payload)
        },
{
    let vacancy_url = match payload.vacancy_url() {
        Some(s) => trim_str(s),
        None => trim_str(""),
    };
    proof {
        reveal_strlit("");
        reveal_strlit("https://hh.ru/vacancy/");
        reveal_strlit("http://hh.ru/vacancy/");
    }
    let cover_letter = trim_str(payload.cover_letter.as_str());
    let resume_id = match &payload.resume_id {
        Some(id) => {
            let t = trim_str(id.as_str());
            if t.as_str().unicode_len() == 0 {
                None
            } else {
                Some(t)
            }
        },
        None => None,
    };
    if vacancy_url.as_str().unicode_len() == 0 {
        return Err(failed(400, "vacancy_url must not be empty"));
    }
    if !str_starts_with(vacancy_url.as_str(), "https://hh.ru/vacancy/") && !str_starts_with(
        vacancy_url.as_str(),
        "http://hh.ru/vacancy/",
    ) {
        return Err(failed(400, "vacancy_url must be an HH.ru vacancy URL"));
    }
    if cover_letter.as_str().unicode_len() == 0 {
        return Err(failed(400, "cover_letter must not be empty"));
    }
    Ok(ApplyInput { vacancy_url, cover_letter, resume_id })
}

/// The answer once the browser flow has finished: on success status 200 with
/// the submitted row marked `applied`; on failure the error's status and a
/// failed answer whose reason is the error's message.
pub fn apply_reply(payload: ApplyRequest, outcome: Result<(), AppError>) -> (r: (u16, ApplyReply))
    ensures
        outcome is Ok ==> r.0 == 200 && r.1 is Applied && applied_object(r.1->Applied_0)
            == applied_object_of(payload),
        outcome is Err ==> r.1 is Failed && is_failure(
            (r.0, r.1->Failed_0),
            error_status(outcome->Err_0),
            error_message(outcome->Err_0),
        ),
{
    match outcome {
        Ok(()) => (200, ApplyReply::Applied(payload.into_applied_response())),
        Err(err) => {
            let status = err.status_code();
            (status, ApplyReply::Failed(ApplyResponse::failed(err.to_string())))
        },
    }
}

/// Every address under `https://hh.ru/vacancy/` or `http://hh.ru/vacancy/`
/// is a vacancy page; an address that does not start with `h` (an empty one
/// included) is not.
pub proof fn law_vacancy_urls(rest: Seq<char>, u: Seq<char>)
    ensures
        is_vacancy_url("https://hh.ru/vacancy/"@ + rest),
        is_vacancy_url("http://hh.ru/vacancy/"@ + rest),
        u.len() == 0 || u[0] != 'h' ==> !is_vacancy_url(u),
{
    reveal_strlit("https://hh.ru/vacancy/");
    reveal_strlit("http://hh.ru/vacancy/");
    let a = "https://hh.ru/vacancy/"@;
    let b = "http://hh.ru/vacancy/"@;
    assert((a + rest).subrange(0, a.len() as int) =~= a);
    assert((b + rest).subrange(0, b.len() as int) =~= b);
    if u.len() > 0 && u[0] != 'h' {
        if starts_with(u, a) {
            assert(u.subrange(0, a.len() as int)[0] == u[0]);
        }
        if starts_with(u, b) {
            assert(u.subrange(0, b.len() as int)[0] == u[0]);
        }
    }
}

} // verus!
