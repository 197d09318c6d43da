//! `GET /search`: validation of the query parameters.
use vstd::prelude::*;

use crate::errors::AppError;
use crate::models::{first_present, SearchQuery};
use crate::text::{trim, trim_str};

verus! {

/// A validated search request.
#[derive(Debug, Clone)]
pub struct SearchRequest {
    pub query: String,
    pub page: u32,
    pub include_description: bool,
}

/// The search text of the parameters (`query`, else `text`, else empty),
/// trimmed.
pub open spec fn requested_text(params: SearchQuery) -> Seq<char> {
    match first_present(params.query, params.text) {
        Some(s) => trim(s),
        None => trim(Seq::empty()),
    }
}

/// Validates the search parameters: the trimmed search text must not be empty
/// (`EmptyQuery`), and the page, 1 when absent, must not be 0 (`InvalidPage`).
/// Descriptions are included unless `include_description` is `false`.
pub fn validate_search(params: &SearchQuery) -> (r: Result<SearchRequest, AppError>)
    ensures
        requested_text(*params).len() == 0 ==> r == Err::<SearchRequest, AppError>(
            AppError::EmptyQuery,
        ),
        requested_text(*params).len() > 0 && params.page == Some(0u32) ==> r == Err::<
            SearchRequest,
            AppError,
        >(AppError::InvalidPage),
        requested_text(*params).len() > 0 && params.page != Some(0u32) ==> {
            &&& r is Ok
            &&& r->Ok_0.query@ == requested_text(*params)
            &&& r->Ok_0.page == match params.page {
                Some(p) => p,
                None => 1,
            }
            &&& r->Ok_0.include_description == match params.include_description {
                Some(b) => b,
                None => true,
            }
        },
{
    let query = match params.search_text() {
        Some(s) => trim_str(s),
        None => trim_str(""),
    };
    proof {
        reveal_strlit("");
    }
    let page = match params.page {
        Some(p) => p,
        None => 1,
    };
    let include_description = match params.include_description {
        Some(b) => b,
        None => true,
    };
    if query.as_str().unicode_len() == 0 {
        return Err(AppError::EmptyQuery);
    }
    if page == 0 {
        return Err(AppError::InvalidPage);
    }
    Ok(SearchRequest { query, page, include_description })
}

} // verus!
