//! The request router: a pure mapping from method and path to a handler.

use vstd::prelude::*;

use crate::text::str_eq;

verus! {

/// The request methods the server answers.
#[derive(Clone, Copy, PartialEq, Eq, Structural, Debug)]
pub enum HttpMethod {
    Get,
    Post,
    Options,
}

/// Which handler answers a request.
#[derive(Clone, Copy, PartialEq, Eq, Structural, Debug)]
pub enum RouteTarget {
    Ping,
    PhoneInfo,
    PhoneToken,
    UploadReference,
    UploadReferenceBatch,
    UploadPhotoJournal,
    UploadPhotoJournalBatch,
    PhonePage,
    NotFound,
}

/// The route table: info endpoints answer GET, uploads answer POST, the
/// upload page answers GET; everything else is unrouted.
pub open spec fn spec_route(method: HttpMethod, path: Seq<char>) -> RouteTarget {
    if method is Get && path == "/api/ping"@ {
        RouteTarget::Ping
    } else if method is Get && path == "/api/phone-info"@ {
        RouteTarget::PhoneInfo
    } else if method is Get && path == "/api/phone-token"@ {
        RouteTarget::PhoneToken
    } else if method is Post && path == "/api/references"@ {
        RouteTarget::UploadReference
    } else if method is Post && path == "/api/references/batch"@ {
        RouteTarget::UploadReferenceBatch
    } else if method is Post && path == "/api/photo-journal"@ {
        RouteTarget::UploadPhotoJournal
    } else if method is Post && path == "/api/photo-journal/batch"@ {
        RouteTarget::UploadPhotoJournalBatch
    } else if method is Get && path == "/phone"@ {
        RouteTarget::PhonePage
    } else {
        RouteTarget::NotFound
    }
}

/// Maps one request to its handler.
pub fn route(method: HttpMethod, path: &str) -> (r: RouteTarget)
    ensures
        r == spec_route(method, path@),
{
    match method {
        HttpMethod::Get => {
            if str_eq(path, "/api/ping") {
                RouteTarget::Ping
            } else if str_eq(path, "/api/phone-info") {
                RouteTarget::PhoneInfo
            } else if str_eq(path, "/api/phone-token") {
                RouteTarget::PhoneToken
            } else if str_eq(path, "/phone") {
                RouteTarget::PhonePage
            } else {
                RouteTarget::NotFound
            }
        },
        HttpMethod::Post => {
            if str_eq(path, "/api/references") {
                RouteTarget::UploadReference
            } else if str_eq(path, "/api/references/batch") {
                RouteTarget::UploadReferenceBatch
            } else if str_eq(path, "/api/photo-journal") {
                RouteTarget::UploadPhotoJournal
            } else if str_eq(path, "/api/photo-journal/batch") {
                RouteTarget::UploadPhotoJournalBatch
            } else {
                RouteTarget::NotFound
            }
        },
        HttpMethod::Options => RouteTarget::NotFound,
    }
}

} // verus!
