//! The requests that list and transfer remote files, the reading of their
//! replies, and the bounded retry of one file transfer.
use crate::api::error::Error;
use crate::api::types::{ListFileResponse, PresignedUrl};
use crate::api::utils::{request_url, request_url_of, success_status, OpsmlPaths};
use vstd::prelude::*;
use vstd::string::*;

verus! {

/// The query of a listing request.
pub open spec fn list_query(rpath: Seq<char>) -> Seq<(Seq<char>, Seq<char>)> {
    seq![("path"@, rpath)]
}

/// The query of a request to authorize the transfer of one file.
pub open spec fn presigned_query(rpath: Seq<char>) -> Seq<(Seq<char>, Seq<char>)> {
    seq![("path"@, rpath), ("method"@, "GET"@)]
}

pub struct RouteHelper {}

impl RouteHelper {
    /// The address that lists the remote files below `rpath`.
    pub fn list_files_url(tracking_uri: &str, rpath: &str) -> (address: Result<String, Error>)
        ensures
            match address {
                Ok(text) => request_url_of(
                    tracking_uri@ + OpsmlPaths::ListFile.route(),
                    Some(list_query(rpath@)),
                ) == Some(text@),
                Err(e) => {
                    &&& request_url_of(
                    tracking_uri@ + OpsmlPaths::ListFile.route(),
                    Some(list_query(rpath@)),
                ) is None
                    &&& e matches Error::InvalidUrl { url } && url@ == tracking_uri@
                        + OpsmlPaths::ListFile.route()
                },
            },
    {
        let route = OpsmlPaths::ListFile.as_str(tracking_uri);
        let params = [("path", rpath)];
        let address = request_url(route.as_str(), Some(params.as_slice()));
        proof {
            assert(crate::api::utils::pairs_view(params@) =~= list_query(rpath@));
        }
        address
    }

    /// The address that authorizes one transfer of the remote file `rpath`.
    pub fn presigned_url(tracking_uri: &str, rpath: &str) -> (address: Result<String, Error>)
        ensures
            match address {
                Ok(text) => request_url_of(
                    tracking_uri@ + OpsmlPaths::DownloadPresigned.route(),
                    Some(presigned_query(rpath@)),
                ) == Some(text@),
                Err(e) => {
                    &&& request_url_of(
                    tracking_uri@ + OpsmlPaths::DownloadPresigned.route(),
                    Some(presigned_query(rpath@)),
                ) is None
                    &&& e matches Error::InvalidUrl { url } && url@ == tracking_uri@
                        + OpsmlPaths::DownloadPresigned.route()
                },
            },
    {
        let route = OpsmlPaths::DownloadPresigned.as_str(tracking_uri);
        let params = [("path", rpath), ("method", "GET")];
        let address = request_url(route.as_str(), Some(params.as_slice()));
        proof {
            assert(crate::api::utils::pairs_view(params@) =~= presigned_query(rpath@));
        }
        address
    }

    /// Reads the reply to a listing request. `parsed` is the listing that
    /// the body holds, if it holds one. The listing fails on a failure
    /// status and on an unreadable body.
    pub fn files_from_response(status: u16, parsed: Option<ListFileResponse>) -> (files: Result<
        ListFileResponse,
        Error,
    >)
        ensures
            match files {
                Ok(listing) => success_status(status) && parsed == Some(listing),
                Err(e) => !(success_status(status) && parsed is Some) && e is ListingError,
            },
    {
        if 200 <= status && status < 300 {
            match parsed {
                Some(listing) => Ok(listing),
                None => Err(Error::ListingError),
            }
        } else {
            Err(Error::ListingError)
        }
    }

    /// Reads the reply to an authorization request. `parsed` is the
    /// authorization that the body holds, if it holds one. A failure status
    /// denies the transfer, with the status and the body; a success status
    /// with an unreadable body is a malformed response.
    pub fn authorization_from_response(
        status: u16,
        body: String,
        parsed: Option<PresignedUrl>,
    ) -> (authorization: Result<PresignedUrl, Error>)
        ensures
            match authorization {
                Ok(granted) => success_status(status) && parsed == Some(granted),
                Err(Error::AuthorizationDenied { status: code, body: text }) => !success_status(
                    status,
                ) && code == status && text == body,
                Err(Error::MalformedResponse) => success_status(status) && parsed is None,
                Err(_) => false,
            },
    {
        if !(200 <= status && status < 300) {
            Err(Error::AuthorizationDenied { status, body })
        } else {
            match parsed {
                Some(granted) => Ok(granted),
                None => Err(Error::MalformedResponse),
            }
        }
    }
}

} // verus!
