//! Conditional download of the listing. The library decides what to ask for
//! and what to make of the answer; the exchange itself is the caller's.
use crate::directory::WwffMap;
use crate::reader::{collected, csv_header, csv_records, outcomes, read, skipped, skipped_view, Skipped};
use vstd::prelude::*;

verus! {

/// Where the listing is published.
pub const WWFF_DIRECTORY_URL: &'static str = "https://wwff.co/wwff-data/wwff_directory.csv";

/// How the client names itself to the server.
pub const USER_AGENT: &'static str = "wwff-directory/0.1.0";

/// A `GET` request for the listing.
#[derive(Debug)]
pub struct Request {
    /// The address to ask.
    pub url: &'static str,
    /// The value of the header `User-Agent`.
    pub user_agent: &'static str,
    /// The value of the header `If-Modified-Since`, where one is to be sent.
    pub if_modified_since: Option<Vec<u8>>,
    /// The value of the header `If-None-Match`, where one is to be sent.
    pub if_none_match: Option<Vec<u8>>,
}

/// An answer of the server.
#[derive(Debug)]
pub struct Response {
    /// The status code.
    pub status: u16,
    /// The value of the header `Last-Modified`, if the answer has one.
    pub last_modified: Option<Vec<u8>>,
    /// The value of the header `ETag`, if the answer has one.
    pub etag: Option<Vec<u8>>,
    /// The body.
    pub body: Vec<u8>,
}

/// How an exchange with the server ended.
#[derive(Debug)]
pub enum Exchange {
    /// No answer came: the connection failed, or the answer broke off.
    Failed,
    /// The server answered.
    Response(Response),
}

/// Why a download gave no directory.
#[derive(Debug, Clone, Copy, PartialEq, Eq, Structural)]
pub enum DownloaderError {
    /// No answer came.
    Http,
    /// The server answered with a status other than 200 and 304.
    Status(u16),
    /// The first download was answered with 304, so there is nothing to
    /// start from.
    InitialDownloadFailed,
}

/// The bytes of a header value that may be missing.
pub open spec fn bytes_of(value: Option<Vec<u8>>) -> Option<Seq<u8>> {
    match value {
        Some(v) => Some(v@),
        None => None,
    }
}

/// The cache validators of the last download that brought a listing: none
/// before the first.
#[derive(Debug)]
pub struct Downloader {
    last_modified: Option<Vec<u8>>,
    etag: Option<Vec<u8>>,
}

impl Downloader {
    /// The value of `Last-Modified` that came with the listing last brought.
    pub closed spec fn last_modified(&self) -> Option<Seq<u8>> {
        bytes_of(self.last_modified)
    }

    /// The value of `ETag` that came with the listing last brought.
    pub closed spec fn etag(&self) -> Option<Seq<u8>> {
        bytes_of(self.etag)
    }

    /// A downloader that has brought nothing yet.
    pub fn new() -> (r: Self)
        ensures
            r.last_modified() is None,
            r.etag() is None,
    {
        Downloader { last_modified: None, etag: None }
    }

    /// The request to send next: conditional on each validator that is held.
    pub fn request(&self) -> (r: Request)
        ensures
            r.url@ == WWFF_DIRECTORY_URL@,
            r.user_agent@ == USER_AGENT@,
            bytes_of(r.if_modified_since) == self.last_modified(),
            bytes_of(r.if_none_match) == self.etag(),
    {
        Request {
            url: WWFF_DIRECTORY_URL,
            user_agent: USER_AGENT,
            if_modified_since: copy(&self.last_modified),
            if_none_match: copy(&self.etag),
        }
    }

    /// Takes the outcome of the exchange that [`Downloader::request`] asked
    /// for. Status 304 means that the listing has not changed: nothing is
    /// read and nothing is kept. Status 200 brings a listing: its validators
    /// take the place of those held, and its body is read. Any other outcome
    /// is an error and leaves the downloader as it was.
    pub fn download(&mut self, exchange: Exchange) -> (r: Result<
        Option<(WwffMap, Vec<Skipped>)>,
        DownloaderError,
    >)
        ensures
            match exchange {
                Exchange::Failed => r == Err::<Option<(WwffMap, Vec<Skipped>)>, _>(
                    DownloaderError::Http,
                ) && *final(self) == *old(self),
                Exchange::Response(answer) => if answer.status == 304 {
                    r == Ok::<_, DownloaderError>(None::<(WwffMap, Vec<Skipped>)>) && *final(self)
                        == *old(self)
                } else if answer.status == 200 {
                    &&& r matches Ok(Some(brought))
                    &&& brought.0@ == collected(
                        outcomes(csv_header(answer.body@), csv_records(answer.body@)),
                    )
                    &&& skipped_view(brought.1@) == skipped(
                        outcomes(csv_header(answer.body@), csv_records(answer.body@)),
                    )
                    &&& final(self).last_modified() == bytes_of(answer.last_modified)
                    &&& final(self).etag() == bytes_of(answer.etag)
                } else {
                    r == Err::<Option<(WwffMap, Vec<Skipped>)>, _>(
                        DownloaderError::Status(answer.status),
                    ) && *final(self) == *old(self)
                },
            },
    {
        match exchange {
            Exchange::Failed => Err(DownloaderError::Http),
            Exchange::Response(answer) => {
                if answer.status == 304 {
                    Ok(None)
                } else if answer.status != 200 {
                    Err(DownloaderError::Status(answer.status))
                } else {
                    self.last_modified = answer.last_modified;
                    self.etag = answer.etag;
                    Ok(Some(read(answer.body.as_slice())))
                }
            },
        }
    }
}

/// A copy of a header value that may be missing.
fn copy(value: &Option<Vec<u8>>) -> (r: Option<Vec<u8>>)
    ensures
        bytes_of(r) == bytes_of(*value),
{
    match value {
        Some(v) => {
            let c = v.clone();
            assert(c@ =~= v@);
            Some(c)
        },
        None => None,
    }
}

} // verus!
