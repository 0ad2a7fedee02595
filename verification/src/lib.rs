//! A reader for the WWFF directory, the CSV listing of World Wide Flora and
//! Fauna references.
//!
//! There are two ways to get a [`WwffDirectory`]:
//!
//!  1. Read it from the bytes of a listing with [`from_reader`].
//!  2. Download the listing, hand the answer to
//!     [`WwffDirectory::from_download`], and later ask again with
//!     [`WwffDirectory::request`] and [`WwffDirectory::try_download_update`],
//!     which read the listing anew only where the server says it has changed.
//!
//! A row of the listing that cannot be decoded is set aside; it never ends
//! the run. The official CSV file can be found from
//! <https://wwff.co/wwff-data/wwff_directory.csv>.
use vstd::prelude::*;

pub mod date;
pub mod directory;
pub mod downloader;
pub mod entry;
pub mod field;
pub mod key;
pub mod number;
pub mod reader;
pub mod row;
pub mod status;
pub mod text;
pub mod token;

pub use crate::date::Date;
pub use crate::directory::WwffMap;
pub use crate::downloader::{Downloader, DownloaderError, Exchange, Request, Response};
pub use crate::entry::{Entry, EntryView};
pub use crate::number::Numeral;
pub use crate::reader::{read, Skipped};
pub use crate::row::{Field, RowError, RowErrorView};
pub use crate::status::Status;
pub use crate::token::{Reference, Token};

use crate::reader::{collected, csv_header, csv_records, outcomes, skipped, skipped_view};
use crate::key::precedes;
use crate::text::uppercase;
use crate::token::fits;

verus! {

/// The directory containing WWFF information
#[derive(Debug)]
pub struct WwffDirectory {
    map: WwffMap,
    skipped: Vec<Skipped>,
    downloader: Downloader,
}

impl View for WwffDirectory {
    type V = Map<Seq<char>, EntryView>;

    /// The entries, each under its reference in capitals.
    closed spec fn view(&self) -> Map<Seq<char>, EntryView> {
        self.map@
    }
}

impl WwffDirectory {
    /// The rows that the listing held and that gave no entry.
    pub closed spec fn skipped_rows(&self) -> Seq<(int, RowErrorView)> {
        skipped_view(self.skipped@)
    }

    /// The cache validators of the last download that brought a listing.
    pub closed spec fn downloader(&self) -> Downloader {
        self.downloader
    }

    /// Every key of the directory is the reference of its entry in capitals,
    /// and fits a reference.
    pub proof fn keys_are_references(self)
        ensures
            forall|k: Seq<char>| #[trigger]
                self@.contains_key(k) ==> fits(k, 12) && k == uppercase(self@[k].reference),
    {
        self.map.keys_are_references();
    }

    /// Read CSV file from given bytes
    pub fn from_reader(data: &[u8]) -> (r: WwffDirectory)
        ensures
            r@ == collected(outcomes(csv_header(data@), csv_records(data@))),
            r.skipped_rows() == skipped(outcomes(csv_header(data@), csv_records(data@))),
            r.downloader().last_modified() is None,
            r.downloader().etag() is None,
    {
        let (map, skipped) = read(data);
        WwffDirectory { map, skipped, downloader: Downloader::new() }
    }

    /// The request for the first download.
    pub fn first_request() -> (r: Request)
        ensures
            r.url@ == downloader::WWFF_DIRECTORY_URL@,
            r.user_agent@ == downloader::USER_AGENT@,
            r.if_modified_since is None,
            r.if_none_match is None,
    {
        Downloader::new().request()
    }

    /// Builds the directory from the answer to [`WwffDirectory::first_request`].
    ///
    /// After this initial download it's possible to update the WWFF directory
    /// in-place with [`WwffDirectory::try_download_update`].
    pub fn from_download(exchange: Exchange) -> (r: Result<WwffDirectory, DownloaderError>)
        ensures
            match exchange {
                Exchange::Failed => r matches Err(e) && e == DownloaderError::Http,
                Exchange::Response(answer) => if answer.status == 200 {
                    &&& r matches Ok(d)
                    &&& d@ == collected(
                        outcomes(csv_header(answer.body@), csv_records(answer.body@)),
                    )
                    &&& d.skipped_rows() == skipped(
                        outcomes(csv_header(answer.body@), csv_records(answer.body@)),
                    )
                    &&& d.downloader().last_modified() == downloader::bytes_of(
                        answer.last_modified,
                    )
                    &&& d.downloader().etag() == downloader::bytes_of(answer.etag)
                } else if answer.status == 304 {
                    r matches Err(e) && e == DownloaderError::InitialDownloadFailed
                } else {
                    r matches Err(e) && e == DownloaderError::Status(answer.status)
                },
            },
    {
        let mut downloader = Downloader::new();
        match downloader.download(exchange) {
            Ok(Some((map, skipped))) => Ok(WwffDirectory { map, skipped, downloader }),
            Ok(None) => Err(DownloaderError::InitialDownloadFailed),
            Err(e) => Err(e),
        }
    }

    /// The request to send for an update: conditional on the validators of
    /// the listing that the directory was built from.
    pub fn request(&self) -> (r: Request)
        ensures
            r.url@ == downloader::WWFF_DIRECTORY_URL@,
            r.user_agent@ == downloader::USER_AGENT@,
            downloader::bytes_of(r.if_modified_since) == self.downloader().last_modified(),
            downloader::bytes_of(r.if_none_match) == self.downloader().etag(),
    {
        self.downloader.request()
    }

    /// Takes the answer to [`WwffDirectory::request`]. If there's new version
    /// available, the directory is replaced as a whole. With status 304,
    /// and on any failure, the directory stays as it was.
    pub fn try_download_update(&mut self, exchange: Exchange) -> (r: Result<(), DownloaderError>)
        ensures
            match exchange {
                Exchange::Failed => r matches Err(e) && e == DownloaderError::Http && *final(self)
                    == *old(self),
                Exchange::Response(answer) => if answer.status == 200 {
                    &&& r is Ok
                    &&& final(self)@ == collected(
                        outcomes(csv_header(answer.body@), csv_records(answer.body@)),
                    )
                    &&& final(self).skipped_rows() == skipped(
                        outcomes(csv_header(answer.body@), csv_records(answer.body@)),
                    )
                    &&& final(self).downloader().last_modified() == downloader::bytes_of(
                        answer.last_modified,
                    )
                    &&& final(self).downloader().etag() == downloader::bytes_of(answer.etag)
                } else if answer.status == 304 {
                    r is Ok && *final(self) == *old(self)
                } else {
                    r matches Err(e) && e == DownloaderError::Status(answer.status) && *final(self)
                        == *old(self)
                },
            },
    {
        match self.downloader.download(exchange) {
            Ok(Some((map, skipped))) => {
                self.map = map;
                self.skipped = skipped;
                Ok(())
            },
            Ok(None) => Ok(()),
            Err(e) => Err(e),
        }
    }

    /// Search WWFF directory for reference, written in capitals or in small
    /// letters. A reference that the directory does not hold, and a text that
    /// is no reference at all, give `None`.
    pub fn search_reference(&self, s: &str) -> (r: Option<&Entry>)
        ensures
            r is Some <==> fits(s@, 12) && self@.contains_key(uppercase(s@)),
            r matches Some(e) ==> e@ == self@[uppercase(s@)] && uppercase(e.reference@)
                == uppercase(s@),
    {
        let reference = match Reference::from_str(s) {
            Some(t) => t.to_ascii_uppercase(),
            None => return None,
        };
        assert(self@.contains_key(reference@) ==> fits(reference@, 12));
        self.map.get(&reference)
    }

    /// The number of entries.
    pub fn len(&self) -> (n: usize)
        ensures
            n == self@.len(),
            self@.dom().finite(),
    {
        self.map.len()
    }

    /// Every entry once, in the order of the references in capitals, byte by
    /// byte.
    pub fn entries(&self) -> (r: Vec<&Entry>)
        ensures
            r@.len() == self@.len(),
            forall|i: int|
                0 <= i < r@.len() ==> self@.contains_key(#[trigger] uppercase(r@[i].reference@))
                    && self@[uppercase(r@[i].reference@)] == r@[i]@,
            forall|i: int, j: int|
                0 <= i < j < r@.len() ==> precedes(
                    #[trigger] uppercase(r@[i].reference@),
                    #[trigger] uppercase(r@[j].reference@),
                ),
            forall|t: Seq<char>| #[trigger]
                self@.contains_key(t) ==> exists|i: int|
                    0 <= i < r@.len() && #[trigger] uppercase(r@[i].reference@) == t,
    {
        self.map.entries()
    }

    /// The rows that the listing held and that gave no entry.
    pub fn skipped(&self) -> (r: &Vec<Skipped>)
        ensures
            skipped_view(r@) == self.skipped_rows(),
    {
        &self.skipped
    }
}

/// Read CSV file from given bytes
pub fn from_reader(data: &[u8]) -> (r: WwffDirectory)
    ensures
        r@ == collected(outcomes(csv_header(data@), csv_records(data@))),
        r.skipped_rows() == skipped(outcomes(csv_header(data@), csv_records(data@))),
        r.downloader().last_modified() is None,
        r.downloader().etag() is None,
{
    WwffDirectory::from_reader(data)
}

} // verus!
