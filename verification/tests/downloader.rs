use wwff_directory::downloader::{USER_AGENT, WWFF_DIRECTORY_URL};
use wwff_directory::{Downloader, DownloaderError, Exchange, Response, WwffDirectory};

const HEADER: &str = "reference,status,name,program,dxcc,state,county,continent,iota,iaruLocator,latitude,longitude,IUCNcat,validFrom,validTo,notes,lastMod,changeLog,reviewFlag,specialFlags,website,country,region,dxccEnum,qsoCount,lastAct";

fn body(rows: &[(&str, &str, &str)]) -> Vec<u8> {
    let mut text = String::from(HEADER);
    text.push('\n');
    for (reference, status, name) in rows {
        text.push_str(&format!(
            "{},{},{},ONFF,ON,LI,-,EU,-,JO20us,50.95,5.65,II,2009-01-01,-,,2020-01-01,-,0,-,-,Belgium,Limburg,209,1234,2023-05-06\n",
            reference, status, name
        ));
    }
    text.into_bytes()
}

fn answer(status: u16, last_modified: Option<&str>, etag: Option<&str>, body: Vec<u8>) -> Exchange {
    Exchange::Response(Response {
        status,
        last_modified: last_modified.map(|s| s.as_bytes().to_vec()),
        etag: etag.map(|s| s.as_bytes().to_vec()),
        body,
    })
}

#[test]
fn first_request_is_unconditional() {
    let request = Downloader::new().request();
    assert_eq!(request.url, "https://wwff.co/wwff-data/wwff_directory.csv");
    assert_eq!(request.url, WWFF_DIRECTORY_URL);
    assert_eq!(request.user_agent, USER_AGENT);
    assert_eq!(request.if_modified_since, None);
    assert_eq!(request.if_none_match, None);
    let request = WwffDirectory::first_request();
    assert_eq!(request.if_modified_since, None);
    assert_eq!(request.if_none_match, None);
}

#[test]
fn status_200_brings_a_directory_and_its_validators() {
    let mut downloader = Downloader::new();
    let brought = downloader
        .download(answer(
            200,
            Some("Wed, 21 Oct 2015 07:28:00 GMT"),
            Some("\"abc\""),
            body(&[("ONFF-0010", "active", "First"), ("ONFF-0011", "bogus", "Second")]),
        ))
        .unwrap()
        .unwrap();
    assert_eq!(brought.0.len(), 1);
    assert_eq!(brought.1.len(), 1);
    let request = downloader.request();
    assert_eq!(request.if_modified_since, Some(b"Wed, 21 Oct 2015 07:28:00 GMT".to_vec()));
    assert_eq!(request.if_none_match, Some(b"\"abc\"".to_vec()));
}

#[test]
fn status_200_without_validators_clears_those_held() {
    let mut downloader = Downloader::new();
    downloader.download(answer(200, Some("before"), Some("\"1\""), body(&[]))).unwrap();
    downloader.download(answer(200, None, Some("\"2\""), body(&[]))).unwrap();
    let request = downloader.request();
    assert_eq!(request.if_modified_since, None);
    assert_eq!(request.if_none_match, Some(b"\"2\"".to_vec()));
}

#[test]
fn status_304_brings_nothing_and_keeps_the_validators() {
    let mut downloader = Downloader::new();
    downloader.download(answer(200, Some("before"), Some("\"1\""), body(&[]))).unwrap();
    let r = downloader.download(answer(304, Some("after"), Some("\"2\""), Vec::new()));
    assert!(matches!(r, Ok(None)));
    let request = downloader.request();
    assert_eq!(request.if_modified_since, Some(b"before".to_vec()));
    assert_eq!(request.if_none_match, Some(b"\"1\"".to_vec()));
}

#[test]
fn other_status_is_an_error_with_the_code() {
    let mut downloader = Downloader::new();
    downloader.download(answer(200, Some("before"), Some("\"1\""), body(&[]))).unwrap();
    let r = downloader.download(answer(404, Some("after"), Some("\"2\""), body(&[])));
    assert_eq!(r.unwrap_err(), DownloaderError::Status(404));
    let r = downloader.download(answer(500, None, None, Vec::new()));
    assert_eq!(r.unwrap_err(), DownloaderError::Status(500));
    let r = downloader.download(answer(201, None, None, body(&[])));
    assert_eq!(r.unwrap_err(), DownloaderError::Status(201));
    let request = downloader.request();
    assert_eq!(request.if_modified_since, Some(b"before".to_vec()));
    assert_eq!(request.if_none_match, Some(b"\"1\"".to_vec()));
}

#[test]
fn failed_exchange_is_an_error_and_keeps_the_validators() {
    let mut downloader = Downloader::new();
    downloader.download(answer(200, Some("before"), None, body(&[]))).unwrap();
    let r = downloader.download(Exchange::Failed);
    assert_eq!(r.unwrap_err(), DownloaderError::Http);
    assert_eq!(downloader.request().if_modified_since, Some(b"before".to_vec()));
    assert_eq!(downloader.request().if_none_match, None);
}

#[test]
fn first_download_must_bring_a_listing() {
    let r = WwffDirectory::from_download(answer(304, None, None, Vec::new()));
    assert_eq!(r.unwrap_err(), DownloaderError::InitialDownloadFailed);
    let r = WwffDirectory::from_download(Exchange::Failed);
    assert_eq!(r.unwrap_err(), DownloaderError::Http);
    let r = WwffDirectory::from_download(answer(503, None, None, Vec::new()));
    assert_eq!(r.unwrap_err(), DownloaderError::Status(503));
    let d = WwffDirectory::from_download(answer(
        200,
        None,
        Some("\"1\""),
        body(&[("ONFF-0010", "active", "First")]),
    ))
    .unwrap();
    assert_eq!(d.len(), 1);
    assert_eq!(d.request().if_none_match, Some(b"\"1\"".to_vec()));
}

#[test]
fn refresh_without_change_leaves_the_directory_as_it_was() {
    let mut d = WwffDirectory::from_download(answer(
        200,
        Some("before"),
        Some("\"1\""),
        body(&[("ONFF-0010", "active", "First"), ("ONFF-0011", "bogus", "Second")]),
    ))
    .unwrap();
    assert_eq!(d.try_download_update(answer(304, None, None, Vec::new())), Ok(()));
    assert_eq!(d.try_download_update(answer(304, Some("after"), Some("\"2\""), body(&[]))), Ok(()));
    assert_eq!(d.len(), 1);
    assert_eq!(d.skipped().len(), 1);
    assert_eq!(d.search_reference("ONFF-0010").unwrap().name, "First");
    assert_eq!(d.request().if_modified_since, Some(b"before".to_vec()));
    assert_eq!(d.request().if_none_match, Some(b"\"1\"".to_vec()));
}

#[test]
fn refresh_with_new_content_replaces_the_directory() {
    let mut d = WwffDirectory::from_download(answer(
        200,
        Some("before"),
        Some("\"1\""),
        body(&[("ONFF-0010", "active", "First"), ("ONFF-0011", "bogus", "Second")]),
    ))
    .unwrap();
    let r = d.try_download_update(answer(
        200,
        Some("after"),
        Some("\"2\""),
        body(&[("ONFF-0020", "active", "Other"), ("ONFF-0021", "active", "More")]),
    ));
    assert_eq!(r, Ok(()));
    assert_eq!(d.len(), 2);
    assert!(d.skipped().is_empty());
    assert!(d.search_reference("ONFF-0010").is_none());
    assert_eq!(d.search_reference("ONFF-0020").unwrap().name, "Other");
    assert_eq!(d.request().if_modified_since, Some(b"after".to_vec()));
    assert_eq!(d.request().if_none_match, Some(b"\"2\"".to_vec()));
}

#[test]
fn failed_refresh_leaves_the_directory_as_it_was() {
    let mut d = WwffDirectory::from_download(answer(
        200,
        Some("before"),
        Some("\"1\""),
        body(&[("ONFF-0010", "active", "First")]),
    ))
    .unwrap();
    assert_eq!(d.try_download_update(Exchange::Failed), Err(DownloaderError::Http));
    assert_eq!(
        d.try_download_update(answer(500, Some("after"), Some("\"2\""), body(&[]))),
        Err(DownloaderError::Status(500))
    );
    assert_eq!(d.len(), 1);
    assert_eq!(d.search_reference("ONFF-0010").unwrap().name, "First");
    assert_eq!(d.request().if_modified_since, Some(b"before".to_vec()));
    assert_eq!(d.request().if_none_match, Some(b"\"1\"".to_vec()));
}
