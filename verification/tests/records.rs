use wwff_directory::{Date, Entry, Field, RowError, Status};

const HEADER: &str = "reference,status,name,program,dxcc,state,county,continent,iota,iaruLocator,latitude,longitude,IUCNcat,validFrom,validTo,notes,lastMod,changeLog,reviewFlag,specialFlags,website,country,region,dxccEnum,qsoCount,lastAct";

const ROW: &str = "ONFF-0010,active,Hoge Kempen,ONFF,ON,LI,-,EU,EU-001,JO20us,50.95,5.65,II,2009-01-01,-,,2020-01-01 12:00:00,-,0,n/a,https://example.org, Belgium ,Limburg,209,1234,2023-05-06";

fn strings(line: &str) -> Vec<String> {
    line.split(',').map(|s| s.to_string()).collect()
}

fn with(column: &str, value: &str) -> Vec<String> {
    let names = strings(HEADER);
    let mut cells = strings(ROW);
    let at = names.iter().position(|n| n == column).unwrap();
    cells[at] = value.to_string();
    cells
}

fn decode(cells: &[String]) -> Result<Entry, RowError> {
    Entry::deserialize(&strings(HEADER), cells)
}

#[test]
fn row_gives_each_field_of_the_entry() {
    let e = decode(&strings(ROW)).unwrap();
    assert_eq!(e.reference.as_str(), "ONFF-0010");
    assert_eq!(e.status, Status::Active);
    assert_eq!(e.name, "Hoge Kempen");
    assert_eq!(e.program.as_str(), "ONFF");
    assert_eq!(e.dxcc.as_str(), "ON");
    assert_eq!(e.state.as_str(), "LI");
    assert_eq!(e.county.as_str(), "-");
    assert_eq!(e.continent.as_str(), "EU");
    assert_eq!(e.iota.unwrap().as_str(), "EU-001");
    assert_eq!(e.iaru_locator.unwrap().as_str(), "JO20us");
    assert_eq!(e.latitude.unwrap().as_str().parse::<f32>(), Ok(50.95f32));
    assert_eq!(e.longitude.unwrap().as_str().parse::<f32>(), Ok(5.65f32));
    assert_eq!(e.iucn_category.unwrap().as_str(), "II");
    assert_eq!(e.valid_from, Some(Date { year: 2009, month: 1, day: 1 }));
    assert_eq!(e.valid_to, None);
    assert_eq!(e.notes, "");
    assert_eq!(e.last_modified, "2020-01-01 12:00:00");
    assert_eq!(e.changelog, None);
    assert_eq!(e.review_flag, 0);
    assert_eq!(e.special_flags, None);
    assert_eq!(e.website, Some("https://example.org".to_string()));
    assert_eq!(e.country, Some(" Belgium ".to_string()));
    assert_eq!(e.region, Some("Limburg".to_string()));
    assert_eq!(e.dxcc_enum, Some(209));
    assert_eq!(e.qso_count, Some(1234));
    assert_eq!(e.last_activity, Some(Date { year: 2023, month: 5, day: 6 }));
}

#[test]
fn reference_is_kept_as_the_listing_spells_it() {
    let e = decode(&with("reference", "onff-0010")).unwrap();
    assert_eq!(e.reference.as_str(), "onff-0010");
}

#[test]
fn columns_are_found_by_name_in_any_order() {
    let mut names = strings(HEADER);
    let mut cells = strings(ROW);
    names.reverse();
    cells.reverse();
    names.insert(3, "extra".to_string());
    cells.insert(3, "ignored".to_string());
    let e = Entry::deserialize(&names, &cells).unwrap();
    assert_eq!(e.reference.as_str(), "ONFF-0010");
    assert_eq!(e.name, "Hoge Kempen");
    assert_eq!(e.qso_count, Some(1234));
}

#[test]
fn header_names_are_case_sensitive() {
    let names = strings(&HEADER.replace("IUCNcat", "iucncat"));
    let r = Entry::deserialize(&names, &strings(ROW));
    assert_eq!(r.unwrap_err(), RowError::Missing(Field::IucnCategory));
}

#[test]
fn unknown_status_rejects_the_row() {
    let r = decode(&with("status", "unknown"));
    assert_eq!(r.unwrap_err(), RowError::Status("unknown".to_string()));
}

#[test]
fn too_long_iota_rejects_the_row() {
    let r = decode(&with("iota", "ABCDEFGHIJKLMNOPQRST"));
    assert_eq!(r.unwrap_err(), RowError::Token(Field::Iota));
}

#[test]
fn too_long_reference_rejects_the_row() {
    let r = decode(&with("reference", "ONFF-00100000"));
    assert_eq!(r.unwrap_err(), RowError::Token(Field::Reference));
}

#[test]
fn required_token_is_not_trimmed() {
    let e = decode(&with("continent", "EU")).unwrap();
    assert_eq!(e.continent.as_str(), "EU");
    let r = decode(&with("continent", " EU"));
    assert_eq!(r.unwrap_err(), RowError::Token(Field::Continent));
}

#[test]
fn bad_number_in_optional_decimal_column_is_no_value() {
    let e = decode(&with("latitude", "abc")).unwrap();
    assert!(e.latitude.is_none());
    assert!(e.longitude.is_some());
    let e = decode(&with("longitude", "")).unwrap();
    assert!(e.longitude.is_none());
}

#[test]
fn bad_date_is_no_value() {
    let e = decode(&with("validFrom", "yesterday")).unwrap();
    assert_eq!(e.valid_from, None);
    let e = decode(&with("lastAct", "2023-02-30")).unwrap();
    assert_eq!(e.last_activity, None);
}

#[test]
fn bad_review_flag_rejects_the_row() {
    assert_eq!(decode(&with("reviewFlag", "")).unwrap_err(), RowError::Number(Field::ReviewFlag));
    assert_eq!(decode(&with("reviewFlag", "256")).unwrap_err(), RowError::Number(Field::ReviewFlag));
    assert_eq!(decode(&with("reviewFlag", "x")).unwrap_err(), RowError::Number(Field::ReviewFlag));
    assert_eq!(decode(&with("reviewFlag", "255")).unwrap().review_flag, 255);
}

#[test]
fn bad_number_in_optional_integer_column_is_no_value() {
    let e = decode(&with("dxccEnum", "")).unwrap();
    assert_eq!(e.dxcc_enum, None);
    assert_eq!(e.qso_count, Some(1234));
    let e = decode(&with("qsoCount", "")).unwrap();
    assert_eq!(e.qso_count, None);
    assert_eq!(e.dxcc_enum, Some(209));
    assert_eq!(decode(&with("dxccEnum", "-")).unwrap().dxcc_enum, None);
    assert_eq!(decode(&with("qsoCount", "abc")).unwrap().qso_count, None);
    assert_eq!(decode(&with("qsoCount", "many")).unwrap().qso_count, None);
    assert_eq!(decode(&with("dxccEnum", "65536")).unwrap().dxcc_enum, None);
    assert_eq!(decode(&with("dxccEnum", "65535")).unwrap().dxcc_enum, Some(65535));
    assert_eq!(decode(&with("qsoCount", "4294967296")).unwrap().qso_count, None);
    assert_eq!(decode(&with("qsoCount", "0x10")).unwrap().qso_count, Some(16));
}

#[test]
fn integer_columns_must_be_there() {
    let mut names = strings(HEADER);
    let mut cells = strings(ROW);
    let at = names.iter().position(|n| n == "qsoCount").unwrap();
    names.remove(at);
    cells.remove(at);
    assert_eq!(Entry::deserialize(&names, &cells).unwrap_err(), RowError::Missing(Field::QsoCount));
    let at = names.iter().position(|n| n == "dxccEnum").unwrap();
    names.remove(at);
    cells.remove(at);
    assert_eq!(Entry::deserialize(&names, &cells).unwrap_err(), RowError::Missing(Field::DxccEnum));
}

#[test]
fn missing_column_rejects_the_row() {
    let mut names = strings(HEADER);
    let mut cells = strings(ROW);
    let at = names.iter().position(|n| n == "notes").unwrap();
    names.remove(at);
    cells.remove(at);
    assert_eq!(Entry::deserialize(&names, &cells).unwrap_err(), RowError::Missing(Field::Notes));
}

#[test]
fn repeated_column_rejects_the_row() {
    let mut names = strings(HEADER);
    let mut cells = strings(ROW);
    names.push("name".to_string());
    cells.push("Other".to_string());
    assert_eq!(Entry::deserialize(&names, &cells).unwrap_err(), RowError::Repeated(Field::Name));
}

#[test]
fn row_of_another_length_than_the_header_is_ragged() {
    let mut cells = strings(ROW);
    cells.pop();
    assert_eq!(decode(&cells).unwrap_err(), RowError::Ragged);
    let mut cells = strings(ROW);
    cells.push(String::new());
    assert_eq!(decode(&cells).unwrap_err(), RowError::Ragged);
}

#[test]
fn first_fault_in_the_order_of_the_fields_is_reported() {
    let mut cells = with("status", "bogus");
    let names = strings(HEADER);
    let at = names.iter().position(|n| n == "iota").unwrap();
    cells[at] = "ABCDEFGHIJKLMNOPQRST".to_string();
    assert_eq!(decode(&cells).unwrap_err(), RowError::Status("bogus".to_string()));
}

#[test]
fn field_names_are_those_of_the_listing() {
    let names = strings(HEADER);
    let fields = [
        Field::Reference, Field::Status, Field::Name, Field::Program, Field::Dxcc, Field::State,
        Field::County, Field::Continent, Field::Iota, Field::IaruLocator, Field::Latitude,
        Field::Longitude, Field::IucnCategory, Field::ValidFrom, Field::ValidTo, Field::Notes,
        Field::LastModified, Field::Changelog, Field::ReviewFlag, Field::SpecialFlags,
        Field::Website, Field::Country, Field::Region, Field::DxccEnum, Field::QsoCount,
        Field::LastActivity,
    ];
    assert_eq!(fields.len(), names.len());
    for (f, n) in fields.iter().zip(names.iter()) {
        assert_eq!(f.name(), n);
    }
    assert_eq!(wwff_directory::reader::canonical_headers(), names);
}
