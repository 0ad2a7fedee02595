use wwff_directory::{from_reader, read, Field, Reference, RowError, Skipped, Status, WwffDirectory};

const HEADER: &str = "reference,status,name,program,dxcc,state,county,continent,iota,iaruLocator,latitude,longitude,IUCNcat,validFrom,validTo,notes,lastMod,changeLog,reviewFlag,specialFlags,website,country,region,dxccEnum,qsoCount,lastAct";

fn row(reference: &str, status: &str, name: &str, iota: &str) -> String {
    format!(
        "{},{},{},ONFF,ON,LI,-,EU,{},JO20us,50.95,5.65,II,2009-01-01,-,,2020-01-01,-,0,-,-,Belgium,Limburg,209,1234,2023-05-06",
        reference, status, name, iota
    )
}

fn listing(rows: &[String]) -> Vec<u8> {
    let mut text = String::from(HEADER);
    text.push('\n');
    for r in rows {
        text.push_str(r);
        text.push('\n');
    }
    text.into_bytes()
}

#[test]
fn three_rows_one_bad_one_duplicate() {
    let data = listing(&[
        row("ONFF-0010", "active", "First", "-"),
        row("ONFF-0011", "bogus", "Second", "-"),
        row("ONFF-0010", "active", "Third", "-"),
    ]);
    let d = from_reader(&data);
    assert_eq!(d.len(), 1);
    assert_eq!(d.skipped().len(), 1);
    assert_eq!(d.search_reference("ONFF-0010").unwrap().name, "Third");
    assert_eq!(
        d.skipped()[0],
        Skipped { row: 1, error: RowError::Status("bogus".to_string()) }
    );
}

#[test]
fn references_that_differ_in_case_collide() {
    let data = listing(&[
        row("ONFF-0010", "active", "First", "-"),
        row("onff-0010", "deleted", "Later", "-"),
    ]);
    let d = from_reader(&data);
    assert_eq!(d.len(), 1);
    let e = d.search_reference("ONFF-0010").unwrap();
    assert_eq!(e.name, "Later");
    assert_eq!(e.status, Status::Deleted);
    assert_eq!(e.reference.as_str(), "onff-0010");
}

#[test]
fn lookup_takes_any_case() {
    let d = from_reader(&listing(&[row("ONFF-0010", "active", "First", "-")]));
    assert_eq!(d.search_reference("onff-0010").unwrap().name, "First");
    assert_eq!(d.search_reference("OnFf-0010").unwrap().name, "First");
    assert_eq!(d.search_reference("ONFF-0010").unwrap().name, "First");
}

#[test]
fn lookup_of_what_is_not_there_gives_none() {
    let d = from_reader(&listing(&[row("ONFF-0010", "active", "First", "-")]));
    assert!(d.search_reference("ONFF-0011").is_none());
    assert!(d.search_reference("").is_none());
    assert!(d.search_reference(" ONFF-0010").is_none());
    assert!(d.search_reference("ONFF-0010 ").is_none());
    assert!(d.search_reference("a reference that is far too long").is_none());
    assert!(d.search_reference("\u{f6}nff-0010").is_none());
    assert!(d.search_reference("ONFF-001").is_none());
}

#[test]
fn only_row_with_unknown_status_leaves_the_directory_empty() {
    let d = from_reader(&listing(&[row("ONFF-0010", "unknown", "First", "-")]));
    assert_eq!(d.len(), 0);
    assert_eq!(d.skipped().len(), 1);
    assert_eq!(d.skipped()[0].row, 0);
    assert_eq!(d.skipped()[0].error, RowError::Status("unknown".to_string()));
}

#[test]
fn row_with_twenty_character_iota_is_skipped() {
    let data = listing(&[
        row("ONFF-0010", "active", "First", "ABCDEFGHIJKLMNOPQRST"),
        row("ONFF-0011", "active", "Second", "EU-001"),
    ]);
    let d = from_reader(&data);
    assert_eq!(d.len(), 1);
    assert!(d.search_reference("ONFF-0010").is_none());
    assert_eq!(d.search_reference("ONFF-0011").unwrap().name, "Second");
    assert_eq!(d.skipped()[0], Skipped { row: 0, error: RowError::Token(Field::Iota) });
}

#[test]
fn every_row_skipped_gives_an_empty_directory() {
    let data = listing(&[
        row("ONFF-0010", "x", "First", "-"),
        row("ONFF-0011", "y", "Second", "-"),
    ]);
    let (map, skipped) = read(&data);
    assert!(map.is_empty());
    assert_eq!(skipped.len(), 2);
    assert_eq!(skipped[0].row, 0);
    assert_eq!(skipped[1].row, 1);
}

#[test]
fn empty_input_gives_an_empty_directory() {
    let (map, skipped) = read(b"");
    assert_eq!(map.len(), 0);
    assert!(skipped.is_empty());
    let (map, skipped) = read(HEADER.as_bytes());
    assert_eq!(map.len(), 0);
    assert!(skipped.is_empty());
}

#[test]
fn row_of_another_length_is_unreadable() {
    let data = listing(&[
        row("ONFF-0010", "active", "First", "-"),
        "ONFF-0011,active,short".to_string(),
        row("ONFF-0012", "active", "Third", "-"),
    ]);
    let (map, skipped) = read(&data);
    assert_eq!(map.len(), 2);
    assert_eq!(skipped, vec![Skipped { row: 1, error: RowError::Unreadable }]);
}

#[test]
fn row_that_is_not_utf8_is_unreadable() {
    let mut data = listing(&[row("ONFF-0010", "active", "First", "-")]);
    let mut bad = row("ONFF-0011", "active", "Second", "-").into_bytes();
    bad[20] = 0xff;
    data.extend_from_slice(&bad);
    data.push(b'\n');
    data.extend_from_slice(row("ONFF-0012", "active", "Third", "-").as_bytes());
    data.push(b'\n');
    let (map, skipped) = read(&data);
    assert_eq!(map.len(), 2);
    assert_eq!(skipped, vec![Skipped { row: 1, error: RowError::Unreadable }]);
}

#[test]
fn quoted_cells_may_hold_commas_and_line_breaks() {
    let data = listing(&[row("ONFF-0010", "active", "\"Kempen, \"\"Hoge\"\"\nnorth\"", "-")]);
    let d = from_reader(&data);
    assert_eq!(d.search_reference("ONFF-0010").unwrap().name, "Kempen, \"Hoge\"\nnorth");
}

#[test]
fn header_that_is_not_utf8_leaves_the_order_of_the_fields() {
    let mut data = HEADER.as_bytes().to_vec();
    data[0] = 0xff;
    data.push(b'\n');
    data.extend_from_slice(row("ONFF-0010", "active", "First", "-").as_bytes());
    data.push(b'\n');
    let (map, skipped) = read(&data);
    assert!(skipped.is_empty());
    assert_eq!(map.len(), 1);
    let key = Reference::from_str("ONFF-0010").unwrap();
    assert_eq!(map.get(&key).unwrap().name, "First");
}

#[test]
fn header_that_is_not_utf8_leaves_the_first_cells_of_longer_rows() {
    let mut data = HEADER.as_bytes().to_vec();
    data[0] = 0xff;
    data.extend_from_slice(b",more\n");
    data.extend_from_slice(row("ONFF-0010", "active", "First", "-").as_bytes());
    data.extend_from_slice(b",x\n");
    let (map, skipped) = read(&data);
    assert!(skipped.is_empty());
    assert_eq!(map.len(), 1);
    let mut data = b"\xff,b,c\n".to_vec();
    data.extend_from_slice(b"ONFF-0010,active,First\n");
    let (map, skipped) = read(&data);
    assert_eq!(map.len(), 0);
    assert_eq!(skipped, vec![Skipped { row: 0, error: RowError::Ragged }]);
}

#[test]
fn map_is_keyed_by_the_reference_in_capitals() {
    let (map, _) = read(&listing(&[row("onff-0010", "active", "First", "-")]));
    let small = Reference::from_str("onff-0010").unwrap();
    assert!(map.get(&small).is_none());
    assert_eq!(map.get(&small.to_ascii_uppercase()).unwrap().name, "First");
}

#[test]
fn directory_from_reader_holds_no_validators() {
    let d = WwffDirectory::from_reader(&listing(&[row("ONFF-0010", "active", "First", "-")]));
    let request = d.request();
    assert_eq!(request.if_modified_since, None);
    assert_eq!(request.if_none_match, None);
}

#[test]
fn entries_come_in_the_order_of_their_references() {
    let data = listing(&[
        row("ONFF-0010", "active", "d", "-"),
        row("DLFF-0002", "active", "b", "-"),
        row("onff-0001", "active", "c", "-"),
        row("ZLFF-0001", "active", "f", "-"),
        row("DLFF", "active", "a", "-"),
        row("dlff-0002", "active", "b again", "-"),
        row("ONFF-00100", "active", "e", "-"),
        row("9AFF-0001", "active", "first", "-"),
        row("", "active", "empty", "-"),
    ]);
    let d = from_reader(&data);
    let names: Vec<&str> = d.entries().iter().map(|e| e.name.as_str()).collect();
    assert_eq!(names, vec!["empty", "first", "a", "b again", "c", "d", "e", "f"]);
    assert_eq!(d.len(), 8);
    let mut keys: Vec<String> =
        d.entries().iter().map(|e| e.reference.as_str().to_ascii_uppercase()).collect();
    let sorted = {
        let mut s = keys.clone();
        s.sort();
        s
    };
    assert_eq!(keys, sorted);
    keys.dedup();
    assert_eq!(keys.len(), 8);
}

#[test]
fn entries_of_an_empty_directory_are_none() {
    let (map, _) = read(HEADER.as_bytes());
    assert!(map.entries().is_empty());
}

#[test]
fn row_with_a_contact_count_that_is_no_number_is_kept() {
    let mut text = String::from(HEADER);
    text.push_str("\nONFF-0010,active,Alpha,ONFF,ON,VAN,ANT,EU,,,,,,,,,2020-01-01,,0,,,,,,abc,\n");
    let (map, skipped) = read(text.as_bytes());
    assert!(skipped.is_empty());
    assert_eq!(map.len(), 1);
    let e = map.get(&Reference::from_str("ONFF-0010").unwrap()).unwrap();
    assert_eq!(e.name, "Alpha");
    assert_eq!(e.qso_count, None);
    assert_eq!(e.dxcc_enum, None);
    assert_eq!(e.review_flag, 0);
    assert_eq!(e.state.as_str(), "VAN");
    assert!(e.latitude.is_none());
    assert_eq!(e.valid_from, None);
    assert!(e.iota.is_none());
}

#[test]
fn row_with_a_review_flag_that_is_no_number_is_skipped() {
    let mut text = String::from(HEADER);
    text.push_str("\nONFF-0010,active,Alpha,ONFF,ON,VAN,ANT,EU,,,,,,,,,2020-01-01,,abc,,,,,,7,\n");
    let (map, skipped) = read(text.as_bytes());
    assert_eq!(map.len(), 0);
    assert_eq!(skipped, vec![Skipped { row: 0, error: RowError::Number(Field::ReviewFlag) }]);
}
