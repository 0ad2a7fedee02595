//! Reading the listing: the rows come from `csv`, each is decoded on its
//! own, and a row that cannot be decoded is set aside without ending the run.
use crate::directory::WwffMap;
use crate::entry::{deserialized, seen, Entry, EntryView};
use crate::row::{texts, Field, RowError, RowErrorView};
use crate::text::{capitals_forget_case, lowercase, uppercase};
use vstd::prelude::*;
use vstd::slice::slice_subrange;
use vstd::string::*;

verus! {

/// A row that gave no entry.
#[derive(Debug, PartialEq, Eq)]
pub struct Skipped {
    /// The place of the row among those behind the header row, from 0.
    pub row: usize,
    /// Why the row gave no entry.
    pub error: RowError,
}

impl View for Skipped {
    type V = (int, RowErrorView);

    open spec fn view(&self) -> (int, RowErrorView) {
        (self.row as int, self.error@)
    }
}

/// The cells of the header row as `csv` splits the bytes of a listing; `None`
/// where the header row is not valid UTF-8.
pub uninterp spec fn csv_header(data: Seq<u8>) -> Option<Seq<Seq<char>>>;

/// The rows behind the header row as `csv` splits the bytes of a listing,
/// each as its cells; `None` for a row that `csv` reports as an error.
pub uninterp spec fn csv_records(data: Seq<u8>) -> Seq<Option<Seq<Seq<char>>>>;

/// The names of the columns in the order of [`Field`].
pub open spec fn canonical() -> Seq<Seq<char>> {
    seq![
        Field::Reference.header(),
        Field::Status.header(),
        Field::Name.header(),
        Field::Program.header(),
        Field::Dxcc.header(),
        Field::State.header(),
        Field::County.header(),
        Field::Continent.header(),
        Field::Iota.header(),
        Field::IaruLocator.header(),
        Field::Latitude.header(),
        Field::Longitude.header(),
        Field::IucnCategory.header(),
        Field::ValidFrom.header(),
        Field::ValidTo.header(),
        Field::Notes.header(),
        Field::LastModified.header(),
        Field::Changelog.header(),
        Field::ReviewFlag.header(),
        Field::SpecialFlags.header(),
        Field::Website.header(),
        Field::Country.header(),
        Field::Region.header(),
        Field::DxccEnum.header(),
        Field::QsoCount.header(),
        Field::LastActivity.header(),
    ]
}

/// What one row gives. With a header row, each cell is found by the name of
/// its column. Without one that can be read, the first 26 cells are taken in
/// the order of [`Field`].
pub open spec fn row_outcome(
    header: Option<Seq<Seq<char>>>,
    record: Option<Seq<Seq<char>>>,
) -> Result<EntryView, RowErrorView> {
    match record {
        None => Err(RowErrorView::Unreadable),
        Some(c) => match header {
            Some(h) => deserialized(h, c),
            None => deserialized(
                canonical(),
                if c.len() > 26 {
                    c.take(26)
                } else {
                    c
                },
            ),
        },
    }
}

/// What each row of a listing gives, in the order of the rows.
pub open spec fn outcomes(
    header: Option<Seq<Seq<char>>>,
    records: Seq<Option<Seq<Seq<char>>>>,
) -> Seq<Result<EntryView, RowErrorView>> {
    Seq::new(records.len(), |i: int| row_outcome(header, records[i]))
}

/// The directory that the rows give: each entry under its reference in
/// capitals, a later row in place of an earlier one with the same reference.
pub open spec fn collected(rows: Seq<Result<EntryView, RowErrorView>>) -> Map<
    Seq<char>,
    EntryView,
>
    decreases rows.len(),
{
    if rows.len() == 0 {
        Map::empty()
    } else {
        let before = collected(rows.drop_last());
        match rows.last() {
            Ok(e) => before.insert(uppercase(e.reference), e),
            Err(_) => before,
        }
    }
}

/// The rows that gave no entry, in their order, each with its place and its
/// fault.
pub open spec fn skipped(rows: Seq<Result<EntryView, RowErrorView>>) -> Seq<(int, RowErrorView)>
    decreases rows.len(),
{
    if rows.len() == 0 {
        Seq::empty()
    } else {
        let before = skipped(rows.drop_last());
        match rows.last() {
            Ok(_) => before,
            Err(e) => before.push((rows.len() - 1, e)),
        }
    }
}

/// Every entry of the directory stands under its own reference in capitals,
/// and the directory is finite.
pub proof fn keys_are_references_in_capitals(rows: Seq<Result<EntryView, RowErrorView>>)
    ensures
        collected(rows).dom().finite(),
        forall|k: Seq<char>| #[trigger]
            collected(rows).contains_key(k) ==> k == uppercase(collected(rows)[k].reference),
    decreases rows.len(),
{
    if rows.len() > 0 {
        keys_are_references_in_capitals(rows.drop_last());
    }
}

/// No row is lost: a row that gives an entry stands in the directory, or a
/// later row with the same reference does; a row that gives none stands among
/// the skipped rows with its place and its fault.
pub proof fn every_row_counts(rows: Seq<Result<EntryView, RowErrorView>>, i: int)
    requires
        0 <= i < rows.len(),
    ensures
        rows[i] matches Ok(e) ==> collected(rows).contains_key(uppercase(e.reference)),
        rows[i] matches Err(e) ==> skipped(rows).contains((i, e)),
        skipped(rows).len() <= rows.len(),
    decreases rows.len(),
{
    let before = rows.drop_last();
    skipped_is_no_longer(rows);
    if i < rows.len() - 1 {
        every_row_counts(before, i);
        match rows[i] {
            Ok(_) => {},
            Err(e) => {
                let at = choose|at: int| 0 <= at < skipped(before).len() && skipped(before)[at] == (i, e);
                assert(skipped(rows)[at] == (i, e));
            },
        }
    } else {
        match rows[i] {
            Ok(_) => {},
            Err(e) => {
                assert(skipped(rows)[skipped(before).len() as int] == (i, e));
            },
        }
    }
}

/// No more rows are skipped than there are.
pub proof fn skipped_is_no_longer(rows: Seq<Result<EntryView, RowErrorView>>)
    ensures
        skipped(rows).len() <= rows.len(),
    decreases rows.len(),
{
    if rows.len() > 0 {
        skipped_is_no_longer(rows.drop_last());
    }
}

/// Of two rows whose references differ at most in case, the later one takes
/// the place of the earlier one.
pub proof fn later_row_wins(
    rows: Seq<Result<EntryView, RowErrorView>>,
    earlier: EntryView,
    later: EntryView,
)
    requires
        lowercase(earlier.reference) == lowercase(later.reference),
    ensures
        collected(rows.push(Ok(earlier)).push(Ok(later))) == collected(rows.push(Ok(later))),
        collected(rows.push(Ok(earlier)).push(Ok(later)))[uppercase(earlier.reference)] == later,
        skipped(rows.push(Ok(earlier)).push(Ok(later))) == skipped(rows),
{
    capitals_forget_case(earlier.reference, later.reference);
    let one = rows.push(Ok(earlier));
    let two = one.push(Ok(later));
    assert(two.drop_last() =~= one);
    assert(one.drop_last() =~= rows);
    assert(rows.push(Ok(later)).drop_last() =~= rows);
    let k = uppercase(later.reference);
    assert(collected(one) == collected(rows).insert(k, earlier));
    assert(collected(two) == collected(one).insert(k, later));
    assert(collected(rows.push(Ok(later))) == collected(rows).insert(k, later));
    assert(collected(rows).insert(k, earlier).insert(k, later) =~= collected(rows).insert(
        k,
        later,
    ));
    assert(skipped(one) == skipped(rows));
    assert(skipped(two) == skipped(one));
}

/// A listing whose only row gives no entry makes an empty directory and one
/// skipped row.
pub proof fn one_bad_row(e: RowErrorView)
    ensures
        collected(seq![Err(e)]) == Map::<Seq<char>, EntryView>::empty(),
        skipped(seq![Err(e)]) == seq![(0int, e)],
{
    let rows = seq![Err::<EntryView, RowErrorView>(e)];
    assert(rows.drop_last() =~= Seq::empty());
    reveal_with_fuel(collected, 2);
    reveal_with_fuel(skipped, 2);
    assert(skipped(rows) =~= seq![(0int, e)]);
}

/// The mathematical value of a header row.
pub open spec fn header_view(header: Option<Vec<String>>) -> Option<Seq<Seq<char>>> {
    match header {
        Some(h) => Some(texts(h@)),
        None => None,
    }
}

/// The mathematical value of the rows behind the header row.
pub open spec fn records_view(records: Seq<Option<Vec<String>>>) -> Seq<Option<Seq<Seq<char>>>> {
    Seq::new(
        records.len(),
        |i: int|
            match records[i] {
                Some(c) => Some(texts(c@)),
                None => None,
            },
    )
}

/// The mathematical value of a list of skipped rows.
pub open spec fn skipped_view(list: Seq<Skipped>) -> Seq<(int, RowErrorView)> {
    Seq::new(list.len(), |i: int| list[i]@)
}

/// The names of the columns in the order of [`Field`].
pub fn canonical_headers() -> (v: Vec<String>)
    ensures
        texts(v@) == canonical(),
{
    let mut v: Vec<String> = Vec::new();
    v.push(String::from_str(Field::Reference.name()));
    v.push(String::from_str(Field::Status.name()));
    v.push(String::from_str(Field::Name.name()));
    v.push(String::from_str(Field::Program.name()));
    v.push(String::from_str(Field::Dxcc.name()));
    v.push(String::from_str(Field::State.name()));
    v.push(String::from_str(Field::County.name()));
    v.push(String::from_str(Field::Continent.name()));
    v.push(String::from_str(Field::Iota.name()));
    v.push(String::from_str(Field::IaruLocator.name()));
    v.push(String::from_str(Field::Latitude.name()));
    v.push(String::from_str(Field::Longitude.name()));
    v.push(String::from_str(Field::IucnCategory.name()));
    v.push(String::from_str(Field::ValidFrom.name()));
    v.push(String::from_str(Field::ValidTo.name()));
    v.push(String::from_str(Field::Notes.name()));
    v.push(String::from_str(Field::LastModified.name()));
    v.push(String::from_str(Field::Changelog.name()));
    v.push(String::from_str(Field::ReviewFlag.name()));
    v.push(String::from_str(Field::SpecialFlags.name()));
    v.push(String::from_str(Field::Website.name()));
    v.push(String::from_str(Field::Country.name()));
    v.push(String::from_str(Field::Region.name()));
    v.push(String::from_str(Field::DxccEnum.name()));
    v.push(String::from_str(Field::QsoCount.name()));
    v.push(String::from_str(Field::LastActivity.name()));
    assert(texts(v@) =~= canonical());
    v
}

/// Decodes one row.
pub fn decode_row(header: &Option<Vec<String>>, record: &Option<Vec<String>>) -> (r: Result<
    Entry,
    RowError,
>)
    ensures
        seen(r) == row_outcome(
            header_view(*header),
            match *record {
                Some(c) => Some(texts(c@)),
                None => None,
            },
        ),
{
    match record {
        None => Err(RowError::Unreadable),
        Some(cells) => match header {
            Some(names) => Entry::deserialize(names.as_slice(), cells.as_slice()),
            None => {
                let names = canonical_headers();
                if cells.len() > 26 {
                    let first = slice_subrange(cells.as_slice(), 0, 26);
                    assert(texts(first@) =~= texts(cells@).take(26));
                    Entry::deserialize(names.as_slice(), first)
                } else {
                    Entry::deserialize(names.as_slice(), cells.as_slice())
                }
            },
        },
    }
}

/// Builds the directory from the rows of a listing. No row ends the run: one
/// that gives no entry is set aside with its place and its fault.
pub fn collect(header: Option<Vec<String>>, records: Vec<Option<Vec<String>>>) -> (r: (
    WwffMap,
    Vec<Skipped>,
))
    ensures
        r.0@ == collected(outcomes(header_view(header), records_view(records@))),
        skipped_view(r.1@) == skipped(outcomes(header_view(header), records_view(records@))),
{
    let ghost rows = outcomes(header_view(header), records_view(records@));
    let mut map = WwffMap::new();
    let mut aside: Vec<Skipped> = Vec::new();
    let n: usize = records.len();
    let mut i: usize = 0;
    assert(rows.take(0) =~= Seq::empty());
    assert(skipped_view(aside@) =~= Seq::empty());
    while i < n
        invariant
            n == records@.len(),
            i <= n,
            rows == outcomes(header_view(header), records_view(records@)),
            map@ == collected(rows.take(i as int)),
            skipped_view(aside@) == skipped(rows.take(i as int)),
        decreases n - i,
    {
        let ghost done = rows.take(i as int);
        let ghost next = rows.take(i + 1);
        assert(next.drop_last() =~= done);
        assert(next.last() == rows[i as int]);
        match decode_row(&header, &records[i]) {
            Ok(entry) => {
                map = map.insert(entry);
            },
            Err(error) => {
                let ghost before = aside@;
                aside.push(Skipped { row: i, error });
                assert(skipped_view(aside@) =~= skipped_view(before).push((i as int, error@)));
            },
        }
        i += 1;
    }
    assert(rows.take(n as int) =~= rows);
    (map, aside)
}

/// Reads a directory from the bytes of a listing.
pub fn read(data: &[u8]) -> (r: (WwffMap, Vec<Skipped>))
    ensures
        r.0@ == collected(outcomes(csv_header(data@), csv_records(data@))),
        skipped_view(r.1@) == skipped(outcomes(csv_header(data@), csv_records(data@))),
{
    let header = header_row(data);
    let records = records(data);
    collect(header, records)
}

/// `csv::Reader::headers` on a reader over the bytes, with the settings that
/// `csv::Reader::from_reader` gives: the first row as text, cell by cell.
#[verifier::external_body]
fn header_row(data: &[u8]) -> (r: Option<Vec<String>>)
    ensures
        header_view(r) == csv_header(data@),
{
    csv::Reader::from_reader(data).headers().ok().map(|h| h.iter().map(String::from).collect())
}

/// `csv::Reader::records` on a reader over the bytes, with the settings that
/// `csv::Reader::from_reader` gives: every row behind the first, cell by cell,
/// and `None` in the place of each row that comes as an error.
#[verifier::external_body]
fn records(data: &[u8]) -> (r: Vec<Option<Vec<String>>>)
    ensures
        records_view(r@) == csv_records(data@),
{
    csv::Reader::from_reader(data).records().map(
        |row| row.ok().map(|cells| cells.iter().map(String::from).collect()),
    ).collect()
}

} // verus!
