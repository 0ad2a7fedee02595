//! Rows of the listing: the columns that an entry is read from, and how a
//! column is found in a row by the name in the header row.
use vstd::prelude::*;
use vstd::string::*;

verus! {

/// A column of the listing that an entry is read from.
#[derive(Debug, Clone, Copy, PartialEq, Eq, Structural)]
pub enum Field {
    Reference,
    Status,
    Name,
    Program,
    Dxcc,
    State,
    County,
    Continent,
    Iota,
    IaruLocator,
    Latitude,
    Longitude,
    IucnCategory,
    ValidFrom,
    ValidTo,
    Notes,
    LastModified,
    Changelog,
    ReviewFlag,
    SpecialFlags,
    Website,
    Country,
    Region,
    DxccEnum,
    QsoCount,
    LastActivity,
}

impl Field {
    /// The name of the column in the header row of the listing.
    pub open spec fn header(self) -> Seq<char> {
        match self {
            Field::Reference => "reference"@,
            Field::Status => "status"@,
            Field::Name => "name"@,
            Field::Program => "program"@,
            Field::Dxcc => "dxcc"@,
            Field::State => "state"@,
            Field::County => "county"@,
            Field::Continent => "continent"@,
            Field::Iota => "iota"@,
            Field::IaruLocator => "iaruLocator"@,
            Field::Latitude => "latitude"@,
            Field::Longitude => "longitude"@,
            Field::IucnCategory => "IUCNcat"@,
            Field::ValidFrom => "validFrom"@,
            Field::ValidTo => "validTo"@,
            Field::Notes => "notes"@,
            Field::LastModified => "lastMod"@,
            Field::Changelog => "changeLog"@,
            Field::ReviewFlag => "reviewFlag"@,
            Field::SpecialFlags => "specialFlags"@,
            Field::Website => "website"@,
            Field::Country => "country"@,
            Field::Region => "region"@,
            Field::DxccEnum => "dxccEnum"@,
            Field::QsoCount => "qsoCount"@,
            Field::LastActivity => "lastAct"@,
        }
    }

    /// The name of the column in the header row of the listing.
    pub fn name(self) -> (r: &'static str)
        ensures
            r@ == self.header(),
    {
        match self {
            Field::Reference => "reference",
            Field::Status => "status",
            Field::Name => "name",
            Field::Program => "program",
            Field::Dxcc => "dxcc",
            Field::State => "state",
            Field::County => "county",
            Field::Continent => "continent",
            Field::Iota => "iota",
            Field::IaruLocator => "iaruLocator",
            Field::Latitude => "latitude",
            Field::Longitude => "longitude",
            Field::IucnCategory => "IUCNcat",
            Field::ValidFrom => "validFrom",
            Field::ValidTo => "validTo",
            Field::Notes => "notes",
            Field::LastModified => "lastMod",
            Field::Changelog => "changeLog",
            Field::ReviewFlag => "reviewFlag",
            Field::SpecialFlags => "specialFlags",
            Field::Website => "website",
            Field::Country => "country",
            Field::Region => "region",
            Field::DxccEnum => "dxccEnum",
            Field::QsoCount => "qsoCount",
            Field::LastActivity => "lastAct",
        }
    }
}

/// Why a row gave no entry.
#[derive(Debug, PartialEq, Eq)]
pub enum RowError {
    /// The row could not be split into cells.
    Unreadable,
    /// The row has more or fewer cells than the header row has names.
    Ragged,
    /// No column of the header row has the name of this field.
    Missing(Field),
    /// Two or more columns of the header row have the name of this field.
    Repeated(Field),
    /// The cell of this field holds a text that its token cannot hold.
    Token(Field),
    /// The cell of this field holds no number of its range.
    Number(Field),
    /// The status cell holds this text, which names no status.
    Status(String),
}

/// The mathematical value of a [`RowError`].
pub enum RowErrorView {
    Unreadable,
    Ragged,
    Missing(Field),
    Repeated(Field),
    Token(Field),
    Number(Field),
    Status(Seq<char>),
}

impl View for RowError {
    type V = RowErrorView;

    open spec fn view(&self) -> RowErrorView {
        match self {
            RowError::Unreadable => RowErrorView::Unreadable,
            RowError::Ragged => RowErrorView::Ragged,
            RowError::Missing(f) => RowErrorView::Missing(*f),
            RowError::Repeated(f) => RowErrorView::Repeated(*f),
            RowError::Token(f) => RowErrorView::Token(*f),
            RowError::Number(f) => RowErrorView::Number(*f),
            RowError::Status(s) => RowErrorView::Status(s@),
        }
    }
}

/// The texts that a list of strings holds.
pub open spec fn texts(v: Seq<String>) -> Seq<Seq<char>> {
    Seq::new(v.len(), |i: int| v[i]@)
}

/// Whether a column of the header row has this name.
pub open spec fn occurs(headers: Seq<Seq<char>>, name: Seq<char>) -> bool {
    exists|i: int| 0 <= i < headers.len() && headers[i] == name
}

/// Whether two columns of the header row have this name.
pub open spec fn repeats(headers: Seq<Seq<char>>, name: Seq<char>) -> bool {
    exists|i: int, j: int|
        0 <= i < j < headers.len() && headers[i] == name && headers[j] == name
}

/// The index of a column that has this name.
pub open spec fn column(headers: Seq<Seq<char>>, name: Seq<char>) -> int {
    choose|i: int| 0 <= i < headers.len() && headers[i] == name
}

/// The cell of a field in a row: the one in the only column that has the
/// field's name.
pub open spec fn cell(headers: Seq<Seq<char>>, cells: Seq<Seq<char>>, f: Field) -> Result<
    Seq<char>,
    RowErrorView,
> {
    if !occurs(headers, f.header()) {
        Err(RowErrorView::Missing(f))
    } else if repeats(headers, f.header()) {
        Err(RowErrorView::Repeated(f))
    } else {
        Ok(cells[column(headers, f.header())])
    }
}

/// Finds the cell of a field in a row.
pub(crate) fn find<'a>(headers: &[String], cells: &'a [String], f: Field) -> (r: Result<&'a str, RowError>)
    requires
        headers@.len() == cells@.len(),
    ensures
        match r {
            Ok(s) => cell(texts(headers@), texts(cells@), f) == Ok::<_, RowErrorView>(s@),
            Err(e) => cell(texts(headers@), texts(cells@), f) == Err::<Seq<char>, _>(e@),
        },
{
    let name = f.name();
    let ghost h = texts(headers@);
    let n: usize = headers.len();
    let mut first: Option<usize> = None;
    let mut again: bool = false;
    let mut i: usize = 0;
    while i < n
        invariant
            n == headers@.len(),
            h == texts(headers@),
            name@ == f.header(),
            i <= n,
            first is None ==> !again && forall|j: int| 0 <= j < i ==> h[j] != name@,
            first matches Some(k) ==> k < i && h[k as int] == name@ && forall|j: int|
                0 <= j < k ==> h[j] != name@,
            first matches Some(k) ==> (again <==> exists|j: int| k < j < i && h[j] == name@),
        decreases n - i,
    {
        if crate::text::same_text(headers[i].as_str(), name) {
            assert(h[i as int] == name@);
            match first {
                None => {
                    first = Some(i);
                },
                Some(_) => {
                    again = true;
                },
            }
        }
        i += 1;
    }
    match first {
        None => Err(RowError::Missing(f)),
        Some(k) => {
            assert(h[k as int] == name@);
            if again {
                let ghost j = choose|j: int| k < j < i && h[j] == name@;
                assert(h[k as int] == name@ && h[j] == name@);
                Err(RowError::Repeated(f))
            } else {
                assert(!repeats(h, name@)) by {
                    if repeats(h, name@) {
                        let (a, b) = choose|a: int, b: int|
                            0 <= a < b < h.len() && h[a] == name@ && h[b] == name@;
                        assert(a >= k);
                    }
                }
                assert(column(h, name@) == k) by {
                    let c = column(h, name@);
                    if c < k {
                    } else if c > k {
                        assert(h[k as int] == name@ && h[c] == name@);
                    }
                }
                assert(texts(cells@)[k as int] == cells@[k as int]@);
                Ok(cells[k].as_str())
            }
        },
    }
}

} // verus!
