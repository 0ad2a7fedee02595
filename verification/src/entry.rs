//! The entries of the directory, and how one is read from a row.
use crate::date::{calendar_date, deserialize_date_opt, Date};
use crate::field::{
    deserialize_string_opt, deserialize_tinystr, optional_text, optional_token, token_cell_view,
};
use crate::number::{
    deserialize_f32_opt, deserialize_u16_opt, deserialize_u32_opt, deserialize_u8, integer_cell,
    numeral, Numeral,
};
use crate::row::{cell, find, texts, Field, RowError, RowErrorView};
use crate::status::{deserialize_status, status_of, Status};
use crate::token::{fits, Token};
use vstd::prelude::*;
use vstd::string::*;

verus! {

/// A single WWFF entity entry
#[derive(Debug)]
pub struct Entry {
    /// The reference, as the listing spells it.
    pub reference: Token<12>,
    /// Whether the reference can be activated.
    pub status: Status,
    /// The name of the park or area.
    pub name: String,
    /// The national programme, such as `ONFF`.
    pub program: Token<12>,
    /// The DXCC entity.
    pub dxcc: Token<8>,
    /// The state or province.
    pub state: Token<8>,
    /// The county.
    pub county: Token<8>,
    /// The continent, such as `EU`.
    pub continent: Token<2>,
    /// The Islands on the Air group.
    pub iota: Option<Token<8>>,
    /// The Maidenhead locator.
    pub iaru_locator: Option<Token<12>>,
    /// The latitude in degrees.
    pub latitude: Option<Numeral>,
    /// The longitude in degrees.
    pub longitude: Option<Numeral>,
    /// International Union for Conservation of Nature (IUCN) category
    pub iucn_category: Option<Token<12>>,
    /// The first day on which the reference counts.
    pub valid_from: Option<Date>,
    /// The last day on which the reference counts.
    pub valid_to: Option<Date>,
    /// Free text; may be empty.
    pub notes: String,
    /// When the row was last changed, as the listing writes it.
    pub last_modified: String,
    /// What was changed.
    pub changelog: Option<String>,
    /// The review flag.
    pub review_flag: u8,
    /// Special flags.
    pub special_flags: Option<String>,
    /// The address of a web site.
    pub website: Option<String>,
    /// The name of the country.
    pub country: Option<String>,
    /// The name of the region.
    pub region: Option<String>,
    /// The number of the DXCC entity.
    pub dxcc_enum: Option<u16>,
    /// The number of contacts logged.
    pub qso_count: Option<u32>,
    /// The day of the last activation.
    pub last_activity: Option<Date>,
}

/// The mathematical value of an [`Entry`]: each text as its characters.
pub struct EntryView {
    pub reference: Seq<char>,
    pub status: Status,
    pub name: Seq<char>,
    pub program: Seq<char>,
    pub dxcc: Seq<char>,
    pub state: Seq<char>,
    pub county: Seq<char>,
    pub continent: Seq<char>,
    pub iota: Option<Seq<char>>,
    pub iaru_locator: Option<Seq<char>>,
    pub latitude: Option<Seq<char>>,
    pub longitude: Option<Seq<char>>,
    pub iucn_category: Option<Seq<char>>,
    pub valid_from: Option<Date>,
    pub valid_to: Option<Date>,
    pub notes: Seq<char>,
    pub last_modified: Seq<char>,
    pub changelog: Option<Seq<char>>,
    pub review_flag: u8,
    pub special_flags: Option<Seq<char>>,
    pub website: Option<Seq<char>>,
    pub country: Option<Seq<char>>,
    pub region: Option<Seq<char>>,
    pub dxcc_enum: Option<u16>,
    pub qso_count: Option<u32>,
    pub last_activity: Option<Date>,
}

impl View for Entry {
    type V = EntryView;

    open spec fn view(&self) -> EntryView {
        EntryView {
            reference: self.reference@,
            status: self.status,
            name: self.name@,
            program: self.program@,
            dxcc: self.dxcc@,
            state: self.state@,
            county: self.county@,
            continent: self.continent@,
            iota: match self.iota {
                Some(t) => Some(t@),
                None => None,
            },
            iaru_locator: match self.iaru_locator {
                Some(t) => Some(t@),
                None => None,
            },
            latitude: match self.latitude {
                Some(t) => Some(t@),
                None => None,
            },
            longitude: match self.longitude {
                Some(t) => Some(t@),
                None => None,
            },
            iucn_category: match self.iucn_category {
                Some(t) => Some(t@),
                None => None,
            },
            valid_from: self.valid_from,
            valid_to: self.valid_to,
            notes: self.notes@,
            last_modified: self.last_modified@,
            changelog: match self.changelog {
                Some(t) => Some(t@),
                None => None,
            },
            review_flag: self.review_flag,
            special_flags: match self.special_flags {
                Some(t) => Some(t@),
                None => None,
            },
            website: match self.website {
                Some(t) => Some(t@),
                None => None,
            },
            country: match self.country {
                Some(t) => Some(t@),
                None => None,
            },
            region: match self.region {
                Some(t) => Some(t@),
                None => None,
            },
            dxcc_enum: self.dxcc_enum,
            qso_count: self.qso_count,
            last_activity: self.last_activity,
        }
    }
}

/// A token column that must hold a value: the cell as it is, which must fit.
pub open spec fn token_in(h: Seq<Seq<char>>, c: Seq<Seq<char>>, f: Field, max: int) -> Result<
    Seq<char>,
    RowErrorView,
> {
    match cell(h, c, f) {
        Ok(s) => if fits(s, max) {
            Ok(s)
        } else {
            Err(RowErrorView::Token(f))
        },
        Err(e) => Err(e),
    }
}

/// A token column that may be left empty.
pub open spec fn optional_token_in(
    h: Seq<Seq<char>>,
    c: Seq<Seq<char>>,
    f: Field,
    max: int,
) -> Result<Option<Seq<char>>, RowErrorView> {
    match cell(h, c, f) {
        Ok(s) => match optional_token(s, max) {
            Ok(t) => Ok(t),
            Err(_) => Err(RowErrorView::Token(f)),
        },
        Err(e) => Err(e),
    }
}

/// A text column that may be left empty.
pub open spec fn optional_text_in(h: Seq<Seq<char>>, c: Seq<Seq<char>>, f: Field) -> Result<
    Option<Seq<char>>,
    RowErrorView,
> {
    match cell(h, c, f) {
        Ok(s) => Ok(optional_text(s)),
        Err(e) => Err(e),
    }
}

/// A column of decimal numbers: a cell that holds no numeral is no value.
pub open spec fn numeral_in(h: Seq<Seq<char>>, c: Seq<Seq<char>>, f: Field) -> Result<
    Option<Seq<char>>,
    RowErrorView,
> {
    match cell(h, c, f) {
        Ok(s) => Ok(
            if numeral(s) {
                Some(s)
            } else {
                None
            },
        ),
        Err(e) => Err(e),
    }
}

/// A column of dates: a cell that holds no date is no value.
pub open spec fn date_in(h: Seq<Seq<char>>, c: Seq<Seq<char>>, f: Field) -> Result<
    Option<Date>,
    RowErrorView,
> {
    match cell(h, c, f) {
        Ok(s) => Ok(calendar_date(s)),
        Err(e) => Err(e),
    }
}

/// The status column: a cell that names no status is a fault, which carries
/// the cell.
pub open spec fn status_in(h: Seq<Seq<char>>, c: Seq<Seq<char>>) -> Result<Status, RowErrorView> {
    match cell(h, c, Field::Status) {
        Ok(s) => match status_of(s) {
            Some(status) => Ok(status),
            None => Err(RowErrorView::Status(s)),
        },
        Err(e) => Err(e),
    }
}

/// A column of integers below 256 that must hold a value.
pub open spec fn small_integer_in(h: Seq<Seq<char>>, c: Seq<Seq<char>>, f: Field) -> Result<
    u8,
    RowErrorView,
> {
    match cell(h, c, f) {
        Ok(s) => match integer_cell(s, 0xff) {
            Some(v) => Ok(v as u8),
            None => Err(RowErrorView::Number(f)),
        },
        Err(e) => Err(e),
    }
}

/// A column of integers below 65536 that may be left without a value: a cell
/// that holds no such number is no value.
pub open spec fn optional_u16_in(h: Seq<Seq<char>>, c: Seq<Seq<char>>, f: Field) -> Result<
    Option<u16>,
    RowErrorView,
> {
    match cell(h, c, f) {
        Ok(s) => Ok(
            match integer_cell(s, 0xffff) {
                Some(v) => Some(v as u16),
                None => None,
            },
        ),
        Err(e) => Err(e),
    }
}

/// A column of integers below 2^32 that may be left without a value: a cell
/// that holds no such number is no value.
pub open spec fn optional_u32_in(h: Seq<Seq<char>>, c: Seq<Seq<char>>, f: Field) -> Result<
    Option<u32>,
    RowErrorView,
> {
    match cell(h, c, f) {
        Ok(s) => Ok(
            match integer_cell(s, 0xffff_ffff) {
                Some(v) => Some(v as u32),
                None => None,
            },
        ),
        Err(e) => Err(e),
    }
}

/// The first fault of a row, the columns taken in the order of [`Field`];
/// `None` where every column decodes.
pub open spec fn fault(h: Seq<Seq<char>>, c: Seq<Seq<char>>) -> Option<RowErrorView> {
    if h.len() != c.len() {
        Some(RowErrorView::Ragged)
    } else if token_in(h, c, Field::Reference, 12) is Err {
        Some(token_in(h, c, Field::Reference, 12)->Err_0)
    } else if status_in(h, c) is Err {
        Some(status_in(h, c)->Err_0)
    } else if cell(h, c, Field::Name) is Err {
        Some(cell(h, c, Field::Name)->Err_0)
    } else if token_in(h, c, Field::Program, 12) is Err {
        Some(token_in(h, c, Field::Program, 12)->Err_0)
    } else if token_in(h, c, Field::Dxcc, 8) is Err {
        Some(token_in(h, c, Field::Dxcc, 8)->Err_0)
    } else if token_in(h, c, Field::State, 8) is Err {
        Some(token_in(h, c, Field::State, 8)->Err_0)
    } else if token_in(h, c, Field::County, 8) is Err {
        Some(token_in(h, c, Field::County, 8)->Err_0)
    } else if token_in(h, c, Field::Continent, 2) is Err {
        Some(token_in(h, c, Field::Continent, 2)->Err_0)
    } else if optional_token_in(h, c, Field::Iota, 8) is Err {
        Some(optional_token_in(h, c, Field::Iota, 8)->Err_0)
    } else if optional_token_in(h, c, Field::IaruLocator, 12) is Err {
        Some(optional_token_in(h, c, Field::IaruLocator, 12)->Err_0)
    } else if numeral_in(h, c, Field::Latitude) is Err {
        Some(numeral_in(h, c, Field::Latitude)->Err_0)
    } else if numeral_in(h, c, Field::Longitude) is Err {
        Some(numeral_in(h, c, Field::Longitude)->Err_0)
    } else if optional_token_in(h, c, Field::IucnCategory, 12) is Err {
        Some(optional_token_in(h, c, Field::IucnCategory, 12)->Err_0)
    } else if date_in(h, c, Field::ValidFrom) is Err {
        Some(date_in(h, c, Field::ValidFrom)->Err_0)
    } else if date_in(h, c, Field::ValidTo) is Err {
        Some(date_in(h, c, Field::ValidTo)->Err_0)
    } else if cell(h, c, Field::Notes) is Err {
        Some(cell(h, c, Field::Notes)->Err_0)
    } else if cell(h, c, Field::LastModified) is Err {
        Some(cell(h, c, Field::LastModified)->Err_0)
    } else if optional_text_in(h, c, Field::Changelog) is Err {
        Some(optional_text_in(h, c, Field::Changelog)->Err_0)
    } else if small_integer_in(h, c, Field::ReviewFlag) is Err {
        Some(small_integer_in(h, c, Field::ReviewFlag)->Err_0)
    } else if optional_text_in(h, c, Field::SpecialFlags) is Err {
        Some(optional_text_in(h, c, Field::SpecialFlags)->Err_0)
    } else if optional_text_in(h, c, Field::Website) is Err {
        Some(optional_text_in(h, c, Field::Website)->Err_0)
    } else if optional_text_in(h, c, Field::Country) is Err {
        Some(optional_text_in(h, c, Field::Country)->Err_0)
    } else if optional_text_in(h, c, Field::Region) is Err {
        Some(optional_text_in(h, c, Field::Region)->Err_0)
    } else if optional_u16_in(h, c, Field::DxccEnum) is Err {
        Some(optional_u16_in(h, c, Field::DxccEnum)->Err_0)
    } else if optional_u32_in(h, c, Field::QsoCount) is Err {
        Some(optional_u32_in(h, c, Field::QsoCount)->Err_0)
    } else if date_in(h, c, Field::LastActivity) is Err {
        Some(date_in(h, c, Field::LastActivity)->Err_0)
    } else {
        None
    }
}

/// The entry that a row without fault gives.
pub open spec fn assembled(h: Seq<Seq<char>>, c: Seq<Seq<char>>) -> EntryView {
    EntryView {
        reference: token_in(h, c, Field::Reference, 12)->Ok_0,
        status: status_in(h, c)->Ok_0,
        name: cell(h, c, Field::Name)->Ok_0,
        program: token_in(h, c, Field::Program, 12)->Ok_0,
        dxcc: token_in(h, c, Field::Dxcc, 8)->Ok_0,
        state: token_in(h, c, Field::State, 8)->Ok_0,
        county: token_in(h, c, Field::County, 8)->Ok_0,
        continent: token_in(h, c, Field::Continent, 2)->Ok_0,
        iota: optional_token_in(h, c, Field::Iota, 8)->Ok_0,
        iaru_locator: optional_token_in(h, c, Field::IaruLocator, 12)->Ok_0,
        latitude: numeral_in(h, c, Field::Latitude)->Ok_0,
        longitude: numeral_in(h, c, Field::Longitude)->Ok_0,
        iucn_category: optional_token_in(h, c, Field::IucnCategory, 12)->Ok_0,
        valid_from: date_in(h, c, Field::ValidFrom)->Ok_0,
        valid_to: date_in(h, c, Field::ValidTo)->Ok_0,
        notes: cell(h, c, Field::Notes)->Ok_0,
        last_modified: cell(h, c, Field::LastModified)->Ok_0,
        changelog: optional_text_in(h, c, Field::Changelog)->Ok_0,
        review_flag: small_integer_in(h, c, Field::ReviewFlag)->Ok_0,
        special_flags: optional_text_in(h, c, Field::SpecialFlags)->Ok_0,
        website: optional_text_in(h, c, Field::Website)->Ok_0,
        country: optional_text_in(h, c, Field::Country)->Ok_0,
        region: optional_text_in(h, c, Field::Region)->Ok_0,
        dxcc_enum: optional_u16_in(h, c, Field::DxccEnum)->Ok_0,
        qso_count: optional_u32_in(h, c, Field::QsoCount)->Ok_0,
        last_activity: date_in(h, c, Field::LastActivity)->Ok_0,
    }
}

/// What a row gives: its entry, or its first fault.
pub open spec fn deserialized(h: Seq<Seq<char>>, c: Seq<Seq<char>>) -> Result<
    EntryView,
    RowErrorView,
> {
    match fault(h, c) {
        Some(e) => Err(e),
        None => Ok(assembled(h, c)),
    }
}

/// A row gives an entry exactly where it has as many cells as the header row
/// has names and each of its columns decodes: one fault in one column, such as
/// a status that is none or a token that is too long, rejects the whole row.
pub proof fn one_fault_rejects_the_row(h: Seq<Seq<char>>, c: Seq<Seq<char>>)
    ensures
        deserialized(h, c) is Ok <==> fault(h, c) is None,
        deserialized(h, c) is Ok ==> h.len() == c.len(),
        status_in(h, c) is Err ==> deserialized(h, c) is Err,
        token_in(h, c, Field::Reference, 12) is Err ==> deserialized(h, c) is Err,
        optional_token_in(h, c, Field::Iota, 8) is Err ==> deserialized(h, c) is Err,
        optional_token_in(h, c, Field::IaruLocator, 12) is Err ==> deserialized(h, c) is Err,
        optional_token_in(h, c, Field::IucnCategory, 12) is Err ==> deserialized(h, c) is Err,
        small_integer_in(h, c, Field::ReviewFlag) is Err ==> deserialized(h, c) is Err,
        deserialized(h, c) matches Ok(e) ==> fits(e.reference, 12) && Ok::<_, RowErrorView>(
            e.reference,
        ) == cell(h, c, Field::Reference),
{
}

/// A cell of a decimal, a date or an optional integer column never rejects
/// its row: where the column is there, the cell gives a value or none.
pub proof fn numbers_and_dates_never_fail(h: Seq<Seq<char>>, c: Seq<Seq<char>>, f: Field)
    requires
        cell(h, c, f) is Ok,
    ensures
        numeral_in(h, c, f) is Ok,
        date_in(h, c, f) is Ok,
        optional_u16_in(h, c, f) is Ok,
        optional_u32_in(h, c, f) is Ok,
        optional_text_in(h, c, f) is Ok,
        integer_cell(cell(h, c, f)->Ok_0, 0xffff) is None ==> optional_u16_in(h, c, f) == Ok::<
            _,
            RowErrorView,
        >(None::<u16>),
        integer_cell(cell(h, c, f)->Ok_0, 0xffff_ffff) is None ==> optional_u32_in(h, c, f) == Ok::<
            _,
            RowErrorView,
        >(None::<u32>),
        !numeral(cell(h, c, f)->Ok_0) ==> numeral_in(h, c, f) == Ok::<_, RowErrorView>(
            None::<Seq<char>>,
        ),
{
}

/// The mathematical value of a decoded cell or row.
pub open spec fn seen<T: View>(r: Result<T, RowError>) -> Result<T::V, RowErrorView> {
    match r {
        Ok(t) => Ok(t@),
        Err(e) => Err(e@),
    }
}

/// The mathematical value of a decoded cell that may be left empty.
pub open spec fn seen_optional<T: View>(r: Result<Option<T>, RowError>) -> Result<
    Option<T::V>,
    RowErrorView,
> {
    match r {
        Ok(Some(t)) => Ok(Some(t@)),
        Ok(None) => Ok(None),
        Err(e) => Err(e@),
    }
}

/// The mathematical value of a decoded cell that holds no text.
pub open spec fn seen_plain<T>(r: Result<T, RowError>) -> Result<T, RowErrorView> {
    match r {
        Ok(t) => Ok(t),
        Err(e) => Err(e@),
    }
}

fn token_cell<const N: usize>(headers: &[String], cells: &[String], f: Field) -> (r: Result<
    Token<N>,
    RowError,
>)
    requires
        headers@.len() == cells@.len(),
    ensures
        seen(r) == token_in(texts(headers@), texts(cells@), f, N as int),
{
    let s = match find(headers, cells, f) {
        Ok(s) => s,
        Err(e) => return Err(e),
    };
    match Token::<N>::from_str(s) {
        Some(t) => Ok(t),
        None => Err(RowError::Token(f)),
    }
}

fn optional_token_cell<const N: usize>(headers: &[String], cells: &[String], f: Field) -> (r:
    Result<Option<Token<N>>, RowError>)
    requires
        headers@.len() == cells@.len(),
    ensures
        seen_optional(r) == optional_token_in(texts(headers@), texts(cells@), f, N as int),
{
    let s = match find(headers, cells, f) {
        Ok(s) => s,
        Err(e) => return Err(e),
    };
    let t = deserialize_tinystr::<N>(s);
    assert(token_cell_view(t) == optional_token(s@, N as int));
    match t {
        Ok(t) => Ok(t),
        Err(_) => Err(RowError::Token(f)),
    }
}

fn text_cell(headers: &[String], cells: &[String], f: Field) -> (r: Result<String, RowError>)
    requires
        headers@.len() == cells@.len(),
    ensures
        seen(r) == cell(texts(headers@), texts(cells@), f),
{
    match find(headers, cells, f) {
        Ok(s) => Ok(String::from_str(s)),
        Err(e) => Err(e),
    }
}

fn optional_text_cell(headers: &[String], cells: &[String], f: Field) -> (r: Result<
    Option<String>,
    RowError,
>)
    requires
        headers@.len() == cells@.len(),
    ensures
        seen_optional(r) == optional_text_in(texts(headers@), texts(cells@), f),
{
    match find(headers, cells, f) {
        Ok(s) => Ok(deserialize_string_opt(s)),
        Err(e) => Err(e),
    }
}

fn numeral_cell(headers: &[String], cells: &[String], f: Field) -> (r: Result<
    Option<Numeral>,
    RowError,
>)
    requires
        headers@.len() == cells@.len(),
    ensures
        seen_optional(r) == numeral_in(texts(headers@), texts(cells@), f),
{
    match find(headers, cells, f) {
        Ok(s) => Ok(deserialize_f32_opt(s)),
        Err(e) => Err(e),
    }
}

fn date_cell(headers: &[String], cells: &[String], f: Field) -> (r: Result<Option<Date>, RowError>)
    requires
        headers@.len() == cells@.len(),
    ensures
        seen_plain(r) == date_in(texts(headers@), texts(cells@), f),
{
    match find(headers, cells, f) {
        Ok(s) => Ok(deserialize_date_opt(s)),
        Err(e) => Err(e),
    }
}

fn status_cell(headers: &[String], cells: &[String]) -> (r: Result<Status, RowError>)
    requires
        headers@.len() == cells@.len(),
    ensures
        seen_plain(r) == status_in(texts(headers@), texts(cells@)),
{
    let s = match find(headers, cells, Field::Status) {
        Ok(s) => s,
        Err(e) => return Err(e),
    };
    match deserialize_status(s) {
        Ok(status) => Ok(status),
        Err(found) => Err(RowError::Status(found)),
    }
}

fn small_integer_cell(headers: &[String], cells: &[String], f: Field) -> (r: Result<u8, RowError>)
    requires
        headers@.len() == cells@.len(),
    ensures
        seen_plain(r) == small_integer_in(texts(headers@), texts(cells@), f),
{
    let s = match find(headers, cells, f) {
        Ok(s) => s,
        Err(e) => return Err(e),
    };
    match deserialize_u8(s) {
        Ok(v) => Ok(v),
        Err(_) => Err(RowError::Number(f)),
    }
}

fn optional_u16_cell(headers: &[String], cells: &[String], f: Field) -> (r: Result<
    Option<u16>,
    RowError,
>)
    requires
        headers@.len() == cells@.len(),
    ensures
        seen_plain(r) == optional_u16_in(texts(headers@), texts(cells@), f),
{
    match find(headers, cells, f) {
        Ok(s) => Ok(deserialize_u16_opt(s)),
        Err(e) => Err(e),
    }
}

fn optional_u32_cell(headers: &[String], cells: &[String], f: Field) -> (r: Result<
    Option<u32>,
    RowError,
>)
    requires
        headers@.len() == cells@.len(),
    ensures
        seen_plain(r) == optional_u32_in(texts(headers@), texts(cells@), f),
{
    match find(headers, cells, f) {
        Ok(s) => Ok(deserialize_u32_opt(s)),
        Err(e) => Err(e),
    }
}

impl Entry {
    /// Reads an entry from the cells of a row, each found by the name that the
    /// header row gives its column. The columns are decoded in the order of
    /// [`Field`], and the first fault is the row's.
    pub fn deserialize(headers: &[String], cells: &[String]) -> (r: Result<Entry, RowError>)
        ensures
            seen(r) == deserialized(texts(headers@), texts(cells@)),
    {
        if headers.len() != cells.len() {
            return Err(RowError::Ragged);
        }
        let reference = match token_cell::<12>(headers, cells, Field::Reference) {
            Ok(v) => v,
            Err(e) => return Err(e),
        };
        let status = match status_cell(headers, cells) {
            Ok(v) => v,
            Err(e) => return Err(e),
        };
        let name = match text_cell(headers, cells, Field::Name) {
            Ok(v) => v,
            Err(e) => return Err(e),
        };
        let program = match token_cell::<12>(headers, cells, Field::Program) {
            Ok(v) => v,
            Err(e) => return Err(e),
        };
        let dxcc = match token_cell::<8>(headers, cells, Field::Dxcc) {
            Ok(v) => v,
            Err(e) => return Err(e),
        };
        let state = match token_cell::<8>(headers, cells, Field::State) {
            Ok(v) => v,
            Err(e) => return Err(e),
        };
        let county = match token_cell::<8>(headers, cells, Field::County) {
            Ok(v) => v,
            Err(e) => return Err(e),
        };
        let continent = match token_cell::<2>(headers, cells, Field::Continent) {
            Ok(v) => v,
            Err(e) => return Err(e),
        };
        let iota = match optional_token_cell::<8>(headers, cells, Field::Iota) {
            Ok(v) => v,
            Err(e) => return Err(e),
        };
        let iaru_locator = match optional_token_cell::<12>(headers, cells, Field::IaruLocator) {
            Ok(v) => v,
            Err(e) => return Err(e),
        };
        let latitude = match numeral_cell(headers, cells, Field::Latitude) {
            Ok(v) => v,
            Err(e) => return Err(e),
        };
        let longitude = match numeral_cell(headers, cells, Field::Longitude) {
            Ok(v) => v,
            Err(e) => return Err(e),
        };
        let iucn_category = match optional_token_cell::<12>(headers, cells, Field::IucnCategory) {
            Ok(v) => v,
            Err(e) => return Err(e),
        };
        let valid_from = match date_cell(headers, cells, Field::ValidFrom) {
            Ok(v) => v,
            Err(e) => return Err(e),
        };
        let valid_to = match date_cell(headers, cells, Field::ValidTo) {
            Ok(v) => v,
            Err(e) => return Err(e),
        };
        let notes = match text_cell(headers, cells, Field::Notes) {
            Ok(v) => v,
            Err(e) => return Err(e),
        };
        let last_modified = match text_cell(headers, cells, Field::LastModified) {
            Ok(v) => v,
            Err(e) => return Err(e),
        };
        let changelog = match optional_text_cell(headers, cells, Field::Changelog) {
            Ok(v) => v,
            Err(e) => return Err(e),
        };
        let review_flag = match small_integer_cell(headers, cells, Field::ReviewFlag) {
            Ok(v) => v,
            Err(e) => return Err(e),
        };
        let special_flags = match optional_text_cell(headers, cells, Field::SpecialFlags) {
            Ok(v) => v,
            Err(e) => return Err(e),
        };
        let website = match optional_text_cell(headers, cells, Field::Website) {
            Ok(v) => v,
            Err(e) => return Err(e),
        };
        let country = match optional_text_cell(headers, cells, Field::Country) {
            Ok(v) => v,
            Err(e) => return Err(e),
        };
        let region = match optional_text_cell(headers, cells, Field::Region) {
            Ok(v) => v,
            Err(e) => return Err(e),
        };
        let dxcc_enum = match optional_u16_cell(headers, cells, Field::DxccEnum) {
            Ok(v) => v,
            Err(e) => return Err(e),
        };
        let qso_count = match optional_u32_cell(headers, cells, Field::QsoCount) {
            Ok(v) => v,
            Err(e) => return Err(e),
        };
        let last_activity = match date_cell(headers, cells, Field::LastActivity) {
            Ok(v) => v,
            Err(e) => return Err(e),
        };
        Ok(
            Entry {
                reference,
                status,
                name,
                program,
                dxcc,
                state,
                county,
                continent,
                iota,
                iaru_locator,
                latitude,
                longitude,
                iucn_category,
                valid_from,
                valid_to,
                notes,
                last_modified,
                changelog,
                review_flag,
                special_flags,
                website,
                country,
                region,
                dxcc_enum,
                qso_count,
                last_activity,
            },
        )
    }
}

} // verus!
