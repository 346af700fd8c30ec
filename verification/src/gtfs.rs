//! The generic streaming decoder: it adapts a raw header-bearing tabular
//! reader into a lazy, attributed sequence of typed records or errors.
//!
//! Field-level codecs here attach a diagnostic reason to the pure codecs of
//! [`crate::parse`]; the [`Record`] trait maps header-named cells onto the
//! fields of one record type; [`GTFSIterator`] drives both over the rows of
//! one table.

use vstd::prelude::*;

use core::marker::PhantomData;

use crate::error::Error;
use crate::error::FieldFail;
use crate::error::FieldFailure;
use crate::parse::is_decimal_text;
use crate::parse::is_decimal;
use crate::parse::parse_date;
use crate::parse::parse_duration;
use crate::parse::parse_time;
use crate::parse::parse_u64;
use crate::parse::parse_u32;
use crate::parse::spec_parse_date;
use crate::parse::spec_parse_duration;
use crate::parse::spec_parse_time;
use crate::parse::spec_parse_u64;
use crate::parse::spec_parse_u32;
use crate::parse::str_eq;
use crate::transit::CodedEnum;
use crate::transit::Date;
use crate::transit::DropoffType;
use crate::transit::LocationType;
use crate::transit::PickupType;
use crate::transit::TimeOffset;
use crate::transit::WheelchairBoarding;
use crate::transit::decode_enum;
use crate::transit::spec_decode_enum;

verus! {

/// The diagnostic of a malformed time cell.
pub open spec fn time_reason() -> Seq<char> {
    "time must be in H:MM:SS format"@
}

/// What decoding a time-of-day cell yields.
pub open spec fn spec_field_time(value: Seq<char>) -> Result<TimeOffset, FieldFail> {
    match spec_parse_time(value) {
        Some((h, m, s)) => Ok(TimeOffset { hours: h, minutes: m, seconds: s }),
        None => Err(FieldFail { raw_value: value, reason: time_reason() }),
    }
}

/// Decode a time-of-day cell, exactly as [`spec_field_time`] describes.
pub fn field_time(value: &str) -> (r: Result<TimeOffset, FieldFailure>)
    ensures
        match r {
            Ok(t) => spec_field_time(value@) == Ok::<TimeOffset, FieldFail>(t),
            Err(f) => spec_field_time(value@) == Err::<TimeOffset, FieldFail>(f@),
        },
{
    match parse_time(value) {
        Some((h, m, s)) => Ok(TimeOffset::from_hms(h, m, s)),
        None => Err(
            FieldFailure {
                raw_value: String::from_str(value),
                reason: String::from_str("time must be in H:MM:SS format"),
            },
        ),
    }
}

/// The diagnostic of a malformed date cell.
pub open spec fn date_reason() -> Seq<char> {
    "Date must be in YYYYMMDD format"@
}

/// What decoding a calendar-date cell yields; a decoded date always names a
/// real calendar day.
pub open spec fn spec_field_date(value: Seq<char>) -> Result<Date, FieldFail> {
    match spec_parse_date(value) {
        Some((y, m, d)) => Ok(Date { year: y, month: m, day: d }),
        None => Err(FieldFail { raw_value: value, reason: date_reason() }),
    }
}

/// Decode a calendar-date cell, exactly as [`spec_field_date`] describes.
pub fn field_date(value: &str) -> (r: Result<Date, FieldFailure>)
    ensures
        match r {
            Ok(d) => spec_field_date(value@) == Ok::<Date, FieldFail>(d) && d.valid(),
            Err(f) => spec_field_date(value@) == Err::<Date, FieldFail>(f@),
        },
{
    proof {
        crate::parse::lemma_parse_date_valid(value@);
    }
    match parse_date(value) {
        Some((y, m, d)) => Ok(Date { year: y, month: m, day: d }),
        None => Err(
            FieldFailure {
                raw_value: String::from_str(value),
                reason: String::from_str("Date must be in YYYYMMDD format"),
            },
        ),
    }
}

/// What decoding an optional calendar-date cell yields: an empty cell means
/// "no date".
pub open spec fn spec_field_opt_date(value: Seq<char>) -> Result<Option<Date>, FieldFail> {
    if value.len() == 0 {
        Ok(None)
    } else {
        match spec_parse_date(value) {
            Some((y, m, d)) => Ok(Some(Date { year: y, month: m, day: d })),
            None => Err(FieldFail { raw_value: value, reason: date_reason() }),
        }
    }
}

/// Decode an optional calendar-date cell, exactly as [`spec_field_opt_date`]
/// describes.
pub fn field_opt_date(value: &str) -> (r: Result<Option<Date>, FieldFailure>)
    ensures
        match r {
            Ok(d) => spec_field_opt_date(value@) == Ok::<Option<Date>, FieldFail>(d),
            Err(f) => spec_field_opt_date(value@) == Err::<Option<Date>, FieldFail>(f@),
        },
{
    if value.unicode_len() == 0 {
        return Ok(None);
    }
    match parse_date(value) {
        Some((y, m, d)) => Ok(Some(Date { year: y, month: m, day: d })),
        None => Err(
            FieldFailure {
                raw_value: String::from_str(value),
                reason: String::from_str("Date must be in YYYYMMDD format"),
            },
        ),
    }
}

/// The diagnostic of a malformed count cell.
pub open spec fn count_reason() -> Seq<char> {
    "invalid digit found in string"@
}

/// What decoding a non-negative count cell yields.
pub open spec fn spec_field_u64(value: Seq<char>) -> Result<u64, FieldFail> {
    match spec_parse_u64(value) {
        Some(v) => Ok(v),
        None => Err(FieldFail { raw_value: value, reason: count_reason() }),
    }
}

/// Decode a non-negative count cell, exactly as [`spec_field_u64`]
/// describes.
pub fn field_u64(value: &str) -> (r: Result<u64, FieldFailure>)
    ensures
        match r {
            Ok(v) => spec_field_u64(value@) == Ok::<u64, FieldFail>(v),
            Err(f) => spec_field_u64(value@) == Err::<u64, FieldFail>(f@),
        },
{
    match parse_u64(value) {
        Some(v) => Ok(v),
        None => Err(
            FieldFailure {
                raw_value: String::from_str(value),
                reason: String::from_str("invalid digit found in string"),
            },
        ),
    }
}

/// The diagnostic of a malformed duration cell.
pub open spec fn duration_reason() -> Seq<char> {
    "transfers duration must be a number or blank"@
}

/// What decoding an optional duration cell yields: a count of seconds, or
/// "no duration" for a blank cell.
pub open spec fn spec_field_duration(value: Seq<char>) -> Result<Option<i64>, FieldFail> {
    match spec_parse_duration(value) {
        Some(d) => Ok(d),
        None => Err(FieldFail { raw_value: value, reason: duration_reason() }),
    }
}

/// Decode an optional duration cell, exactly as [`spec_field_duration`]
/// describes.
pub fn field_duration(value: &str) -> (r: Result<Option<i64>, FieldFailure>)
    ensures
        match r {
            Ok(d) => spec_field_duration(value@) == Ok::<Option<i64>, FieldFail>(d),
            Err(f) => spec_field_duration(value@) == Err::<Option<i64>, FieldFail>(f@),
        },
{
    match parse_duration(value) {
        Some(d) => Ok(d),
        None => Err(
            FieldFailure {
                raw_value: String::from_str(value),
                reason: String::from_str("transfers duration must be a number or blank"),
            },
        ),
    }
}

/// The diagnostic of a malformed day-of-week cell.
pub open spec fn dow_reason() -> Seq<char> {
    "day of week field was not 0 or 1"@
}

/// What decoding a day-of-week cell yields: `0` means no service, `1` means
/// service.
pub open spec fn spec_field_dow(value: Seq<char>) -> Result<bool, FieldFail> {
    match spec_parse_u32(value) {
        Some(0u32) => Ok(false),
        Some(1u32) => Ok(true),
        _ => Err(FieldFail { raw_value: value, reason: dow_reason() }),
    }
}

/// Decode a day-of-week cell, exactly as [`spec_field_dow`] describes.
pub fn field_dow(value: &str) -> (r: Result<bool, FieldFailure>)
    ensures
        match r {
            Ok(b) => spec_field_dow(value@) == Ok::<bool, FieldFail>(b),
            Err(f) => spec_field_dow(value@) == Err::<bool, FieldFail>(f@),
        },
{
    match parse_u32(value) {
        Some(0u32) => Ok(false),
        Some(1u32) => Ok(true),
        _ => Err(
            FieldFailure {
                raw_value: String::from_str(value),
                reason: String::from_str("day of week field was not 0 or 1"),
            },
        ),
    }
}

/// The diagnostic of a malformed numeric cell.
pub open spec fn decimal_reason() -> Seq<char> {
    "invalid float literal"@
}

/// What decoding a required numeric cell yields: the validated text itself.
pub open spec fn spec_field_decimal(value: Seq<char>) -> Result<Seq<char>, FieldFail> {
    if is_decimal_text(value) {
        Ok(value)
    } else {
        Err(FieldFail { raw_value: value, reason: decimal_reason() })
    }
}

/// Decode a required numeric cell, exactly as [`spec_field_decimal`]
/// describes.
pub fn field_decimal(value: &str) -> (r: Result<String, FieldFailure>)
    ensures
        match r {
            Ok(t) => spec_field_decimal(value@) == Ok::<Seq<char>, FieldFail>(t@),
            Err(f) => spec_field_decimal(value@) == Err::<Seq<char>, FieldFail>(f@),
        },
{
    if is_decimal(value) {
        Ok(String::from_str(value))
    } else {
        Err(
            FieldFailure {
                raw_value: String::from_str(value),
                reason: String::from_str("invalid float literal"),
            },
        )
    }
}

/// What decoding an optional numeric cell yields: an empty cell means "no
/// value".
pub open spec fn spec_field_opt_decimal(value: Seq<char>) -> Result<Option<Seq<char>>, FieldFail> {
    if value.len() == 0 {
        Ok(None)
    } else if is_decimal_text(value) {
        Ok(Some(value))
    } else {
        Err(FieldFail { raw_value: value, reason: decimal_reason() })
    }
}

/// Decode an optional numeric cell, exactly as [`spec_field_opt_decimal`]
/// describes.
pub fn field_opt_decimal(value: &str) -> (r: Result<Option<String>, FieldFailure>)
    ensures
        match r {
            Ok(t) => spec_field_opt_decimal(value@) == Ok::<Option<Seq<char>>, FieldFail>(
                t.deep_view(),
            ),
            Err(f) => spec_field_opt_decimal(value@) == Err::<Option<Seq<char>>, FieldFail>(f@),
        },
{
    if value.unicode_len() == 0 {
        Ok(None)
    } else if is_decimal(value) {
        Ok(Some(String::from_str(value)))
    } else {
        Err(
            FieldFailure {
                raw_value: String::from_str(value),
                reason: String::from_str("invalid float literal"),
            },
        )
    }
}

/// What decoding a coded-enumeration cell yields, with the enumeration's
/// own diagnostic attached to a failure.
pub open spec fn spec_field_enum<E: CodedEnum>(value: Seq<char>) -> Result<E, FieldFail> {
    match spec_decode_enum::<E>(value) {
        Some(e) => Ok(e),
        None => Err(FieldFail { raw_value: value, reason: E::spec_reason() }),
    }
}

/// Decode a coded-enumeration cell, exactly as [`spec_field_enum`]
/// describes.
pub fn field_enum<E: CodedEnum>(value: &str) -> (r: Result<E, FieldFailure>)
    ensures
        match r {
            Ok(e) => spec_field_enum::<E>(value@) == Ok::<E, FieldFail>(e),
            Err(f) => spec_field_enum::<E>(value@) == Err::<E, FieldFail>(f@),
        },
{
    match decode_enum::<E>(value) {
        Some(e) => Ok(e),
        None => Err(FieldFailure { raw_value: String::from_str(value), reason: E::reason() }),
    }
}

/// A record type that one feed table row decodes into.
///
/// A record starts from its default field values; each header-named cell is
/// then applied in column order, so a later column under a duplicated
/// header name wins. Cells under unknown header names are ignored. The
/// record also names its required columns: the fields that are neither
/// optional nor covered by a documented default, which a table's header
/// must carry for any row to decode at all.
pub trait Record: View + Sized {
    /// The field values a record has before any cell is applied.
    spec fn spec_init() -> Self::V;

    /// The column names without which no row of this record type can be
    /// decoded: the fields that are not optional and have no documented
    /// default.
    spec fn spec_required() -> Seq<Seq<char>>;

    /// Executable required-column list, faithful to
    /// [`Self::spec_required`].
    fn required_columns() -> (r: Vec<String>)
        ensures
            r.deep_view() == Self::spec_required(),
    ;

    /// What applying one header-named cell does to the record: either an
    /// updated record or the failure of the field's codec.
    spec fn spec_apply(v: Self::V, name: Seq<char>, value: Seq<char>) -> Result<Self::V, FieldFail>;

    /// Build the default record, faithful to [`Self::spec_init`].
    fn init() -> (r: Self)
        ensures
            r@ == Self::spec_init(),
    ;

    /// Apply one header-named cell, faithful to [`Self::spec_apply`].
    fn apply(self, name: &str, value: &str) -> (r: Result<Self, FieldFailure>)
        ensures
            match r {
                Ok(t) => Self::spec_apply(self@, name@, value@) == Ok::<Self::V, FieldFail>(t@),
                Err(f) => Self::spec_apply(self@, name@, value@) == Err::<Self::V, FieldFail>(f@),
            },
    ;
}

/// The record model after the first `i` header-named cells of a row are
/// applied, or the index and failure of the first cell whose codec failed.
pub open spec fn spec_decode_upto<T: Record>(
    header: Seq<Seq<char>>,
    row: Seq<Seq<char>>,
    i: int,
) -> Result<T::V, (int, FieldFail)>
    decreases i,
{
    if i <= 0 {
        Ok(T::spec_init())
    } else {
        match spec_decode_upto::<T>(header, row, i - 1) {
            Ok(v) => match T::spec_apply(v, header[i - 1], row[i - 1]) {
                Ok(v2) => Ok(v2),
                Err(f) => Err((i - 1, f)),
            },
            Err(e) => Err(e),
        }
    }
}

/// A row decode that has failed by some column stays failed however many
/// more columns are applied.
proof fn lemma_decode_upto_err<T: Record>(
    header: Seq<Seq<char>>,
    row: Seq<Seq<char>>,
    i: int,
    j: int,
)
    requires
        0 <= i <= j,
        spec_decode_upto::<T>(header, row, i) is Err,
    ensures
        spec_decode_upto::<T>(header, row, j) == spec_decode_upto::<T>(header, row, i),
    decreases j,
{
    if j > i {
        lemma_decode_upto_err::<T>(header, row, i, j - 1);
    }
}

/// What decoding one row against a header yields: header names and cells
/// are paired positionally, as far as both reach.
pub open spec fn spec_decode_row<T: Record>(header: Seq<Seq<char>>, row: Seq<Seq<char>>) -> Result<
    T::V,
    (int, FieldFail),
> {
    spec_decode_upto::<T>(header, row, vstd::math::min(header.len() as int, row.len() as int))
}

/// Decode one row against a header, exactly as [`spec_decode_row`]
/// describes; a failure names the offending column index.
///
/// This row-level engine pairs whatever header it is given: checking that
/// the header carries every required column is the decoder constructor's
/// business, where the header is seen once.
pub fn decode_row<T: Record>(header: &Vec<String>, row: &Vec<String>) -> (r: Result<
    T,
    (usize, FieldFailure),
>)
    ensures
        match r {
            Ok(t) => spec_decode_row::<T>(header.deep_view(), row.deep_view()) == Ok::<
                T::V,
                (int, FieldFail),
            >(t@),
            Err(e) => spec_decode_row::<T>(header.deep_view(), row.deep_view()) == Err::<
                T::V,
                (int, FieldFail),
            >((e.0 as int, e.1@)) && e.0 < header.len() && e.0 < row.len(),
        },
{
    let n = if header.len() < row.len() {
        header.len()
    } else {
        row.len()
    };
    let mut t = T::init();
    let mut i: usize = 0;
    while i < n
        invariant
            0 <= i <= n,
            n == vstd::math::min(header.deep_view().len() as int, row.deep_view().len() as int),
            n <= header@.len(),
            n <= row@.len(),
            spec_decode_upto::<T>(header.deep_view(), row.deep_view(), i as int) == Ok::<
                T::V,
                (int, FieldFail),
            >(t@),
        decreases n - i,
    {
        proof {
            assert(header.deep_view()[i as int] == header@[i as int]@);
            assert(row.deep_view()[i as int] == row@[i as int]@);
        }
        match t.apply(header[i].as_str(), row[i].as_str()) {
            Ok(t2) => {
                t = t2;
            },
            Err(f) => {
                proof {
                    lemma_decode_upto_err::<T>(
                        header.deep_view(),
                        row.deep_view(),
                        i + 1,
                        vstd::math::min(
                            header.deep_view().len() as int,
                            row.deep_view().len() as int,
                        ),
                    );
                }
                return Err((i, f));
            },
        }
        i = i + 1;
    }
    Ok(t)
}

#[verifier::external_type_specification]
#[verifier::external_body]
#[verifier::reject_recursive_types(R)]
pub struct ExCsvReader<R>(csv::Reader<R>);

#[verifier::external_type_specification]
#[verifier::external_body]
#[verifier::reject_recursive_types(T)]
pub struct ExCursor<T>(std::io::Cursor<T>);

/// The records that the delimited-text parse of `data` yields, each a
/// sequence of cells; a function of the bytes alone.
pub uninterp spec fn csv_rows(data: Seq<u8>) -> Seq<Seq<Seq<char>>>;

/// The records a reader has yet to yield.
pub uninterp spec fn reader_rows(r: csv::Reader<std::io::Cursor<Vec<u8>>>) -> Seq<Seq<Seq<char>>>;

/// The reader's remaining input is clean: reading it will never fail.
pub uninterp spec fn reader_ok(r: csv::Reader<std::io::Cursor<Vec<u8>>>) -> bool;

/// Every byte is plain ASCII.
pub open spec fn ascii_bytes(data: Seq<u8>) -> bool {
    forall|i: int| 0 <= i < data.len() ==> data[i] < 128
}

/// Relies on csv::ReaderBuilder::from_reader, with header handling off and
/// flexible record lengths on: the reader yields exactly the records of the
/// parse of `data`, each record costs at least one input byte, and reading
/// in-memory ASCII input cannot fail.
#[verifier::external_body]
fn csv_reader_from_bytes(data: Vec<u8>) -> (r: csv::Reader<std::io::Cursor<Vec<u8>>>)
    ensures
        reader_rows(r) == csv_rows(data@),
        reader_rows(r).len() <= data@.len(),
        ascii_bytes(data@) ==> reader_ok(r),
{
    csv::ReaderBuilder::new().has_headers(false).flexible(true).from_reader(
        std::io::Cursor::new(data),
    )
}

/// Relies on csv::Reader::read_record: it fills the record with the next
/// row, reports end of input with a false result, and only ever moves
/// forward through the input.
#[verifier::external_body]
fn csv_next_row(rdr: &mut csv::Reader<std::io::Cursor<Vec<u8>>>) -> (r: Option<
    Result<Vec<String>, String>,
>)
    ensures
        match r {
            Some(Ok(row)) => reader_rows(*old(rdr)).len() > 0 && row.deep_view() == reader_rows(
                *old(rdr),
            )[0] && reader_rows(*final(rdr)) == reader_rows(*old(rdr)).drop_first(),
            Some(Err(_)) => reader_rows(*final(rdr)).len() <= reader_rows(*old(rdr)).len()
                && !reader_ok(*old(rdr)),
            None => reader_rows(*old(rdr)).len() == 0 && reader_rows(*final(rdr)).len() == 0,
        },
        reader_ok(*old(rdr)) ==> reader_ok(*final(rdr)),
{
    let mut rec = csv::StringRecord::new();
    match rdr.read_record(&mut rec) {
        Ok(true) => Some(Ok(rec.iter().map(|cell| cell.to_string()).collect())),
        Ok(false) => None,
        Err(e) => Some(Err(e.to_string())),
    }
}

/// Some name in `names` is exactly `name`.
pub open spec fn contains_name(names: Seq<Seq<char>>, name: Seq<char>) -> bool {
    exists|i: int| 0 <= i < names.len() && names[i] == name
}

/// Whether the header carries a column of the given name.
fn header_has(headers: &Vec<String>, name: &str) -> (r: bool)
    ensures
        r == contains_name(headers.deep_view(), name@),
{
    let mut i: usize = 0;
    while i < headers.len()
        invariant
            0 <= i <= headers@.len(),
            forall|j: int| 0 <= j < i ==> headers.deep_view()[j] != name@,
        decreases headers@.len() - i,
    {
        if str_eq(headers[i].as_str(), name) {
            proof {
                assert(headers.deep_view()[i as int] == name@);
            }
            return true;
        }
        i = i + 1;
    }
    false
}

/// The first of the record type's required columns that the header lacks,
/// if any.
fn missing_required<T: Record>(headers: &Vec<String>) -> (r: Option<String>)
    ensures
        match r {
            None => forall|j: int|
                0 <= j < T::spec_required().len() ==> contains_name(
                    headers.deep_view(),
                    #[trigger] T::spec_required()[j],
                ),
            Some(col) => contains_name(T::spec_required(), col@) && !contains_name(
                headers.deep_view(),
                col@,
            ),
        },
{
    let required = T::required_columns();
    let mut i: usize = 0;
    while i < required.len()
        invariant
            0 <= i <= required@.len(),
            required.deep_view() == T::spec_required(),
            forall|j: int|
                0 <= j < i ==> contains_name(headers.deep_view(), #[trigger] T::spec_required()[j]),
        decreases required@.len() - i,
    {
        if !header_has(headers, required[i].as_str()) {
            proof {
                assert(T::spec_required()[i as int] == required@[i as int]@);
                assert(contains_name(T::spec_required(), required@[i as int]@));
            }
            return Some(required[i].clone());
        }
        proof {
            assert(T::spec_required()[i as int] == required@[i as int]@);
        }
        i = i + 1;
    }
    None
}

/// `n + 1`, held at the largest representable value.
pub open spec fn sat_inc(n: u64) -> u64 {
    if n == u64::MAX {
        n
    } else {
        (n + 1) as u64
    }
}

/// A lazy, attributed decoder for one feed table: it owns the raw tabular
/// reader, keeps the header and a line counter, and yields one decoded
/// record or one attributed error per row.
pub struct GTFSIterator<T: Record> {
    reader: csv::Reader<std::io::Cursor<Vec<u8>>>,
    headers: Vec<String>,
    filename: String,
    line: u64,
    marker: PhantomData<T>,
}

impl<T: Record> GTFSIterator<T> {
    /// The rows that remain to be decoded.
    pub closed spec fn rows(self) -> Seq<Seq<Seq<char>>> {
        reader_rows(self.reader)
    }

    /// The header names, in column order.
    pub closed spec fn header_names(self) -> Seq<Seq<char>> {
        self.headers.deep_view()
    }

    /// The table name errors are attributed to.
    pub closed spec fn file(self) -> Seq<char> {
        self.filename@
    }

    /// The line counter: data rows are numbered from one, and the counter
    /// has already counted every row read so far.
    pub closed spec fn line_number(self) -> u64 {
        self.line
    }

    /// The remaining input can still be read without a transport failure.
    pub closed spec fn clean(self) -> bool {
        reader_ok(self.reader)
    }

    /// Construct a decoder over the raw bytes of one table.
    ///
    /// The first record becomes the header; a table without one, or with an
    /// empty one, is refused, and so is a header that lacks a column the
    /// record type requires: rows missing a required field must fail, not
    /// decode to a fabricated value, so such a table yields no records at
    /// all.
    pub fn new(data: Vec<u8>, filename: &str) -> (r: Result<GTFSIterator<T>, Error>)
        ensures
            match r {
                Ok(it) => csv_rows(data@).len() > 0 && csv_rows(data@)[0].len() > 0
                    && it.header_names() == csv_rows(data@)[0] && it.rows() == csv_rows(
                    data@,
                ).drop_first() && it.file() == filename@ && it.line_number() == 0 && (ascii_bytes(
                    data@,
                ) ==> it.clean()) && (forall|j: int|
                    0 <= j < T::spec_required().len() ==> contains_name(
                        csv_rows(data@)[0],
                        #[trigger] T::spec_required()[j],
                    )),
                Err(e) => match e {
                    Error::MissingHeader { file } => file@ == filename@ && (csv_rows(data@).len()
                        == 0 || csv_rows(data@)[0].len() == 0),
                    Error::MissingColumn { file, column } => file@ == filename@ && csv_rows(
                        data@,
                    ).len() > 0 && csv_rows(data@)[0].len() > 0 && contains_name(
                        T::spec_required(),
                        column@,
                    ) && !contains_name(csv_rows(data@)[0], column@),
                    Error::TransportError { file, reason: _ } => file@ == filename@ && !ascii_bytes(
                        data@,
                    ),
                    _ => false,
                },
            },
            csv_rows(data@).len() <= data@.len(),
            csv_rows(data@).len() == 0 && ascii_bytes(data@) ==> r matches Err(
                Error::MissingHeader { .. },
            ),
    {
        let mut reader = csv_reader_from_bytes(data);
        match csv_next_row(&mut reader) {
            None => Err(Error::MissingHeader { file: String::from_str(filename) }),
            Some(Err(msg)) => Err(
                Error::TransportError { file: String::from_str(filename), reason: msg },
            ),
            Some(Ok(headers)) => {
                if headers.len() == 0 {
                    proof {
                        assert(csv_rows(data@)[0].len() == 0);
                    }
                    Err(Error::MissingHeader { file: String::from_str(filename) })
                } else {
                    match missing_required::<T>(&headers) {
                        Some(column) => Err(
                            Error::MissingColumn { file: String::from_str(filename), column },
                        ),
                        None => Ok(
                            GTFSIterator {
                                reader,
                                headers,
                                filename: String::from_str(filename),
                                line: 0,
                                marker: PhantomData,
                            },
                        ),
                    }
                }
            },
        }
    }

    /// Pull the next row and decode it.
    ///
    /// The line counter counts every read attempt. An exhausted table
    /// yields nothing; a row whose cell count differs from the header's
    /// yields a row-structure error carrying both counts; a row with an
    /// undecodable cell yields a field error naming the column; and every
    /// outcome but exhaustion consumes exactly one row, so pulling may
    /// continue past an error.
    pub fn next(&mut self) -> (r: Option<Result<T, Error>>)
        ensures
            final(self).header_names() == old(self).header_names(),
            final(self).file() == old(self).file(),
            final(self).line_number() == sat_inc(old(self).line_number()),
            old(self).clean() ==> final(self).clean(),
            match r {
                None => old(self).rows().len() == 0 && final(self).rows().len() == 0,
                Some(res) => match res {
                    Ok(t) => old(self).rows().len() > 0 && final(self).rows() == old(
                        self,
                    ).rows().drop_first() && old(self).rows()[0].len() == old(
                        self,
                    ).header_names().len() && spec_decode_row::<T>(
                        old(self).header_names(),
                        old(self).rows()[0],
                    ) == Ok::<T::V, (int, FieldFail)>(t@),
                    Err(e) => match e {
                        Error::RowStructureError { file, line, expected_count, actual_count } => old(
                            self,
                        ).rows().len() > 0 && final(self).rows() == old(self).rows().drop_first()
                            && file@ == old(self).file() && line == sat_inc(old(self).line_number())
                            && expected_count as nat == old(self).header_names().len()
                            && actual_count as nat == old(self).rows()[0].len() && expected_count
                            != actual_count,
                        Error::FieldError { file, line, field_name, raw_value, reason } => old(
                            self,
                        ).rows().len() > 0 && final(self).rows() == old(self).rows().drop_first()
                            && old(self).rows()[0].len() == old(self).header_names().len() && file@
                            == old(self).file() && line == sat_inc(old(self).line_number()) && (
                        spec_decode_row::<T>(
                            old(self).header_names(),
                            old(self).rows()[0],
                        ) matches Err((i, ff)) && field_name matches Some(nm) && nm@ == old(
                            self,
                        ).header_names()[i] && raw_value@ == ff.raw_value && reason@ == ff.reason),
                        Error::TransportError { file, reason: _ } => file@ == old(self).file()
                            && !old(self).clean() && final(self).rows().len() <= old(
                            self,
                        ).rows().len(),
                        _ => false,
                    },
                },
            },
    {
        self.line = if self.line == u64::MAX {
            u64::MAX
        } else {
            self.line + 1
        };
        match csv_next_row(&mut self.reader) {
            None => None,
            Some(Err(msg)) => Some(
                Err(Error::TransportError { file: self.filename.clone(), reason: msg }),
            ),
            Some(Ok(row)) => {
                if row.len() != self.headers.len() {
                    Some(
                        Err(
                            Error::RowStructureError {
                                file: self.filename.clone(),
                                line: self.line,
                                expected_count: self.headers.len() as u64,
                                actual_count: row.len() as u64,
                            },
                        ),
                    )
                } else {
                    match decode_row::<T>(&self.headers, &row) {
                        Ok(t) => Some(Ok(t)),
                        Err((i, f)) => Some(
                            Err(
                                Error::FieldError {
                                    file: self.filename.clone(),
                                    line: self.line,
                                    field_name: Some(self.headers[i].clone()),
                                    raw_value: f.raw_value,
                                    reason: f.reason,
                                },
                            ),
                        ),
                    }
                }
            },
        }
    }
}

/// Parse an integer cell, attributing a failure to a file and line, exactly
/// as [`spec_field_u64`] describes the outcome.
pub fn parse_int(line: usize, file: &str, val: &str) -> (r: Result<u64, Error>)
    ensures
        match r {
            Ok(v) => spec_parse_u64(val@) == Some(v),
            Err(e) => e matches Error::FieldError {
                file: f,
                line: l,
                field_name,
                raw_value,
                reason,
            } && f@ == file@ && l == line as u64 && field_name is None && raw_value@ == val@
                && reason@ == count_reason() && spec_parse_u64(val@) is None,
        },
{
    match field_u64(val) {
        Ok(v) => Ok(v),
        Err(f) => Err(
            Error::FieldError {
                file: String::from_str(file),
                line: line as u64,
                field_name: None,
                raw_value: f.raw_value,
                reason: f.reason,
            },
        ),
    }
}

/// Parse a numeric cell, keeping its validated text, attributing a failure
/// to a file and line; the outcome is as [`spec_field_decimal`] describes.
pub fn parse_float(line: usize, file: &str, val: &str) -> (r: Result<String, Error>)
    ensures
        match r {
            Ok(t) => is_decimal_text(val@) && t@ == val@,
            Err(e) => e matches Error::FieldError {
                file: f,
                line: l,
                field_name,
                raw_value,
                reason,
            } && f@ == file@ && l == line as u64 && field_name is None && raw_value@ == val@
                && reason@ == decimal_reason() && !is_decimal_text(val@),
        },
{
    match field_decimal(val) {
        Ok(t) => Ok(t),
        Err(f) => Err(
            Error::FieldError {
                file: String::from_str(file),
                line: line as u64,
                field_name: None,
                raw_value: f.raw_value,
                reason: f.reason,
            },
        ),
    }
}

/// Parse a time-of-day cell, attributing a failure to a file and line.
pub fn parse_timeoffset(line: usize, file: &str, val: &str) -> (r: Result<TimeOffset, Error>)
    ensures
        match r {
            Ok(t) => spec_parse_time(val@) == Some((t.hours, t.minutes, t.seconds)),
            Err(e) => e matches Error::FieldError {
                file: f,
                line: l,
                field_name,
                raw_value,
                reason,
            } && f@ == file@ && l == line as u64 && field_name is None && raw_value@ == val@
                && reason@ == time_reason() && spec_parse_time(val@) is None,
        },
{
    match field_time(val) {
        Ok(t) => Ok(t),
        Err(f) => Err(
            Error::FieldError {
                file: String::from_str(file),
                line: line as u64,
                field_name: None,
                raw_value: f.raw_value,
                reason: f.reason,
            },
        ),
    }
}

/// Parse a pickup-type cell, attributing a failure to a file and line.
pub fn parse_pickup_type(line: usize, file: &str, val: &str) -> (r: Result<PickupType, Error>)
    ensures
        match r {
            Ok(t) => spec_decode_enum::<PickupType>(val@) == Some(t),
            Err(e) => e matches Error::FieldError {
                file: f,
                line: l,
                field_name,
                raw_value,
                reason,
            } && f@ == file@ && l == line as u64 && field_name is None && raw_value@ == val@
                && reason@ == PickupType::spec_reason() && spec_decode_enum::<PickupType>(val@) is None,
        },
{
    match field_enum::<PickupType>(val) {
        Ok(t) => Ok(t),
        Err(f) => Err(
            Error::FieldError {
                file: String::from_str(file),
                line: line as u64,
                field_name: None,
                raw_value: f.raw_value,
                reason: f.reason,
            },
        ),
    }
}

/// Parse a dropoff-type cell, attributing a failure to a file and line.
pub fn parse_dropoff_type(line: usize, file: &str, val: &str) -> (r: Result<DropoffType, Error>)
    ensures
        match r {
            Ok(t) => spec_decode_enum::<DropoffType>(val@) == Some(t),
            Err(e) => e matches Error::FieldError {
                file: f,
                line: l,
                field_name,
                raw_value,
                reason,
            } && f@ == file@ && l == line as u64 && field_name is None && raw_value@ == val@
                && reason@ == DropoffType::spec_reason() && spec_decode_enum::<DropoffType>(val@) is None,
        },
{
    match field_enum::<DropoffType>(val) {
        Ok(t) => Ok(t),
        Err(f) => Err(
            Error::FieldError {
                file: String::from_str(file),
                line: line as u64,
                field_name: None,
                raw_value: f.raw_value,
                reason: f.reason,
            },
        ),
    }
}

/// Parse a location-type cell, attributing a failure to a file and line.
pub fn parse_location_type(line: usize, file: &str, val: &str) -> (r: Result<LocationType, Error>)
    ensures
        match r {
            Ok(t) => spec_decode_enum::<LocationType>(val@) == Some(t),
            Err(e) => e matches Error::FieldError {
                file: f,
                line: l,
                field_name,
                raw_value,
                reason,
            } && f@ == file@ && l == line as u64 && field_name is None && raw_value@ == val@
                && reason@ == LocationType::spec_reason() && spec_decode_enum::<LocationType>(val@) is None,
        },
{
    match field_enum::<LocationType>(val) {
        Ok(t) => Ok(t),
        Err(f) => Err(
            Error::FieldError {
                file: String::from_str(file),
                line: line as u64,
                field_name: None,
                raw_value: f.raw_value,
                reason: f.reason,
            },
        ),
    }
}

/// Parse a wheelchair-boarding cell, attributing a failure to a file and
/// line.
pub fn parse_wheelchair_boarding(line: usize, file: &str, val: &str) -> (r: Result<
    WheelchairBoarding,
    Error,
>)
    ensures
        match r {
            Ok(t) => spec_decode_enum::<WheelchairBoarding>(val@) == Some(t),
            Err(e) => e matches Error::FieldError {
                file: f,
                line: l,
                field_name,
                raw_value,
                reason,
            } && f@ == file@ && l == line as u64 && field_name is None && raw_value@ == val@
                && reason@ == WheelchairBoarding::spec_reason() && spec_decode_enum::<WheelchairBoarding>(val@) is None,
        },
{
    match field_enum::<WheelchairBoarding>(val) {
        Ok(t) => Ok(t),
        Err(f) => Err(
            Error::FieldError {
                file: String::from_str(file),
                line: line as u64,
                field_name: None,
                raw_value: f.raw_value,
                reason: f.reason,
            },
        ),
    }
}

} // verus!
