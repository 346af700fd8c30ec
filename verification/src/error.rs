//! The error model: one tagged union for every failure site, with enough
//! context to render a complete diagnostic without re-reading the source.

use vstd::prelude::*;

verus! {

/// The model of a field-level failure: the offending text and the reason.
pub struct FieldFail {
    pub raw_value: Seq<char>,
    pub reason: Seq<char>,
}

/// A field-level failure before it is attributed to a file and a line: the
/// raw offending cell text and a diagnostic reason.
#[derive(Debug, Clone, PartialEq)]
pub struct FieldFailure {
    pub raw_value: String,
    pub reason: String,
}

impl View for FieldFailure {
    type V = FieldFail;

    open spec fn view(&self) -> FieldFail {
        FieldFail { raw_value: self.raw_value@, reason: self.reason@ }
    }
}

/// Everything that can go wrong while decoding a feed.
///
/// An archive failure aborts an extraction entirely; a missing header or a
/// missing required column makes a whole table unusable; a row-structure or
/// field failure spoils one row
/// and iteration may continue; a transport failure reports an unusable
/// underlying reader.
#[derive(Debug, Clone)]
pub enum Error {
    /// The archive could not be unpacked.
    ArchiveError { cause: String },
    /// The table has no header row.
    MissingHeader { file: String },
    /// The header lacks a column the record type cannot do without.
    MissingColumn { file: String, column: String },
    /// A row's column count differs from the header's.
    RowStructureError { file: String, line: u64, expected_count: u64, actual_count: u64 },
    /// A cell could not be decoded; the field name is given when known.
    FieldError {
        file: String,
        line: u64,
        field_name: Option<String>,
        raw_value: String,
        reason: String,
    },
    /// The underlying reader failed to produce a row.
    TransportError { file: String, reason: String },
}

/// The character of a decimal digit value.
pub open spec fn digit_char(d: nat) -> char {
    if d == 0 {
        '0'
    } else if d == 1 {
        '1'
    } else if d == 2 {
        '2'
    } else if d == 3 {
        '3'
    } else if d == 4 {
        '4'
    } else if d == 5 {
        '5'
    } else if d == 6 {
        '6'
    } else if d == 7 {
        '7'
    } else if d == 8 {
        '8'
    } else {
        '9'
    }
}

/// The decimal rendering of a number, most significant digit first, with no
/// sign and no leading zero except for the number zero itself.
pub open spec fn spec_u64_digits(n: nat) -> Seq<char>
    decreases n,
{
    if n < 10 {
        seq![digit_char(n)]
    } else {
        spec_u64_digits(n / 10).push(digit_char(n % 10))
    }
}

/// One decimal digit as text.
fn digit_str(d: u64) -> (r: &'static str)
    requires
        d < 10,
    ensures
        r@ == seq![digit_char(d as nat)],
{
    let r: &'static str = if d == 0 {
        "0"
    } else if d == 1 {
        "1"
    } else if d == 2 {
        "2"
    } else if d == 3 {
        "3"
    } else if d == 4 {
        "4"
    } else if d == 5 {
        "5"
    } else if d == 6 {
        "6"
    } else if d == 7 {
        "7"
    } else if d == 8 {
        "8"
    } else {
        "9"
    };
    proof {
        reveal_strlit("0");
        reveal_strlit("1");
        reveal_strlit("2");
        reveal_strlit("3");
        reveal_strlit("4");
        reveal_strlit("5");
        reveal_strlit("6");
        reveal_strlit("7");
        reveal_strlit("8");
        reveal_strlit("9");
        assert(r@ =~= seq![digit_char(d as nat)]);
    }
    r
}

/// Render a number in decimal, exactly as [`spec_u64_digits`] describes.
pub fn u64_to_string(n: u64) -> (s: String)
    ensures
        s@ == spec_u64_digits(n as nat),
{
    let mut digs: Vec<u64> = Vec::new();
    let mut rem = n;
    if rem == 0 {
        digs.push(0);
    }
    while rem > 0
        invariant
            forall|k: int| 0 <= k < digs.len() ==> digs@[k] < 10,
            rem > 0 ==> spec_u64_digits(n as nat) == spec_u64_digits(rem as nat) + rev_chars(
                digs@,
            ),
            rem == 0 ==> digs.len() > 0 && spec_u64_digits(n as nat) == rev_chars(digs@),
        decreases rem,
    {
        let d = rem % 10;
        let next = rem / 10;
        proof {
            let ghost old_digs = digs@;
            if next > 0 {
                assert(spec_u64_digits(rem as nat) == spec_u64_digits(next as nat).push(
                    digit_char(d as nat),
                ));
            } else {
                assert(spec_u64_digits(rem as nat) =~= seq![digit_char(d as nat)]);
            }
            assert(rev_chars(old_digs.push(d)) =~= seq![digit_char(d as nat)] + rev_chars(
                old_digs,
            ));
        }
        digs.push(d);
        rem = next;
        proof {
            if rem > 0 {
                assert(spec_u64_digits(n as nat) =~= spec_u64_digits(rem as nat) + rev_chars(
                    digs@,
                ));
            } else {
                assert(spec_u64_digits(n as nat) =~= rev_chars(digs@));
            }
        }
    }
    if digs.len() == 0 {
        proof {
            assert(spec_u64_digits(0) =~= rev_chars(digs@.push(0)));
        }
        digs.push(0);
    }
    let mut out = String::new();
    let mut i = digs.len();
    while i > 0
        invariant
            0 <= i <= digs.len(),
            forall|k: int| 0 <= k < digs.len() ==> digs@[k] < 10,
            spec_u64_digits(n as nat) == rev_chars(digs@),
            out@ == rev_chars(digs@).take(digs.len() - i),
        decreases i,
    {
        i = i - 1;
        out.append(digit_str(digs[i]));
        proof {
            assert(out@ =~= rev_chars(digs@).take(digs.len() - i));
        }
    }
    proof {
        assert(rev_chars(digs@).take(digs.len() as int) =~= rev_chars(digs@));
    }
    out
}

/// The digit characters of a digit-value sequence, reversed.
spec fn rev_chars(digs: Seq<u64>) -> Seq<char> {
    Seq::new(digs.len(), |i: int| digit_char(digs[digs.len() - 1 - i] as nat))
}

/// A decimal rendering is never empty and holds digit characters alone.
pub proof fn lemma_u64_digits_wf(n: nat)
    ensures
        spec_u64_digits(n).len() >= 1,
        forall|i: int|
            0 <= i < spec_u64_digits(n).len() ==> crate::parse::is_digit(
                #[trigger] spec_u64_digits(n)[i],
            ),
    decreases n,
{
    if n >= 10 {
        lemma_u64_digits_wf(n / 10);
        let p = spec_u64_digits(n / 10);
        assert forall|i: int| 0 <= i < spec_u64_digits(n).len() implies crate::parse::is_digit(
            #[trigger] spec_u64_digits(n)[i],
        ) by {
            if i < p.len() {
                assert(spec_u64_digits(n)[i] == p[i]);
            } else {
                assert(spec_u64_digits(n)[i] == digit_char(n % 10));
            }
        }
    }
}

/// Reading a decimal rendering back gives the number it renders.
pub proof fn lemma_u64_digits_value(n: nat)
    ensures
        crate::parse::uint_value(spec_u64_digits(n)) == n,
    decreases n,
{
    if n < 10 {
        assert(seq![digit_char(n)].drop_last() =~= Seq::<char>::empty());
        assert(crate::parse::uint_value(Seq::<char>::empty()) == 0);
        assert(seq![digit_char(n)].last() == digit_char(n));
        assert(crate::parse::uint_value(spec_u64_digits(n)) == crate::parse::digit_val(
            digit_char(n),
        ));
    } else {
        lemma_u64_digits_value(n / 10);
        let p = spec_u64_digits(n / 10);
        assert(p.push(digit_char(n % 10)).drop_last() =~= p);
        assert(crate::parse::uint_value(spec_u64_digits(n)) == crate::parse::uint_value(p) * 10
            + crate::parse::digit_val(digit_char(n % 10)));
        assert(crate::parse::digit_val(digit_char(n % 10)) == n % 10);
        assert(n / 10 * 10 + n % 10 == n) by {
            vstd::arithmetic::div_mod::lemma_fundamental_div_mod(n as int, 10);
        };
    }
}

/// The complete diagnostic text of an error.
///
/// Field-attributed failures render as
/// `error parsing {field} in {file}:{line} - {reason}`, row-structure
/// failures as
/// `error parsing {file}:{line} - expected {e} fields but got {a} fields`,
/// file-level failures as `error parsing {file} - {reason}`, and archive
/// failures as `error in feed - {cause}`.
pub open spec fn spec_message(e: Error) -> Seq<char> {
    match e {
        Error::ArchiveError { cause } => "error in feed - "@ + cause@,
        Error::MissingHeader { file } => "error parsing "@ + file@ + " - missing header"@,
        Error::MissingColumn { file, column } => "error parsing "@ + file@
            + " - missing required column "@ + column@,
        Error::RowStructureError { file, line, expected_count, actual_count } => "error parsing "@
            + file@ + ":"@ + spec_u64_digits(line as nat) + " - expected "@ + spec_u64_digits(
            expected_count as nat,
        ) + " fields but got "@ + spec_u64_digits(actual_count as nat) + " fields"@,
        Error::FieldError { file, line, field_name, raw_value, reason } => match field_name {
            Some(f) => "error parsing "@ + f@ + " in "@ + file@ + ":"@ + spec_u64_digits(
                line as nat,
            ) + " - "@ + reason@,
            None => "error parsing "@ + file@ + ":"@ + spec_u64_digits(line as nat) + " - "@
                + reason@,
        },
        Error::TransportError { file, reason } => "error parsing "@ + file@ + " - "@ + reason@,
    }
}

impl Error {
    /// Render the diagnostic exactly as [`spec_message`] describes.
    pub fn message(&self) -> (r: String)
        ensures
            r@ == spec_message(*self),
    {
        let mut out = String::new();
        match self {
            Error::ArchiveError { cause } => {
                out.append("error in feed - ");
                out.append(cause.as_str());
            },
            Error::MissingHeader { file } => {
                out.append("error parsing ");
                out.append(file.as_str());
                out.append(" - missing header");
            },
            Error::MissingColumn { file, column } => {
                out.append("error parsing ");
                out.append(file.as_str());
                out.append(" - missing required column ");
                out.append(column.as_str());
            },
            Error::RowStructureError { file, line, expected_count, actual_count } => {
                out.append("error parsing ");
                out.append(file.as_str());
                out.append(":");
                let lt = u64_to_string(*line);
                out.append(lt.as_str());
                out.append(" - expected ");
                let et = u64_to_string(*expected_count);
                out.append(et.as_str());
                out.append(" fields but got ");
                let at = u64_to_string(*actual_count);
                out.append(at.as_str());
                out.append(" fields");
            },
            Error::FieldError { file, line, field_name, raw_value: _, reason } => {
                out.append("error parsing ");
                match field_name {
                    Some(f) => {
                        out.append(f.as_str());
                        out.append(" in ");
                        out.append(file.as_str());
                    },
                    None => {
                        out.append(file.as_str());
                    },
                }
                out.append(":");
                let lt = u64_to_string(*line);
                out.append(lt.as_str());
                out.append(" - ");
                out.append(reason.as_str());
            },
            Error::TransportError { file, reason } => {
                out.append("error parsing ");
                out.append(file.as_str());
                out.append(" - ");
                out.append(reason.as_str());
            },
        }
        proof {
            assert(out@ =~= spec_message(*self));
        }
        out
    }
}

} // verus!
