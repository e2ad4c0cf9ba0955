use vstd::prelude::*;

use crate::output_folder::OutputFolder;
use crate::strategies::strategy::{FileRef, Strategy, StrategyError};

verus! {

/// Whether a byte is an ASCII decimal digit.
pub open spec fn is_digit_byte(b: u8) -> bool {
    48 <= b <= 57
}

/// Whether every byte in `[from, to)` is an ASCII decimal digit.
pub open spec fn digits_in(d: Seq<u8>, from: int, to: int) -> bool {
    forall|i: int| from <= i < to ==> is_digit_byte(d[i])
}

/// The value of the two-digit number at position `i`.
pub open spec fn num2(d: Seq<u8>, i: int) -> int {
    (d[i] - 48) * 10 + (d[i + 1] - 48)
}

/// The value of the four-digit number at position `i`.
pub open spec fn num4(d: Seq<u8>, i: int) -> int {
    (d[i] - 48) * 1000 + (d[i + 1] - 48) * 100 + (d[i + 2] - 48) * 10 + (d[i + 3] - 48)
}

/// Whether the bytes start with a `YYYY:MM:DD HH:MM:SS`-shaped date/time:
/// colons after the year, month, hour and minute groups, a space between
/// date and time, and decimal digits in all six groups. Bytes past the
/// nineteenth are ignored.
pub open spec fn datetime_shape(d: Seq<u8>) -> bool {
    &&& d.len() >= 19
    &&& d[4] == 58
    &&& d[7] == 58
    &&& d[10] == 32
    &&& d[13] == 58
    &&& d[16] == 58
    &&& digits_in(d, 0, 4)
    &&& digits_in(d, 5, 7)
    &&& digits_in(d, 8, 10)
    &&& digits_in(d, 11, 13)
    &&& digits_in(d, 14, 16)
    &&& digits_in(d, 17, 19)
}

/// The (year, month, day) read from a date/time text, or `None` when the
/// text does not have the expected shape. The time of day is checked for
/// shape and then discarded.
pub open spec fn spec_parse_datetime(d: Seq<u8>) -> Option<(u16, u8, u8)> {
    if datetime_shape(d) {
        Some((num4(d, 0) as u16, num2(d, 5) as u8, num2(d, 8) as u8))
    } else {
        None
    }
}

/// What looking the primary image's date/time field up in a byte stream
/// can yield.
pub enum ExifDateTimeField {
    /// The stream does not open or parse as a metadata container.
    NoContainer,
    /// The container parses but holds no primary-image DateTime field.
    Missing,
    /// The field is present but not text-encoded.
    NotText,
    /// The field's text values (a text field holds a vector of strings).
    Text(Seq<Seq<u8>>),
}

/// The primary image's DateTime field as the metadata reader extracts it
/// from a byte stream; the extraction is a function of the bytes alone.
pub uninterp spec fn exif_datetime_field(bytes: Seq<u8>) -> ExifDateTimeField;

/// The extracted date/time field, as handed to the strategy.
pub enum RawDateTimeField {
    NoContainer,
    Missing,
    NotText,
    Text(Vec<Vec<u8>>),
}

impl View for RawDateTimeField {
    type V = ExifDateTimeField;

    open spec fn view(&self) -> ExifDateTimeField {
        match self {
            RawDateTimeField::NoContainer => ExifDateTimeField::NoContainer,
            RawDateTimeField::Missing => ExifDateTimeField::Missing,
            RawDateTimeField::NotText => ExifDateTimeField::NotText,
            RawDateTimeField::Text(v) => ExifDateTimeField::Text(v.deep_view()),
        }
    }
}

/// Relies on exif::Reader::read_from_container, exif::Exif::get_field with
/// Tag::DateTime in the primary IFD, and the exif::Value variants: reads
/// the primary image's DateTime field out of the raw bytes. The extraction
/// is deterministic in the bytes, which `exif_datetime_field` names.
#[verifier::external_body]
fn extract_datetime_field(bytes: &[u8]) -> (r: RawDateTimeField)
    ensures
        r@ == exif_datetime_field(bytes@),
{
    let mut cursor = std::io::Cursor::new(bytes);
    match exif::Reader::new().read_from_container(&mut cursor) {
        Err(_) => RawDateTimeField::NoContainer,
        Ok(meta) => match meta.get_field(exif::Tag::DateTime, exif::In::PRIMARY) {
            None => RawDateTimeField::Missing,
            Some(field) => match &field.value {
                exif::Value::Ascii(texts) => RawDateTimeField::Text(texts.clone()),
                _ => RawDateTimeField::NotText,
            },
        },
    }
}

/// Relies on exif::DateTime::from_ascii: parses a `YYYY:MM:DD HH:MM:SS`
/// text into its numeric fields; only the date portion is returned.
#[verifier::external_body]
fn parse_datetime(data: &Vec<u8>) -> (r: Option<(u16, u8, u8)>)
    ensures
        r == spec_parse_datetime(data@),
{
    match exif::DateTime::from_ascii(data.as_slice()) {
        Ok(dt) => Some((dt.year, dt.month, dt.day)),
        Err(_) => None,
    }
}

/// What the metadata strategy concludes from an extracted field.
pub open spec fn exif_outcome_of_field(field: ExifDateTimeField) -> Result<
    OutputFolder,
    StrategyError,
> {
    match field {
        ExifDateTimeField::NoContainer => Err(StrategyError::MetadataUnreadable),
        ExifDateTimeField::Missing => Err(StrategyError::NoDateTimeField),
        ExifDateTimeField::NotText => Err(StrategyError::DateTimeNotText),
        ExifDateTimeField::Text(texts) => {
            if texts.len() == 0 {
                Err(StrategyError::DateTimeNotText)
            } else {
                match spec_parse_datetime(texts[0]) {
                    Some(ymd) => Ok(OutputFolder { year: ymd.0, month: ymd.1, day: ymd.2 }),
                    None => Err(StrategyError::DateTimeInvalid),
                }
            }
        },
    }
}

/// Reads the capture date out of embedded image metadata: the primary
/// image's DateTime field must be present, text-encoded, and shaped as
/// `YYYY:MM:DD HH:MM:SS`; the date portion becomes the folder.
pub struct ExifStrategy {}

impl ExifStrategy {
    /// The conclusion drawn from an already-extracted DateTime field:
    /// exactly the date written in the field's first text value, or the
    /// typed failure that says what was missing or malformed.
    pub fn derive_from_field(field: &RawDateTimeField) -> (r: Result<OutputFolder, StrategyError>)
        ensures
            r == exif_outcome_of_field(field@),
    {
        match field {
            RawDateTimeField::NoContainer => Err(StrategyError::MetadataUnreadable),
            RawDateTimeField::Missing => Err(StrategyError::NoDateTimeField),
            RawDateTimeField::NotText => Err(StrategyError::DateTimeNotText),
            RawDateTimeField::Text(texts) => {
                if texts.len() == 0 {
                    Err(StrategyError::DateTimeNotText)
                } else {
                    proof {
                        assert(texts.deep_view()[0] == texts@[0]@);
                    }
                    match parse_datetime(&texts[0]) {
                        Some((y, m, d)) => Ok(OutputFolder::new(y, m, d)),
                        None => Err(StrategyError::DateTimeInvalid),
                    }
                }
            },
        }
    }
}

impl Strategy for ExifStrategy {
    open spec fn outcome(&self, file: &FileRef) -> Result<OutputFolder, StrategyError> {
        exif_outcome_of_field(exif_datetime_field(file.bytes@))
    }

    fn derive_output_folder(&self, file: &FileRef) -> (r: Result<OutputFolder, StrategyError>) {
        let raw = extract_datetime_field(file.bytes.as_slice());
        ExifStrategy::derive_from_field(&raw)
    }
}

/// For a text-encoded field whose first value parses, the strategy's
/// folder is exactly the date written in the field — the year, month and
/// day digit groups — with the time of day discarded.
pub proof fn lemma_exif_date_portion(field: ExifDateTimeField, y: u16, m: u8, d: u8)
    requires
        field matches ExifDateTimeField::Text(texts) && texts.len() > 0 && spec_parse_datetime(
            texts[0],
        ) == Some((y, m, d)),
    ensures
        exif_outcome_of_field(field) == Ok::<OutputFolder, StrategyError>(
            OutputFolder { year: y, month: m, day: d },
        ),
        field matches ExifDateTimeField::Text(texts) ==> y == num4(texts[0], 0) && m == num2(
            texts[0],
            5,
        ) && d == num2(texts[0], 8),
{
}

/// The parse reads the date from the first ten bytes alone: two texts
/// that agree there parse to the same date whenever both parse at all.
pub proof fn lemma_time_of_day_independent(t1: Seq<u8>, t2: Seq<u8>)
    requires
        t1.len() >= 10,
        t2.len() >= 10,
        t1.subrange(0, 10) == t2.subrange(0, 10),
        spec_parse_datetime(t1) is Some,
        spec_parse_datetime(t2) is Some,
    ensures
        spec_parse_datetime(t1) == spec_parse_datetime(t2),
{
    assert forall|i: int| 0 <= i < 10 implies t1[i] == t2[i] by {
        assert(t1.subrange(0, 10)[i] == t1[i]);
        assert(t2.subrange(0, 10)[i] == t2[i]);
    }
}

} // verus!
