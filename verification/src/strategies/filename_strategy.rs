use vstd::prelude::*;
use vstd::string::*;

use crate::output_folder::OutputFolder;
use crate::strategies::strategy::{FileRef, Strategy, StrategyError};

verus! {

/// Whether a character is an ASCII decimal digit.
pub open spec fn is_digit(c: char) -> bool {
    48 <= c as int <= 57
}

/// The numeric value of an ASCII decimal digit.
pub open spec fn digit_val(c: char) -> int {
    c as int - 48
}

/// Whether a date token `_YYYYMMDD_` starts at position `i` of the name:
/// an underscore, eight ASCII digits, and an underscore.
pub open spec fn token_at(name: Seq<char>, i: int) -> bool {
    &&& 0 <= i
    &&& i + 10 <= name.len()
    &&& name[i] == '_'
    &&& name[i + 9] == '_'
    &&& forall|j: int| i + 1 <= j < i + 9 ==> is_digit(name[j])
}

/// The year of the token starting at `i`.
pub open spec fn token_year(name: Seq<char>, i: int) -> int {
    spec_number(name, i + 1, 4)
}

/// The month of the token starting at `i`.
pub open spec fn token_month(name: Seq<char>, i: int) -> int {
    spec_number(name, i + 5, 2)
}

/// The day of the token starting at `i`.
pub open spec fn token_day(name: Seq<char>, i: int) -> int {
    spec_number(name, i + 7, 2)
}

/// Whether the token starting at `i` carries an acceptable date: year
/// between 2004 and the current calendar year, month between 1 and 12,
/// day between 1 and 31 (a sanity bound, not a calendar check).
pub open spec fn token_valid(name: Seq<char>, i: int, current_year: u16) -> bool {
    &&& token_at(name, i)
    &&& 2004 <= token_year(name, i) <= current_year
    &&& 1 <= token_month(name, i) <= 12
    &&& 1 <= token_day(name, i) <= 31
}

/// The start of the first valid token that a left-to-right scan from
/// position `p` finds. Matches are non-overlapping: a token that fails
/// the range checks is stepped over whole, as a regular-expression
/// iterator would step over a match whose captures are rejected.
pub open spec fn first_valid_from(name: Seq<char>, p: int, current_year: u16) -> Option<int>
    decreases name.len() - p
        when 0 <= p
{
    if p + 10 > name.len() {
        None
    } else if token_at(name, p) {
        if token_valid(name, p, current_year) {
            Some(p)
        } else {
            first_valid_from(name, p + 10, current_year)
        }
    } else {
        first_valid_from(name, p + 1, current_year)
    }
}

/// What the filename strategy returns for a given name and current year.
pub open spec fn filename_outcome(name: Seq<char>, current_year: u16) -> Result<
    OutputFolder,
    StrategyError,
> {
    match first_valid_from(name, 0, current_year) {
        Some(i) => Ok(
            OutputFolder {
                year: token_year(name, i) as u16,
                month: token_month(name, i) as u8,
                day: token_day(name, i) as u8,
            },
        ),
        None => Err(StrategyError::NoFilenamePattern),
    }
}

/// Infers a date purely from the file's base name: the first left-to-right
/// occurrence of `_YYYYMMDD_` whose date passes the range checks wins.
/// The validity window depends on the current calendar year, which is an
/// explicit parameter so that the strategy is a pure function of its inputs.
pub struct FilenameStrategy {
    pub current_year: u16,
}

impl Strategy for FilenameStrategy {
    open spec fn outcome(&self, file: &FileRef) -> Result<OutputFolder, StrategyError> {
        filename_outcome(file.name@, self.current_year)
    }

    fn derive_output_folder(&self, file: &FileRef) -> (r: Result<OutputFolder, StrategyError>) {
        let name: &str = file.name.as_str();
        let n: usize = name.unicode_len();
        if n < 10 {
            return Err(StrategyError::NoFilenamePattern);
        }
        let mut i: usize = 0;
        while i <= n - 10
            invariant
                name@ == file.name@,
                n == name@.len(),
                10 <= n,
                0 <= i <= n,
                first_valid_from(name@, 0, self.current_year) == first_valid_from(
                    name@,
                    i as int,
                    self.current_year,
                ),
            decreases n - i,
        {
            if token_at_exec(name, i) {
                let y = read_number(name, i + 1, 4);
                let m = read_number(name, i + 5, 2);
                let d = read_number(name, i + 7, 2);
                if 2004 <= y && y <= self.current_year && 1 <= m && m <= 12 && 1 <= d && d <= 31 {
                    proof {
                        assert(token_valid(name@, i as int, self.current_year));
                        assert(first_valid_from(name@, i as int, self.current_year) == Some(
                            i as int,
                        ));
                    }
                    return Ok(OutputFolder::new(y, m as u8, d as u8));
                }
                i = i + 10;
            } else {
                i = i + 1;
            }
        }
        Err(StrategyError::NoFilenamePattern)
    }
}

/// Whether a date token starts at position `i` of the name.
fn token_at_exec(name: &str, i: usize) -> (r: bool)
    requires
        i + 10 <= name@.len(),
        name@.len() <= usize::MAX,
    ensures
        r == token_at(name@, i as int),
{
    if name.get_char(i) != '_' {
        return false;
    }
    if name.get_char(i + 9) != '_' {
        return false;
    }
    let mut j: usize = i + 1;
    while j < i + 9
        invariant
            i + 10 <= name@.len(),
            name@.len() <= usize::MAX,
            i + 1 <= j <= i + 9,
            name@[i as int] == '_',
            name@[i as int + 9] == '_',
            forall|k: int| i + 1 <= k < j ==> is_digit(name@[k]),
        decreases i + 9 - j,
    {
        let c = name.get_char(j);
        let u = c as u32;
        if u < 48 || 57 < u {
            return false;
        }
        j = j + 1;
    }
    true
}

/// Reads the `width`-digit decimal number starting at position `from`.
fn read_number(name: &str, from: usize, width: usize) -> (r: u16)
    requires
        from + width <= name@.len(),
        name@.len() <= usize::MAX,
        1 <= width <= 4,
        forall|k: int| from <= k < from + width ==> is_digit(name@[k]),
    ensures
        r == spec_number(name@, from as int, width as nat),
        r <= 9999,
{
    let mut r: u16 = 0;
    let mut j: usize = from;
    while j < from + width
        invariant
            from + width <= name@.len(),
            name@.len() <= usize::MAX,
            from <= j <= from + width,
            1 <= width <= 4,
            forall|k: int| from <= k < from + width ==> is_digit(name@[k]),
            r == spec_number(name@, from as int, (j - from) as nat),
            r <= pow10((j - from) as nat) - 1,
        decreases from + width - j,
    {
        let c = name.get_char(j);
        proof {
            assert(is_digit(name@[j as int]));
            assert(pow10((j - from) as nat) <= 1000) by {
                reveal_with_fuel(pow10, 5);
                assert((j - from) as nat <= 3);
            }
        }
        r = r * 10 + (((c as u32) - 48) as u16);
        j = j + 1;
    }
    proof {
        reveal_with_fuel(pow10, 5);
    }
    r
}

/// Any token position that the scan reports carries a valid token at or
/// after the scan's start.
proof fn lemma_first_valid_is_valid(name: Seq<char>, p: int, current_year: u16, i: int)
    requires
        0 <= p,
        first_valid_from(name, p, current_year) == Some(i),
    ensures
        token_valid(name, i, current_year),
        p <= i,
    decreases name.len() - p,
{
    if p + 10 > name.len() {
    } else if token_at(name, p) {
        if !token_valid(name, p, current_year) {
            lemma_first_valid_is_valid(name, p + 10, current_year, i);
        }
    } else {
        lemma_first_valid_is_valid(name, p + 1, current_year, i);
    }
}

/// The filename strategy never reports a year outside 2004 to the current
/// calendar year, nor a month outside 1 to 12, nor a day outside 1 to 31.
pub proof fn lemma_filename_year_in_range(name: Seq<char>, current_year: u16)
    ensures
        filename_outcome(name, current_year) matches Ok(f) ==> 2004 <= f.year <= current_year && 1
            <= f.month <= 12 && 1 <= f.day <= 31,
{
    match first_valid_from(name, 0, current_year) {
        Some(i) => {
            lemma_first_valid_is_valid(name, 0, current_year, i);
        },
        None => {},
    }
}

/// A name with no valid token — no token at all, or only tokens whose
/// dates fail the range checks — makes the strategy fail.
pub proof fn lemma_filename_no_valid_token_fails(name: Seq<char>, current_year: u16)
    requires
        forall|j: int| !token_valid(name, j, current_year),
    ensures
        filename_outcome(name, current_year) == Err::<OutputFolder, StrategyError>(
            StrategyError::NoFilenamePattern,
        ),
{
    match first_valid_from(name, 0, current_year) {
        Some(i) => {
            lemma_first_valid_is_valid(name, 0, current_year, i);
            assert(false);
        },
        None => {},
    }
}

/// The scan from any position at or before a valid token finds exactly
/// that token, provided no other token is valid and every token starting
/// earlier ends at or before the valid one's start.
proof fn lemma_scan_reaches(name: Seq<char>, p: int, current_year: u16, i: int)
    requires
        0 <= p <= i,
        token_valid(name, i, current_year),
        forall|j: int| j != i ==> !token_valid(name, j, current_year),
        forall|q: int| token_at(name, q) && q < i ==> q + 10 <= i,
    ensures
        first_valid_from(name, p, current_year) == Some(i),
    decreases i - p,
{
    if p == i {
    } else if token_at(name, p) {
        lemma_scan_reaches(name, p + 10, current_year, i);
    } else {
        lemma_scan_reaches(name, p + 1, current_year, i);
    }
}

/// A name whose only valid token stands clear of every earlier token is
/// resolved to exactly that token's date. (A token that overlaps the tail
/// of an earlier, range-rejected token is stepped over with it, as the
/// non-overlapping scan demands, so such names are excluded here.)
pub proof fn lemma_filename_unique_token(name: Seq<char>, current_year: u16, i: int)
    requires
        token_valid(name, i, current_year),
        forall|j: int| j != i ==> !token_valid(name, j, current_year),
        forall|q: int| token_at(name, q) && q < i ==> q + 10 <= i,
    ensures
        filename_outcome(name, current_year) == Ok::<OutputFolder, StrategyError>(
            OutputFolder {
                year: token_year(name, i) as u16,
                month: token_month(name, i) as u8,
                day: token_day(name, i) as u8,
            },
        ),
{
    lemma_scan_reaches(name, 0, current_year, i);
}

/// Ten to the given power.
pub open spec fn pow10(n: nat) -> int
    decreases n,
{
    if n == 0 {
        1
    } else {
        10 * pow10((n - 1) as nat)
    }
}

/// The value of the `width`-digit decimal number starting at `from`.
pub open spec fn spec_number(name: Seq<char>, from: int, width: nat) -> int
    decreases width,
{
    if width == 0 {
        0
    } else {
        spec_number(name, from, (width - 1) as nat) * 10 + digit_val(name[from + width - 1])
    }
}

} // verus!
