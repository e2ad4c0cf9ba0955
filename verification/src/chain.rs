use vstd::prelude::*;
use vstd::string::*;

use crate::output_folder::OutputFolder;
use crate::strategies::exif_strategy::{exif_datetime_field, exif_outcome_of_field, ExifStrategy};
use crate::strategies::filename_strategy::{filename_outcome, FilenameStrategy};
use crate::strategies::mp4_strategy::{container_outcome, Mp4Strategy};
use crate::strategies::strategy::{FileRef, Strategy, StrategyError};

verus! {

/// Whether the traversal keeps an entry: the root itself always, any
/// other entry only when its name does not start with a dot.
pub open spec fn spec_not_hidden(name: Seq<char>, depth: int) -> bool {
    depth == 0 || !(name.len() > 0 && name[0] == '.')
}

/// Whether an entry passes the hidden-name filter.
pub fn is_not_hidden(name: &str, depth: usize) -> (r: bool)
    ensures
        r == spec_not_hidden(name@, depth as int),
{
    if depth == 0 {
        true
    } else if name.is_empty() {
        true
    } else {
        name.get_char(0) != '.'
    }
}

/// The position of the last `.` in the name, or -1 when there is none.
pub open spec fn last_dot(name: Seq<char>) -> int
    decreases name.len(),
{
    if name.len() == 0 {
        -1
    } else if name[name.len() - 1] == '.' {
        name.len() - 1
    } else {
        last_dot(name.drop_last())
    }
}

/// The extension of a file name: what follows the last `.`. A name
/// without a dot has none, and a leading dot alone marks a hidden name,
/// not an extension.
pub open spec fn spec_extension(name: Seq<char>) -> Option<Seq<char>> {
    if last_dot(name) <= 0 {
        None
    } else {
        Some(name.subrange(last_dot(name) + 1, name.len() as int))
    }
}

/// The lowercase code point of an ASCII letter; any other character's
/// code point unchanged.
pub open spec fn lower_code(c: char) -> int {
    if 65 <= c as int <= 90 {
        c as int + 32
    } else {
        c as int
    }
}

/// Case-insensitive (ASCII) equality of two character sequences.
pub open spec fn eq_ignore_case(a: Seq<char>, b: Seq<char>) -> bool {
    a.len() == b.len() && forall|i: int| 0 <= i < a.len() ==> lower_code(a[i]) == lower_code(b[i])
}

/// The image extensions, dispatched to the metadata strategy.
pub open spec fn is_image_ext(e: Seq<char>) -> bool {
    ||| eq_ignore_case(e, "jpg"@)
    ||| eq_ignore_case(e, "jpeg"@)
    ||| eq_ignore_case(e, "png"@)
    ||| eq_ignore_case(e, "tif"@)
    ||| eq_ignore_case(e, "tiff"@)
    ||| eq_ignore_case(e, "dng"@)
}

/// The video extensions, dispatched to the container strategy.
pub open spec fn is_video_ext(e: Seq<char>) -> bool {
    eq_ignore_case(e, "mp4"@) || eq_ignore_case(e, "mov"@)
}

/// The type-specific strategy's verdict for a file, by its extension:
/// image extensions go to the metadata strategy, video extensions to the
/// container strategy when it is enabled, and anything else — an unknown
/// extension or none at all — is an immediate fall-through.
pub open spec fn primary_outcome(file: &FileRef, container_enabled: bool) -> Result<
    OutputFolder,
    StrategyError,
> {
    match spec_extension(file.name@) {
        Some(e) => {
            if is_image_ext(e) {
                exif_outcome_of_field(exif_datetime_field(file.bytes@))
            } else if container_enabled && is_video_ext(e) {
                container_outcome(file.bytes@)
            } else {
                Err(StrategyError::NoStrategy)
            }
        },
        None => Err(StrategyError::NoStrategy),
    }
}

/// The chain's verdict for a file: non-files are rejected outright; the
/// type-specific strategy answers when it succeeds; on any failure the
/// filename strategy is the universal last resort, and its failure is
/// the chain's.
pub open spec fn chain_outcome(
    file: &FileRef,
    current_year: u16,
    container_enabled: bool,
) -> Result<OutputFolder, StrategyError> {
    if !file.is_file {
        Err(StrategyError::NotAFile)
    } else {
        match primary_outcome(file, container_enabled) {
            Ok(folder) => Ok(folder),
            Err(_) => filename_outcome(file.name@, current_year),
        }
    }
}

/// Selects and executes the strategies for one file, in the fixed
/// fallback order, and returns the first success.
pub fn derive_output_folder(
    file: &FileRef,
    current_year: u16,
    container_enabled: bool,
) -> (r: Result<OutputFolder, StrategyError>)
    ensures
        r == chain_outcome(file, current_year, container_enabled),
{
    if !file.is_file {
        return Err(StrategyError::NotAFile);
    }
    let primary = run_primary(file, container_enabled);
    match primary {
        Ok(folder) => Ok(folder),
        Err(_) => {
            let fallback = FilenameStrategy { current_year };
            fallback.derive_output_folder(file)
        },
    }
}

/// Runs the type-specific strategy that the extension selects.
fn run_primary(file: &FileRef, container_enabled: bool) -> (r: Result<OutputFolder, StrategyError>)
    ensures
        r == primary_outcome(file, container_enabled),
{
    let name: &str = file.name.as_str();
    match find_last_dot(name) {
        None => Err(StrategyError::NoStrategy),
        Some(i) => {
            if i == 0 {
                Err(StrategyError::NoStrategy)
            } else if ext_is(name, i + 1, "jpg") || ext_is(name, i + 1, "jpeg") || ext_is(
                name,
                i + 1,
                "png",
            ) || ext_is(name, i + 1, "tif") || ext_is(name, i + 1, "tiff") || ext_is(
                name,
                i + 1,
                "dng",
            ) {
                let strategy = ExifStrategy {};
                strategy.derive_output_folder(file)
            } else if container_enabled && (ext_is(name, i + 1, "mp4") || ext_is(
                name,
                i + 1,
                "mov",
            )) {
                let strategy = Mp4Strategy {};
                strategy.derive_output_folder(file)
            } else {
                Err(StrategyError::NoStrategy)
            }
        },
    }
}

/// Finds the last `.` of the name.
fn find_last_dot(name: &str) -> (r: Option<usize>)
    ensures
        name@.len() <= usize::MAX,
        match r {
            Some(i) => i < name@.len() && last_dot(name@) == i,
            None => last_dot(name@) == -1,
        },
{
    let n: usize = name.unicode_len();
    proof {
        assert(name@.subrange(0, n as int) =~= name@);
    }
    let mut j: usize = n;
    while j > 0
        invariant
            n == name@.len(),
            0 <= j <= n,
            last_dot(name@) == last_dot(name@.subrange(0, j as int)),
        decreases j,
    {
        let c = name.get_char(j - 1);
        proof {
            assert(name@.subrange(0, j as int).drop_last() =~= name@.subrange(0, j as int - 1));
            assert(name@.subrange(0, j as int)[j as int - 1] == name@[j as int - 1]);
        }
        if c == '.' {
            return Some(j - 1);
        }
        j = j - 1;
    }
    proof {
        assert(name@.subrange(0, 0) =~= Seq::<char>::empty());
    }
    None
}

/// The lowercase code point of a character.
fn lower_u32(c: char) -> (r: u32)
    ensures
        r == lower_code(c),
{
    let u = c as u32;
    if 65 <= u && u <= 90 {
        u + 32
    } else {
        u
    }
}

/// Whether the name's tail from position `from` equals the literal,
/// ignoring ASCII case.
fn ext_is(name: &str, from: usize, lit: &str) -> (r: bool)
    requires
        from <= name@.len(),
    ensures
        r == eq_ignore_case(name@.subrange(from as int, name@.len() as int), lit@),
{
    let n: usize = name.unicode_len();
    let ln: usize = lit.unicode_len();
    if n - from != ln {
        return false;
    }
    let mut k: usize = 0;
    while k < ln
        invariant
            n == name@.len(),
            ln == lit@.len(),
            from + ln <= n,
            0 <= k <= ln,
            forall|i: int| 0 <= i < k ==> lower_code(name@[from + i]) == lower_code(lit@[i]),
        decreases ln - k,
    {
        let a = lower_u32(name.get_char(from + k));
        let b = lower_u32(lit.get_char(k));
        if a != b {
            proof {
                assert(name@.subrange(from as int, n as int)[k as int] == name@[from + k]);
            }
            return false;
        }
        k = k + 1;
    }
    proof {
        assert forall|i: int|
            0 <= i < ln implies lower_code(
            name@.subrange(from as int, name@.len() as int)[i],
        ) == lower_code(lit@[i]) by {
            assert(name@.subrange(from as int, name@.len() as int)[i] == name@[from + i]);
        }
    }
    true
}

/// Relies on chrono's conversion from std::time::SystemTime::now to a
/// UTC date and on Datelike::year: the current calendar year as the
/// system clock gives it. The conversion tolerates a clock set before
/// 1970. Nothing is promised of the value; the strategies take the year
/// as an explicit argument and are verified for every value of it.
#[verifier::external_body]
fn read_clock_year() -> i32 {
    let now = chrono::DateTime::<chrono::Utc>::from(std::time::SystemTime::now());
    chrono::Datelike::year(&now)
}

/// A calendar year clamped into the range a year field can carry.
pub open spec fn spec_clamp_year(y: i32) -> u16 {
    if y < 0 {
        0
    } else if y > 65535 {
        65535
    } else {
        y as u16
    }
}

/// Clamps a calendar year into the range a year field can carry.
pub fn clamp_year(y: i32) -> (r: u16)
    ensures
        r == spec_clamp_year(y),
{
    if y < 0 {
        0
    } else if y > 65535 {
        65535
    } else {
        y as u16
    }
}

/// The current calendar year, clamped into the range a year field can
/// carry. The filename strategy's validity window depends on it; files
/// dated after the year of the run are rejected on purpose.
pub fn current_year() -> u16 {
    clamp_year(read_clock_year())
}

/// Dispatch is total: for a regular file with an image extension the
/// metadata strategy decides first and the filename strategy is the
/// fallback; with a video extension and the container strategy enabled,
/// the container strategy likewise; for any other file the filename
/// strategy decides alone.
pub proof fn lemma_dispatch_total(file: &FileRef, current_year: u16, container_enabled: bool)
    requires
        file.is_file,
    ensures
        (spec_extension(file.name@) matches Some(e) && is_image_ext(e)) ==> chain_outcome(
            file,
            current_year,
            container_enabled,
        ) == (match exif_outcome_of_field(exif_datetime_field(file.bytes@)) {
            Ok(folder) => Ok(folder),
            Err(_) => filename_outcome(file.name@, current_year),
        }),
        (spec_extension(file.name@) matches Some(e) && !is_image_ext(e) && is_video_ext(e)
            && container_enabled) ==> chain_outcome(file, current_year, container_enabled) == (
        match container_outcome(file.bytes@) {
            Ok(folder) => Ok(folder),
            Err(_) => filename_outcome(file.name@, current_year),
        }),
        (match spec_extension(file.name@) {
            Some(e) => !is_image_ext(e) && !(container_enabled && is_video_ext(e)),
            None => true,
        }) ==> chain_outcome(file, current_year, container_enabled) == filename_outcome(
            file.name@,
            current_year,
        ),
{
}

} // verus!
