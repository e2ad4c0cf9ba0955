use vstd::prelude::*;
use vstd::slice::*;

use crate::output_folder::OutputFolder;
use crate::strategies::strategy::{FileRef, Strategy, StrategyError};

verus! {

/// The big-endian 32-bit number at position `o`.
pub open spec fn be32(b: Seq<u8>, o: int) -> int {
    b[o] * 0x1000000 + b[o + 1] * 0x10000 + b[o + 2] * 0x100 + b[o + 3]
}

/// The big-endian 64-bit number at position `o`.
pub open spec fn be64(b: Seq<u8>, o: int) -> int {
    be32(b, o) * 0x100000000 + be32(b, o + 4)
}

/// Whether the box whose header starts at `o` carries the given
/// four-character name (the name follows the four size bytes).
pub open spec fn box_name_is(b: Seq<u8>, o: int, n0: u8, n1: u8, n2: u8, n3: u8) -> bool {
    b[o + 4] == n0 && b[o + 5] == n1 && b[o + 6] == n2 && b[o + 7] == n3
}

/// The boxes whose parsers loop over child box headers directly: the
/// movie box's subtree and the fragment boxes.
pub open spec fn is_walk_container(b: Seq<u8>, o: int) -> bool {
    ||| box_name_is(b, o, 116, 114, 97, 107)  // trak
    ||| box_name_is(b, o, 117, 100, 116, 97)  // udta
    ||| box_name_is(b, o, 109, 100, 105, 97)  // mdia
    ||| box_name_is(b, o, 109, 105, 110, 102)  // minf
    ||| box_name_is(b, o, 115, 116, 98, 108)  // stbl
    ||| box_name_is(b, o, 101, 100, 116, 115)  // edts
    ||| box_name_is(b, o, 100, 105, 110, 102)  // dinf
    ||| box_name_is(b, o, 109, 118, 101, 120)  // mvex
    ||| box_name_is(b, o, 116, 114, 97, 102)  // traf
}

/// Whether the children of a container extent `[o, end)` hold a box the
/// container reader cannot be trusted with. Flagged: a declared size
/// under eight bytes (the reader's skip would not advance and its loop
/// would never end), a size past the end of the stream, a 64-bit size, a
/// nesting deeper than any real file, and the `emsg`/`meta` boxes, whose
/// variable-length layouts let a crafted size wrap the reader's size
/// arithmetic and abort the process. The check is conservative: it may
/// reject an unusual but well-formed file, and such a file is reported
/// as an unreadable container.
pub open spec fn spec_risky_children(b: Seq<u8>, o: int, end: int, depth: int) -> bool
    decreases depth, end - o
        when 0 <= o && 0 <= depth
{
    if o >= end || o + 8 > b.len() {
        false
    } else {
        let s = be32(b, o);
        if s < 8 {
            true
        } else if o + s > b.len() {
            true
        } else if box_name_is(b, o, 101, 109, 115, 103) || box_name_is(
            b,
            o,
            109,
            101,
            116,
            97,
        ) {
            // emsg or meta
            true
        } else if is_walk_container(b, o) {
            if depth == 0 {
                true
            } else if spec_risky_children(b, o + 8, o + s, depth - 1) {
                true
            } else if o + s >= end {
                false
            } else {
                spec_risky_children(b, o + s, end, depth)
            }
        } else {
            if o + s >= end {
                false
            } else {
                spec_risky_children(b, o + s, end, depth)
            }
        }
    }
}

/// Whether the top-level walk of the byte stream, as the container
/// reader performs it, meets a box it cannot be trusted with: an `emsg`
/// box (its size arithmetic can wrap and abort the process), a short
/// declared size, a 64-bit-sized parsed box, or a risky child inside the
/// movie or fragment boxes. A top-level size of zero ends the walk and a
/// size past the stream makes the reader fail cleanly, so neither is
/// flagged.
pub open spec fn spec_risky_top(b: Seq<u8>, o: int) -> bool
    decreases b.len() - o
        when 0 <= o
{
    if o + 8 > b.len() {
        false
    } else {
        let s32 = be32(b, o);
        if s32 == 1 {
            if o + 16 > b.len() {
                false
            } else {
                let ls = be64(b, o + 8);
                if ls < 16 {
                    false
                } else if ls - 8 > b.len() {
                    false
                } else if box_name_is(b, o, 101, 109, 115, 103) || box_name_is(
                    b,
                    o,
                    109,
                    111,
                    111,
                    118,
                ) || box_name_is(b, o, 109, 111, 111, 102) {
                    // a 64-bit-sized emsg, moov or moof is parsed: rejected
                    true
                } else if o + ls >= b.len() {
                    false
                } else {
                    spec_risky_top(b, o + ls)
                }
            }
        } else {
            let s = s32;
            if s > b.len() {
                false
            } else if s == 0 {
                false
            } else if s < 8 {
                true
            } else if box_name_is(b, o, 101, 109, 115, 103) {
                // emsg
                true
            } else if box_name_is(b, o, 109, 111, 111, 118) || box_name_is(
                b,
                o,
                109,
                111,
                111,
                102,
            ) {
                // moov or moof: walk the children. The extent is clamped
                // to the stream's end; past it every header read fails,
                // so the walk and the reader see the same boxes.
                if spec_risky_children(
                    b,
                    o + 8,
                    if o + s > b.len() {
                        b.len() as int
                    } else {
                        o + s
                    },
                    16,
                ) {
                    true
                } else if o + s >= b.len() {
                    false
                } else {
                    spec_risky_top(b, o + s)
                }
            } else {
                if o + s >= b.len() {
                    false
                } else {
                    spec_risky_top(b, o + s)
                }
            }
        }
    }
}

/// Whether the byte stream holds a box structure the container reader
/// cannot be given: on such bytes the strategy reports the container
/// unreadable without consulting the reader.
pub open spec fn spec_container_risky(b: Seq<u8>) -> bool {
    spec_risky_top(b, 0)
}

/// Seconds between the container epoch (1904-01-01) and the Unix epoch
/// (1970-01-01).
pub const CONTAINER_EPOCH_OFFSET: u64 = 2082844800;

/// First second of the year 10000; later timestamps are not converted.
pub const MAX_CONVERTIBLE_SECS: u64 = 253402300800;

/// Conversion of a stored creation time to Unix-epoch seconds. A value
/// large enough to represent a post-1970 date in the 1904 epoch has the
/// fixed offset subtracted; a smaller value is taken as already stored in
/// the Unix epoch. Some producers store Unix-epoch seconds with no
/// detectable flag, and this guard avoids converting such a value twice,
/// at the price of misreading a genuine pre-1970 container date.
pub open spec fn spec_creation_time(t: u64) -> u64 {
    if t >= CONTAINER_EPOCH_OFFSET {
        (t - CONTAINER_EPOCH_OFFSET) as u64
    } else {
        t
    }
}

/// The creation time in the movie header that the container reader finds
/// in the bytes; `None` when the container does not parse. The result is
/// a function of the bytes alone.
pub uninterp spec fn container_creation_time(bytes: Seq<u8>) -> Option<u64>;

/// The (year, month, day) of a Unix timestamp in the UTC calendar, as the
/// calendar library computes it.
pub uninterp spec fn civil_date_of(secs: u64) -> (u16, u8, u8);

/// The byte at position `i`.
fn byte_at(bytes: &[u8], i: usize) -> (r: u8)
    requires
        i < bytes@.len(),
    ensures
        r == bytes@[i as int],
{
    *slice_index_get(bytes, i)
}

/// Reads the big-endian 32-bit number at position `o`.
fn read_be32(bytes: &[u8], o: usize) -> (r: u32)
    requires
        o + 4 <= bytes@.len(),
        bytes@.len() <= usize::MAX,
    ensures
        r == be32(bytes@, o as int),
{
    let b0 = byte_at(bytes, o) as u32;
    let b1 = byte_at(bytes, o + 1) as u32;
    let b2 = byte_at(bytes, o + 2) as u32;
    let b3 = byte_at(bytes, o + 3) as u32;
    b0 * 0x1000000 + b1 * 0x10000 + b2 * 0x100 + b3
}

/// Reads the big-endian 64-bit number at position `o`.
fn read_be64(bytes: &[u8], o: usize) -> (r: u64)
    requires
        o + 8 <= bytes@.len(),
        bytes@.len() <= usize::MAX,
    ensures
        r == be64(bytes@, o as int),
{
    let hi = read_be32(bytes, o) as u64;
    let lo = read_be32(bytes, o + 4) as u64;
    hi * 0x100000000 + lo
}

/// Whether the box at `o` carries the given four-character name.
fn name_is(bytes: &[u8], o: usize, n0: u8, n1: u8, n2: u8, n3: u8) -> (r: bool)
    requires
        o + 8 <= bytes@.len(),
        bytes@.len() <= usize::MAX,
    ensures
        r == box_name_is(bytes@, o as int, n0, n1, n2, n3),
{
    byte_at(bytes, o + 4) == n0 && byte_at(bytes, o + 5) == n1 && byte_at(bytes, o + 6) == n2
        && byte_at(bytes, o + 7) == n3
}

/// Walks the children of a container extent for risky boxes.
fn risky_children(bytes: &[u8], o: usize, end: usize, depth: u8) -> (r: bool)
    ensures
        r == spec_risky_children(bytes@, o as int, end as int, depth as int),
    decreases depth, end - o,
{
    if o >= end {
        return false;
    }
    let len = bytes.len();
    if o >= len || len - o < 8 {
        return false;
    }
    let s32 = read_be32(bytes, o);
    if s32 < 8 {
        return true;
    }
    let s = s32 as usize;
    if s > len - o {
        return true;
    }
    if name_is(bytes, o, 101, 109, 115, 103) || name_is(bytes, o, 109, 101, 116, 97) {
        return true;
    }
    let container = name_is(bytes, o, 116, 114, 97, 107) || name_is(bytes, o, 117, 100, 116, 97)
        || name_is(bytes, o, 109, 100, 105, 97) || name_is(bytes, o, 109, 105, 110, 102)
        || name_is(bytes, o, 115, 116, 98, 108) || name_is(bytes, o, 101, 100, 116, 115)
        || name_is(bytes, o, 100, 105, 110, 102) || name_is(bytes, o, 109, 118, 101, 120)
        || name_is(bytes, o, 116, 114, 97, 102);
    if container {
        if depth == 0 {
            true
        } else if risky_children(bytes, o + 8, o + s, depth - 1) {
            true
        } else if o + s >= end {
            false
        } else {
            risky_children(bytes, o + s, end, depth)
        }
    } else {
        if o + s >= end {
            false
        } else {
            risky_children(bytes, o + s, end, depth)
        }
    }
}

/// Walks the top-level boxes for risky ones.
fn risky_top(bytes: &[u8], o: usize) -> (r: bool)
    requires
        o <= bytes@.len(),
    ensures
        r == spec_risky_top(bytes@, o as int),
    decreases bytes@.len() - o,
{
    let len = bytes.len();
    if o >= len || len - o < 8 {
        return false;
    }
    let s32 = read_be32(bytes, o);
    if s32 == 1 {
        if len - o < 16 {
            return false;
        }
        let ls = read_be64(bytes, o + 8);
        if ls < 16 {
            return false;
        }
        if ls - 8 > len as u64 {
            return false;
        }
        if name_is(bytes, o, 101, 109, 115, 103) || name_is(bytes, o, 109, 111, 111, 118)
            || name_is(bytes, o, 109, 111, 111, 102) {
            return true;
        }
        if ls >= (len - o) as u64 {
            return false;
        }
        risky_top(bytes, o + (ls as usize))
    } else {
        if s32 as usize > len {
            return false;
        }
        if s32 == 0 {
            return false;
        }
        if s32 < 8 {
            return true;
        }
        let s = s32 as usize;
        if name_is(bytes, o, 101, 109, 115, 103) {
            return true;
        }
        if name_is(bytes, o, 109, 111, 111, 118) || name_is(bytes, o, 109, 111, 111, 102) {
            let child_end = if s > len - o {
                len
            } else {
                o + s
            };
            if risky_children(bytes, o + 8, child_end, 16) {
                return true;
            }
        }
        if s >= len - o {
            return false;
        }
        risky_top(bytes, o + s)
    }
}

/// Whether the bytes hold a box structure that the container reader
/// cannot be given without risking an abort.
pub fn container_risky(bytes: &[u8]) -> (r: bool)
    ensures
        r == spec_container_risky(bytes@),
{
    risky_top(bytes, 0)
}

/// Relies on mp4::Mp4Reader::read_header and the moov.mvhd.creation_time
/// field: the creation time stored in the movie header box, or `None`
/// when the container does not parse. The reader's size arithmetic can
/// wrap on a crafted `emsg` or `meta` box and its skipping can stall on a
/// zero-sized inner box, so the bytes the structural check flags are
/// excluded; the strategy reports those unreadable without this call.
#[verifier::external_body]
fn read_creation_time(bytes: &[u8]) -> (r: Option<u64>)
    requires
        !spec_container_risky(bytes@),
    ensures
        r == container_creation_time(bytes@),
{
    let size = bytes.len() as u64;
    let reader = std::io::Cursor::new(bytes);
    match mp4::Mp4Reader::read_header(reader, size) {
        Ok(header) => Some(header.moov.mvhd.creation_time),
        Err(_) => None,
    }
}

/// Relies on chrono's conversion of a Unix timestamp to a UTC calendar
/// date and on Datelike::year, month and day, whose documentation bounds
/// month by 1..=12 and day by 1..=31; below the year 10000 the year has
/// at most four digits. Larger timestamps are excluded: the conversion
/// would abort on a timestamp far out of chrono's range.
#[verifier::external_body]
fn civil_date(secs: u64) -> (r: (u16, u8, u8))
    requires
        secs < MAX_CONVERTIBLE_SECS,
    ensures
        r == civil_date_of(secs),
        1970 <= r.0 <= 9999,
        1 <= r.1 <= 12,
        1 <= r.2 <= 31,
{
    let t = std::time::UNIX_EPOCH + std::time::Duration::from_secs(secs);
    let dt = chrono::DateTime::<chrono::Utc>::from(t);
    (
        chrono::Datelike::year(&dt) as u16,
        chrono::Datelike::month(&dt) as u8,
        chrono::Datelike::day(&dt) as u8,
    )
}

/// What the container strategy concludes from an extracted creation time.
pub open spec fn outcome_of_creation_time(t: u64) -> Result<OutputFolder, StrategyError> {
    if spec_creation_time(t) >= MAX_CONVERTIBLE_SECS {
        Err(StrategyError::CreationTimeOutOfRange)
    } else {
        let ymd = civil_date_of(spec_creation_time(t));
        Ok(OutputFolder { year: ymd.0, month: ymd.1, day: ymd.2 })
    }
}

/// What the container strategy concludes for a byte stream: bytes whose
/// box structure the reader cannot safely be given are unreadable, as
/// are bytes the reader cannot parse; otherwise the stored creation time
/// decides.
pub open spec fn container_outcome(bytes: Seq<u8>) -> Result<OutputFolder, StrategyError> {
    if spec_container_risky(bytes) {
        Err(StrategyError::ContainerUnreadable)
    } else {
        match container_creation_time(bytes) {
            None => Err(StrategyError::ContainerUnreadable),
            Some(t) => outcome_of_creation_time(t),
        }
    }
}

/// Reads the creation timestamp out of a box-structured media container's
/// movie header and converts it to a UTC calendar date.
pub struct Mp4Strategy {}

/// Converts a stored creation time to Unix-epoch seconds, guarding
/// against double conversion of a value already stored in the Unix epoch.
pub fn creation_time(stored: u64) -> (r: u64)
    ensures
        r == spec_creation_time(stored),
{
    if stored >= CONTAINER_EPOCH_OFFSET {
        stored - CONTAINER_EPOCH_OFFSET
    } else {
        stored
    }
}

impl Mp4Strategy {
    /// The calendar date for an already-extracted creation time: the
    /// epoch-adjusted timestamp's date in UTC, or a typed failure for a
    /// timestamp too large to convert.
    pub fn derive_from_creation_time(t: u64) -> (r: Result<OutputFolder, StrategyError>)
        ensures
            r == outcome_of_creation_time(t),
    {
        let secs = creation_time(t);
        if secs >= MAX_CONVERTIBLE_SECS {
            Err(StrategyError::CreationTimeOutOfRange)
        } else {
            let (y, m, d) = civil_date(secs);
            Ok(OutputFolder::new(y, m, d))
        }
    }
}

impl Strategy for Mp4Strategy {
    open spec fn outcome(&self, file: &FileRef) -> Result<OutputFolder, StrategyError> {
        container_outcome(file.bytes@)
    }

    fn derive_output_folder(&self, file: &FileRef) -> (r: Result<OutputFolder, StrategyError>) {
        if container_risky(file.bytes.as_slice()) {
            return Err(StrategyError::ContainerUnreadable);
        }
        match read_creation_time(file.bytes.as_slice()) {
            None => Err(StrategyError::ContainerUnreadable),
            Some(t) => Mp4Strategy::derive_from_creation_time(t),
        }
    }
}

} // verus!
