use vstd::prelude::*;
use vstd::string::StringSliceAdditionalSpecFns;

verus! {

/// Length in bytes of one on-disk directory entry.
pub const DIR_ENTRY_LEN: usize = 0x20;

/// The byte that pads short names and extensions on the right.
pub const SPACE: u8 = 0x20;

/// The byte that separates a short name from its extension.
pub const PERIOD: u8 = 0x2E;

/// A cluster number of a FAT volume.
#[derive(Clone, Copy, Debug, PartialEq, Eq, Structural)]
pub struct Cluster(pub u32);

/// Marks an invalid cluster value.
pub const CLUSTER_INVALID: u32 = 0xFFFF_FFF6;

/// Marks a bad cluster.
pub const CLUSTER_BAD: u32 = 0xFFFF_FFF7;

/// Marks an empty cluster.
pub const CLUSTER_EMPTY: u32 = 0x0000_0000;

/// Stands for the root directory, which has no cluster number on FAT16.
pub const CLUSTER_ROOT_DIR: u32 = 0xFFFF_FFFC;

/// Marks the last cluster of a chain.
pub const CLUSTER_END_OF_FILE: u32 = 0xFFFF_FFFF;

/// The attribute byte of a directory entry.
#[derive(Clone, Copy, Debug, PartialEq, Eq, Structural)]
pub struct Attributes {
    pub bits: u8,
}

pub const ATTR_READ_ONLY: u8 = 0x01;

pub const ATTR_HIDDEN: u8 = 0x02;

pub const ATTR_SYSTEM: u8 = 0x04;

pub const ATTR_VOLUME_ID: u8 = 0x08;

pub const ATTR_DIRECTORY: u8 = 0x10;

pub const ATTR_ARCHIVE: u8 = 0x20;

/// The combination that marks a long-file-name entry.
pub const ATTR_LFN: u8 = 0x0f;

/// Every attribute bit that has a meaning.
pub const ATTR_ALL: u8 = 0x3f;

impl Attributes {
    /// Keeps the known bits of `bits` and drops the others.
    pub fn from_bits_truncate(bits: u8) -> (r: Attributes)
        ensures
            r.bits == bits & ATTR_ALL,
    {
        Attributes { bits: bits & ATTR_ALL }
    }

    /// Whether every bit of `flags` is set.
    pub fn contains(&self, flags: u8) -> (r: bool)
        ensures
            r == (self.bits & flags == flags),
    {
        self.bits & flags == flags
    }
}

/// A calendar date and time of day, as a FAT directory entry stores it.
#[derive(Clone, Copy, Debug, PartialEq, Eq, Structural)]
pub struct FsTime {
    pub year: i32,
    pub month: u32,
    pub day: u32,
    pub hour: u32,
    pub minute: u32,
    pub second: u32,
}

pub open spec fn is_leap_year(y: int) -> bool {
    y % 4 == 0 && (y % 100 != 0 || y % 400 == 0)
}

pub open spec fn days_in_month(y: int, m: int) -> int {
    if m == 2 {
        if is_leap_year(y) {
            29
        } else {
            28
        }
    } else if m == 4 || m == 6 || m == 9 || m == 11 {
        30
    } else {
        31
    }
}

/// The fields name an existing date of the Gregorian calendar and a time of day.
pub open spec fn valid_datetime(y: int, mo: int, d: int, h: int, mi: int, s: int) -> bool {
    &&& 1 <= mo <= 12
    &&& 1 <= d <= days_in_month(y, mo)
    &&& 0 <= h < 24
    &&& 0 <= mi < 60
    &&& 0 <= s < 60
}

/// Relies on chrono's `Utc.with_ymd_and_hms`: it yields a single instant
/// exactly when the date exists in the proleptic Gregorian calendar and the
/// time of day has hour < 24, minute < 60 and second < 60.
#[verifier::external_body]
fn utc_datetime_exists(year: i32, month: u32, day: u32, hour: u32, min: u32, sec: u32) -> (r: bool)
    requires
        1980 <= year <= 2107,
    ensures
        r == valid_datetime(year as int, month as int, day as int, hour as int, min as int, sec as int),
{
    matches!(
        chrono::TimeZone::with_ymd_and_hms(&chrono::Utc, year, month, day, hour, min, sec),
        chrono::LocalResult::Single(_)
    )
}

/// The start of the Unix epoch, which stands in for a stamp that names no real time.
pub open spec fn epoch() -> FsTime {
    FsTime { year: 1970, month: 1, day: 1, hour: 0, minute: 0, second: 0 }
}

/// The fields that a packed FAT stamp holds, before any check.
pub open spec fn stamp_fields(time: u32) -> FsTime {
    FsTime {
        year: (time / 0x200_0000 + 1980) as i32,
        month: (time / 0x20_0000 % 16) as u32,
        day: (time / 0x1_0000 % 32) as u32,
        hour: (time / 0x800 % 32) as u32,
        minute: (time / 0x20 % 64) as u32,
        second: (time % 32 * 2) as u32,
    }
}

pub open spec fn datetime_of(time: u32) -> FsTime {
    let f = stamp_fields(time);
    if valid_datetime(
        f.year as int,
        f.month as int,
        f.day as int,
        f.hour as int,
        f.minute as int,
        f.second as int,
    ) {
        f
    } else {
        epoch()
    }
}

/// Unpacks a FAT date-time stamp (years since 1980, month, day, hour,
/// minute, seconds halved); a stamp that names no real time gives the epoch.
pub fn parse_datetime(time: u32) -> (r: FsTime)
    ensures
        r == datetime_of(time),
{
    let year: i32 = (time / 0x200_0000 + 1980) as i32;
    let month: u32 = time / 0x20_0000 % 16;
    let day: u32 = time / 0x1_0000 % 32;
    let hour: u32 = time / 0x800 % 32;
    let minute: u32 = time / 0x20 % 64;
    let second: u32 = time % 32 * 2;
    if utc_datetime_exists(year, month, day, hour, minute, second) {
        FsTime { year, month, day, hour, minute, second }
    } else {
        FsTime { year: 1970, month: 1, day: 1, hour: 0, minute: 0, second: 0 }
    }
}

/// Why a name cannot be a short (8.3) file name.
#[derive(Clone, Copy, Debug, PartialEq, Eq, Structural)]
pub enum FilenameError {
    FilenameEmpty,
    NameTooLong,
    MisplacedPeriod,
    InvalidCharacter,
    UnableToParse,
}

/// The errors of the read-only FAT16 layer.
#[derive(Clone, Copy, Debug, PartialEq, Eq, Structural)]
pub enum FsError {
    FileNotFound,
    NotADirectory,
    NotAFile,
    InvalidOperation,
    NotInSector,
    BadCluster,
    EndOfFile,
    DeviceError,
    FilenameError(FilenameError),
}

/// A short file name: eight name bytes and three extension bytes, both
/// padded with spaces.
#[derive(Clone, Copy, Debug)]
pub struct ShortFileName {
    pub name: [u8; 8],
    pub ext: [u8; 3],
}

/// `b` may not appear in a short file name.
pub open spec fn is_invalid_name_byte(b: u8) -> bool {
    b <= 0x20 || b == 0x22 || (0x2A <= b && b < 0x2D) || b == 0x2F || (0x3A <= b && b < 0x40) || (
    0x5B <= b && b < 0x5E) || b == 0x7C
}

pub open spec fn has_invalid_byte(s: Seq<u8>) -> bool {
    exists|i: int| 0 <= i < s.len() && #[trigger] is_invalid_name_byte(s[i])
}

pub open spec fn no_period(s: Seq<u8>) -> bool {
    forall|i: int| 0 <= i < s.len() ==> s[i] != PERIOD
}

/// `p` is the one and only period of `s`.
pub open spec fn only_period_at(s: Seq<u8>, p: int) -> bool {
    &&& 0 <= p < s.len()
    &&& s[p] == PERIOD
    &&& forall|i: int| 0 <= i < s.len() && i != p ==> s[i] != PERIOD
}

/// `s` followed by spaces up to length `n`.
pub open spec fn padded(s: Seq<u8>, n: nat) -> Seq<u8> {
    s + Seq::new((n - s.len()) as nat, |i: int| SPACE)
}

/// Checks the length of a name and an extension and pads them.
pub open spec fn short_parts(a: Seq<u8>, b: Seq<u8>) -> Result<(Seq<u8>, Seq<u8>), FilenameError> {
    if a.len() == 0 {
        Err(FilenameError::MisplacedPeriod)
    } else if a.len() > 8 || b.len() > 3 {
        Err(FilenameError::NameTooLong)
    } else {
        Ok((padded(a, 8), padded(b, 3)))
    }
}

/// The name and extension bytes that an upper-cased name gives, or why it
/// gives none.
pub open spec fn short_name_of(u: Seq<u8>) -> Result<(Seq<u8>, Seq<u8>), FilenameError> {
    if no_period(u) {
        short_parts(u, Seq::empty())
    } else if exists|p: int| only_period_at(u, p) {
        let p = choose|p: int| only_period_at(u, p);
        let a = u.subrange(0, p);
        let b = u.subrange(p + 1, u.len() as int);
        if b.len() == 0 {
            Err(FilenameError::MisplacedPeriod)
        } else {
            short_parts(a, b)
        }
    } else {
        Err(FilenameError::UnableToParse)
    }
}

/// `r` is what parsing gives when `spec` is the expected outcome.
pub open spec fn parse_result_matches(
    r: Result<ShortFileName, FsError>,
    spec: Result<(Seq<u8>, Seq<u8>), FilenameError>,
) -> bool {
    match spec {
        Ok((n, e)) => r is Ok && r->Ok_0.name@ == n && r->Ok_0.ext@ == e,
        Err(k) => r == Err::<ShortFileName, FsError>(FsError::FilenameError(k)),
    }
}

/// The UTF-8 bytes of the upper-case form of the text whose bytes are given.
pub uninterp spec fn uppercase_of(s: Seq<u8>) -> Seq<u8>;

/// Relies on `str::to_uppercase`: the upper-case form depends on the text alone.
#[verifier::external_body]
fn uppercase_bytes(s: &str) -> (r: Vec<u8>)
    ensures
        r@ == uppercase_of(s.spec_bytes()),
{
    s.to_uppercase().into_bytes()
}

/// Copies `s[start..end]` into eight bytes padded with spaces.
fn pad_name(s: &[u8], start: usize, end: usize) -> (r: [u8; 8])
    requires
        start <= end <= s@.len(),
        end - start <= 8,
    ensures
        r@ == padded(s@.subrange(start as int, end as int), 8),
{
    let mut arr: [u8; 8] = [SPACE, SPACE, SPACE, SPACE, SPACE, SPACE, SPACE, SPACE];
    let mut i: usize = 0;
    while i < end - start
        invariant
            start <= end <= s@.len(),
            end - start <= 8,
            i <= end - start,
            forall|j: int| 0 <= j < i ==> arr@[j] == s@[start + j],
            forall|j: int| i <= j < 8 ==> arr@[j] == SPACE,
        decreases end - start - i,
    {
        arr[i] = s[start + i];
        i = i + 1;
    }
    assert(arr@ =~= padded(s@.subrange(start as int, end as int), 8));
    arr
}

/// Copies `s[start..end]` into three bytes padded with spaces.
fn pad_ext(s: &[u8], start: usize, end: usize) -> (r: [u8; 3])
    requires
        start <= end <= s@.len(),
        end - start <= 3,
    ensures
        r@ == padded(s@.subrange(start as int, end as int), 3),
{
    let mut arr: [u8; 3] = [SPACE, SPACE, SPACE];
    let mut i: usize = 0;
    while i < end - start
        invariant
            start <= end <= s@.len(),
            end - start <= 3,
            i <= end - start,
            forall|j: int| 0 <= j < i ==> arr@[j] == s@[start + j],
            forall|j: int| i <= j < 3 ==> arr@[j] == SPACE,
        decreases end - start - i,
    {
        arr[i] = s[start + i];
        i = i + 1;
    }
    assert(arr@ =~= padded(s@.subrange(start as int, end as int), 3));
    arr
}

impl ShortFileName {
    /// Takes the first eleven bytes of `buf` as name and extension.
    pub fn new(buf: &[u8]) -> (r: ShortFileName)
        requires
            buf@.len() >= 11,
        ensures
            r.name@ == buf@.subrange(0, 8),
            r.ext@ == buf@.subrange(8, 11),
    {
        let name: [u8; 8] = [buf[0], buf[1], buf[2], buf[3], buf[4], buf[5], buf[6], buf[7]];
        let ext: [u8; 3] = [buf[8], buf[9], buf[10]];
        assert(name@ =~= buf@.subrange(0, 8));
        assert(ext@ =~= buf@.subrange(8, 11));
        ShortFileName { name, ext }
    }

    /// The name part, padding included.
    pub fn basename(&self) -> (r: &[u8; 8])
        ensures
            r@ == self.name@,
    {
        &self.name
    }

    /// The extension part, padding included.
    pub fn extension(&self) -> (r: &[u8; 3])
        ensures
            r@ == self.ext@,
    {
        &self.ext
    }

    /// The entry ends the directory.
    pub fn is_eod(&self) -> (r: bool)
        ensures
            r == (self.name@[0] == 0 && self.ext@[0] == 0),
    {
        self.name[0] == 0x00 && self.ext[0] == 0x00
    }

    /// The entry was deleted.
    pub fn is_unused(&self) -> (r: bool)
        ensures
            r == (self.name@[0] == 0xE5),
    {
        self.name[0] == 0xE5
    }

    /// Both names hold the same bytes.
    pub fn matches(&self, sfn: &ShortFileName) -> (r: bool)
        ensures
            r == (self.name@ == sfn.name@ && self.ext@ == sfn.ext@),
    {
        let mut i: usize = 0;
        while i < 8
            invariant
                i <= 8,
                forall|j: int| 0 <= j < i ==> self.name@[j] == sfn.name@[j],
            decreases 8 - i,
        {
            if self.name[i] != sfn.name[i] {
                return false;
            }
            i = i + 1;
        }
        let mut k: usize = 0;
        while k < 3
            invariant
                k <= 3,
                forall|j: int| 0 <= j < k ==> self.ext@[j] == sfn.ext@[j],
            decreases 3 - k,
        {
            if self.ext[k] != sfn.ext[k] {
                return false;
            }
            k = k + 1;
        }
        assert(self.name@ =~= sfn.name@);
        assert(self.ext@ =~= sfn.ext@);
        true
    }

    /// Builds a short file name from the upper-cased bytes `u` of a name:
    /// at most one period, a non-empty name of at most eight bytes, and an
    /// extension of one to three bytes after the period.
    pub fn parse_upper(u: &[u8]) -> (r: Result<ShortFileName, FsError>)
        ensures
            parse_result_matches(r, short_name_of(u@)),
    {
        let len = u.len();
        let mut i: usize = 0;
        while i < len
            invariant
                len == u@.len(),
                i <= len,
                forall|j: int| 0 <= j < i ==> u@[j] != PERIOD,
            ensures
                i <= len,
                forall|j: int| 0 <= j < i ==> u@[j] != PERIOD,
                i < len ==> u@[i as int] == PERIOD,
            decreases len - i,
        {
            if u[i] == PERIOD {
                break;
            }
            i = i + 1;
        }
        if i == len {
            if len == 0 {
                return Err(FsError::FilenameError(FilenameError::MisplacedPeriod));
            }
            if len > 8 {
                return Err(FsError::FilenameError(FilenameError::NameTooLong));
            }
            let name = pad_name(u, 0, len);
            let ext: [u8; 3] = [SPACE, SPACE, SPACE];
            assert(u@.subrange(0, len as int) =~= u@);
            assert(ext@ =~= padded(Seq::empty(), 3));
            return Ok(ShortFileName { name, ext });
        }
        let p = i;
        let mut k: usize = p + 1;
        while k < len
            invariant
                len == u@.len(),
                p < k <= len,
                forall|j: int| p < j < k ==> u@[j] != PERIOD,
            ensures
                p < k <= len,
                forall|j: int| p < j < k ==> u@[j] != PERIOD,
                k < len ==> u@[k as int] == PERIOD,
            decreases len - k,
        {
            if u[k] == PERIOD {
                break;
            }
            k = k + 1;
        }
        if k < len {
            assert(!no_period(u@));
            assert forall|q: int| !only_period_at(u@, q) by {
                if only_period_at(u@, q) {
                    if q != p as int {
                        assert(u@[p as int] == PERIOD);
                    } else {
                        assert(u@[k as int] == PERIOD);
                    }
                }
            }
            return Err(FsError::FilenameError(FilenameError::UnableToParse));
        }
        assert(only_period_at(u@, p as int));
        assert(!no_period(u@));
        let ghost q = choose|q: int| only_period_at(u@, q);
        assert(q == p as int) by {
            if q != p as int {
                assert(u@[p as int] == PERIOD);
            }
        }
        if p + 1 == len {
            return Err(FsError::FilenameError(FilenameError::MisplacedPeriod));
        }
        if p == 0 {
            return Err(FsError::FilenameError(FilenameError::MisplacedPeriod));
        }
        if p > 8 || len - (p + 1) > 3 {
            return Err(FsError::FilenameError(FilenameError::NameTooLong));
        }
        let name = pad_name(u, 0, p);
        let ext = pad_ext(u, p + 1, len);
        Ok(ShortFileName { name, ext })
    }

    /// Parses a short file name from text. Control bytes, space and
    /// `" * + , / : ; < = > ? [ \ ] |` are refused; otherwise the
    /// upper-cased text must have the 8.3 shape (see `parse_upper`).
    pub fn parse(name: &str) -> (r: Result<ShortFileName, FsError>)
        ensures
            has_invalid_byte(name.spec_bytes()) ==> r == Err::<ShortFileName, FsError>(
                FsError::FilenameError(FilenameError::InvalidCharacter),
            ),
            !has_invalid_byte(name.spec_bytes()) ==> parse_result_matches(
                r,
                short_name_of(uppercase_of(name.spec_bytes())),
            ),
    {
        let bytes = name.as_bytes();
        let mut i: usize = 0;
        while i < bytes.len()
            invariant
                bytes@ == name.spec_bytes(),
                i <= bytes@.len(),
                forall|j: int| 0 <= j < i ==> !is_invalid_name_byte(bytes@[j]),
            decreases bytes@.len() - i,
        {
            let b = bytes[i];
            if b <= 0x20 || b == 0x22 || (0x2A <= b && b < 0x2D) || b == 0x2F || (0x3A <= b && b
                < 0x40) || (0x5B <= b && b < 0x5E) || b == 0x7C {
                assert(is_invalid_name_byte(bytes@[i as int]));
                return Err(FsError::FilenameError(FilenameError::InvalidCharacter));
            }
            i = i + 1;
        }
        let upper = uppercase_bytes(name);
        ShortFileName::parse_upper(upper.as_slice())
    }
}

/// Little-endian value of four bytes.
pub open spec fn le32(b0: u8, b1: u8, b2: u8, b3: u8) -> int {
    b0 + b1 * 0x100 + b2 * 0x1_0000 + b3 * 0x100_0000
}

fn read_le32(b0: u8, b1: u8, b2: u8, b3: u8) -> (r: u32)
    ensures
        r == le32(b0, b1, b2, b3),
{
    (b0 as u32) + (b1 as u32) * 0x100 + (b2 as u32) * 0x1_0000 + (b3 as u32) * 0x100_0000
}

/// One entry of a FAT directory.
#[derive(Clone, Copy, Debug)]
pub struct DirEntry {
    pub filename: ShortFileName,
    pub modified_time: FsTime,
    pub created_time: FsTime,
    pub accessed_time: FsTime,
    pub cluster: Cluster,
    pub attributes: Attributes,
    pub size: u32,
}

/// `e` is the entry that the 32 bytes `d` encode.
pub open spec fn entry_of(e: DirEntry, d: Seq<u8>) -> bool {
    &&& e.filename.name@ == d.subrange(0, 8)
    &&& e.filename.ext@ == d.subrange(8, 11)
    &&& e.attributes.bits == d[0x0B] & ATTR_ALL
    &&& e.created_time == datetime_of(le32(d[0x0E], d[0x0F], d[0x10], d[0x11]) as u32)
    &&& e.accessed_time == datetime_of(le32(0, 0, d[0x12], d[0x13]) as u32)
    &&& e.modified_time == datetime_of(le32(d[0x16], d[0x17], d[0x18], d[0x19]) as u32)
    &&& e.cluster.0 == le32(d[0x1A], d[0x1B], d[0x14], d[0x15])
    &&& e.size == le32(d[0x1C], d[0x1D], d[0x1E], d[0x1F])
}

/// `s` without its trailing spaces.
pub open spec fn trim_spaces(s: Seq<u8>) -> Seq<u8>
    decreases s.len(),
{
    if s.len() > 0 && s.last() == SPACE {
        trim_spaces(s.drop_last())
    } else {
        s
    }
}

/// How a short name reads: `NAME` or `NAME.EXT`, padding dropped.
pub open spec fn display_of(f: ShortFileName) -> Seq<u8> {
    if f.ext@[0] == SPACE {
        trim_spaces(f.name@)
    } else {
        trim_spaces(f.name@) + seq![PERIOD] + trim_spaces(f.ext@)
    }
}

/// The text shown for an entry that has no readable short name.
pub open spec fn unknown_name() -> Seq<u8> {
    seq![0x75u8, 0x6e, 0x6b, 0x6e, 0x6f, 0x77, 0x6e]
}

/// Appends `s` without its trailing spaces to `out`.
fn push_trimmed(out: &mut Vec<u8>, s: &[u8])
    ensures
        final(out)@ == old(out)@ + trim_spaces(s@),
{
    let mut e: usize = s.len();
    assert(s@.subrange(0, e as int) =~= s@);
    while e > 0 && s[e - 1] == SPACE
        invariant
            e <= s@.len(),
            trim_spaces(s@.subrange(0, e as int)) == trim_spaces(s@),
        decreases e,
    {
        assert(s@.subrange(0, e as int).drop_last() =~= s@.subrange(0, e - 1));
        e = e - 1;
    }
    assert(trim_spaces(s@.subrange(0, e as int)) == s@.subrange(0, e as int));
    let mut i: usize = 0;
    let ghost start = out@;
    while i < e
        invariant
            e <= s@.len(),
            i <= e,
            out@ == start + s@.subrange(0, i as int),
        decreases e - i,
    {
        out.push(s[i]);
        assert(s@.subrange(0, i + 1) =~= s@.subrange(0, i as int).push(s@[i as int]));
        i = i + 1;
    }
}

/// The characters of ASCII bytes.
pub open spec fn ascii_chars(b: Seq<u8>) -> Seq<char> {
    b.map_values(|c: u8| c as char)
}

/// The text that `String::from_utf8_lossy` makes of some bytes.
pub uninterp spec fn lossy_text_of(b: Seq<u8>) -> Seq<char>;

/// Relies on `String::from_utf8_lossy`: the text depends on the bytes
/// alone, and bytes below 0x80 are kept, one character each.
#[verifier::external_body]
fn text_from_bytes(b: &[u8]) -> (r: String)
    ensures
        r@ == lossy_text_of(b@),
        (forall|i: int| 0 <= i < b@.len() ==> b@[i] < 0x80) ==> r@ == ascii_chars(b@),
{
    String::from_utf8_lossy(b).into_owned()
}

/// The kind of a directory entry.
#[derive(Clone, Copy, Debug, PartialEq, Eq, Structural)]
pub enum FileType {
    File,
    Directory,
}

/// What a directory listing tells of an entry.
pub struct Metadata {
    pub entry_type: FileType,
    pub name: String,
    pub len: usize,
    pub created: Option<FsTime>,
    pub accessed: Option<FsTime>,
    pub modified: Option<FsTime>,
}

impl DirEntry {
    pub fn is_archive(&self) -> (r: bool)
        ensures
            r == (self.attributes.bits & ATTR_ARCHIVE == ATTR_ARCHIVE),
    {
        self.attributes.contains(ATTR_ARCHIVE)
    }

    pub fn is_directory(&self) -> (r: bool)
        ensures
            r == (self.attributes.bits & ATTR_DIRECTORY == ATTR_DIRECTORY),
    {
        self.attributes.contains(ATTR_DIRECTORY)
    }

    pub fn is_hidden(&self) -> (r: bool)
        ensures
            r == (self.attributes.bits & ATTR_HIDDEN == ATTR_HIDDEN),
    {
        self.attributes.contains(ATTR_HIDDEN)
    }

    pub fn is_long_name(&self) -> (r: bool)
        ensures
            r == (self.attributes.bits & ATTR_LFN == ATTR_LFN),
    {
        self.attributes.contains(ATTR_LFN)
    }

    pub fn is_read_only(&self) -> (r: bool)
        ensures
            r == (self.attributes.bits & ATTR_READ_ONLY == ATTR_READ_ONLY),
    {
        self.attributes.contains(ATTR_READ_ONLY)
    }

    pub fn is_system(&self) -> (r: bool)
        ensures
            r == (self.attributes.bits & ATTR_SYSTEM == ATTR_SYSTEM),
    {
        self.attributes.contains(ATTR_SYSTEM)
    }

    pub fn is_volume_id(&self) -> (r: bool)
        ensures
            r == (self.attributes.bits & ATTR_VOLUME_ID == ATTR_VOLUME_ID),
    {
        self.attributes.contains(ATTR_VOLUME_ID)
    }

    /// The entry ends its directory.
    pub fn is_eod(&self) -> (r: bool)
        ensures
            r == (self.filename.name@[0] == 0 && self.filename.ext@[0] == 0),
    {
        self.filename.is_eod()
    }

    /// The entry was deleted.
    pub fn is_unused(&self) -> (r: bool)
        ensures
            r == (self.filename.name@[0] == 0xE5),
    {
        self.filename.is_unused()
    }

    /// The entry is in use.
    pub open spec fn valid_spec(&self) -> bool {
        !(self.filename.name@[0] == 0 && self.filename.ext@[0] == 0) && self.filename.name@[0]
            != 0xE5
    }

    pub fn is_valid(&self) -> (r: bool)
        ensures
            r == self.valid_spec(),
    {
        !self.is_eod() && !self.is_unused()
    }

    /// The bytes of the name that a listing shows.
    pub open spec fn filename_spec(&self) -> Seq<u8> {
        if self.valid_spec() && !(self.attributes.bits & ATTR_LFN == ATTR_LFN) {
            display_of(self.filename)
        } else {
            unknown_name()
        }
    }

    /// The name as bytes: `NAME.EXT` without padding, or `unknown` for an
    /// entry that is not in use or belongs to a long name.
    pub fn filename_bytes(&self) -> (r: Vec<u8>)
        ensures
            r@ == self.filename_spec(),
    {
        let mut out: Vec<u8> = Vec::new();
        if self.is_valid() && !self.is_long_name() {
            push_trimmed(&mut out, self.filename.name.as_slice());
            if self.filename.ext[0] != SPACE {
                out.push(PERIOD);
                push_trimmed(&mut out, self.filename.ext.as_slice());
            }
        } else {
            out = vec![0x75u8, 0x6e, 0x6b, 0x6e, 0x6f, 0x77, 0x6e];
        }
        assert(out@ =~= self.filename_spec());
        out
    }

    /// The name as text (see `filename_bytes`).
    pub fn filename(&self) -> (r: String)
        ensures
            r@ == lossy_text_of(self.filename_spec()),
            (forall|i: int| 0 <= i < self.filename_spec().len() ==> self.filename_spec()[i] < 0x80)
                ==> r@ == ascii_chars(self.filename_spec()),
    {
        let b = self.filename_bytes();
        text_from_bytes(b.as_slice())
    }

    /// Decodes a standard 8.3 directory entry from its 32 bytes.
    pub fn parse(data: &[u8]) -> (r: Result<DirEntry, FsError>)
        requires
            data@.len() >= DIR_ENTRY_LEN,
        ensures
            r is Ok,
            entry_of(r->Ok_0, data@),
    {
        let filename = ShortFileName::new(data);
        let attributes = Attributes::from_bits_truncate(data[0x0B]);
        let created_time = parse_datetime(read_le32(data[0x0E], data[0x0F], data[0x10], data[0x11]));
        let accessed_time = parse_datetime(read_le32(0, 0, data[0x12], data[0x13]));
        let modified_time = parse_datetime(read_le32(data[0x16], data[0x17], data[0x18], data[0x19]));
        let cluster = read_le32(data[0x1A], data[0x1B], data[0x14], data[0x15]);
        let size = read_le32(data[0x1C], data[0x1D], data[0x1E], data[0x1F]);
        Ok(
            DirEntry {
                filename,
                modified_time,
                created_time,
                accessed_time,
                cluster: Cluster(cluster),
                attributes,
                size,
            },
        )
    }

    /// What a listing shows of the entry.
    pub fn as_meta(&self) -> (r: Metadata)
        ensures
            r.entry_type == (if self.attributes.bits & ATTR_DIRECTORY == ATTR_DIRECTORY {
                FileType::Directory
            } else {
                FileType::File
            }),
            r.len == self.size,
            r.created == Some(self.created_time),
            r.accessed == Some(self.accessed_time),
            r.modified == Some(self.modified_time),
            r.name@ == lossy_text_of(self.filename_spec()),
            (forall|i: int| 0 <= i < self.filename_spec().len() ==> self.filename_spec()[i] < 0x80)
                ==> r.name@ == ascii_chars(self.filename_spec()),
    {
        Metadata {
            entry_type: if self.is_directory() {
                FileType::Directory
            } else {
                FileType::File
            },
            name: self.filename(),
            len: self.size as usize,
            created: Some(self.created_time),
            accessed: Some(self.accessed_time),
            modified: Some(self.modified_time),
        }
    }
}

} // verus!
