//! What the library takes from other crates and from the system, on trust.

use vstd::prelude::*;

use sha2::Digest;

verus! {

/// The SHA-256 digest of a byte string, as `sha2::Sha256` computes it.
pub uninterp spec fn sha256(bytes: Seq<u8>) -> Seq<u8>;

/// `sha2::Sha256::digest` maps a byte string to its digest, which has 32 bytes.
#[verifier::external_body]
pub(crate) fn sha256_digest(bytes: &[u8]) -> (digest: Vec<u8>)
    ensures
        digest@ == sha256(bytes@),
        digest@.len() == 32,
{
    sha2::Sha256::digest(bytes).to_vec()
}

/// A running SHA-256, `sha2::Sha256`, which stands for the bytes that it was fed.
#[verifier::external_body]
pub struct RunningSha256 {
    hasher: sha2::Sha256,
}

/// The bytes that a running SHA-256 was fed.
pub uninterp spec fn absorbed(hasher: RunningSha256) -> Seq<u8>;

/// `sha2::Sha256::new` starts a running SHA-256 that was fed nothing.
#[verifier::external_body]
pub(crate) fn sha256_start() -> (r: RunningSha256)
    ensures
        absorbed(r) == Seq::<u8>::empty(),
{
    RunningSha256 { hasher: sha2::Sha256::new() }
}

/// `sha2::Sha256::update` feeds bytes, after those that came before.
#[verifier::external_body]
pub(crate) fn sha256_update(running: &mut RunningSha256, bytes: &[u8])
    ensures
        absorbed(*final(running)) == absorbed(*old(running)) + bytes@,
{
    running.hasher.update(bytes);
}

/// `sha2::Sha256::finalize`, on a copy, gives the digest of all bytes that were fed.
#[verifier::external_body]
pub(crate) fn sha256_finish(running: &RunningSha256) -> (digest: Vec<u8>)
    ensures
        digest@ == sha256(absorbed(*running)),
        digest@.len() == 32,
{
    running.hasher.clone().finalize().to_vec()
}

/// A reading of the system's clock.
#[verifier::external_type_specification]
#[verifier::external_body]
pub struct ExSystemTime(std::time::SystemTime);

/// `std::time::SystemTime::now` reads the system's clock. Nothing is promised of a clock.
#[verifier::external_body]
pub(crate) fn system_now() -> (now: std::time::SystemTime) {
    std::time::SystemTime::now()
}

/// `std::time::SystemTime::duration_since`, from the beginning of 1970 on; missing where the clock
/// stands before it. Nothing is promised of a clock.
#[verifier::external_body]
pub(crate) fn since_epoch(now: &std::time::SystemTime) -> (passed: Option<std::time::Duration>) {
    now.duration_since(std::time::UNIX_EPOCH).ok()
}

/// `std::time::Duration::as_secs` gives the whole seconds of a span. Of a span that a clock gave
/// nothing is promised.
#[verifier::external_body]
pub(crate) fn whole_seconds(passed: &std::time::Duration) -> (seconds: u64) {
    passed.as_secs()
}

/// A text of three numbers of two digits each, with colons between them.
pub open spec fn is_clock_text(time: Seq<char>) -> bool {
    &&& time.len() == 8
    &&& forall|i: int|
        0 <= i < 8 ==> if i == 2 || i == 5 {
            #[trigger] time[i] == ':'
        } else {
            '0' <= time[i] <= '9'
        }
}

/// `chrono::Local::now`, written as hours, minutes and seconds of two digits each. Which time that
/// is depends on the clock.
#[verifier::external_body]
pub(crate) fn local_clock_text() -> (time: String)
    ensures
        is_clock_text(time@),
{
    chrono::Local::now().format("%H:%M:%S").to_string()
}

/// A text that fits a pattern: a digit where the pattern has a `d`, and the pattern's own character
/// elsewhere.
pub open spec fn fits(text: Seq<char>, pattern: Seq<char>) -> bool {
    &&& text.len() == pattern.len()
    &&& forall|i: int|
        0 <= i < text.len() ==> if pattern[i] == 'd' {
            '0' <= #[trigger] text[i] <= '9'
        } else {
            text[i] == pattern[i]
        }
}

/// A year: four digits or more, after a sign if it does not lie between 0 and 9999.
pub open spec fn is_year(text: Seq<char>) -> bool {
    &&& text.len() >= 4
    &&& forall|i: int|
        0 <= i < text.len() ==> '0' <= #[trigger] text[i] <= '9' || (i == 0 && text.len() >= 5 && (
        text[i] == '+' || text[i] == '-'))
}

/// A text that is a year and, behind it, a text of `len` characters that fits a pattern.
pub open spec fn is_year_then(text: Seq<char>, pattern: Seq<char>, len: int) -> bool {
    &&& text.len() >= 4 + len
    &&& is_year(text.take(text.len() - len))
    &&& fits(text.skip(text.len() - len), pattern)
}

/// A date and a time as they stand in the name of a meeting, such as `2024-05-06_07-08-09`.
pub open spec fn is_name_stamp(stamp: Seq<char>) -> bool {
    is_year_then(stamp, "-dd-dd_dd-dd-dd"@, 15)
}

/// A date and a time as they stand in a file name, such as `20240506_070809`.
pub open spec fn is_file_stamp(stamp: Seq<char>) -> bool {
    is_year_then(stamp, "dddd_dddddd"@, 11)
}

/// The part of a second as it stands behind a time: none, or a point and three, six or nine digits.
pub open spec fn is_fraction(text: Seq<char>) -> bool {
    fits(text, ""@) || fits(text, ".ddd"@) || fits(text, ".dddddd"@) || fits(text, ".ddddddddd"@)
}

/// A date and a time of RFC 3339 in UTC, such as `2024-05-06T07:08:09.123456+00:00`: `fraction`
/// characters of it are the part of a second.
pub open spec fn is_utc_time(text: Seq<char>, fraction: int) -> bool {
    let end = text.len() - 6;
    &&& 0 <= fraction <= end
    &&& is_year_then(text.take(end - fraction), "-dd-ddTdd:dd:dd"@, 15)
    &&& is_fraction(text.subrange(end - fraction, end))
    &&& text.skip(end) == "+00:00"@
}

/// A date and a time of RFC 3339 in UTC.
pub open spec fn is_rfc3339(text: Seq<char>) -> bool {
    exists|fraction: int| is_utc_time(text, fraction)
}

/// `chrono::Local::now`, written as a date and a time that can stand in a name: the year, then
/// month, day, hour, minute and second of two digits each. Which time that is depends on the clock.
#[verifier::external_body]
pub(crate) fn local_name_stamp() -> (stamp: String)
    ensures
        is_name_stamp(stamp@),
{
    chrono::Local::now().format("%Y-%m-%d_%H-%M-%S").to_string()
}

/// The bytes of numbers, each with its least significant byte first.
pub open spec fn little_endian(numbers: Seq<u32>) -> Seq<u8> {
    Seq::new(4 * numbers.len(), |i: int| byte_of(numbers[i / 4], i % 4))
}

/// The bytes of numbers, each with its most significant byte first.
pub open spec fn big_endian(numbers: Seq<u32>) -> Seq<u8> {
    Seq::new(4 * numbers.len(), |i: int| byte_of(numbers[i / 4], 3 - i % 4))
}

/// Byte `k` of a number, counted from the least significant one.
pub open spec fn byte_of(n: u32, k: int) -> u8 {
    if k == 0 {
        (n % 256) as u8
    } else if k == 1 {
        (n / 256 % 256) as u8
    } else if k == 2 {
        (n / 65536 % 256) as u8
    } else {
        (n / 16777216) as u8
    }
}

/// `bytemuck::cast_slice` gives the bytes of numbers as they lie in memory: in the byte order of
/// the machine, which is one of the two.
#[verifier::external_body]
pub(crate) fn memory_bytes(numbers: &[u32]) -> (bytes: Vec<u8>)
    ensures
        bytes@ == little_endian(numbers@) || bytes@ == big_endian(numbers@),
{
    bytemuck::cast_slice::<u32, u8>(numbers).to_vec()
}

/// `chrono::Utc::now`, written as a date and time of RFC 3339 with the offset `+00:00`. Which time
/// that is depends on the clock.
#[verifier::external_body]
pub(crate) fn utc_now_rfc3339() -> (now: String)
    ensures
        is_rfc3339(now@),
{
    chrono::Utc::now().to_rfc3339()
}

/// `chrono::Utc::now`, in milliseconds since 1970. Nothing is promised of a clock.
#[verifier::external_body]
pub(crate) fn utc_timestamp_millis() -> (millis: i64) {
    chrono::Utc::now().timestamp_millis()
}

/// A text in small letters, as `str::to_lowercase` gives it.
pub uninterp spec fn lowercase(text: Seq<char>) -> Seq<char>;

/// `str::to_lowercase` replaces letters by small ones, by tables of the Unicode standard.
#[verifier::external_body]
pub(crate) fn to_lowercase(text: &str) -> (r: String)
    ensures
        r@ == lowercase(text@),
{
    text.to_lowercase()
}

/// The text of an identifier: 36 characters, four of them dashes, the others hexadecimal digits
/// without capitals.
pub open spec fn is_uuid(text: Seq<char>) -> bool {
    &&& text.len() == 36
    &&& forall|i: int|
        0 <= i < 36 ==> if i == 8 || i == 13 || i == 18 || i == 23 {
            #[trigger] text[i] == '-'
        } else {
            '0' <= text[i] <= '9' || 'a' <= text[i] <= 'f'
        }
}

/// `uuid::Uuid::new_v4` makes a random identifier, which is written in hexadecimal digits in five
/// groups. Which one it is rests on chance.
#[verifier::external_body]
pub(crate) fn random_uuid() -> (id: String)
    ensures
        is_uuid(id@),
{
    uuid::Uuid::new_v4().to_string()
}

/// `chrono::Utc::now`, written for a file name: the year, then month, day, hour, minute and second
/// of two digits each. Which time that is depends on the clock.
#[verifier::external_body]
pub(crate) fn utc_file_timestamp() -> (now: String)
    ensures
        is_file_stamp(now@),
{
    chrono::Utc::now().format("%Y%m%d_%H%M%S").to_string()
}

/// A path of the file system, which need not be a text.
#[verifier::external_type_specification]
#[verifier::external_body]
pub struct ExPathBuf(std::path::PathBuf);

/// `dirs::audio_dir`: where the user keeps music, if anywhere. Nothing is promised of it.
#[verifier::external_body]
pub(crate) fn audio_directory() -> (path: Option<std::path::PathBuf>) {
    dirs::audio_dir()
}

/// `dirs::video_dir`: where the user keeps videos, if anywhere. Nothing is promised of it.
#[verifier::external_body]
pub(crate) fn video_directory() -> (path: Option<std::path::PathBuf>) {
    dirs::video_dir()
}

/// `dirs::document_dir`: where the user keeps documents, if anywhere. Nothing is promised of it.
#[verifier::external_body]
pub(crate) fn document_directory() -> (path: Option<std::path::PathBuf>) {
    dirs::document_dir()
}

} // verus!
