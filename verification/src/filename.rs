//! The name of the file that a download is written to: the last path segment
//! of the address that answered, or the time where the address names none.

use vstd::prelude::*;
use crate::decimal::{decimal_digits, render_u128};

verus! {

/// `std::time::SystemTime`, a reading of the clock. Nothing is known of it.
#[verifier::external_type_specification]
#[verifier::external_body]
pub struct ExSystemTime(std::time::SystemTime);

/// `std::time::SystemTimeError`, the error of a clock that stands before the
/// time it is held against. Nothing is known of it.
#[verifier::external_type_specification]
#[verifier::external_body]
pub struct ExSystemTimeError(std::time::SystemTimeError);

/// What `percent_encoding::percent_decode_str(..).decode_utf8_lossy()` makes
/// of a text: each `%` with two hexadecimal digits behind it becomes the byte
/// they write, and the bytes are then read as UTF-8, with U+FFFD in place of
/// what is not.
pub uninterp spec fn percent_decoded(segment: Seq<char>) -> Seq<char>;

/// Calls `percent_encoding::percent_decode_str` on `segment` and
/// `decode_utf8_lossy` on what it returns. The contract only names the
/// result: it depends on `segment` alone.
#[verifier::external_body]
fn percent_decode(segment: &str) -> (decoded: String)
    ensures
        decoded@ == percent_decoded(segment@),
{
    percent_encoding::percent_decode_str(segment).decode_utf8_lossy().into_owned()
}

/// Calls `std::time::SystemTime::now`. Nothing is claimed of the time read.
#[verifier::external_body]
fn clock_now() -> (now: std::time::SystemTime) {
    std::time::SystemTime::now()
}

/// Calls `std::time::SystemTime::duration_since` with the Unix epoch as the
/// earlier time. Nothing is claimed of the result: it fails where the clock
/// stands before the epoch.
#[verifier::external_body]
fn since_epoch(now: &std::time::SystemTime) -> (elapsed: Result<
    std::time::Duration,
    std::time::SystemTimeError,
>) {
    now.duration_since(std::time::UNIX_EPOCH)
}

/// Calls `std::time::Duration::as_millis`. Nothing is claimed of the number.
#[verifier::external_body]
fn whole_millis(elapsed: &std::time::Duration) -> (millis: u128) {
    elapsed.as_millis()
}

/// Why no file name could be made.
#[derive(Clone, Copy, Debug, PartialEq, Eq, Structural)]
pub enum FilenameError {
    /// The clock stands before the Unix epoch.
    ClockBeforeEpoch,
}

/// What a response tells about itself, as far as a download reads it.
#[derive(Clone, Debug, PartialEq, Eq)]
pub struct ResponseInfo {
    /// The length that the response declares for its body, if it declares one.
    pub content_length: Option<u64>,
    /// The path segments of the address that answered, after redirects;
    /// `None` where that address has no path.
    pub path_segments: Option<Vec<String>>,
}

/// The position of the last segment that is not empty.
pub open spec fn last_nonempty(segments: Seq<Seq<char>>) -> Option<int>
    decreases segments.len(),
{
    if segments.len() == 0 {
        None
    } else if segments.last().len() > 0 {
        Some(segments.len() - 1)
    } else {
        last_nonempty(segments.drop_last())
    }
}

/// The segment that names the file: the last one that is not empty.
pub open spec fn naming_segment(path_segments: Option<Seq<Seq<char>>>) -> Option<Seq<char>> {
    match path_segments {
        Some(segments) => match last_nonempty(segments) {
            Some(i) => Some(segments[i]),
            None => None,
        },
        None => None,
    }
}

/// The file name made from a time of `millis` milliseconds since the epoch.
pub open spec fn millis_name(millis: u128) -> Seq<char> {
    decimal_digits(millis as nat)
}

/// Whether `name` is a file name made from some time.
pub open spec fn is_time_name(name: Seq<char>) -> bool {
    exists|millis: u128| name == #[trigger] millis_name(millis)
}

/// The last segment that is not empty stands where `last_nonempty` says, and
/// only empty segments follow it.
pub proof fn lemma_last_nonempty(segments: Seq<Seq<char>>)
    ensures
        match last_nonempty(segments) {
            Some(i) => {
                &&& 0 <= i < segments.len()
                &&& segments[i].len() > 0
                &&& forall|j: int| i < j < segments.len() ==> (#[trigger] segments[j]).len() == 0
            },
            None => forall|j: int| 0 <= j < segments.len() ==> (#[trigger] segments[j]).len() == 0,
        },
    decreases segments.len(),
{
    if segments.len() > 0 && segments.last().len() == 0 {
        let shorter = segments.drop_last();
        lemma_last_nonempty(shorter);
        assert forall|j: int| 0 <= j < shorter.len() implies shorter[j] == segments[j] by {}
    }
}

/// File names made from different times differ.
pub proof fn lemma_time_names_differ(a: u128, b: u128)
    requires
        a != b,
    ensures
        millis_name(a) != millis_name(b),
{
    crate::decimal::lemma_decimal_digits_injective(a as nat, b as nat);
}

/// A file name made from a time is not empty and holds digits only.
pub proof fn lemma_time_name_is_numeric(name: Seq<char>)
    requires
        is_time_name(name),
    ensures
        name.len() >= 1,
        crate::decimal::all_digits(name),
{
    let millis = choose|millis: u128| name == #[trigger] millis_name(millis);
    crate::decimal::lemma_decimal_digits_are_digits(millis as nat);
}

/// The position of the last segment that is not empty.
pub fn last_nonempty_segment(segments: &Vec<String>) -> (r: Option<usize>)
    ensures
        match r {
            Some(k) => k < segments.len() && last_nonempty(segments.deep_view()) == Some(k as int),
            None => last_nonempty(segments.deep_view()) is None,
        },
{
    let mut n: usize = segments.len();
    let ghost all = segments.deep_view();
    assert(all.take(n as int) =~= all);
    while n > 0
        invariant
            n <= segments.len(),
            all == segments.deep_view(),
            last_nonempty(all) == last_nonempty(all.take(n as int)),
        decreases n,
    {
        if !segments[n - 1].as_str().is_empty() {
            return Some(n - 1);
        }
        assert(all.take(n as int).drop_last() =~= all.take(n - 1));
        n -= 1;
    }
    None
}

/// The file name for a time of `millis` milliseconds since the epoch: the
/// number in decimal notation.
pub fn filename_from_millis(millis: u128) -> (name: String)
    ensures
        name@ == millis_name(millis),
{
    render_u128(millis)
}

/// A file name from the time on the clock, for an address that names none.
/// It fails only where the clock stands before the epoch.
pub fn gen_filename() -> (r: Result<String, FilenameError>)
    ensures
        r matches Ok(name) ==> is_time_name(name@),
{
    let now = clock_now();
    match since_epoch(&now) {
        Ok(elapsed) => Ok(filename_from_millis(whole_millis(&elapsed))),
        Err(_) => Err(FilenameError::ClockBeforeEpoch),
    }
}

/// The name of the file for a response: its naming segment with the percent
/// escapes decoded, or a name from the clock where it has none.
pub fn resolve_filename(path_segments: &Option<Vec<String>>) -> (r: Result<String, FilenameError>)
    ensures
        match naming_segment(path_segments.deep_view()) {
            Some(segment) => r matches Ok(name) && name@ == percent_decoded(segment),
            None => r matches Ok(name) ==> is_time_name(name@),
        },
{
    match path_segments {
        Some(segments) => match last_nonempty_segment(segments) {
            Some(i) => Ok(percent_decode(segments[i].as_str())),
            None => gen_filename(),
        },
        None => gen_filename(),
    }
}

} // verus!
