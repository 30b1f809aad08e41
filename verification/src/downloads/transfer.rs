//! The checks of one download attempt: whether a file already in place
//! will do, where to resume, which replies are accepted, and whether what
//! arrived has the expected size and digests.
use crate::content::store::{lowercase_of, to_lowercase};
use crate::downloads::job::DownloadJob;
use crate::error::MonoryxError;
use crate::text::{decimal, decimal_exec, from_chars, lit, push_all, same_text, to_chars};
use vstd::prelude::*;

verus! {

/// Two digests are the same, compared in lower case.
pub open spec fn same_digest(actual: Seq<char>, expected: Seq<char>) -> bool {
    lowercase_of(actual) == lowercase_of(expected)
}

fn digests_equal(actual: &str, expected: &str) -> (r: bool)
    ensures
        r == same_digest(actual@, expected@),
{
    same_text(to_lowercase(actual).as_str(), to_lowercase(expected).as_str())
}

/// Whether a file already at the destination is the download: it exists,
/// has the expected size when one is expected (and its size could be
/// read), and the expected SHA-1 and SHA-512 digests (each computed over
/// the file, the empty text when that failed).
pub fn existing_download_valid(
    job: &DownloadJob,
    exists: bool,
    size: Option<u64>,
    sha1_actual: &str,
    sha512_actual: &str,
) -> (r: bool)
    ensures
        r == (exists && match (size, job.expected_size) {
            (Some(n), Some(e)) => n == e,
            _ => true,
        } && match job.expected_sha1 {
            Some(h) => same_digest(sha1_actual@, h@),
            None => true,
        } && match job.expected_sha512 {
            Some(h) => same_digest(sha512_actual@, h@),
            None => true,
        }),
{
    if !exists {
        return false;
    }
    if let (Some(n), Some(e)) = (size, job.expected_size) {
        if n != e {
            return false;
        }
    }
    if let Some(h) = &job.expected_sha1 {
        if !digests_equal(sha1_actual, h.as_str()) {
            return false;
        }
    }
    if let Some(h) = &job.expected_sha512 {
        if !digests_equal(sha512_actual, h.as_str()) {
            return false;
        }
    }
    true
}

/// The range to ask for when part of the file is already downloaded.
pub fn range_header(resume_from: u64) -> (r: Option<String>)
    ensures
        resume_from == 0 ==> r is None,
        resume_from > 0 ==> (r matches Some(h) && h@ == "bytes="@ + decimal(resume_from as nat) + "-"@),
{
    if resume_from == 0 {
        None
    } else {
        let mut h = lit("bytes=");
        push_all(&mut h, &decimal_exec(resume_from));
        push_all(&mut h, &lit("-"));
        Some(from_chars(&h))
    }
}

fn status_error(url: &str, status: &str) -> (r: MonoryxError)
    ensures
        r matches MonoryxError::Download(m) && m@ == "GET "@ + url@ + " returned HTTP "@ + status@,
{
    let mut m = lit("GET ");
    push_all(&mut m, &to_chars(url));
    push_all(&mut m, &lit(" returned HTTP "));
    push_all(&mut m, &to_chars(status));
    MonoryxError::Download(from_chars(&m))
}

/// The reply to a download request: a success goes on, a partial content
/// reply (206) resuming the part already downloaded; 429, any other client
/// error and any other failing status are errors naming the URL and the
/// status (`status_text`, as the status displays).
pub fn accept_status(url: &str, code: u16, status_text: &str) -> (r: Result<bool, MonoryxError>)
    ensures
        code == 429 ==> (r matches Err(MonoryxError::Download(m)) && m@ == "GET "@ + url@ + " returned HTTP "@
            + "429"@),
        code != 429 && !(200 <= code < 300) ==> (r matches Err(MonoryxError::Download(m)) && m@ == "GET "@ + url@
            + " returned HTTP "@ + status_text@),
        200 <= code < 300 ==> r == Ok::<bool, MonoryxError>(code == 206),
{
    if code == 429 {
        return Err(status_error(url, "429"));
    }
    if 400 <= code && code < 500 {
        return Err(status_error(url, status_text));
    }
    if !(200 <= code && code < 300) && code != 206 {
        return Err(status_error(url, status_text));
    }
    Ok(code == 206)
}

/// The size the download will have: for a resumed download the part
/// already there plus what the reply announces (else the expected size);
/// otherwise what the reply announces, else the expected size.
pub fn expected_total(resumed: bool, resume_from: u64, content_length: Option<u64>, expected_size: Option<u64>) -> (r:
    Option<u64>)
    requires
        resumed && content_length is Some ==> resume_from + content_length->0 <= u64::MAX,
    ensures
        r == match (resumed, content_length) {
            (true, Some(c)) => Some((resume_from + c) as u64),
            (true, None) => expected_size,
            (false, Some(c)) => Some(c),
            (false, None) => expected_size,
        },
{
    match (resumed, content_length) {
        (true, Some(c)) => Some(resume_from + c),
        (true, None) => expected_size,
        (false, Some(c)) => Some(c),
        (false, None) => expected_size,
    }
}

/// The downloaded part's size is checked when the download's size is
/// known (`total`): with an expected size, a part of neither that size nor
/// the known one is refused.
pub fn check_part_size(job: &DownloadJob, total: Option<u64>, actual: u64) -> (r: Result<(), MonoryxError>)
    ensures
        (match (total, job.expected_size) {
            (Some(t), Some(e)) => actual != t && actual != e,
            _ => false,
        }) ==> (r matches Err(MonoryxError::Download(m)) && m@ == "size mismatch for "@ + job.label@ + ": expected "@
            + decimal(job.expected_size->0 as nat) + ", got "@ + decimal(actual as nat)),
        !(match (total, job.expected_size) {
            (Some(t), Some(e)) => actual != t && actual != e,
            _ => false,
        }) ==> r is Ok,
{
    match (total, job.expected_size) {
        (Some(t), Some(e)) => {
            if actual != t && actual != e {
                let mut m = lit("size mismatch for ");
                push_all(&mut m, &to_chars(job.label.as_str()));
                push_all(&mut m, &lit(": expected "));
                push_all(&mut m, &decimal_exec(e));
                push_all(&mut m, &lit(", got "));
                push_all(&mut m, &decimal_exec(actual));
                return Err(MonoryxError::Download(from_chars(&m)));
            }
            Ok(())
        },
        _ => Ok(()),
    }
}

/// A downloaded part must have the digest expected of it, compared in
/// lower case; else a hash mismatch naming the download and both digests.
pub fn check_part_digest(label: &str, expected: &str, actual: String) -> (r: Result<(), MonoryxError>)
    ensures
        same_digest(actual@, expected@) ==> r is Ok,
        !same_digest(actual@, expected@) ==> (r matches Err(MonoryxError::HashMismatch { file, expected: e, actual: a })
            && file@ == label@ && e@ == expected@ && a == actual),
{
    if digests_equal(actual.as_str(), expected) {
        Ok(())
    } else {
        Err(MonoryxError::HashMismatch { file: String::from_str(label), expected: String::from_str(expected), actual })
    }
}

} // verus!
