use vstd::prelude::*;
use vstd::string::*;

verus! {

/// `needle` stands in `hay` at offset `at`.
pub open spec fn occurs_at(hay: Seq<u8>, needle: Seq<u8>, at: int) -> bool {
    &&& 0 <= at
    &&& at + needle.len() <= hay.len()
    &&& forall|j: int| 0 <= j < needle.len() ==> hay[at + j] == #[trigger] needle[j]
}

/// `needle` stands somewhere in `hay` as a contiguous run of bytes.
pub open spec fn contains_bytes(hay: Seq<u8>, needle: Seq<u8>) -> bool {
    exists|at: int| occurs_at(hay, needle, at)
}

/// The bytes that announce a running server in the backend's log.
pub open spec fn server_running_marker() -> Seq<u8> {
    "Uvicorn running".spec_bytes()
}

/// The bytes that announce a finished startup in the backend's log.
pub open spec fn startup_complete_marker() -> Seq<u8> {
    "Application startup complete".spec_bytes()
}

/// A line of backend output announces readiness when it holds either marker.
///
/// Both markers are ASCII, so looking for them in the raw bytes of a line gives
/// the same answer as looking for them in the line decoded as UTF-8 with
/// replacement characters: decoding keeps every ASCII byte in place and puts
/// only non-ASCII bytes where it replaces something.
pub open spec fn is_ready_line(line: Seq<u8>) -> bool {
    contains_bytes(line, server_running_marker()) || contains_bytes(
        line,
        startup_complete_marker(),
    )
}

fn matches_at(hay: &[u8], needle: &[u8], at: usize) -> (r: bool)
    requires
        at + needle@.len() <= hay@.len(),
    ensures
        r == occurs_at(hay@, needle@, at as int),
{
    let hay_len: usize = hay.len();
    let mut j: usize = 0;
    while j < needle.len()
        invariant
            hay_len == hay@.len(),
            j <= needle@.len(),
            at + needle@.len() <= hay@.len(),
            forall|k: int| 0 <= k < j ==> hay@[at + k] == #[trigger] needle@[k],
        decreases needle@.len() - j,
    {
        if hay[at + j] != needle[j] {
            return false;
        }
        j += 1;
    }
    true
}

/// Looks for `needle` in `hay`. An empty needle is found in every line.
pub fn find_bytes(hay: &[u8], needle: &[u8]) -> (r: bool)
    ensures
        r == contains_bytes(hay@, needle@),
{
    if needle.len() > hay.len() {
        return false;
    }
    let last: usize = hay.len() - needle.len();
    let mut at: usize = 0;
    loop
        invariant
            last == hay@.len() - needle@.len(),
            at <= last,
            forall|i: int| 0 <= i < at ==> !occurs_at(hay@, needle@, i),
        decreases last - at,
    {
        if matches_at(hay, needle, at) {
            return true;
        }
        if at == last {
            return false;
        }
        at += 1;
    }
}

/// Whether a line of the backend's output announces readiness.
pub fn signals_ready(line: &[u8]) -> (r: bool)
    ensures
        r == is_ready_line(line@),
{
    find_bytes(line, "Uvicorn running".as_bytes()) || find_bytes(
        line,
        "Application startup complete".as_bytes(),
    )
}

} // verus!
