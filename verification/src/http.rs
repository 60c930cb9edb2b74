//! Extracting the request target from an HTTP request line.
//!
//! A request line looks like `GET /hello HTTP/1.1`: the target is the bytes
//! between the first and the second space. A line without two spaces carries
//! no target.

use vstd::prelude::*;

verus! {

/// The byte value of the ASCII space separating the request line's parts.
pub const SPACE: u8 = 32;

/// The least index at or after `from` holding a space, if any.
pub open spec fn find_space(s: Seq<u8>, from: int) -> Option<int>
    decreases s.len() - from,
{
    if from < 0 || from >= s.len() {
        None
    } else if s[from] == SPACE {
        Some(from)
    } else {
        find_space(s, from + 1)
    }
}

/// The request target of a request line: the bytes strictly between the
/// first space and the one after it, if both exist.
pub open spec fn spec_request_path(line: Seq<u8>) -> Option<Seq<u8>> {
    match find_space(line, 0) {
        Option::None => Option::None,
        Option::Some(i) => match find_space(line, i + 1) {
            Option::None => Option::None,
            Option::Some(j) => Option::Some(line.subrange(i + 1, j)),
        },
    }
}

/// The least space index at or after `from`, executably.
fn find_space_at(line: &[u8], from: usize) -> (r: Option<usize>)
    requires
        from <= line@.len(),
    ensures
        r is Some <==> find_space(line@, from as int) is Some,
        r matches Some(i) ==> find_space(line@, from as int) == Some(i as int) && from <= i
            < line@.len(),
{
    let mut k = from;
    while k < line.len()
        invariant
            from <= k <= line@.len(),
            find_space(line@, from as int) == find_space(line@, k as int),
        decreases line@.len() - k,
    {
        if line[k] == SPACE {
            return Some(k);
        }
        k = k + 1;
    }
    None
}

/// Extract the request target from a request line, or `None` when the line
/// has no two spaces to frame one.
pub fn request_path(line: &[u8]) -> (r: Option<Vec<u8>>)
    ensures
        r.deep_view() == spec_request_path(line@),
{
    let n = line.len();
    let i = match find_space_at(line, 0) {
        Some(i) => i,
        None => {
            return None;
        },
    };
    proof {
        assert(i < n);
    }
    let j = match find_space_at(line, i + 1) {
        Some(j) => j,
        None => {
            return None;
        },
    };
    let path = vstd::slice::slice_to_vec(vstd::slice::slice_subrange(line, i + 1, j));
    Some(path)
}

} // verus!
