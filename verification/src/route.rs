//! The fixed routing table: exact path match deciding status, body, and
//! whether the response body is deferred to the worker.

use vstd::prelude::*;

verus! {

/// HTTP status for a successful response.
pub const STATUS_OK: u16 = 200;

/// HTTP status for an unmatched path.
pub const STATUS_NOT_FOUND: u16 = 404;

/// The path answered immediately with a greeting.
pub open spec fn hello_path() -> Seq<u8> {
    seq![47u8, 104u8, 101u8, 108u8, 108u8, 111u8]
}

/// The path answered immediately with a farewell.
pub open spec fn bye_path() -> Seq<u8> {
    seq![47u8, 98u8, 121u8, 101u8]
}

/// The one path whose body is computed by the background worker.
pub open spec fn question_path() -> Seq<u8> {
    seq![47u8, 113u8, 117u8, 101u8, 115u8, 116u8, 105u8, 111u8, 110u8]
}

/// Body sent for `/hello`: "Hello, World!".
pub open spec fn hello_body() -> Seq<u8> {
    seq![72u8, 101u8, 108u8, 108u8, 111u8, 44u8, 32u8, 87u8, 111u8, 114u8, 108u8, 100u8, 33u8]
}

/// Body sent for `/bye`: "Good-bye".
pub open spec fn bye_body() -> Seq<u8> {
    seq![71u8, 111u8, 111u8, 100u8, 45u8, 98u8, 121u8, 101u8]
}

/// Body sent for any unmatched path: "Not Found".
pub open spec fn not_found_body() -> Seq<u8> {
    seq![78u8, 111u8, 116u8, 32u8, 70u8, 111u8, 117u8, 110u8, 100u8]
}

/// Body the worker eventually produces for `/question`: "42".
pub open spec fn answer_body() -> Seq<u8> {
    seq![52u8, 50u8]
}

/// A path is deferred exactly when it is `/question`.
pub open spec fn is_deferred(path: Seq<u8>) -> bool {
    path == question_path()
}

/// The status the routing table assigns to a path.
pub open spec fn route_status(path: Seq<u8>) -> u16 {
    if path == hello_path() || path == bye_path() || path == question_path() {
        STATUS_OK
    } else {
        STATUS_NOT_FOUND
    }
}

/// The body a finished response for this path carries. For the deferred path
/// this is the worker's answer, delivered later; for the rest it is fixed at
/// routing time.
pub open spec fn route_body(path: Seq<u8>) -> Seq<u8> {
    if path == hello_path() {
        hello_body()
    } else if path == bye_path() {
        bye_body()
    } else if path == question_path() {
        answer_body()
    } else {
        not_found_body()
    }
}

/// Routing law: the table is total and exact. Each of the three named paths
/// gets status 200 with its fixed body, and every other path — whatever it
/// is — gets status 404 with the body "Not Found".
pub proof fn lemma_routing_total(path: Seq<u8>)
    ensures
        path == hello_path() ==> route_status(path) == STATUS_OK && route_body(path)
            == hello_body(),
        path == bye_path() ==> route_status(path) == STATUS_OK && route_body(path) == bye_body(),
        path == question_path() ==> route_status(path) == STATUS_OK && route_body(path)
            == answer_body() && is_deferred(path),
        path != hello_path() && path != bye_path() && path != question_path() ==> route_status(
            path,
        ) == STATUS_NOT_FOUND && route_body(path) == not_found_body() && !is_deferred(path),
{
}

/// Byte-for-byte equality of two slices.
pub fn bytes_eq(a: &[u8], b: &[u8]) -> (r: bool)
    ensures
        r == (a@ == b@),
{
    if a.len() != b.len() {
        proof {
            assert(a@ != b@);
        }
        return false;
    }
    let mut i: usize = 0;
    while i < a.len()
        invariant
            i <= a@.len(),
            a@.len() == b@.len(),
            forall|j: int| 0 <= j < i ==> a@[j] == b@[j],
        decreases a@.len() - i,
    {
        if a[i] != b[i] {
            proof {
                assert(a@ != b@);
            }
            return false;
        }
        i = i + 1;
    }
    proof {
        assert(a@ =~= b@);
    }
    true
}

/// Executable form of `hello_path`.
pub fn hello_path_vec() -> (v: Vec<u8>)
    ensures
        v@ == hello_path(),
{
    let a: [u8; 6] = [47u8, 104u8, 101u8, 108u8, 108u8, 111u8];
    let v = vstd::slice::slice_to_vec(vstd::array::array_as_slice(&a));
    proof {
        assert(v@ =~= hello_path());
    }
    v
}

/// Executable form of `bye_path`.
pub fn bye_path_vec() -> (v: Vec<u8>)
    ensures
        v@ == bye_path(),
{
    let a: [u8; 4] = [47u8, 98u8, 121u8, 101u8];
    let v = vstd::slice::slice_to_vec(vstd::array::array_as_slice(&a));
    proof {
        assert(v@ =~= bye_path());
    }
    v
}

/// Executable form of `question_path`.
pub fn question_path_vec() -> (v: Vec<u8>)
    ensures
        v@ == question_path(),
{
    let a: [u8; 9] = [47u8, 113u8, 117u8, 101u8, 115u8, 116u8, 105u8, 111u8, 110u8];
    let v = vstd::slice::slice_to_vec(vstd::array::array_as_slice(&a));
    proof {
        assert(v@ =~= question_path());
    }
    v
}

/// Executable form of `hello_body`.
pub fn hello_body_vec() -> (v: Vec<u8>)
    ensures
        v@ == hello_body(),
{
    let a: [u8; 13] = [
        72u8, 101u8, 108u8, 108u8, 111u8, 44u8, 32u8, 87u8, 111u8, 114u8, 108u8, 100u8, 33u8,
    ];
    let v = vstd::slice::slice_to_vec(vstd::array::array_as_slice(&a));
    proof {
        assert(v@ =~= hello_body());
    }
    v
}

/// Executable form of `bye_body`.
pub fn bye_body_vec() -> (v: Vec<u8>)
    ensures
        v@ == bye_body(),
{
    let a: [u8; 8] = [71u8, 111u8, 111u8, 100u8, 45u8, 98u8, 121u8, 101u8];
    let v = vstd::slice::slice_to_vec(vstd::array::array_as_slice(&a));
    proof {
        assert(v@ =~= bye_body());
    }
    v
}

/// Executable form of `not_found_body`.
pub fn not_found_body_vec() -> (v: Vec<u8>)
    ensures
        v@ == not_found_body(),
{
    let a: [u8; 9] = [78u8, 111u8, 116u8, 32u8, 70u8, 111u8, 117u8, 110u8, 100u8];
    let v = vstd::slice::slice_to_vec(vstd::array::array_as_slice(&a));
    proof {
        assert(v@ =~= not_found_body());
    }
    v
}

/// Executable form of `answer_body`.
pub fn answer_body_vec() -> (v: Vec<u8>)
    ensures
        v@ == answer_body(),
{
    let a: [u8; 2] = [52u8, 50u8];
    let v = vstd::slice::slice_to_vec(vstd::array::array_as_slice(&a));
    proof {
        assert(v@ =~= answer_body());
    }
    v
}

/// Executable routing decision: is this the deferred path?
pub fn is_deferred_path(path: &[u8]) -> (r: bool)
    ensures
        r == is_deferred(path@),
{
    let q = question_path_vec();
    bytes_eq(path, q.as_slice())
}

/// Executable routing decision: status and immediate body for a
/// non-deferred path.
pub fn route_immediate(path: &[u8]) -> (r: (u16, Vec<u8>))
    requires
        !is_deferred(path@),
    ensures
        r.0 == route_status(path@),
        r.1@ == route_body(path@),
{
    let h = hello_path_vec();
    if bytes_eq(path, h.as_slice()) {
        return (STATUS_OK, hello_body_vec());
    }
    let b = bye_path_vec();
    if bytes_eq(path, b.as_slice()) {
        return (STATUS_OK, bye_body_vec());
    }
    (STATUS_NOT_FOUND, not_found_body_vec())
}

} // verus!
