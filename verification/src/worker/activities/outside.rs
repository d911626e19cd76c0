//! What the activity bookkeeping has from other crates: the concurrent map
//! of outstanding tasks, the conversion of wire durations, and the status
//! codes of server errors.

use crate::protos::ProtoDuration;
use crate::worker::activities::RemoteInFlightActInfo;
use dashmap::DashMap;
use vstd::prelude::*;

verus! {

/// `dashmap::DashMap`, a concurrent hash map. Nothing is known of a map but
/// what the functions below say.
#[verifier::external_type_specification]
#[verifier::external_body]
#[verifier::reject_recursive_types(K)]
#[verifier::reject_recursive_types(V)]
#[verifier::reject_recursive_types(S)]
pub struct ExDashMap<K, V, S>(DashMap<K, V, S>);

/// `tonic::Status`, an error of the server or the transport. It is passed
/// on as it is; only its status code is ever looked at.
#[verifier::external_type_specification]
#[verifier::external_body]
pub struct ExStatus(tonic::Status);

/// The entries of a map of outstanding activity tasks, by task token.
pub uninterp spec fn outstanding_tasks(m: DashMap<Vec<u8>, RemoteInFlightActInfo>) -> Map<
    Seq<u8>,
    RemoteInFlightActInfo,
>;

/// `DashMap::new`: a new map has no entries.
#[verifier::external_body]
pub(crate) fn new_task_map() -> (m: DashMap<Vec<u8>, RemoteInFlightActInfo>)
    ensures
        outstanding_tasks(m) == (Map::<Seq<u8>, RemoteInFlightActInfo>::empty()),
{
    DashMap::new()
}

/// `DashMap::insert`: the key maps to the value afterwards; the value it
/// mapped to before, if any, is returned.
#[verifier::external_body]
pub(crate) fn task_map_insert(
    m: &mut DashMap<Vec<u8>, RemoteInFlightActInfo>,
    key: Vec<u8>,
    value: RemoteInFlightActInfo,
) -> (previous: Option<RemoteInFlightActInfo>)
    ensures
        outstanding_tasks(*final(m)) == outstanding_tasks(*old(m)).insert(key@, value),
        previous == (if outstanding_tasks(*old(m)).contains_key(key@) {
            Some(outstanding_tasks(*old(m))[key@])
        } else {
            None
        }),
{
    m.insert(key, value)
}

/// `DashMap::remove`: the key has no entry afterwards; the value it mapped
/// to, if any, is returned.
#[verifier::external_body]
pub(crate) fn task_map_remove(
    m: &mut DashMap<Vec<u8>, RemoteInFlightActInfo>,
    key: &Vec<u8>,
) -> (removed: Option<RemoteInFlightActInfo>)
    ensures
        outstanding_tasks(*final(m)) == outstanding_tasks(*old(m)).remove(key@),
        removed == (if outstanding_tasks(*old(m)).contains_key(key@) {
            Some(outstanding_tasks(*old(m))[key@])
        } else {
            None
        }),
{
    m.remove(key).map(|(_, v)| v)
}

/// `DashMap::get`: a copy of the value the key maps to, if it has an entry.
#[verifier::external_body]
pub(crate) fn task_map_get(m: &DashMap<Vec<u8>, RemoteInFlightActInfo>, key: &Vec<u8>) -> (found:
    Option<RemoteInFlightActInfo>)
    ensures
        found == (if outstanding_tasks(*m).contains_key(key@) {
            Some(outstanding_tasks(*m)[key@])
        } else {
            None
        }),
{
    m.get(key).map(|entry| entry.value().clone())
}

/// `DashMap::len`: the number of entries.
#[verifier::external_body]
pub(crate) fn task_map_len(m: &DashMap<Vec<u8>, RemoteInFlightActInfo>) -> (len: usize)
    ensures
        len == outstanding_tasks(*m).dom().len(),
{
    m.len()
}

/// The length in nanoseconds of the wire duration of `seconds` seconds and
/// `nanos` nanoseconds.
pub open spec fn wire_nanos(seconds: i64, nanos: i32) -> int {
    seconds * 1_000_000_000 + nanos
}

/// The length in nanoseconds of the longest standard duration that a wire
/// duration converts to.
pub open spec fn longest_converted() -> int {
    i64::MAX * 1_000_000_000 + 999_999_999
}

/// What converting the wire duration of `seconds` seconds and `nanos`
/// nanoseconds to a standard duration gives: nothing where the wire
/// duration is negative, else its length, or the longest there is where it
/// is longer, as whole seconds and the nanoseconds beyond them.
pub open spec fn proto_duration_as_std(seconds: i64, nanos: i32) -> Option<(u64, u32)> {
    let total = wire_nanos(seconds, nanos);
    if total < 0 {
        None
    } else {
        let length = if total <= longest_converted() {
            total
        } else {
            longest_converted()
        };
        Some(((length / 1_000_000_000) as u64, (length % 1_000_000_000) as u32))
    }
}

/// `TryFrom<prost_types::Duration> for std::time::Duration`: normalizes the
/// wire duration, which keeps its length or cuts it to the longest there
/// is, and fails if it is negative. The failure of a duration of about the
/// least seconds there are cannot be computed, so those are left out.
#[verifier::external_body]
pub(crate) fn proto_duration_to_std(d: ProtoDuration) -> (r: Option<(u64, u32)>)
    requires
        d.seconds > i64::MIN + 2,
    ensures
        r == proto_duration_as_std(d.seconds, d.nanos),
{
    let wire = prost_types::Duration { seconds: d.seconds, nanos: d.nanos };
    match std::time::Duration::try_from(wire) {
        Ok(std) => Some((std.as_secs(), std.subsec_nanos())),
        Err(_) => None,
    }
}

/// The status code of an error of the server, as its number.
pub uninterp spec fn status_code_of(status: tonic::Status) -> i32;

/// `tonic::Status::code`, as its number: the status code of an error of
/// the server.
#[verifier::external_body]
pub(crate) fn status_code(status: &tonic::Status) -> (code: i32)
    ensures
        code == status_code_of(*status),
{
    i32::from(status.code())
}

} // verus!
