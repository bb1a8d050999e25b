//! The decision core of replaying committed transactions: detecting a
//! reconfiguration in a transaction's output, and bisecting a version range
//! for the first version that fails a predicate. Executing a version to
//! probe it is the surrounding runtime's business; this module only decides
//! what to probe next and how a probe's outcome narrows the search.

use vstd::prelude::*;
use crate::config::{spec_config_address_bytes, EventKey};

verus! {

/// Whether one of the output's event keys is the epoch-change key: the salt
/// and the owning address both match.
pub open spec fn spec_is_reconfiguration(keys: Seq<EventKey>) -> bool {
    exists|i: int|
        0 <= i < keys.len() && (#[trigger] keys[i]).salt == 5 && keys[i].address.bytes@
            == spec_config_address_bytes()
}

/// Whether a transaction's output carries the epoch-change event, given the
/// keys of the events it emitted.
pub fn is_reconfiguration(event_keys: &Vec<EventKey>) -> (r: bool)
    ensures
        r == spec_is_reconfiguration(event_keys@),
{
    let epoch_key = crate::config::new_epoch_event_key();
    let n = event_keys.len();
    let mut i: usize = 0;
    while i < n
        invariant
            i <= n,
            n == event_keys@.len(),
            epoch_key.salt == 5,
            epoch_key.address.bytes@ == spec_config_address_bytes(),
            forall|j: int|
                0 <= j < i ==> !((#[trigger] event_keys@[j]).salt == 5 && event_keys@[j].address.bytes@
                    == spec_config_address_bytes()),
        decreases n - i,
    {
        let k = &event_keys[i];
        if k.salt == epoch_key.salt && vec_u8_eq(&k.address.bytes, &epoch_key.address.bytes) {
            return true;
        }
        i = i + 1;
    }
    false
}

/// Byte-wise equality of two byte vectors.
fn vec_u8_eq(a: &Vec<u8>, b: &Vec<u8>) -> (r: bool)
    ensures
        r == (a@ == b@),
{
    if a.len() != b.len() {
        proof {
            assert(a@.len() != b@.len());
        }
        return false;
    }
    let n = a.len();
    let mut i: usize = 0;
    while i < n
        invariant
            i <= n,
            n == a@.len(),
            n == b@.len(),
            forall|j: int| 0 <= j < i ==> a@[j] == b@[j],
        decreases n - i,
    {
        if a[i] != b[i] {
            return false;
        }
        i = i + 1;
    }
    proof {
        assert(a@ =~= b@);
    }
    true
}

/// A bisection over versions `[begin, end)` for the first version that
/// fails a probe: `result` is the leftmost failure seen so far, and every
/// version in `[begin, end)` is still undecided.
#[derive(Copy, Clone, Debug)]
pub struct BisectState {
    pub begin: u64,
    pub end: u64,
    pub result: Option<u64>,
}

impl BisectState {
    /// Starts a search over `[begin, end)`.
    pub fn new(begin: u64, end: u64) -> (r: BisectState)
        requires
            begin <= end,
        ensures
            r == (BisectState { begin, end, result: None::<u64> }),
    {
        BisectState { begin, end, result: None }
    }

    /// The search still has undecided versions.
    pub open spec fn spec_active(self) -> bool {
        self.begin < self.end
    }

    /// The next version to probe: the midpoint of the undecided range, or
    /// nothing once the range is empty and `result` is the answer.
    pub fn next_probe(&self) -> (r: Option<u64>)
        ensures
            r is Some <==> self.spec_active(),
            self.spec_active() ==> r == Some(mid_of(self.begin, self.end)),
    {
        if self.begin < self.end {
            Some(self.begin + (self.end - self.begin) / 2)
        } else {
            None
        }
    }

    /// Narrows the search by one probe outcome at the current midpoint: a
    /// failed probe records the midpoint as the leftmost known failure and
    /// discards everything at or after it; a passing probe discards
    /// everything at or before it. The undecided range shrinks strictly.
    pub fn step(self, probe_failed: bool) -> (r: BisectState)
        requires
            self.spec_active(),
        ensures
            probe_failed ==> r == (BisectState {
                begin: self.begin,
                end: mid_of(self.begin, self.end),
                result: Some(mid_of(self.begin, self.end)),
            }),
            !probe_failed ==> r == (BisectState {
                begin: (mid_of(self.begin, self.end) + 1) as u64,
                end: self.end,
                result: self.result,
            }),
            r.begin <= r.end,
            r.end - r.begin < self.end - self.begin,
    {
        let mid = self.begin + (self.end - self.begin) / 2;
        proof {
            assert(self.begin <= mid < self.end) by (nonlinear_arith)
                requires
                    self.begin < self.end,
                    mid == self.begin + (self.end - self.begin) / 2,
            ;
        }
        if probe_failed {
            BisectState { begin: self.begin, end: mid, result: Some(mid) }
        } else {
            BisectState { begin: mid + 1, end: self.end, result: self.result }
        }
    }
}

/// The midpoint probe of an active range.
pub open spec fn mid_of(begin: u64, end: u64) -> u64 {
    (begin + (end - begin) / 2) as u64
}

} // verus!
