//! The cycle driver's decision logic as a state machine. One reconciliation
//! cycle resolves the public IP, fetches the provider's records, reconciles,
//! and applies each operation in order. Every decision — abort the whole
//! cycle when IP resolution or the fetch fails, go on to the next operation
//! whether or not the previous apply succeeded — is made here; the
//! surrounding binary only performs the requested I/O and feeds the outcome
//! back in.

use vstd::prelude::*;
use crate::dns_record::DnsRecord;
use crate::reconcile::{reconcile, reconcile_spec, str_views};
use crate::snapshot::{record_views, RecordSnapshot};

verus! {

/// Where one cycle stands.
pub enum CyclePhase {
    /// Waiting for the public IP of this cycle.
    ResolvingIp,
    /// IP in hand; waiting for the provider's record snapshot.
    FetchingRecords { current_ip: String },
    /// Operations computed; `next` of them have been dispatched so far.
    Dispatching { ops: Vec<DnsRecord>, next: usize },
    /// The cycle is over, successfully or not; sleep until the next tick.
    Idle { succeeded: bool },
}

/// What the outside world reports back to the driver.
pub enum CycleEvent {
    IpResolved { ip: String },
    IpFailed,
    SnapshotFetched { snapshot: RecordSnapshot },
    FetchFailed,
    /// One operation was applied, successfully or not; either way the
    /// cycle moves on to the next operation.
    ApplyFinished { succeeded: bool },
}

/// What the driver asks the outside world to do next.
pub enum CycleAction {
    FetchRecords,
    Apply { record: DnsRecord },
    Finish { succeeded: bool },
}

/// The event fits the phase: outcomes arrive only for work the driver
/// asked for, and a fetched snapshot is a well-formed one.
pub open spec fn step_permitted(phase: CyclePhase, event: CycleEvent) -> bool {
    match phase {
        CyclePhase::ResolvingIp => event is IpResolved || event is IpFailed,
        CyclePhase::FetchingRecords { .. } => (event is SnapshotFetched || event is FetchFailed)
            && (event matches CycleEvent::SnapshotFetched { snapshot } ==> snapshot.wf()),
        CyclePhase::Dispatching { ops, next } => event is ApplyFinished && 1 <= next <= ops@.len(),
        CyclePhase::Idle { .. } => false,
    }
}

/// Advances one cycle by one event. A failed IP resolution or record fetch
/// ends the cycle at once — in particular, when the fetch fails no
/// operation is ever constructed, let alone applied. A fetched snapshot is
/// reconciled and the operations are dispatched one at a time, in order;
/// a failed apply does not stop the remaining operations.
pub fn cycle_step(
    phase: CyclePhase,
    event: CycleEvent,
    desired: &Vec<String>,
    root_domain: &String,
) -> (r: (CyclePhase, CycleAction))
    requires
        step_permitted(phase, event),
    ensures
        ({
            match (phase, event) {
                (CyclePhase::ResolvingIp, CycleEvent::IpResolved { ip }) => r.0 == (
                CyclePhase::FetchingRecords { current_ip: ip }) && r.1
                    == CycleAction::FetchRecords,
                (CyclePhase::ResolvingIp, CycleEvent::IpFailed) => r.0 == (CyclePhase::Idle {
                    succeeded: false,
                }) && r.1 == (CycleAction::Finish { succeeded: false }),
                (CyclePhase::FetchingRecords { .. }, CycleEvent::FetchFailed) => r.0 == (
                CyclePhase::Idle { succeeded: false }) && r.1 == (CycleAction::Finish {
                    succeeded: false,
                }),
                (
                    CyclePhase::FetchingRecords { current_ip },
                    CycleEvent::SnapshotFetched { snapshot },
                ) => {
                    let ops = reconcile_spec(
                        str_views(desired@),
                        root_domain@,
                        current_ip@,
                        snapshot@,
                    );
                    &&& ops.len() == 0 ==> r.0 == (CyclePhase::Idle { succeeded: true }) && r.1
                        == (CycleAction::Finish { succeeded: true })
                    &&& ops.len() > 0 ==> (r.0 matches CyclePhase::Dispatching { ops: v, next }
                        && record_views(v@) == ops && next == 1) && (r.1 matches
                    CycleAction::Apply { record } && record@ == ops[0])
                },
                (CyclePhase::Dispatching { ops, next }, CycleEvent::ApplyFinished { .. }) => {
                    &&& next < ops@.len() ==> (r.0 matches CyclePhase::Dispatching {
                        ops: v,
                        next: n2,
                    } && v@ == ops@ && n2 == next + 1) && (r.1 matches CycleAction::Apply { record }
                        && record == ops@[next as int])
                    &&& next == ops@.len() ==> r.0 == (CyclePhase::Idle { succeeded: true }) && r.1
                        == (CycleAction::Finish { succeeded: true })
                },
                _ => true,
            }
        }),
{
    match (phase, event) {
        (CyclePhase::ResolvingIp, CycleEvent::IpResolved { ip }) => (
            CyclePhase::FetchingRecords { current_ip: ip },
            CycleAction::FetchRecords,
        ),
        (CyclePhase::ResolvingIp, CycleEvent::IpFailed) => (
            CyclePhase::Idle { succeeded: false },
            CycleAction::Finish { succeeded: false },
        ),
        (CyclePhase::FetchingRecords { current_ip }, CycleEvent::SnapshotFetched { snapshot }) => {
            let ops = reconcile(desired, root_domain, &current_ip, &snapshot);
            if ops.len() == 0 {
                (CyclePhase::Idle { succeeded: true }, CycleAction::Finish { succeeded: true })
            } else {
                let record = ops[0].clone();
                (CyclePhase::Dispatching { ops, next: 1 }, CycleAction::Apply { record })
            }
        },
        (CyclePhase::FetchingRecords { .. }, CycleEvent::FetchFailed) => (
            CyclePhase::Idle { succeeded: false },
            CycleAction::Finish { succeeded: false },
        ),
        (CyclePhase::Dispatching { ops, next }, CycleEvent::ApplyFinished { .. }) => {
            if next < ops.len() {
                let record = ops[next].clone();
                let n2: usize = next + 1;
                (CyclePhase::Dispatching { ops, next: n2 }, CycleAction::Apply { record })
            } else {
                (CyclePhase::Idle { succeeded: true }, CycleAction::Finish { succeeded: true })
            }
        },
        _ => {
            proof {
                assert(false);
            }
            (CyclePhase::Idle { succeeded: false }, CycleAction::Finish { succeeded: false })
        },
    }
}

} // verus!
