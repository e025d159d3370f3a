//! The reconciler: given the scraped status and the policy parameters,
//! decide whether the current forwarding is still usable or must be
//! replaced, and derive the cycle's outcome.

use vstd::prelude::*;
use crate::errors::ErrorKind;
use crate::errors::PortError;
use crate::windscribe::WindscribeEpfInfo;
use crate::windscribe::WindscribeEpfStatus;

verus! {

/// What one reconciliation cycle settles on: the forwarded port to
/// push downstream and the delay until the next check, in seconds.
#[derive(Clone, Copy, Debug, PartialEq, Eq, Structural)]
pub struct ReconciliationOutcome {
    pub port: u64,
    pub delay_secs: u64,
}

/// The keep-or-replace decision for the current forwarding.
#[derive(Clone, Copy, Debug, PartialEq, Eq, Structural)]
pub enum ReconcileAction {
    /// The forwarding is reusable: keep its port and check again when
    /// it is about to expire.
    Keep(ReconciliationOutcome),
    /// The forwarding is missing, mismatched or expired: replace it,
    /// deleting the existing one first where one exists.
    Replace { delete_existing: bool },
}

/// Decide whether the scraped forwarding is kept or replaced.
///
/// An `Enabled` forwarding is kept exactly when its internal and
/// external ports match and it has not yet expired (with `extra_delay`
/// seconds of tolerance added to the expiry); the delay until the next
/// check is then what remains of that tolerated lifetime. A mismatched
/// or expired forwarding is replaced after deleting it; a `Disabled`
/// state is replaced outright.
pub fn decide(status: &WindscribeEpfStatus, now: i64, extra_delay: i64) -> (r: ReconcileAction)
    requires
        *status matches WindscribeEpfStatus::Enabled(info) ==> i64::MIN <= info.expires
            + extra_delay <= i64::MAX && info.expires + extra_delay - now <= i64::MAX,
    ensures
        match *status {
            WindscribeEpfStatus::Enabled(info) => {
                if info.internal_port == info.external_port && now < info.expires + extra_delay {
                    r == ReconcileAction::Keep(
                        ReconciliationOutcome {
                            port: info.internal_port,
                            delay_secs: (info.expires + extra_delay - now) as u64,
                        },
                    )
                } else {
                    r == (ReconcileAction::Replace { delete_existing: true })
                }
            },
            WindscribeEpfStatus::Disabled => r == (ReconcileAction::Replace {
                delete_existing: false,
            }),
        },
{
    match status {
        WindscribeEpfStatus::Enabled(info) => {
            let margin: i64 = info.expires + extra_delay;
            if info.internal_port == info.external_port && now < margin {
                ReconcileAction::Keep(
                    ReconciliationOutcome {
                        port: info.internal_port,
                        delay_secs: (margin - now) as u64,
                    },
                )
            } else {
                ReconcileAction::Replace { delete_existing: true }
            }
        },
        WindscribeEpfStatus::Disabled => ReconcileAction::Replace { delete_existing: false },
    }
}

/// Check a fresh allocation and derive the cycle's outcome.
///
/// The provider is expected to allocate matching internal and external
/// ports for a fresh request; a mismatch is a consistency violation,
/// not a recoverable state. The delay is computed from the fresh
/// expiry the same way as the keep case, floored at zero.
pub fn replace_outcome(fresh: &WindscribeEpfInfo, now: i64, extra_delay: i64) -> (r: Result<
    ReconciliationOutcome,
    PortError,
>)
    requires
        i64::MIN <= fresh.expires + extra_delay <= i64::MAX,
        i64::MIN <= fresh.expires + extra_delay - now <= i64::MAX,
    ensures
        match r {
            Ok(o) => fresh.internal_port == fresh.external_port && o.port == fresh.internal_port
                && o.delay_secs as int == (if fresh.expires + extra_delay - now >= 0 {
                fresh.expires + extra_delay - now
            } else {
                0
            }),
            Err(e) => fresh.internal_port != fresh.external_port && e.kind
                == ErrorKind::Consistency,
        },
{
    if fresh.internal_port != fresh.external_port {
        return Err(
            PortError::new(
                ErrorKind::Consistency,
                "provider returned mismatched internal and external ports",
            ),
        );
    }
    let margin: i64 = fresh.expires + extra_delay;
    let delay_secs: u64 = if margin > now {
        (margin - now) as u64
    } else {
        0
    };
    Ok(ReconciliationOutcome { port: fresh.internal_port, delay_secs })
}

} // verus!
