use vstd::prelude::*;

verus! {

/// Relies on mbarrier::smp_mb: full memory barrier between stamping a
/// transfer and the transport work that follows.  Side effect only; no
/// value is computed.
#[verifier::external_body]
pub(crate) fn barrier_full() {
    mbarrier::smp_mb();
}

/// Relies on mbarrier::wmb: orders the mailbox writes before the signal
/// the remote agent sees.  Side effect only; no value is computed.
#[verifier::external_body]
pub(crate) fn barrier_write() {
    mbarrier::wmb();
}

/// Relies on mbarrier::rmb: orders the mailbox reads before the reply is
/// used.  Side effect only; no value is computed.
#[verifier::external_body]
pub(crate) fn barrier_read() {
    mbarrier::rmb();
}

} // verus!
