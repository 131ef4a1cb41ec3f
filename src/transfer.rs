//! A batch of token transfers that either all happen or count for nothing.
//!
//! The batch decides; the host performs. The host asks for the next order,
//! carries it out against the token ledger, and reports whether it went
//! through. The batch stops at the first failure, never retries, and is
//! committed only when every order has been reported as done.
use vstd::prelude::*;

verus! {

/// Who receives a transfer.
#[derive(Debug, Clone, Copy, PartialEq, Eq, Structural)]
pub enum Payee {
    /// The platform's fee account.
    Platform,
    /// The vault that holds the invested principal for the startup.
    StartupVault,
    /// The investor's receiving account.
    Investor,
    /// The startup's receiving account.
    Startup,
}

/// One transfer of `amount` tokens to `to`, from the funding source of the
/// operation that asked for it.
#[derive(Debug, Clone, Copy, PartialEq, Eq, Structural)]
pub struct TransferOrder {
    pub to: Payee,
    pub amount: u64,
}

/// Where a batch stands.
#[derive(Debug, Clone, Copy, PartialEq, Eq, Structural)]
pub enum BatchStatus {
    /// Some orders are still to be carried out, and none has failed.
    Pending,
    /// Every order was carried out.
    Committed,
    /// An order failed; the whole batch counts for nothing.
    Aborted,
}

/// Orders to be carried out in sequence, with how far they have got.
pub struct TransferBatch {
    orders: Vec<TransferOrder>,
    completed: usize,
    failed: bool,
}

impl TransferBatch {
    /// The orders, in the sequence they are to be carried out.
    pub closed spec fn planned(&self) -> Seq<TransferOrder> {
        self.orders@
    }

    /// How many orders have been reported as done.
    pub closed spec fn done(&self) -> nat {
        self.completed as nat
    }

    /// Whether an order has been reported as failed.
    pub closed spec fn has_failed(&self) -> bool {
        self.failed
    }

    pub closed spec fn wf(&self) -> bool {
        self.completed <= self.orders@.len()
    }

    /// Where the batch stands, from the reports so far.
    pub open spec fn status_spec(&self) -> BatchStatus {
        if self.has_failed() {
            BatchStatus::Aborted
        } else if self.done() >= self.planned().len() {
            BatchStatus::Committed
        } else {
            BatchStatus::Pending
        }
    }

    /// A batch with nothing yet carried out.
    pub fn new(orders: Vec<TransferOrder>) -> (b: TransferBatch)
        ensures
            b.wf(),
            b.planned() == orders@,
            b.done() == 0,
            !b.has_failed(),
    {
        TransferBatch { orders, completed: 0, failed: false }
    }

    /// The orders, in sequence.
    pub fn orders(&self) -> (r: &Vec<TransferOrder>)
        ensures
            r@ == self.planned(),
    {
        &self.orders
    }

    pub fn status(&self) -> (s: BatchStatus)
        requires
            self.wf(),
        ensures
            s == self.status_spec(),
    {
        if self.failed {
            BatchStatus::Aborted
        } else if self.completed >= self.orders.len() {
            BatchStatus::Committed
        } else {
            BatchStatus::Pending
        }
    }

    /// The order to carry out next, or `None` once the batch is committed or
    /// aborted.
    pub fn next_transfer(&self) -> (r: Option<TransferOrder>)
        requires
            self.wf(),
        ensures
            self.status_spec() == BatchStatus::Pending ==> r == Some(
                self.planned()[self.done() as int],
            ),
            self.status_spec() != BatchStatus::Pending ==> r is None,
    {
        if self.failed || self.completed >= self.orders.len() {
            None
        } else {
            Some(self.orders[self.completed])
        }
    }

    /// Records the outcome of the order that `next_transfer` handed out.
    pub fn report(&mut self, succeeded: bool)
        requires
            old(self).wf(),
            old(self).status_spec() == BatchStatus::Pending,
        ensures
            final(self).wf(),
            final(self).planned() == old(self).planned(),
            succeeded ==> final(self).done() == old(self).done() + 1 && !final(self).has_failed(),
            !succeeded ==> final(self).done() == old(self).done() && final(self).has_failed(),
    {
        let n = self.orders.len();
        if succeeded {
            assert(self.completed < n);
            self.completed = self.completed + 1;
        } else {
            self.failed = true;
        }
    }
}

} // verus!
