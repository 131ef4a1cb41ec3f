//! The agreement's lifecycle: creation, the one-time investment, and
//! repeated revenue events.
//!
//! `invest` and `record_revenue` decide what must happen and return a
//! `Settlement`: the transfers to carry out and the change to the record that
//! they pay for. The host carries the transfers out through the settlement,
//! then calls `settle`, which writes the change only when every transfer went
//! through. Any error leaves the record exactly as it was.
use vstd::prelude::*;

use crate::error::{ArithmeticFault, ContractError};
use crate::fees::{
    investor_share_of,
    investment_split_of,
    lemma_revenue_split_conserves,
    revenue_split_of,
    split_investment,
    split_revenue,
    RevenueSplit,
};
use crate::record::{AccountKey, InvestmentContract};
use crate::transfer::{BatchStatus, Payee, TransferBatch, TransferOrder};

verus! {

/// Units of the proof-of-investment token issued by one mint.
pub const PROOF_TOKEN_UNITS: u64 = 1;

/// The change to the record that a settlement pays for.
#[derive(Debug, Clone, Copy, PartialEq, Eq, Structural)]
pub enum Effect {
    /// The principal has been paid in.
    MarkInvested,
    /// A revenue event of `revenue_amount`, of which the investor received
    /// `investor_share`.
    AddRevenue { revenue_amount: u64, investor_share: u64 },
}

/// Transfers to carry out, and the change to the record they pay for.
pub struct Settlement {
    batch: TransferBatch,
    effect: Effect,
}

/// The agreement that creation yields, or why creation is refused.
pub open spec fn initialized(
    investor: AccountKey,
    startup: AccountKey,
    amount: u64,
    investor_return_percent: u8,
    duration_days: u64,
    start_time: i64,
) -> Result<InvestmentContract, ContractError> {
    if amount == 0 || duration_days == 0 || investor_return_percent > 100 {
        Err(ContractError::ValidationError)
    } else {
        Ok(
            InvestmentContract {
                investor,
                startup,
                principal_amount: amount,
                investor_return_percent,
                duration_days,
                start_time,
                total_revenue: 0,
                total_distributed: 0,
                is_active: true,
                is_invested: false,
            },
        )
    }
}

/// The transfers that pay in the principal: the fee to the platform, the
/// rest to the startup's vault.
pub open spec fn investment_orders(c: InvestmentContract) -> Seq<TransferOrder> {
    let s = investment_split_of(c.principal_amount);
    seq![
        TransferOrder { to: Payee::Platform, amount: s.platform_fee },
        TransferOrder { to: Payee::StartupVault, amount: s.counterparty_amount },
    ]
}

/// The transfers that distribute one revenue event, in the order platform,
/// investor, startup.
pub open spec fn revenue_orders(s: RevenueSplit) -> Seq<TransferOrder> {
    seq![
        TransferOrder { to: Payee::Platform, amount: s.platform_fee },
        TransferOrder { to: Payee::Investor, amount: s.investor_share },
        TransferOrder { to: Payee::Startup, amount: s.remainder_share },
    ]
}

/// The split of a revenue event on `c`, or why the event is refused: a zero
/// amount, a failed split, or totals that would no longer fit in a `u64`.
pub open spec fn revenue_plan(c: InvestmentContract, revenue_amount: u64) -> Result<
    RevenueSplit,
    ContractError,
> {
    if revenue_amount == 0 {
        Err(ContractError::ValidationError)
    } else {
        match revenue_split_of(revenue_amount, c.investor_return_percent) {
            Err(e) => Err(e),
            Ok(s) => if c.total_revenue + revenue_amount > u64::MAX || c.total_distributed
                + s.investor_share > u64::MAX {
                Err(ContractError::ArithmeticError(ArithmeticFault::Overflow))
            } else {
                Ok(s)
            },
        }
    }
}

/// The record after `effect` is written to `c`, or why it cannot be.
pub open spec fn applied(c: InvestmentContract, effect: Effect) -> Result<
    InvestmentContract,
    ContractError,
> {
    match effect {
        Effect::MarkInvested => if c.is_invested {
            Err(ContractError::StateError)
        } else {
            Ok(InvestmentContract { is_invested: true, ..c })
        },
        Effect::AddRevenue { revenue_amount, investor_share } => if investor_share
            > revenue_amount {
            Err(ContractError::ValidationError)
        } else if c.total_revenue + revenue_amount > u64::MAX || c.total_distributed
            + investor_share > u64::MAX {
            Err(ContractError::ArithmeticError(ArithmeticFault::Overflow))
        } else {
            Ok(
                InvestmentContract {
                    total_revenue: (c.total_revenue + revenue_amount) as u64,
                    total_distributed: (c.total_distributed + investor_share) as u64,
                    ..c
                },
            )
        },
    }
}

impl Settlement {
    pub closed spec fn batch(&self) -> TransferBatch {
        self.batch
    }

    pub closed spec fn effect_spec(&self) -> Effect {
        self.effect
    }

    pub open spec fn wf(&self) -> bool {
        self.batch().wf()
    }

    /// A settlement with none of its transfers carried out yet.
    pub open spec fn is_fresh(&self, orders: Seq<TransferOrder>, effect: Effect) -> bool {
        &&& self.wf()
        &&& self.batch().planned() == orders
        &&& self.batch().done() == 0
        &&& !self.batch().has_failed()
        &&& self.effect_spec() == effect
    }

    pub fn effect(&self) -> (e: Effect)
        ensures
            e == self.effect_spec(),
    {
        self.effect
    }

    /// The transfers, in the sequence they are to be carried out.
    pub fn orders(&self) -> (r: &Vec<TransferOrder>)
        ensures
            r@ == self.batch().planned(),
    {
        self.batch.orders()
    }

    pub fn status(&self) -> (s: BatchStatus)
        requires
            self.wf(),
        ensures
            s == self.batch().status_spec(),
    {
        self.batch.status()
    }

    /// The transfer to carry out next, or `None` once all went through or
    /// one failed.
    pub fn next_transfer(&self) -> (r: Option<TransferOrder>)
        requires
            self.wf(),
        ensures
            self.batch().status_spec() == BatchStatus::Pending ==> r == Some(
                self.batch().planned()[self.batch().done() as int],
            ),
            self.batch().status_spec() != BatchStatus::Pending ==> r is None,
    {
        self.batch.next_transfer()
    }

    /// Records the outcome of the transfer that `next_transfer` handed out.
    pub fn report_transfer(&mut self, succeeded: bool)
        requires
            old(self).wf(),
            old(self).batch().status_spec() == BatchStatus::Pending,
        ensures
            final(self).wf(),
            final(self).effect_spec() == old(self).effect_spec(),
            final(self).batch().planned() == old(self).batch().planned(),
            succeeded ==> final(self).batch().done() == old(self).batch().done() + 1
                && !final(self).batch().has_failed(),
            !succeeded ==> final(self).batch().done() == old(self).batch().done()
                && final(self).batch().has_failed(),
    {
        self.batch.report(succeeded);
    }
}

/// Creates an agreement. The amount and the duration must be positive and
/// the investor's return at most 100 percent; `start_time` is the ledger's
/// clock at creation.
pub fn initialize_contract(
    investor: AccountKey,
    startup: AccountKey,
    amount: u64,
    investor_return_percent: u8,
    duration_days: u64,
    start_time: i64,
) -> (r: Result<InvestmentContract, ContractError>)
    ensures
        r == initialized(
            investor,
            startup,
            amount,
            investor_return_percent,
            duration_days,
            start_time,
        ),
        r matches Ok(c) ==> c.wf(),
{
    if amount == 0 || duration_days == 0 || investor_return_percent > 100 {
        return Err(ContractError::ValidationError);
    }
    Ok(
        InvestmentContract {
            investor,
            startup,
            principal_amount: amount,
            investor_return_percent,
            duration_days,
            start_time,
            total_revenue: 0,
            total_distributed: 0,
            is_active: true,
            is_invested: false,
        },
    )
}

/// Plans the one-time investment: the principal, less the platform fee, goes
/// to the startup's vault. Refused once the agreement is invested.
pub fn invest(c: &InvestmentContract) -> (r: Result<Settlement, ContractError>)
    ensures
        c.is_invested ==> r == Err::<Settlement, ContractError>(ContractError::StateError),
        !c.is_invested ==> (r matches Ok(s) && s.is_fresh(
            investment_orders(*c),
            Effect::MarkInvested,
        )),
{
    if c.is_invested {
        return Err(ContractError::StateError);
    }
    let split = split_investment(c.principal_amount);
    let mut orders: Vec<TransferOrder> = Vec::new();
    orders.push(TransferOrder { to: Payee::Platform, amount: split.platform_fee });
    orders.push(TransferOrder { to: Payee::StartupVault, amount: split.counterparty_amount });
    assert(orders@ =~= investment_orders(*c));
    Ok(Settlement { batch: TransferBatch::new(orders), effect: Effect::MarkInvested })
}

/// Plans the distribution of one revenue event: the platform fee, the
/// investor's share and the remainder for the startup. Every call is an
/// event of its own.
pub fn record_revenue(c: &InvestmentContract, revenue_amount: u64) -> (r: Result<
    Settlement,
    ContractError,
>)
    ensures
        revenue_plan(*c, revenue_amount) matches Err(e) ==> r == Err::<Settlement, ContractError>(
            e,
        ),
        revenue_plan(*c, revenue_amount) matches Ok(split) ==> (r matches Ok(s) && s.is_fresh(
            revenue_orders(split),
            (Effect::AddRevenue { revenue_amount, investor_share: split.investor_share }),
        )),
{
    if revenue_amount == 0 {
        return Err(ContractError::ValidationError);
    }
    let split = match split_revenue(revenue_amount, c.investor_return_percent) {
        Ok(s) => s,
        Err(e) => return Err(e),
    };
    if c.total_revenue > u64::MAX - revenue_amount || c.total_distributed > u64::MAX
        - split.investor_share {
        return Err(ContractError::ArithmeticError(ArithmeticFault::Overflow));
    }
    let mut orders: Vec<TransferOrder> = Vec::new();
    orders.push(TransferOrder { to: Payee::Platform, amount: split.platform_fee });
    orders.push(TransferOrder { to: Payee::Investor, amount: split.investor_share });
    orders.push(TransferOrder { to: Payee::Startup, amount: split.remainder_share });
    assert(orders@ =~= revenue_orders(split));
    Ok(
        Settlement {
            batch: TransferBatch::new(orders),
            effect: Effect::AddRevenue { revenue_amount, investor_share: split.investor_share },
        },
    )
}

/// Writes a settlement's change to the record, once all of its transfers
/// went through. A batch that is pending or aborted gives a transfer error;
/// any error leaves the record unchanged.
pub fn settle(c: &mut InvestmentContract, s: &Settlement) -> (r: Result<(), ContractError>)
    requires
        s.wf(),
    ensures
        s.batch().status_spec() != BatchStatus::Committed ==> r == Err::<(), ContractError>(
            ContractError::TransferError,
        ) && *final(c) == *old(c),
        s.batch().status_spec() == BatchStatus::Committed ==> match applied(
            *old(c),
            s.effect_spec(),
        ) {
            Ok(n) => r == Ok::<(), ContractError>(()) && *final(c) == n,
            Err(e) => r == Err::<(), ContractError>(e) && *final(c) == *old(c),
        },
        old(c).wf() ==> final(c).wf(),
{
    match s.status() {
        BatchStatus::Committed => {},
        _ => return Err(ContractError::TransferError),
    }
    match s.effect {
        Effect::MarkInvested => {
            if c.is_invested {
                return Err(ContractError::StateError);
            }
            c.is_invested = true;
        },
        Effect::AddRevenue { revenue_amount, investor_share } => {
            if investor_share > revenue_amount {
                return Err(ContractError::ValidationError);
            }
            if c.total_revenue > u64::MAX - revenue_amount || c.total_distributed > u64::MAX
                - investor_share {
                return Err(ContractError::ArithmeticError(ArithmeticFault::Overflow));
            }
            c.total_revenue = c.total_revenue + revenue_amount;
            c.total_distributed = c.total_distributed + investor_share;
        },
    }
    Ok(())
}

/// Planning a revenue event on `c` and settling it once all of its
/// transfers went through: the record that results, or the first error.
pub open spec fn revenue_recorded(c: InvestmentContract, revenue_amount: u64) -> Result<
    InvestmentContract,
    ContractError,
> {
    match revenue_plan(c, revenue_amount) {
        Err(e) => Err(e),
        Ok(s) => applied(
            c,
            (Effect::AddRevenue { revenue_amount, investor_share: s.investor_share }),
        ),
    }
}

/// The record after each amount of `amounts`, in order, has been recorded as
/// a revenue event and settled, or the first error.
pub open spec fn revenues_recorded(c: InvestmentContract, amounts: Seq<u64>) -> Result<
    InvestmentContract,
    ContractError,
>
    decreases amounts.len(),
{
    if amounts.len() == 0 {
        Ok(c)
    } else {
        match revenues_recorded(c, amounts.drop_last()) {
            Err(e) => Err(e),
            Ok(d) => revenue_recorded(d, amounts.last()),
        }
    }
}

/// The sum of `amounts`.
pub open spec fn sum_of(amounts: Seq<u64>) -> int
    decreases amounts.len(),
{
    if amounts.len() == 0 {
        0
    } else {
        sum_of(amounts.drop_last()) + amounts.last()
    }
}

/// The sum of the investor's shares of `amounts` at `percent` percent.
pub open spec fn shares_of(amounts: Seq<u64>, percent: u8) -> int
    decreases amounts.len(),
{
    if amounts.len() == 0 {
        0
    } else {
        shares_of(amounts.drop_last(), percent) + investor_share_of(
            amounts.last() as int,
            percent as int,
        )
    }
}

/// After any sequence of revenue events that were all recorded and settled,
/// the total revenue has grown by exactly the sum of the amounts, the total
/// distributed by exactly the sum of the investor's shares, and no more has
/// been distributed than received. Nothing else in the record changes.
pub proof fn lemma_revenue_totals(c: InvestmentContract, amounts: Seq<u64>)
    requires
        c.wf(),
    ensures
        revenues_recorded(c, amounts) matches Ok(d) ==> {
            &&& d.total_revenue == c.total_revenue + sum_of(amounts)
            &&& d.total_distributed == c.total_distributed + shares_of(
                amounts,
                c.investor_return_percent,
            )
            &&& d.total_distributed <= d.total_revenue
            &&& d.wf()
            &&& d == (InvestmentContract {
                total_revenue: d.total_revenue,
                total_distributed: d.total_distributed,
                ..c
            })
        },
    decreases amounts.len(),
{
    if amounts.len() > 0 {
        lemma_revenue_totals(c, amounts.drop_last());
        let a = amounts.last();
        if let Ok(e) = revenues_recorded(c, amounts.drop_last()) {
            lemma_revenue_split_conserves(a, e.investor_return_percent);
        }
    }
}

/// Investment happens once: after an investment has been settled, the
/// record is marked invested, so a second `invest` is refused with a state
/// error, and settling a second investment fails with a state error.
pub proof fn lemma_invest_is_one_shot(c: InvestmentContract)
    requires
        applied(c, Effect::MarkInvested) is Ok,
    ensures
        applied(c, Effect::MarkInvested) matches Ok(d) ==> {
            &&& d.is_invested
            &&& d == (InvestmentContract { is_invested: true, ..c })
            &&& applied(d, Effect::MarkInvested) == Err::<InvestmentContract, ContractError>(
                ContractError::StateError,
            )
        },
{
}

/// Plans the issue of the proof-of-investment token: exactly one unit, to
/// the investor's receiving account. Nothing ties it to a particular
/// investment; each call plans one more unit.
pub fn mint_investment_nft() -> (r: TransferOrder)
    ensures
        r == (TransferOrder { to: Payee::Investor, amount: PROOF_TOKEN_UNITS }),
{
    TransferOrder { to: Payee::Investor, amount: PROOF_TOKEN_UNITS }
}

} // verus!
