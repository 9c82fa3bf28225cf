//! The order in which accepted instructions of the exchange are carried out.
use vstd::prelude::*;

use crate::native_dex::constants::POOL_TYPE_CONCENTRATED;
use crate::native_dex::instructions::add_liquidity::{AddOutcome, AutoClaim};
use crate::native_dex::instructions::claim_lp_fees::ClaimOutcome;
use crate::native_dex::instructions::compress_liquidity::CompressOutcome;
use crate::native_dex::instructions::create_concentrated_pool::CreateConcentratedPoolOutcome;
use crate::native_dex::instructions::create_pool::CreatePoolOutcome;
use crate::native_dex::instructions::grow_liquidity::GrowOutcome;
use crate::native_dex::instructions::nexus_deposit::NexusDepositOutcome;
use crate::native_dex::instructions::remove_liquidity::{ClosePosition, RemoveOutcome};
use crate::native_dex::instructions::shift_liquidity::ShiftOutcome;
use crate::native_dex::instructions::swap::SwapOutcome;
use crate::native_dex::instructions::zap_liquidity::ZapOutcome;
use crate::native_dex::pool_creation::VaultPair;
use crate::steps::{
    creating, effects_come_first, effects_still_first, push_creating, push_sending, sending, Record,
    Report, Step,
};

verus! {

/// Payouts of accrued fees: side A, side B, then the report of them where there is one.
pub open spec fn claiming(claims: AutoClaim) -> Seq<Step> {
    sending(claims.transfer_a) + sending(claims.transfer_b) + if claims.event is Some {
        seq![Step::Report(Report::Claims)]
    } else {
        Seq::empty()
    }
}

/// Appends the payouts of accrued fees.
fn push_claiming(steps: &mut Vec<Step>, claims: &AutoClaim)
    ensures
        final(steps)@ == old(steps)@ + claiming(*claims),
{
    let ghost before = steps@;
    push_sending(steps, &claims.transfer_a);
    push_sending(steps, &claims.transfer_b);
    if claims.event.is_some() {
        steps.push(Step::Report(Report::Claims));
    }
    assert(steps@ =~= before + claiming(*claims));
}

/// The creation of two vaults: each is created, then initialised.
pub open spec fn making_vaults(vaults: VaultPair) -> Seq<Step> {
    seq![
        Step::Create(vaults.create_a),
        Step::Initialize(vaults.init_a),
        Step::Create(vaults.create_b),
        Step::Initialize(vaults.init_b),
    ]
}

/// Appends the creation of two vaults.
fn push_vaults(steps: &mut Vec<Step>, vaults: &VaultPair)
    ensures
        final(steps)@ == old(steps)@ + making_vaults(*vaults),
{
    let ghost before = steps@;
    steps.push(Step::Create(vaults.create_a));
    steps.push(Step::Initialize(vaults.init_a));
    steps.push(Step::Create(vaults.create_b));
    steps.push(Step::Initialize(vaults.init_b));
    assert(steps@ =~= before + making_vaults(*vaults));
}

/// The price bins of a ladder pool are written; other pools have none.
pub open spec fn storing_bins(has_bins: bool) -> Seq<Step> {
    if has_bins {
        seq![Step::Store(Record::Bins)]
    } else {
        Seq::empty()
    }
}

/// The closing of a position, where it is closed.
pub open spec fn closing(close: Option<ClosePosition>) -> Seq<Step> {
    match close {
        Some(c) => seq![Step::Close(c)],
        None => Seq::empty(),
    }
}

impl SwapOutcome {
    /// A trade: the bins and the pool are written, then the trader pays, is paid, and the fees go
    /// out. A routed purchase is one call.
    pub open spec fn step_list(&self) -> Seq<Step> {
        match *self {
            SwapOutcome::Traded(t) => storing_bins(t.pool.pool_type == POOL_TYPE_CONCENTRATED)
                + seq![
                Step::Store(Record::Pool),
                Step::Transfer(t.transfer_in),
                Step::Transfer(t.transfer_out),
            ] + sending(t.protocol_fee) + sending(t.ot_treasury_fee) + seq![
                Step::Report(Report::Outcome),
            ],
            SwapOutcome::RoutedToMint(m) => seq![
                Step::MintRwt(m.mint),
                Step::Report(Report::Outcome),
            ],
        }
    }

    /// The steps of the trade, in their order.
    pub fn steps(&self) -> (steps: Vec<Step>)
        ensures
            steps@ == self.step_list(),
    {
        let mut steps: Vec<Step> = Vec::new();
        match self {
            SwapOutcome::Traded(t) => {
                if t.pool.pool_type == POOL_TYPE_CONCENTRATED {
                    steps.push(Step::Store(Record::Bins));
                }
                steps.push(Step::Store(Record::Pool));
                steps.push(Step::Transfer(t.transfer_in));
                steps.push(Step::Transfer(t.transfer_out));
                push_sending(&mut steps, &t.protocol_fee);
                push_sending(&mut steps, &t.ot_treasury_fee);
            },
            SwapOutcome::RoutedToMint(m) => {
                steps.push(Step::MintRwt(m.mint));
            },
        }
        steps.push(Step::Report(Report::Outcome));
        assert(steps@ =~= self.step_list());
        steps
    }
}

impl AddOutcome {
    /// A deposit: pool and position are written, the latter in a new account where it is new,
    /// then the deposit comes in, side A first, and what had accrued goes out.
    pub open spec fn step_list(&self) -> Seq<Step> {
        seq![Step::Store(Record::Pool)] + creating(self.create_position) + seq![
            Step::Store(Record::Position),
        ] + sending(self.transfer_a) + sending(self.transfer_b) + claiming(self.claims) + seq![
            Step::Report(Report::Outcome),
        ]
    }

    /// The steps of the deposit, in their order.
    pub fn steps(&self) -> (steps: Vec<Step>)
        ensures
            steps@ == self.step_list(),
    {
        let mut steps: Vec<Step> = Vec::new();
        steps.push(Step::Store(Record::Pool));
        push_creating(&mut steps, &self.create_position);
        steps.push(Step::Store(Record::Position));
        push_sending(&mut steps, &self.transfer_a);
        push_sending(&mut steps, &self.transfer_b);
        push_claiming(&mut steps, &self.claims);
        steps.push(Step::Report(Report::Outcome));
        assert(steps@ =~= self.step_list());
        steps
    }
}

impl ZapOutcome {
    /// A zap: as a deposit, and at last the fees of its trade go out.
    pub open spec fn step_list(&self) -> Seq<Step> {
        seq![Step::Store(Record::Pool)] + creating(self.create_position) + seq![
            Step::Store(Record::Position),
        ] + sending(self.transfer_a) + sending(self.transfer_b) + claiming(self.claims) + sending(
            self.protocol_fee,
        ) + sending(self.ot_treasury_fee) + seq![Step::Report(Report::Outcome)]
    }

    /// The steps of the zap, in their order.
    pub fn steps(&self) -> (steps: Vec<Step>)
        ensures
            steps@ == self.step_list(),
    {
        let mut steps: Vec<Step> = Vec::new();
        steps.push(Step::Store(Record::Pool));
        push_creating(&mut steps, &self.create_position);
        steps.push(Step::Store(Record::Position));
        push_sending(&mut steps, &self.transfer_a);
        push_sending(&mut steps, &self.transfer_b);
        push_claiming(&mut steps, &self.claims);
        push_sending(&mut steps, &self.protocol_fee);
        push_sending(&mut steps, &self.ot_treasury_fee);
        steps.push(Step::Report(Report::Outcome));
        assert(steps@ =~= self.step_list());
        steps
    }
}

impl RemoveOutcome {
    /// A withdrawal: bins, pool and position are written, then the withdrawal goes out, side A
    /// first, then what had accrued; an emptied position is closed last.
    pub open spec fn step_list(&self) -> Seq<Step> {
        storing_bins(self.bins is Some) + seq![
            Step::Store(Record::Pool),
            Step::Store(Record::Position),
        ] + sending(self.transfer_a) + sending(self.transfer_b) + claiming(self.claims) + closing(
            self.close,
        ) + seq![Step::Report(Report::Outcome)]
    }

    /// The steps of the withdrawal, in their order.
    pub fn steps(&self) -> (steps: Vec<Step>)
        ensures
            steps@ == self.step_list(),
    {
        let mut steps: Vec<Step> = Vec::new();
        if self.bins.is_some() {
            steps.push(Step::Store(Record::Bins));
        }
        steps.push(Step::Store(Record::Pool));
        steps.push(Step::Store(Record::Position));
        push_sending(&mut steps, &self.transfer_a);
        push_sending(&mut steps, &self.transfer_b);
        push_claiming(&mut steps, &self.claims);
        if let Some(close) = &self.close {
            steps.push(Step::Close(*close));
        }
        steps.push(Step::Report(Report::Outcome));
        assert(steps@ =~= self.step_list());
        steps
    }
}

impl ClaimOutcome {
    /// A payout: the position is written, then side A is paid, then side B.
    pub open spec fn step_list(&self) -> Seq<Step> {
        seq![Step::Store(Record::Position)] + sending(self.transfer_a) + sending(self.transfer_b)
            + seq![Step::Report(Report::Outcome)]
    }

    /// The steps of the payout, in their order.
    pub fn steps(&self) -> (steps: Vec<Step>)
        ensures
            steps@ == self.step_list(),
    {
        let mut steps: Vec<Step> = Vec::new();
        steps.push(Step::Store(Record::Position));
        push_sending(&mut steps, &self.transfer_a);
        push_sending(&mut steps, &self.transfer_b);
        steps.push(Step::Report(Report::Outcome));
        assert(steps@ =~= self.step_list());
        steps
    }
}

impl CreatePoolOutcome {
    /// A new pool: its account, its vaults, then its state.
    pub open spec fn step_list(&self) -> Seq<Step> {
        seq![Step::Create(self.create_pool)] + making_vaults(self.vaults) + seq![
            Step::Store(Record::Pool),
            Step::Report(Report::Outcome),
        ]
    }

    /// The steps of the creation, in their order.
    pub fn steps(&self) -> (steps: Vec<Step>)
        ensures
            steps@ == self.step_list(),
    {
        let mut steps: Vec<Step> = Vec::new();
        steps.push(Step::Create(self.create_pool));
        push_vaults(&mut steps, &self.vaults);
        steps.push(Step::Store(Record::Pool));
        steps.push(Step::Report(Report::Outcome));
        assert(steps@ =~= self.step_list());
        steps
    }
}

impl CreateConcentratedPoolOutcome {
    /// A new ladder pool: its account, its bins' account, its vaults, then its state and its bins.
    pub open spec fn step_list(&self) -> Seq<Step> {
        seq![Step::Create(self.create_pool), Step::Create(self.create_bins)] + making_vaults(
            self.vaults,
        ) + seq![
            Step::Store(Record::Pool),
            Step::Store(Record::Bins),
            Step::Report(Report::Outcome),
        ]
    }

    /// The steps of the creation, in their order.
    pub fn steps(&self) -> (steps: Vec<Step>)
        ensures
            steps@ == self.step_list(),
    {
        let mut steps: Vec<Step> = Vec::new();
        steps.push(Step::Create(self.create_pool));
        steps.push(Step::Create(self.create_bins));
        push_vaults(&mut steps, &self.vaults);
        steps.push(Step::Store(Record::Pool));
        steps.push(Step::Store(Record::Bins));
        steps.push(Step::Report(Report::Outcome));
        assert(steps@ =~= self.step_list());
        steps
    }
}

impl NexusDepositOutcome {
    /// A deposit into the nexus: it is counted, then it comes in.
    pub open spec fn step_list(&self) -> Seq<Step> {
        seq![
            Step::Store(Record::Nexus),
            Step::Transfer(self.transfer),
            Step::Report(Report::Outcome),
        ]
    }

    /// The steps of the deposit, in their order.
    pub fn steps(&self) -> (steps: Vec<Step>)
        ensures
            steps@ == self.step_list(),
    {
        let mut steps: Vec<Step> = Vec::new();
        steps.push(Step::Store(Record::Nexus));
        steps.push(Step::Transfer(self.transfer));
        steps.push(Step::Report(Report::Outcome));
        assert(steps@ =~= self.step_list());
        steps
    }
}

impl GrowOutcome {
    /// Growth: the bins are written, the dollars come in, then the pool counts them.
    pub open spec fn step_list(&self) -> Seq<Step> {
        seq![
            Step::Store(Record::Bins),
            Step::Transfer(self.transfer),
            Step::Store(Record::Pool),
            Step::Report(Report::Outcome),
        ]
    }

    /// The steps of the growth, in their order.
    pub fn steps(&self) -> (steps: Vec<Step>)
        ensures
            steps@ == self.step_list(),
    {
        let mut steps: Vec<Step> = Vec::new();
        steps.push(Step::Store(Record::Bins));
        steps.push(Step::Transfer(self.transfer));
        steps.push(Step::Store(Record::Pool));
        steps.push(Step::Report(Report::Outcome));
        assert(steps@ =~= self.step_list());
        steps
    }
}

/// A rebalancing without tokens: the bins are written, then the pool.
pub open spec fn rebalancing() -> Seq<Step> {
    seq![
        Step::Store(Record::Bins),
        Step::Store(Record::Pool),
        Step::Report(Report::Outcome),
    ]
}

/// The steps of a rebalancing without tokens.
fn rebalancing_steps() -> (steps: Vec<Step>)
    ensures
        steps@ == rebalancing(),
{
    let mut steps: Vec<Step> = Vec::new();
    steps.push(Step::Store(Record::Bins));
    steps.push(Step::Store(Record::Pool));
    steps.push(Step::Report(Report::Outcome));
    assert(steps@ =~= rebalancing());
    steps
}

impl CompressOutcome {
    /// The steps of the compression, in their order.
    pub fn steps(&self) -> (steps: Vec<Step>)
        ensures
            steps@ == rebalancing(),
    {
        rebalancing_steps()
    }
}

impl ShiftOutcome {
    /// The steps of the shift, in their order.
    pub fn steps(&self) -> (steps: Vec<Step>)
        ensures
            steps@ == rebalancing(),
    {
        rebalancing_steps()
    }
}

/// A trade writes all state before any token moves.
pub proof fn swap_moves_tokens_last(swap: SwapOutcome)
    ensures
        effects_come_first(swap.step_list()),
{
    if let SwapOutcome::Traded(t) = swap {
        let traded = storing_bins(t.pool.pool_type == POOL_TYPE_CONCENTRATED) + seq![
            Step::Store(Record::Pool),
            Step::Transfer(t.transfer_in),
            Step::Transfer(t.transfer_out),
        ];
        effects_still_first(traded, sending(t.protocol_fee));
        let protocol_paid = traded + sending(t.protocol_fee);
        effects_still_first(protocol_paid, sending(t.ot_treasury_fee));
        let all_paid = protocol_paid + sending(t.ot_treasury_fee);
        effects_still_first(all_paid, seq![Step::Report(Report::Outcome)]);
    }
}

/// A deposit writes all state before any token moves.
pub proof fn add_moves_tokens_last(add: AddOutcome)
    ensures
        effects_come_first(add.step_list()),
{
    let written = seq![Step::Store(Record::Pool)] + creating(add.create_position) + seq![
        Step::Store(Record::Position),
    ];
    effects_still_first(written, sending(add.transfer_a));
    let a_paid = written + sending(add.transfer_a);
    effects_still_first(a_paid, sending(add.transfer_b));
    let both_paid = a_paid + sending(add.transfer_b);
    effects_still_first(both_paid, claiming(add.claims));
    let claimed = both_paid + claiming(add.claims);
    effects_still_first(claimed, seq![Step::Report(Report::Outcome)]);
}

/// A zap writes all state before any token moves.
pub proof fn zap_moves_tokens_last(zap: ZapOutcome)
    ensures
        effects_come_first(zap.step_list()),
{
    let written = seq![Step::Store(Record::Pool)] + creating(zap.create_position) + seq![
        Step::Store(Record::Position),
    ];
    effects_still_first(written, sending(zap.transfer_a));
    let a_paid = written + sending(zap.transfer_a);
    effects_still_first(a_paid, sending(zap.transfer_b));
    let both_paid = a_paid + sending(zap.transfer_b);
    effects_still_first(both_paid, claiming(zap.claims));
    let claimed = both_paid + claiming(zap.claims);
    effects_still_first(claimed, sending(zap.protocol_fee));
    let protocol_paid = claimed + sending(zap.protocol_fee);
    effects_still_first(protocol_paid, sending(zap.ot_treasury_fee));
    let all_paid = protocol_paid + sending(zap.ot_treasury_fee);
    effects_still_first(all_paid, seq![Step::Report(Report::Outcome)]);
}

/// A withdrawal writes all state before any token moves.
pub proof fn remove_moves_tokens_last(remove: RemoveOutcome)
    ensures
        effects_come_first(remove.step_list()),
{
    let written = storing_bins(remove.bins is Some) + seq![
        Step::Store(Record::Pool),
        Step::Store(Record::Position),
    ];
    effects_still_first(written, sending(remove.transfer_a));
    let a_paid = written + sending(remove.transfer_a);
    effects_still_first(a_paid, sending(remove.transfer_b));
    let both_paid = a_paid + sending(remove.transfer_b);
    effects_still_first(both_paid, claiming(remove.claims));
    let claimed = both_paid + claiming(remove.claims);
    effects_still_first(claimed, closing(remove.close));
    let last = claimed + closing(remove.close);
    effects_still_first(last, seq![Step::Report(Report::Outcome)]);
}

/// A payout of fees writes the position before any token moves.
pub proof fn claim_moves_tokens_last(claim: ClaimOutcome)
    ensures
        effects_come_first(claim.step_list()),
{
    let written = seq![Step::Store(Record::Position)];
    effects_still_first(written, sending(claim.transfer_a));
    let a_paid = written + sending(claim.transfer_a);
    effects_still_first(a_paid, sending(claim.transfer_b));
    let both_paid = a_paid + sending(claim.transfer_b);
    effects_still_first(both_paid, seq![Step::Report(Report::Outcome)]);
}

/// A deposit into the nexus is counted before any token moves.
pub proof fn nexus_deposit_moves_tokens_last(deposit: NexusDepositOutcome)
    ensures
        effects_come_first(deposit.step_list()),
{
}

} // verus!
