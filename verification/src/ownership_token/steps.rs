//! The order in which accepted instructions of the ownership token are carried out.
use vstd::prelude::*;

use crate::ownership_token::instructions::distribute_revenue::DistributeOutcome;
use crate::ownership_token::instructions::initialize_ot::InitializeOtOutcome;
use crate::ownership_token::instructions::mint_ot::MintOutcome;
use crate::steps::{
    effects_come_first, push_sending, push_sending_all, sending, sending_all,
    sending_all_only_sends, Record, Report, Step,
};

verus! {

impl InitializeOtOutcome {
    /// A registration: the five accounts are written, the revenue's token account is made, and
    /// the mint authority is handed over last.
    pub open spec fn step_list(&self) -> Seq<Step> {
        seq![
            Step::Store(Record::OtConfig),
            Step::Store(Record::Revenue),
            Step::Store(Record::RevenueConfig),
            Step::Store(Record::Governance),
            Step::Store(Record::Treasury),
            Step::CreateAssociated(self.create_revenue_token_account),
            Step::SetMintAuthority(self.set_mint_authority),
            Step::Report(Report::Outcome),
        ]
    }

    /// The steps of the registration, in their order.
    pub fn steps(&self) -> (steps: Vec<Step>)
        ensures
            steps@ == self.step_list(),
    {
        let mut steps: Vec<Step> = Vec::new();
        steps.push(Step::Store(Record::OtConfig));
        steps.push(Step::Store(Record::Revenue));
        steps.push(Step::Store(Record::RevenueConfig));
        steps.push(Step::Store(Record::Governance));
        steps.push(Step::Store(Record::Treasury));
        steps.push(Step::CreateAssociated(self.create_revenue_token_account));
        steps.push(Step::SetMintAuthority(self.set_mint_authority));
        steps.push(Step::Report(Report::Outcome));
        assert(steps@ =~= self.step_list());
        steps
    }
}

impl MintOutcome {
    /// A minting: it is counted, the recipient's account is made, then the tokens are minted.
    pub open spec fn step_list(&self) -> Seq<Step> {
        seq![
            Step::Store(Record::OtConfig),
            Step::CreateAssociated(self.create),
            Step::Mint(self.mint),
            Step::Report(Report::Outcome),
        ]
    }

    /// The steps of the minting, in their order.
    pub fn steps(&self) -> (steps: Vec<Step>)
        ensures
            steps@ == self.step_list(),
    {
        let mut steps: Vec<Step> = Vec::new();
        steps.push(Step::Store(Record::OtConfig));
        steps.push(Step::CreateAssociated(self.create));
        steps.push(Step::Mint(self.mint));
        steps.push(Step::Report(Report::Outcome));
        assert(steps@ =~= self.step_list());
        steps
    }
}

impl DistributeOutcome {
    /// A distribution: the revenue account is marked and counts it, the fee and the payouts go
    /// out in the order of the destinations, then the mark is cleared.
    pub open spec fn step_list(&self) -> Seq<Step> {
        seq![Step::Store(Record::RevenueInProgress)] + sending(self.fee) + sending_all(
            self.payouts@,
        ) + seq![Step::Store(Record::Revenue), Step::Report(Report::Outcome)]
    }

    /// The steps of the distribution, in their order.
    pub fn steps(&self) -> (steps: Vec<Step>)
        ensures
            steps@ == self.step_list(),
    {
        let mut steps: Vec<Step> = Vec::new();
        steps.push(Step::Store(Record::RevenueInProgress));
        push_sending(&mut steps, &self.fee);
        push_sending_all(&mut steps, &self.payouts);
        steps.push(Step::Store(Record::Revenue));
        steps.push(Step::Report(Report::Outcome));
        assert(steps@ =~= self.step_list());
        steps
    }
}

/// Registrations and mintings write all state before anything is handed over, and nothing but the
/// report follows the handover of the mint authority.
pub proof fn authority_moves_last(registration: InitializeOtOutcome, minting: MintOutcome)
    ensures
        effects_come_first(registration.step_list()),
        effects_come_first(minting.step_list()),
        forall|i: int, j: int|
            0 <= i < j < registration.step_list().len()
                && #[trigger] registration.step_list()[i] is SetMintAuthority
                ==> #[trigger] registration.step_list()[j] is Report,
{
}

/// A distribution is marked before its fee and payouts are made, and the mark is cleared after the
/// last of them: between the two there are transfers only.
pub proof fn payouts_are_made_under_the_mark(distribution: DistributeOutcome)
    ensures
        ({
            let steps = distribution.step_list();
            &&& steps.len() >= 3
            &&& steps[0] == Step::Store(Record::RevenueInProgress)
            &&& steps[steps.len() - 2] == Step::Store(Record::Revenue)
            &&& steps[steps.len() - 1] == Step::Report(Report::Outcome)
            &&& forall|i: int| 1 <= i < steps.len() - 2 ==> #[trigger] steps[i] is Transfer
        }),
{
    sending_all_only_sends(distribution.payouts@);
}

} // verus!
