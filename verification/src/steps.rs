//! The order in which an accepted instruction is carried out.
use vstd::prelude::*;

use crate::actions::{
    CreateAccount, CreateAssociatedAccount, InitializeTokenAccount, MintTokens, SetMintAuthority,
    TokenTransfer,
};
use crate::native_dex::cpi::MintRwt;
use crate::native_dex::instructions::remove_liquidity::ClosePosition;

verus! {

/// State that an outcome holds and that is written into its account.
#[derive(Clone, Copy, Debug, PartialEq, Eq)]
pub enum Record {
    Pool,
    Position,
    /// The price bins, once the bin ledger has carried out its order; those of a shift as
    /// `activate` leaves them.
    Bins,
    Nexus,
    OtConfig,
    /// The revenue account while its payouts are made.
    RevenueInProgress,
    Revenue,
    RevenueConfig,
    Governance,
    Treasury,
}

/// What is reported.
#[derive(Clone, Copy, Debug, PartialEq, Eq)]
pub enum Report {
    /// The payout of accrued fees that comes along.
    Claims,
    /// The outcome itself.
    Outcome,
}

/// One step.
#[derive(Clone, Copy, Debug, PartialEq, Eq)]
pub enum Step {
    Store(Record),
    Create(CreateAccount),
    Initialize(InitializeTokenAccount),
    CreateAssociated(CreateAssociatedAccount),
    Transfer(TokenTransfer),
    Mint(MintTokens),
    MintRwt(MintRwt),
    SetMintAuthority(SetMintAuthority),
    Close(ClosePosition),
    Report(Report),
}

/// The step of an optional transfer.
pub open spec fn sending(transfer: Option<TokenTransfer>) -> Seq<Step> {
    match transfer {
        Some(t) => seq![Step::Transfer(t)],
        None => Seq::empty(),
    }
}

/// The step of an optional account creation.
pub open spec fn creating(create: Option<CreateAccount>) -> Seq<Step> {
    match create {
        Some(c) => seq![Step::Create(c)],
        None => Seq::empty(),
    }
}

/// The steps of optional transfers, in their order.
pub open spec fn sending_all(transfers: Seq<Option<TokenTransfer>>) -> Seq<Step>
    decreases transfers.len(),
{
    if transfers.len() == 0 {
        Seq::empty()
    } else {
        sending_all(transfers.drop_last()) + sending(transfers.last())
    }
}

/// Appends the step of an optional transfer.
pub fn push_sending(steps: &mut Vec<Step>, transfer: &Option<TokenTransfer>)
    ensures
        final(steps)@ == old(steps)@ + sending(*transfer),
{
    let ghost before = steps@;
    if let Some(t) = transfer {
        steps.push(Step::Transfer(*t));
    }
    assert(steps@ =~= before + sending(*transfer));
}

/// Appends the step of an optional account creation.
pub fn push_creating(steps: &mut Vec<Step>, create: &Option<CreateAccount>)
    ensures
        final(steps)@ == old(steps)@ + creating(*create),
{
    let ghost before = steps@;
    if let Some(c) = create {
        steps.push(Step::Create(*c));
    }
    assert(steps@ =~= before + creating(*create));
}

/// Appends the steps of optional transfers, in their order.
pub fn push_sending_all(steps: &mut Vec<Step>, transfers: &Vec<Option<TokenTransfer>>)
    ensures
        final(steps)@ == old(steps)@ + sending_all(transfers@),
{
    let ghost before = steps@;
    let mut i: usize = 0;
    assert(before + sending_all(transfers@.take(0)) =~= before);
    while i < transfers.len()
        invariant
            i <= transfers@.len(),
            steps@ == before + sending_all(transfers@.take(i as int)),
        decreases transfers@.len() - i,
    {
        push_sending(steps, &transfers[i]);
        i += 1;
        proof {
            let taken = transfers@.take(i as int);
            assert(taken.drop_last() =~= transfers@.take(i - 1));
            assert(steps@ =~= before + sending_all(taken));
        }
    }
    assert(transfers@.take(i as int) =~= transfers@);
}

/// The steps of optional transfers are transfers.
pub proof fn sending_all_only_sends(transfers: Seq<Option<TokenTransfer>>)
    ensures
        forall|i: int|
            0 <= i < sending_all(transfers).len() ==> #[trigger] sending_all(
                transfers,
            )[i] is Transfer,
    decreases transfers.len(),
{
    if transfers.len() > 0 {
        sending_all_only_sends(transfers.drop_last());
    }
}

/// Whether a step hands tokens or authority over.
pub open spec fn hands_over(step: Step) -> bool {
    step is Transfer || step is Mint || step is MintRwt || step is SetMintAuthority
}

/// Whether all state is written before anything is handed over.
pub open spec fn effects_come_first(steps: Seq<Step>) -> bool {
    forall|i: int, j: int|
        0 <= i < j < steps.len() && hands_over(#[trigger] steps[i]) ==> !(
        #[trigger] steps[j] is Store)
}

/// Whether no state is written.
pub open spec fn writes_nothing(steps: Seq<Step>) -> bool {
    forall|i: int| 0 <= i < steps.len() ==> !(#[trigger] steps[i] is Store)
}

/// Effects that come first still do when steps that write nothing follow.
pub proof fn effects_still_first(steps: Seq<Step>, more: Seq<Step>)
    requires
        effects_come_first(steps),
        writes_nothing(more),
    ensures
        effects_come_first(steps + more),
{
    let all = steps + more;
    assert forall|i: int, j: int|
        0 <= i < j < all.len() && hands_over(#[trigger] all[i]) implies !(
    #[trigger] all[j] is Store) by {
        if j < steps.len() {
            assert(all[i] == steps[i] && all[j] == steps[j]);
        } else {
            assert(all[j] == more[j - steps.len()]);
        }
    }
}

} // verus!
