//! What the steps of accepted exchange instructions carry out, and how calls are laid out.
use vstd::prelude::*;

use crate::actions::TokenTransfer;
use crate::bytes::{le_bytes, le_value, le_width};
use crate::native_dex::cpi::MintRwt;
use crate::native_dex::instructions::add_liquidity::{AddOutcome, AutoClaim};
use crate::native_dex::instructions::claim_lp_fees::ClaimOutcome;
use crate::native_dex::instructions::remove_liquidity::RemoveOutcome;
use crate::native_dex::instructions::swap::SwapOutcome;
use crate::native_dex::instructions::zap_liquidity::ZapOutcome;
use crate::native_dex::steps::{claiming, closing, storing_bins};
use crate::steps::{creating, sending, Record, Report, Step};

verus! {

/// One where something is there, else nothing.
pub open spec fn one_if(there: bool) -> int {
    if there {
        1
    } else {
        0
    }
}

/// Whether an optional transfer is made at place `i` of the steps.
pub open spec fn made_at(steps: Seq<Step>, i: int, transfer: Option<TokenTransfer>) -> bool {
    transfer is Some ==> steps[i] == Step::Transfer(transfer->0)
}

/// An optional transfer comes behind the steps before it, and they stay.
proof fn sent_behind(steps: Seq<Step>, transfer: Option<TokenTransfer>)
    ensures
        ({
            let more = steps + sending(transfer);
            &&& more.len() == steps.len() + one_if(transfer is Some)
            &&& made_at(more, steps.len() as int, transfer)
            &&& forall|i: int| 0 <= i < steps.len() ==> #[trigger] more[i] == steps[i]
        }),
{
}

/// The payouts of what had accrued come behind the steps before them, and they stay.
proof fn claimed_behind(steps: Seq<Step>, claims: AutoClaim)
    ensures
        ({
            let more = steps + claiming(claims);
            let c = steps.len() + one_if(claims.transfer_a is Some);
            let d = c + one_if(claims.transfer_b is Some);
            &&& more.len() == d + one_if(claims.event is Some)
            &&& made_at(more, steps.len() as int, claims.transfer_a)
            &&& made_at(more, c, claims.transfer_b)
            &&& claims.event is Some ==> more[d] == Step::Report(Report::Claims)
            &&& forall|i: int| 0 <= i < steps.len() ==> #[trigger] more[i] == steps[i]
        }),
{
    let one = steps + sending(claims.transfer_a);
    let two = one + sending(claims.transfer_b);
    sent_behind(steps, claims.transfer_a);
    sent_behind(one, claims.transfer_b);
    let told = if claims.event is Some {
        seq![Step::Report(Report::Claims)]
    } else {
        Seq::empty()
    };
    assert(steps + claiming(claims) =~= two + told);
}

/// A trade is carried out in this order: the bins of a ladder pool, the pool, what the trader pays,
/// what the trader gets, the protocol's fee and the treasury's fee where they are due, the report.
/// There is no other step.
pub proof fn trade_is_carried_out(outcome: SwapOutcome)
    ensures
        outcome matches SwapOutcome::Traded(t) ==> {
            let steps = outcome.step_list();
            let bins = one_if(t.pool.pool_type == 1);
            let fee = one_if(t.protocol_fee is Some);
            let treasury = one_if(t.ot_treasury_fee is Some);
            &&& steps.len() == bins + 4 + fee + treasury
            &&& bins == 1 ==> steps[0] == Step::Store(Record::Bins)
            &&& steps[bins] == Step::Store(Record::Pool)
            &&& steps[bins + 1] == Step::Transfer(t.transfer_in)
            &&& steps[bins + 2] == Step::Transfer(t.transfer_out)
            &&& made_at(steps, bins + 3, t.protocol_fee)
            &&& made_at(steps, bins + 3 + fee, t.ot_treasury_fee)
            &&& steps[bins + 3 + fee + treasury] == Step::Report(Report::Outcome)
        },
        outcome matches SwapOutcome::RoutedToMint(m) ==> {
            let steps = outcome.step_list();
            &&& steps.len() == 2
            &&& steps[0] == Step::MintRwt(m.mint)
            &&& steps[1] == Step::Report(Report::Outcome)
        },
{
}

/// A deposit is carried out in this order: the pool, the position's account where it is new, the
/// position, side A, side B, what had accrued on each side and its report where there is any, the
/// report. There is no other step.
pub proof fn deposit_is_carried_out(outcome: AddOutcome)
    ensures
        ({
            let steps = outcome.step_list();
            let made = one_if(outcome.create_position is Some);
            let a = made + one_if(outcome.transfer_a is Some);
            let b = a + one_if(outcome.transfer_b is Some);
            let c = b + one_if(outcome.claims.transfer_a is Some);
            let d = c + one_if(outcome.claims.transfer_b is Some);
            let e = d + one_if(outcome.claims.event is Some);
            &&& steps.len() == e + 3
            &&& steps[0] == Step::Store(Record::Pool)
            &&& made == 1 ==> steps[1] == Step::Create(outcome.create_position->0)
            &&& steps[made + 1] == Step::Store(Record::Position)
            &&& made_at(steps, made + 2, outcome.transfer_a)
            &&& made_at(steps, a + 2, outcome.transfer_b)
            &&& made_at(steps, b + 2, outcome.claims.transfer_a)
            &&& made_at(steps, c + 2, outcome.claims.transfer_b)
            &&& outcome.claims.event is Some ==> steps[d + 2] == Step::Report(Report::Claims)
            &&& steps[e + 2] == Step::Report(Report::Outcome)
        }),
{
    let opened = seq![Step::Store(Record::Pool)] + creating(outcome.create_position) + seq![
        Step::Store(Record::Position),
    ];
    let made = one_if(outcome.create_position is Some);
    assert(opened.len() == made + 2);
    assert(opened[0] == Step::Store(Record::Pool));
    assert(made == 1 ==> opened[1] == Step::Create(outcome.create_position->0));
    assert(opened[made + 1] == Step::Store(Record::Position));
    let one = opened + sending(outcome.transfer_a);
    let two = one + sending(outcome.transfer_b);
    let three = two + claiming(outcome.claims);
    sent_behind(opened, outcome.transfer_a);
    sent_behind(one, outcome.transfer_b);
    claimed_behind(two, outcome.claims);
}

/// A zap is carried out as a deposit; between what had accrued and the report, the protocol's fee
/// and the treasury's fee go out where they are due.
pub proof fn zap_is_carried_out(outcome: ZapOutcome)
    ensures
        ({
            let steps = outcome.step_list();
            let made = one_if(outcome.create_position is Some);
            let a = made + one_if(outcome.transfer_a is Some);
            let b = a + one_if(outcome.transfer_b is Some);
            let c = b + one_if(outcome.claims.transfer_a is Some);
            let d = c + one_if(outcome.claims.transfer_b is Some);
            let e = d + one_if(outcome.claims.event is Some);
            let f = e + one_if(outcome.protocol_fee is Some);
            let g = f + one_if(outcome.ot_treasury_fee is Some);
            &&& steps.len() == g + 3
            &&& steps[0] == Step::Store(Record::Pool)
            &&& made == 1 ==> steps[1] == Step::Create(outcome.create_position->0)
            &&& steps[made + 1] == Step::Store(Record::Position)
            &&& made_at(steps, made + 2, outcome.transfer_a)
            &&& made_at(steps, a + 2, outcome.transfer_b)
            &&& made_at(steps, b + 2, outcome.claims.transfer_a)
            &&& made_at(steps, c + 2, outcome.claims.transfer_b)
            &&& outcome.claims.event is Some ==> steps[d + 2] == Step::Report(Report::Claims)
            &&& made_at(steps, e + 2, outcome.protocol_fee)
            &&& made_at(steps, f + 2, outcome.ot_treasury_fee)
            &&& steps[g + 2] == Step::Report(Report::Outcome)
        }),
{
    let opened = seq![Step::Store(Record::Pool)] + creating(outcome.create_position) + seq![
        Step::Store(Record::Position),
    ];
    let made = one_if(outcome.create_position is Some);
    assert(opened.len() == made + 2);
    assert(opened[0] == Step::Store(Record::Pool));
    assert(made == 1 ==> opened[1] == Step::Create(outcome.create_position->0));
    assert(opened[made + 1] == Step::Store(Record::Position));
    let one = opened + sending(outcome.transfer_a);
    let two = one + sending(outcome.transfer_b);
    let three = two + claiming(outcome.claims);
    sent_behind(opened, outcome.transfer_a);
    sent_behind(one, outcome.transfer_b);
    claimed_behind(two, outcome.claims);
    let four = three + sending(outcome.protocol_fee);
    sent_behind(three, outcome.protocol_fee);
    sent_behind(four, outcome.ot_treasury_fee);
}

/// A withdrawal is carried out in this order: the bins of a ladder pool, the pool, the position,
/// side A, side B, what had accrued on each side and its report where there is any, the closing of
/// an emptied position, the report. There is no other step.
pub proof fn withdrawal_is_carried_out(outcome: RemoveOutcome)
    ensures
        ({
            let steps = outcome.step_list();
            let bins = one_if(outcome.bins is Some);
            let a = bins + one_if(outcome.transfer_a is Some);
            let b = a + one_if(outcome.transfer_b is Some);
            let c = b + one_if(outcome.claims.transfer_a is Some);
            let d = c + one_if(outcome.claims.transfer_b is Some);
            let e = d + one_if(outcome.claims.event is Some);
            let f = e + one_if(outcome.close is Some);
            &&& steps.len() == f + 3
            &&& bins == 1 ==> steps[0] == Step::Store(Record::Bins)
            &&& steps[bins] == Step::Store(Record::Pool)
            &&& steps[bins + 1] == Step::Store(Record::Position)
            &&& made_at(steps, bins + 2, outcome.transfer_a)
            &&& made_at(steps, a + 2, outcome.transfer_b)
            &&& made_at(steps, b + 2, outcome.claims.transfer_a)
            &&& made_at(steps, c + 2, outcome.claims.transfer_b)
            &&& outcome.claims.event is Some ==> steps[d + 2] == Step::Report(Report::Claims)
            &&& outcome.close is Some ==> steps[e + 2] == Step::Close(outcome.close->0)
            &&& steps[f + 2] == Step::Report(Report::Outcome)
        }),
{
    let opened = storing_bins(outcome.bins is Some) + seq![
        Step::Store(Record::Pool),
        Step::Store(Record::Position),
    ];
    let bins = one_if(outcome.bins is Some);
    assert(opened.len() == bins + 2);
    assert(bins == 1 ==> opened[0] == Step::Store(Record::Bins));
    assert(opened[bins] == Step::Store(Record::Pool));
    assert(opened[bins + 1] == Step::Store(Record::Position));
    let one = opened + sending(outcome.transfer_a);
    let two = one + sending(outcome.transfer_b);
    let three = two + claiming(outcome.claims);
    sent_behind(opened, outcome.transfer_a);
    sent_behind(one, outcome.transfer_b);
    claimed_behind(two, outcome.claims);
    let four = three + closing(outcome.close);
    assert(four.len() == three.len() + one_if(outcome.close is Some));
}

/// A payout is carried out in this order: the position, side A, side B, the report. There is no
/// other step.
pub proof fn payout_is_carried_out(outcome: ClaimOutcome)
    ensures
        ({
            let steps = outcome.step_list();
            let a = one_if(outcome.transfer_a is Some);
            let b = a + one_if(outcome.transfer_b is Some);
            &&& steps.len() == b + 2
            &&& steps[0] == Step::Store(Record::Position)
            &&& made_at(steps, 1, outcome.transfer_a)
            &&& made_at(steps, a + 1, outcome.transfer_b)
            &&& steps[b + 1] == Step::Report(Report::Outcome)
        }),
{
}

/// A purchase that is minted names eight accounts in the order of the engine, of which the user
/// alone signs and all but the user and the token program can be changed. Its data are the marker
/// of eight bytes, the dollars and the least reward tokens, in eight bytes each.
pub proof fn mint_call_is_laid_out(mint: MintRwt)
    ensures
        ({
            let metas = mint.meta_list();
            let data = mint.data_bytes();
            &&& metas.len() == 8
            &&& metas[0].address == mint.user
            &&& metas[1].address == mint.rwt_vault
            &&& metas[2].address == mint.rwt_mint
            &&& metas[3].address == mint.user_deposit
            &&& metas[4].address == mint.user_rwt
            &&& metas[5].address == mint.capital_acc
            &&& metas[6].address == mint.dao_fee_account
            &&& metas[7].address == mint.token_program
            &&& forall|i: int|
                0 <= i < 8 ==> ((#[trigger] metas[i]).is_signer
                    <==> i == 0) && (metas[i].is_writable
                    <==> 1 <= i <= 6)
            &&& data.len() == 24
            &&& le_value(data.subrange(8, 16)) == mint.amount_in
            &&& le_value(data.subrange(16, 24)) == mint.min_rwt_out
        }),
{
    let data = mint.data_bytes();
    le_width(mint.amount_in as nat, 8);
    le_width(mint.min_rwt_out as nat, 8);
    reveal_with_fuel(crate::bytes::le_limit, 9);
    crate::bytes::le_round_trip(mint.amount_in as nat, 8);
    crate::bytes::le_round_trip(mint.min_rwt_out as nat, 8);
    assert(data.subrange(8, 16) =~= le_bytes(mint.amount_in as nat, 8));
    assert(data.subrange(16, 24) =~= le_bytes(mint.min_rwt_out as nat, 8));
}

} // verus!
