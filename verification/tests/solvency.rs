//! A pool's life: its vaults cover its reserves and all accrued fees after every step.
use areal_contracts::account::{AccountInfo, Context};
use areal_contracts::actions::TokenTransfer;
use areal_contracts::address::find_address_3;
use areal_contracts::error::{DexError, ProgramError};
use areal_contracts::native_dex::constants::DexParams;
use areal_contracts::native_dex::instructions::add_liquidity;
use areal_contracts::native_dex::instructions::add_liquidity::AddLiquidity;
use areal_contracts::native_dex::instructions::claim_lp_fees;
use areal_contracts::native_dex::instructions::claim_lp_fees::{find_pending_fees, ClaimLpFees};
use areal_contracts::native_dex::instructions::remove_liquidity;
use areal_contracts::native_dex::instructions::remove_liquidity::RemoveLiquidity;
use areal_contracts::native_dex::instructions::swap;
use areal_contracts::native_dex::instructions::swap::{BinLedgerReply, Swap, SwapOutcome};
use areal_contracts::native_dex::instructions::zap_liquidity;
use areal_contracts::native_dex::instructions::zap_liquidity::ZapLiquidity;
use areal_contracts::native_dex::state::{DexConfig, LpPosition, PoolState};
use areal_contracts::programs::{spl_token_program, system_program};

const RWT: [u8; 32] = [0xA6; 32];
const OT: [u8; 32] = [0x77; 32];
const PROGRAM: [u8; 32] = [0xD0; 32];
const POOL: [u8; 32] = [0x03; 32];
const NOW: i64 = 1_700_000_000;

struct World {
    pool: PoolState,
    positions: Vec<Option<LpPosition>>,
    vault_a: u64,
    vault_b: u64,
}

fn params() -> DexParams {
    DexParams {
        rwt_mint: RWT,
        usdc_mint: [0x11; 32],
        usdy_mint: [0x22; 32],
        rwt_vault_discriminator: [0; 8],
        min_liquidity: 1_000,
        ot_treasury_fee_bps: 20,
        default_base_fee_bps: 30,
        default_lp_fee_share_bps: 5_000,
        max_fee_bps: 1_000,
        max_bin_step_bps: 100,
        max_initial_active_bin: 100_000,
        max_shift_distance: 100,
    }
}

fn config() -> DexConfig {
    DexConfig {
        authority: [1; 32],
        pending_authority: [0; 32],
        has_pending: false,
        pause_authority: [2; 32],
        base_fee_bps: 100,
        lp_fee_share_bps: 6_000,
        areal_fee_destination: [0x0F; 32],
        rebalancer: [3; 32],
        is_active: true,
        bump: 255,
    }
}

fn account(address: [u8; 32]) -> AccountInfo {
    AccountInfo {
        address,
        owner: spl_token_program(),
        is_signer: true,
        is_writable: true,
        lamports: 10,
        data: vec![],
    }
}

fn fee_account() -> AccountInfo {
    let mut data = RWT.to_vec();
    data.extend_from_slice(&[0u8; 40]);
    AccountInfo { data, ..account([0x0F; 32]) }
}

fn provider(n: usize) -> [u8; 32] {
    [0x50 + n as u8; 32]
}

fn add_accounts(n: usize) -> AddLiquidity {
    let (position, _) = find_address_3(b"lp", &POOL, &provider(n), &PROGRAM).unwrap();
    AddLiquidity {
        provider: account(provider(n)),
        payer: account([0x09; 32]),
        dex_config: account([0x02; 32]),
        pool_state: account(POOL),
        lp_position: account(position),
        provider_token_a: account([0x04; 32]),
        provider_token_b: account([0x05; 32]),
        vault_a: account([0xAA; 32]),
        vault_b: account([0xBB; 32]),
        token_program: account(spl_token_program()),
        system_program: account(system_program()),
    }
}

impl World {
    fn new() -> World {
        let mut pool = PoolState::decode(&vec![0u8; PoolState::SIZE]).unwrap();
        pool.token_a_mint = OT;
        pool.token_b_mint = RWT;
        pool.vault_a = [0xAA; 32];
        pool.vault_b = [0xBB; 32];
        pool.fee_bps = 100;
        pool.is_active = true;
        pool.has_ot_treasury = true;
        pool.ot_treasury_fee_destination = [0x42; 32];
        World { pool, positions: vec![None, None, None], vault_a: 0, vault_b: 0 }
    }

    fn carry_out(&mut self, transfer: Option<TokenTransfer>) {
        if let Some(t) = transfer {
            if t.to == [0xAA; 32] {
                self.vault_a += t.amount;
            }
            if t.to == [0xBB; 32] {
                self.vault_b += t.amount;
            }
            if t.from == [0xAA; 32] {
                self.vault_a -= t.amount;
            }
            if t.from == [0xBB; 32] {
                self.vault_b -= t.amount;
            }
        }
    }

    fn check(&self) {
        let mut owed_a = 0;
        let mut owed_b = 0;
        let mut held = 0;
        for position in self.positions.iter().flatten() {
            let (a, b) = find_pending_fees(&self.pool, position).unwrap();
            owed_a += a;
            owed_b += b;
            held += position.shares;
        }
        assert!(self.pool.reserve_a + owed_a <= self.vault_a);
        assert!(self.pool.reserve_b + owed_b <= self.vault_b);
        assert!(held <= self.pool.total_lp_shares);
    }

    fn add(&mut self, n: usize, a: u64, b: u64) {
        let accounts = add_accounts(n);
        let none = vec![];
        let ctx = Context {
            accounts: &accounts,
            remaining_accounts: &none,
            program_id: &PROGRAM,
            now: NOW,
        };
        let existing = self.positions[n];
        let o = add_liquidity::handler(&ctx, &params(), &config(), &self.pool, &existing, a, b, 0)
            .unwrap();
        self.pool = o.pool;
        self.positions[n] = Some(o.position);
        self.carry_out(o.transfer_a);
        self.carry_out(o.transfer_b);
        self.carry_out(o.claims.transfer_a);
        self.carry_out(o.claims.transfer_b);
        self.check();
    }

    fn zap(&mut self, n: usize, a: u64, b: u64) {
        let base = add_accounts(n);
        let accounts = ZapLiquidity {
            provider: base.provider,
            payer: base.payer,
            dex_config: base.dex_config,
            pool_state: base.pool_state,
            lp_position: base.lp_position,
            provider_token_a: base.provider_token_a,
            provider_token_b: base.provider_token_b,
            vault_a: base.vault_a,
            vault_b: base.vault_b,
            areal_fee_account: fee_account(),
            token_program: base.token_program,
            system_program: base.system_program,
        };
        let treasury = vec![account([0x42; 32])];
        let ctx = Context {
            accounts: &accounts,
            remaining_accounts: &treasury,
            program_id: &PROGRAM,
            now: NOW,
        };
        let existing = self.positions[n];
        let o = zap_liquidity::handler(&ctx, &params(), &config(), &self.pool, &existing, a, b, 0)
            .unwrap();
        self.pool = o.pool;
        self.positions[n] = Some(o.position);
        self.carry_out(o.transfer_a);
        self.carry_out(o.transfer_b);
        self.carry_out(o.claims.transfer_a);
        self.carry_out(o.claims.transfer_b);
        self.carry_out(o.protocol_fee);
        self.carry_out(o.ot_treasury_fee);
        self.check();
    }

    fn trade(&mut self, amount: u64, a_to_b: bool) {
        let (vault_in, vault_out) = if a_to_b {
            ([0xAA; 32], [0xBB; 32])
        } else {
            ([0xBB; 32], [0xAA; 32])
        };
        let accounts = Swap {
            user: account([0x01; 32]),
            dex_config: account([0x02; 32]),
            pool_state: account(POOL),
            user_token_in: account([0x04; 32]),
            user_token_out: account([0x05; 32]),
            vault_in: account(vault_in),
            vault_out: account(vault_out),
            areal_fee_account: fee_account(),
            token_program: account(spl_token_program()),
        };
        let treasury = vec![account([0x42; 32])];
        let ctx = Context {
            accounts: &accounts,
            remaining_accounts: &treasury,
            program_id: &PROGRAM,
            now: NOW,
        };
        let silent = BinLedgerReply {
            unreadable: None,
            has_organic_ask: false,
            best_ask_price_q: None,
            walk: Err(ProgramError::Dex(DexError::EmptyReserves)),
        };
        let product = self.pool.reserve_a as u128 * self.pool.reserve_b as u128;
        let r = swap::handler(&ctx, &params(), &config(), &self.pool, &silent, amount, 0, a_to_b);
        match r {
            Ok(SwapOutcome::Traded(t)) => {
                self.pool = t.pool;
                self.carry_out(Some(t.transfer_in));
                self.carry_out(Some(t.transfer_out));
                self.carry_out(t.protocol_fee);
                self.carry_out(t.ot_treasury_fee);
            }
            other => panic!("expected a trade, got {:?}", other),
        }
        assert!(self.pool.reserve_a as u128 * self.pool.reserve_b as u128 >= product);
        self.check();
    }

    fn claim(&mut self, n: usize) -> (u64, u64) {
        let base = add_accounts(n);
        let accounts = ClaimLpFees {
            recipient: base.provider,
            pool_state: base.pool_state,
            lp_position: base.lp_position,
            pool_vault_a: base.vault_a,
            pool_vault_b: base.vault_b,
            recipient_token_a_ata: base.provider_token_a,
            recipient_token_b_ata: base.provider_token_b,
            token_program: base.token_program,
        };
        let none = vec![];
        let ctx = Context {
            accounts: &accounts,
            remaining_accounts: &none,
            program_id: &PROGRAM,
            now: NOW,
        };
        let o = claim_lp_fees::handler(&ctx, &self.pool, &self.positions[n].unwrap()).unwrap();
        self.positions[n] = Some(o.position);
        self.carry_out(o.transfer_a);
        self.carry_out(o.transfer_b);
        self.check();
        (o.event.claimable_a, o.event.claimable_b)
    }

    fn remove(&mut self, n: usize, shares: u128) {
        let base = add_accounts(n);
        let accounts = RemoveLiquidity {
            provider: base.provider,
            pool_state: base.pool_state,
            lp_position: base.lp_position,
            provider_token_a: base.provider_token_a,
            provider_token_b: base.provider_token_b,
            vault_a: base.vault_a,
            vault_b: base.vault_b,
            token_program: base.token_program,
        };
        let none = vec![];
        let ctx = Context {
            accounts: &accounts,
            remaining_accounts: &none,
            program_id: &PROGRAM,
            now: NOW,
        };
        let position = self.positions[n].unwrap();
        let o = remove_liquidity::handler(&ctx, &self.pool, &position, shares).unwrap();
        self.pool = o.pool;
        self.positions[n] = if o.close.is_some() { None } else { Some(o.position) };
        self.carry_out(o.transfer_a);
        self.carry_out(o.transfer_b);
        self.carry_out(o.claims.transfer_a);
        self.carry_out(o.claims.transfer_b);
        self.check();
    }
}

#[test]
fn a_pool_stays_solvent() {
    let mut world = World::new();
    world.check();
    world.add(0, 1_000_003, 2_000_017);
    world.trade(77_777, true);
    world.add(1, 333_333, 999_999);
    world.trade(123_457, false);
    world.zap(2, 0, 90_001);
    world.zap(2, 50_021, 0);
    world.zap(0, 10_007, 60_013);
    world.trade(4_321, true);
    let (a, b) = world.claim(1);
    assert_eq!(a, 0);
    assert!(b > 0);
    assert_eq!(world.claim(1), (0, 0));
    let half = world.positions[0].unwrap().shares / 2;
    world.remove(0, half);
    world.trade(9_999, false);
    for n in 0..3 {
        let shares = world.positions[n].unwrap().shares;
        world.remove(n, shares);
    }
    assert_eq!(world.pool.total_lp_shares, 1_000);
    assert!(world.positions.iter().all(|p| p.is_none()));
}
