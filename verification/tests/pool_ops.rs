use playrush_tournament::entries::EntryLedger;
use playrush_tournament::errors::PlayrushError;
use playrush_tournament::ids::AccountId;
use playrush_tournament::ids::TokenAccount;
use playrush_tournament::registry::PoolRegistry;
use playrush_tournament::registry::initialize_tournament;
use playrush_tournament::split::split_deposit;
use playrush_tournament::tournament::AssetMode;
use playrush_tournament::tournament::Tournament;
use playrush_tournament::tournament::close_entry;
use playrush_tournament::tournament::join_tournament_sol;
use playrush_tournament::tournament::join_tournament_token;

fn acct(id: u64) -> AccountId {
    AccountId { id }
}

fn new_pool(mode: AssetMode) -> Tournament {
    let mut registry = PoolRegistry::new();
    initialize_tournament(
        &mut registry,
        String::from("game"),
        String::from("tournament"),
        mode,
        acct(900),
    )
    .expect("fresh identity")
}

#[test]
fn split_determinism_for_101() {
    let (treasury_cut, pool_share) = split_deposit(101);
    assert_eq!(treasury_cut, 10);
    assert_eq!(pool_share, 91);
}

#[test]
fn split_covers_whole_amount() {
    for amount in [0u64, 1, 9, 10, 11, 99, 100, 1000, u64::MAX] {
        let (treasury_cut, pool_share) = split_deposit(amount);
        assert_eq!(treasury_cut, amount / 10);
        assert_eq!(treasury_cut + pool_share, amount);
    }
}

#[test]
fn initialize_sets_fresh_open_pool() {
    let t = new_pool(AssetMode::Native);
    assert_eq!(t.authority, acct(900));
    assert_eq!(t.game_id, "game");
    assert_eq!(t.tournament_id, "tournament");
    assert_eq!(t.asset_mode, AssetMode::Native);
    assert_eq!(t.total_pool, 0);
    assert!(t.is_active);
    assert!(!t.settled);
}

#[test]
fn duplicate_pool_identity_rejected() {
    let mut registry = PoolRegistry::new();
    initialize_tournament(
        &mut registry,
        String::from("g"),
        String::from("t"),
        AssetMode::Native,
        acct(1),
    )
    .expect("fresh identity");
    let second = initialize_tournament(
        &mut registry,
        String::from("g"),
        String::from("t"),
        AssetMode::FungibleToken,
        acct(2),
    );
    assert!(matches!(second, Err(PlayrushError::DuplicatePool)));
    let other = initialize_tournament(
        &mut registry,
        String::from("g"),
        String::from("t2"),
        AssetMode::Native,
        acct(1),
    );
    assert!(other.is_ok());
}

#[test]
fn sol_deposit_splits_and_grows_pool() {
    let mut t = new_pool(AssetMode::Native);
    let mut ledger = EntryLedger::new();
    let receipt =
        join_tournament_sol(&mut t, &mut ledger, acct(100), acct(1), 101, 77).expect("open pool");
    assert_eq!(receipt.treasury_transfer.amount, 10);
    assert_eq!(receipt.treasury_transfer.from, acct(1));
    assert_eq!(receipt.treasury_transfer.to, acct(900));
    assert_eq!(receipt.pool_transfer.amount, 91);
    assert_eq!(receipt.pool_transfer.from, acct(1));
    assert_eq!(receipt.pool_transfer.to, acct(100));
    assert_eq!(receipt.entry.tournament, acct(100));
    assert_eq!(receipt.entry.player, acct(1));
    assert_eq!(receipt.entry.joined_at, 77);
    assert_eq!(receipt.entry.score, 0);
    assert_eq!(t.total_pool, 91);
    assert_eq!(ledger.entries.len(), 1);
}

#[test]
fn conservation_independent_of_deposit_order() {
    let amounts = [101u64, 50, 7, 999, 13];
    let mut forward = new_pool(AssetMode::Native);
    let mut ledger_a = EntryLedger::new();
    for (i, amount) in amounts.iter().enumerate() {
        join_tournament_sol(&mut forward, &mut ledger_a, acct(100), acct(i as u64), *amount, 0)
            .expect("open pool");
    }
    let mut backward = new_pool(AssetMode::Native);
    let mut ledger_b = EntryLedger::new();
    for (i, amount) in amounts.iter().rev().enumerate() {
        join_tournament_sol(&mut backward, &mut ledger_b, acct(100), acct(i as u64), *amount, 0)
            .expect("open pool");
    }
    let expected: u64 = amounts.iter().map(|a| a - a / 10).sum();
    assert_eq!(forward.total_pool, expected);
    assert_eq!(backward.total_pool, expected);
}

#[test]
fn closed_pool_rejects_deposit() {
    let mut t = new_pool(AssetMode::Native);
    let mut ledger = EntryLedger::new();
    join_tournament_sol(&mut t, &mut ledger, acct(100), acct(1), 101, 0).expect("open pool");
    close_entry(&mut t, acct(900)).expect("authority closes");
    let denied = join_tournament_sol(&mut t, &mut ledger, acct(100), acct(2), 55, 0);
    assert_eq!(denied.unwrap_err(), PlayrushError::TournamentClosed);
    assert_eq!(t.total_pool, 91);
    assert_eq!(ledger.entries.len(), 1);
}

#[test]
fn duplicate_entry_rejected_without_moving_funds() {
    let mut t = new_pool(AssetMode::Native);
    let mut ledger = EntryLedger::new();
    join_tournament_sol(&mut t, &mut ledger, acct(100), acct(1), 101, 0).expect("open pool");
    let again = join_tournament_sol(&mut t, &mut ledger, acct(100), acct(1), 500, 9);
    assert_eq!(again.unwrap_err(), PlayrushError::DuplicateEntry);
    assert_eq!(t.total_pool, 91);
    assert_eq!(ledger.entries.len(), 1);
}

#[test]
fn same_player_may_enter_two_pools() {
    let mut a = new_pool(AssetMode::Native);
    let mut b = new_pool(AssetMode::Native);
    let mut ledger = EntryLedger::new();
    join_tournament_sol(&mut a, &mut ledger, acct(100), acct(1), 100, 0).expect("open pool");
    join_tournament_sol(&mut b, &mut ledger, acct(200), acct(1), 100, 0).expect("other pool");
    assert_eq!(ledger.entries.len(), 2);
}

#[test]
fn wrong_join_method_rejected_both_ways() {
    let mut native = new_pool(AssetMode::Native);
    let mut token = new_pool(AssetMode::FungibleToken);
    let mut ledger = EntryLedger::new();
    let mint = acct(5000);
    let player_acc = TokenAccount { address: acct(10), mint, amount: 900 };
    let pool_acc = TokenAccount { address: acct(11), mint, amount: 0 };
    let treasury_acc = TokenAccount { address: acct(12), mint, amount: 0 };
    let wrong = join_tournament_token(
        &mut native,
        &mut ledger,
        &player_acc,
        &pool_acc,
        &treasury_acc,
        mint,
        acct(100),
        acct(1),
        100,
        0,
    );
    assert_eq!(wrong.unwrap_err(), PlayrushError::InvalidJoinMethod);
    let wrong = join_tournament_sol(&mut token, &mut ledger, acct(100), acct(1), 100, 0);
    assert_eq!(wrong.unwrap_err(), PlayrushError::InvalidJoinMethod);
    assert_eq!(native.total_pool, 0);
    assert_eq!(token.total_pool, 0);
    assert_eq!(ledger.entries.len(), 0);
}

#[test]
fn wrong_token_mint_rejected() {
    let mut t = new_pool(AssetMode::FungibleToken);
    let mut ledger = EntryLedger::new();
    let mint = acct(5000);
    let player_acc = TokenAccount { address: acct(10), mint, amount: 900 };
    let pool_acc = TokenAccount { address: acct(11), mint: acct(5001), amount: 0 };
    let treasury_acc = TokenAccount { address: acct(12), mint, amount: 0 };
    let denied = join_tournament_token(
        &mut t,
        &mut ledger,
        &player_acc,
        &pool_acc,
        &treasury_acc,
        mint,
        acct(100),
        acct(1),
        100,
        0,
    );
    assert_eq!(denied.unwrap_err(), PlayrushError::InvalidTokenMint);
    assert_eq!(t.total_pool, 0);
}

#[test]
fn token_deposit_moves_between_token_accounts() {
    let mut t = new_pool(AssetMode::FungibleToken);
    let mut ledger = EntryLedger::new();
    let mint = acct(5000);
    let player_acc = TokenAccount { address: acct(10), mint, amount: 900 };
    let pool_acc = TokenAccount { address: acct(11), mint, amount: 0 };
    let treasury_acc = TokenAccount { address: acct(12), mint, amount: 0 };
    let receipt = join_tournament_token(
        &mut t,
        &mut ledger,
        &player_acc,
        &pool_acc,
        &treasury_acc,
        mint,
        acct(100),
        acct(1),
        250,
        3,
    )
    .expect("open pool, right mint");
    assert_eq!(receipt.treasury_transfer.amount, 25);
    assert_eq!(receipt.treasury_transfer.from, acct(10));
    assert_eq!(receipt.treasury_transfer.to, acct(12));
    assert_eq!(receipt.pool_transfer.amount, 225);
    assert_eq!(receipt.pool_transfer.from, acct(10));
    assert_eq!(receipt.pool_transfer.to, acct(11));
    assert_eq!(t.total_pool, 225);
    assert_eq!(receipt.entry.player, acct(1));
    assert_eq!(receipt.entry.joined_at, 3);
}

#[test]
fn deposit_overflow_fails_closed() {
    let mut t = new_pool(AssetMode::Native);
    let mut ledger = EntryLedger::new();
    join_tournament_sol(&mut t, &mut ledger, acct(100), acct(1), u64::MAX, 0).expect("fits");
    let before = t.total_pool;
    let denied = join_tournament_sol(&mut t, &mut ledger, acct(100), acct(2), u64::MAX, 0);
    assert_eq!(denied.unwrap_err(), PlayrushError::Overflow);
    assert_eq!(t.total_pool, before);
    assert_eq!(ledger.entries.len(), 1);
}

#[test]
fn authority_gate_on_close() {
    let mut t = new_pool(AssetMode::Native);
    let denied = close_entry(&mut t, acct(901));
    assert_eq!(denied.unwrap_err(), PlayrushError::Unauthorized);
    assert!(t.is_active);
    let changed = close_entry(&mut t, acct(900)).expect("authority");
    assert!(changed);
    assert!(!t.is_active);
}

#[test]
fn close_is_idempotent_and_reports_change() {
    let mut t = new_pool(AssetMode::Native);
    assert!(close_entry(&mut t, acct(900)).expect("authority"));
    assert!(!close_entry(&mut t, acct(900)).expect("authority"));
    assert!(!t.is_active);
}

#[test]
fn entry_ledger_tracks_pairs() {
    let mut ledger = EntryLedger::new();
    assert!(!ledger.contains_entry(acct(100), acct(1)));
    let mut t = new_pool(AssetMode::Native);
    join_tournament_sol(&mut t, &mut ledger, acct(100), acct(1), 10, 0).expect("open pool");
    assert!(ledger.contains_entry(acct(100), acct(1)));
    assert!(!ledger.contains_entry(acct(100), acct(2)));
    assert!(!ledger.contains_entry(acct(200), acct(1)));
}
