use anchor_lang::prelude::Pubkey;
use counter_program::{
    counter_address, decrement, increment, initialize, reset, Context, Counter, CounterAccount,
    CounterError, Decrement, Increment, Initialize, Key, Reset, Signer, COUNTER_SPACE,
};

const RENT_MINIMUM: u64 = (128 + 48) * 6960;

fn program_id() -> Key {
    let id: Pubkey = "5aGBXbYGppiv3F4TTtDn3pokarVUXTv5MoFkNbP4jsSJ".parse().unwrap();
    Key::new(id.to_bytes())
}

fn derived() -> Key {
    counter_address(&program_id()).unwrap()
}

fn user(byte: u8, lamports: u64) -> Signer {
    Signer { key: Key::new([byte; 32]), is_signer: true, lamports }
}

fn empty_account(address: Key) -> CounterAccount {
    CounterAccount { address, lamports: 0, record: None }
}

fn active_account(count: i64, authority: Key) -> CounterAccount {
    CounterAccount {
        address: derived(),
        lamports: RENT_MINIMUM,
        record: Some(Counter { count, authority }),
    }
}

fn count_of(c: &CounterAccount) -> i64 {
    c.record.unwrap().count
}

fn step(counter: CounterAccount, up: bool) -> (Result<(), CounterError>, CounterAccount) {
    if up {
        let mut ctx = Context { program_id: program_id(), accounts: Increment { counter } };
        let r = increment(&mut ctx);
        (r, ctx.accounts.counter)
    } else {
        let mut ctx = Context { program_id: program_id(), accounts: Decrement { counter } };
        let r = decrement(&mut ctx);
        (r, ctx.accounts.counter)
    }
}

fn do_reset(counter: CounterAccount, authority: Signer) -> (Result<(), CounterError>, CounterAccount) {
    let mut ctx = Context { program_id: program_id(), accounts: Reset { counter, authority } };
    let r = reset(&mut ctx);
    (r, ctx.accounts.counter)
}

#[test]
fn derived_address_matches_program_address_search() {
    let id: Pubkey = "5aGBXbYGppiv3F4TTtDn3pokarVUXTv5MoFkNbP4jsSJ".parse().unwrap();
    let (expected, _) = Pubkey::find_program_address(&[b"counter"], &id);
    let a = derived();
    assert_eq!(a.to_bytes(), expected.to_bytes());
    assert_ne!(a, program_id());
}

#[test]
fn derived_address_is_deterministic() {
    assert_eq!(counter_address(&program_id()), counter_address(&program_id()));
    let other = counter_address(&Key::new([7; 32])).unwrap();
    assert_ne!(other, derived());
}

#[test]
fn space_of_counter_record() {
    assert_eq!(COUNTER_SPACE, 48);
}

#[test]
fn initialize_sets_zero_and_authority() {
    let a = user(1, 5_000_000);
    let mut ctx = Context {
        program_id: program_id(),
        accounts: Initialize { counter: empty_account(derived()), user: a },
    };
    assert_eq!(initialize(&mut ctx), Ok(()));
    let rec = ctx.accounts.counter.record.unwrap();
    assert_eq!(rec.count, 0);
    assert_eq!(rec.authority, a.key);
    assert_eq!(ctx.accounts.counter.lamports, 1_224_960);
    assert_eq!(ctx.accounts.user.lamports, 5_000_000 - 1_224_960);
}

#[test]
fn initialize_tops_up_a_prefunded_account() {
    let mut counter = empty_account(derived());
    counter.lamports = 1_000_000;
    let mut ctx = Context {
        program_id: program_id(),
        accounts: Initialize { counter, user: user(1, 300_000) },
    };
    assert_eq!(initialize(&mut ctx), Ok(()));
    assert_eq!(ctx.accounts.counter.lamports, RENT_MINIMUM);
    assert_eq!(ctx.accounts.user.lamports, 300_000 - 224_960);
}

#[test]
fn initialize_twice_is_already_initialized() {
    let mut ctx = Context {
        program_id: program_id(),
        accounts: Initialize { counter: empty_account(derived()), user: user(1, 5_000_000) },
    };
    assert_eq!(initialize(&mut ctx), Ok(()));
    let after_first = ctx.accounts;
    assert_eq!(initialize(&mut ctx), Err(CounterError::AlreadyInitialized));
    assert_eq!(ctx.accounts.counter.record.unwrap().count, 0);
    assert_eq!(ctx.accounts.counter.record.unwrap().authority, after_first.user.key);
    assert_eq!(ctx.accounts.counter.lamports, after_first.counter.lamports);
    assert_eq!(ctx.accounts.user.lamports, after_first.user.lamports);
}

#[test]
fn initialize_without_funds_fails() {
    let mut ctx = Context {
        program_id: program_id(),
        accounts: Initialize { counter: empty_account(derived()), user: user(1, RENT_MINIMUM - 1) },
    };
    assert_eq!(initialize(&mut ctx), Err(CounterError::FundingFailure));
    assert!(ctx.accounts.counter.record.is_none());
    assert_eq!(ctx.accounts.user.lamports, RENT_MINIMUM - 1);
}

#[test]
fn initialize_with_exact_funds_succeeds() {
    let mut ctx = Context {
        program_id: program_id(),
        accounts: Initialize { counter: empty_account(derived()), user: user(1, RENT_MINIMUM) },
    };
    assert_eq!(initialize(&mut ctx), Ok(()));
    assert_eq!(ctx.accounts.user.lamports, 0);
}

#[test]
fn initialize_unsigned_payer_is_unauthorized() {
    let mut payer = user(1, 5_000_000);
    payer.is_signer = false;
    let mut ctx = Context {
        program_id: program_id(),
        accounts: Initialize { counter: empty_account(derived()), user: payer },
    };
    assert_eq!(initialize(&mut ctx), Err(CounterError::Unauthorized));
    assert!(ctx.accounts.counter.record.is_none());
}

#[test]
fn initialize_at_wrong_address_mismatches() {
    let mut ctx = Context {
        program_id: program_id(),
        accounts: Initialize { counter: empty_account(Key::new([9; 32])), user: user(1, 5_000_000) },
    };
    assert_eq!(initialize(&mut ctx), Err(CounterError::AddressMismatch));
    assert!(ctx.accounts.counter.record.is_none());
    assert_eq!(ctx.accounts.user.lamports, 5_000_000);
}

#[test]
fn scenario_initialize_increment_decrement_reset() {
    let a = user(1, 5_000_000);
    let b = user(2, 0);
    let mut ctx = Context {
        program_id: program_id(),
        accounts: Initialize { counter: empty_account(derived()), user: a },
    };
    assert_eq!(initialize(&mut ctx), Ok(()));
    let c = ctx.accounts.counter;
    assert_eq!(count_of(&c), 0);
    assert_eq!(c.record.unwrap().authority, a.key);
    let (r, c) = step(c, true);
    assert_eq!(r, Ok(()));
    assert_eq!(count_of(&c), 1);
    let (r, c) = step(c, true);
    assert_eq!(r, Ok(()));
    assert_eq!(count_of(&c), 2);
    let (r, c) = step(c, false);
    assert_eq!(r, Ok(()));
    assert_eq!(count_of(&c), 1);
    let (r, c) = do_reset(c, a);
    assert_eq!(r, Ok(()));
    assert_eq!(count_of(&c), 0);
    let (r, c) = do_reset(c, b);
    assert_eq!(r, Err(CounterError::Unauthorized));
    assert_eq!(count_of(&c), 0);
}

#[test]
fn increment_without_initialize_is_not_found() {
    let (r, c) = step(empty_account(derived()), true);
    assert_eq!(r, Err(CounterError::RecordNotFound));
    assert!(c.record.is_none());
}

#[test]
fn decrement_without_initialize_is_not_found() {
    let (r, _) = step(empty_account(derived()), false);
    assert_eq!(r, Err(CounterError::RecordNotFound));
}

#[test]
fn reset_without_initialize_is_not_found() {
    let (r, _) = do_reset(empty_account(derived()), user(1, 0));
    assert_eq!(r, Err(CounterError::RecordNotFound));
}

#[test]
fn count_is_net_of_steps() {
    let a = user(1, 0);
    let mut c = active_account(0, a.key);
    let ups = [true, true, false, true, false, false, false, true, false, false];
    for up in ups {
        let (r, next) = step(c, up);
        assert_eq!(r, Ok(()));
        c = next;
    }
    assert_eq!(count_of(&c), -2);
    assert_eq!(c.record.unwrap().authority, a.key);
}

#[test]
fn reset_by_other_signer_keeps_count() {
    let a = user(1, 0);
    let (r, c) = do_reset(active_account(17, a.key), user(3, 0));
    assert_eq!(r, Err(CounterError::Unauthorized));
    assert_eq!(count_of(&c), 17);
}

#[test]
fn reset_by_authority_without_signature_is_unauthorized() {
    let mut a = user(1, 0);
    let (r, c) = do_reset(active_account(17, a.key), a);
    assert_eq!(r, Ok(()));
    assert_eq!(count_of(&c), 0);
    a.is_signer = false;
    let (r, c) = do_reset(active_account(17, a.key), a);
    assert_eq!(r, Err(CounterError::Unauthorized));
    assert_eq!(count_of(&c), 17);
}

#[test]
fn reset_keeps_authority() {
    let a = user(1, 0);
    let (r, c) = do_reset(active_account(-40, a.key), a);
    assert_eq!(r, Ok(()));
    assert_eq!(c.record.unwrap().authority, a.key);
    assert_eq!(c.lamports, RENT_MINIMUM);
}

#[test]
fn operations_at_wrong_address_mismatch() {
    let a = user(1, 0);
    let mut wrong = active_account(5, a.key);
    wrong.address = Key::new([9; 32]);
    let (r, c) = step(wrong, true);
    assert_eq!(r, Err(CounterError::AddressMismatch));
    assert_eq!(count_of(&c), 5);
    let (r, c) = step(wrong, false);
    assert_eq!(r, Err(CounterError::AddressMismatch));
    assert_eq!(count_of(&c), 5);
    let (r, c) = do_reset(wrong, a);
    assert_eq!(r, Err(CounterError::AddressMismatch));
    assert_eq!(count_of(&c), 5);
}

#[test]
fn increment_at_max_overflows() {
    let a = user(1, 0);
    let (r, c) = step(active_account(i64::MAX, a.key), true);
    assert_eq!(r, Err(CounterError::Overflow));
    assert_eq!(count_of(&c), i64::MAX);
    let (r, c) = step(active_account(i64::MAX - 1, a.key), true);
    assert_eq!(r, Ok(()));
    assert_eq!(count_of(&c), i64::MAX);
}

#[test]
fn decrement_at_min_overflows() {
    let a = user(1, 0);
    let (r, c) = step(active_account(i64::MIN, a.key), false);
    assert_eq!(r, Err(CounterError::Overflow));
    assert_eq!(count_of(&c), i64::MIN);
    let (r, c) = step(active_account(0, a.key), false);
    assert_eq!(r, Ok(()));
    assert_eq!(count_of(&c), -1);
}

#[test]
fn process_takes_the_derived_address() {
    let a = user(1, 0);
    let mut inc = Increment { counter: active_account(3, a.key) };
    assert_eq!(inc.process(None), Err(CounterError::AddressMismatch));
    assert_eq!(inc.process(Some(derived())), Ok(()));
    assert_eq!(count_of(&inc.counter), 4);
}

#[test]
fn keys_compare_by_bytes() {
    let mut bytes = [4u8; 32];
    assert_eq!(Key::new(bytes), Key::new(bytes));
    bytes[31] = 5;
    assert_ne!(Key::new(bytes), Key::new([4; 32]));
    assert_eq!(Key::new(bytes).to_bytes(), bytes);
}
