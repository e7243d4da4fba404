use escrow::address::Address;
use escrow::error::{EscrowError, ProcessError};
use escrow::processor::{AccountInfo, Action, Processor};
use escrow::state::{Box, ProgramState, TokenBox};
use solana_program::program_option::COption;
use solana_program::program_pack::Pack;
use solana_program::pubkey::Pubkey;

const DAY: i64 = 86400;
const NOW: i64 = 1_700_000_000;

fn addr(b: u8) -> Address {
    Address { bytes: [b; 32] }
}

fn pda(seeds: &[&[u8]], program: &Address) -> Address {
    let (k, _) = Pubkey::find_program_address(seeds, &Pubkey::new_from_array(program.bytes));
    Address { bytes: k.to_bytes() }
}

fn ata(wallet: &Address, mint: &Address) -> Address {
    #[allow(deprecated)]
    let k = spl_associated_token_account::get_associated_token_address(
        &Pubkey::new_from_array(wallet.bytes),
        &Pubkey::new_from_array(mint.bytes),
    );
    Address { bytes: k.to_bytes() }
}

fn acct(key: Address, owner: Address, is_signer: bool, data: Vec<u8>) -> AccountInfo {
    AccountInfo { key, owner, is_signer, data }
}

fn plain(key: Address) -> AccountInfo {
    acct(key, addr(0), false, vec![])
}

fn create_data(selector: u8, id: &Address, days: u16, amount: u64) -> Vec<u8> {
    let mut d = vec![selector];
    d.extend_from_slice(&id.bytes);
    d.extend_from_slice(&days.to_le_bytes());
    d.extend_from_slice(&amount.to_le_bytes());
    d
}

struct World {
    program: Address,
    authority: Address,
    state: Address,
    sender: Address,
    id: Address,
}

fn world() -> World {
    let program = addr(7);
    World {
        program,
        authority: addr(9),
        state: pda(&[b"program_state"], &program),
        sender: addr(3),
        id: addr(42),
    }
}

fn state_account(w: &World) -> AccountInfo {
    acct(w.state, w.program, false, ProgramState { authority: w.authority }.pack())
}

fn create_currency_box(w: &World, amount: u64, days: u16) -> (Address, Box) {
    let box_key = pda(&[b"box", &w.sender.bytes, &w.id.bytes], &w.program);
    let accounts = vec![acct(w.sender, addr(0), true, vec![]), plain(box_key), plain(addr(0))];
    match Processor::process(&w.program, &accounts, &create_data(1, &w.id, days, amount), NOW) {
        Ok(Action::CreateBox(p)) => {
            assert!(p.box_address == box_key);
            assert!(p.sender == w.sender);
            (box_key, p.record)
        }
        other => panic!("create refused: {:?}", other),
    }
}

fn open(w: &World, box_key: Address, record: &Box, recipient: Address, now: i64) -> Result<Action, ProcessError> {
    let accounts = vec![acct(box_key, w.program, false, record.pack()), plain(recipient)];
    Processor::process(&w.program, &accounts, &vec![2], now)
}

fn sweep(w: &World, box_key: Address, record: &Box, caller: Address, now: i64) -> Result<Action, ProcessError> {
    let accounts = vec![state_account(w), acct(box_key, w.program, false, record.pack()), plain(caller)];
    Processor::process(&w.program, &accounts, &vec![3], now)
}

fn is_escrow(r: &Result<Action, ProcessError>, e: EscrowError) -> bool {
    matches!(r, Err(ProcessError::Escrow(x)) if *x == e)
}

#[test]
fn open_before_deadline_releases_once() {
    let w = world();
    let (box_key, record) = create_currency_box(&w, 1000, 1);
    assert_eq!(record.deadline, NOW + DAY);
    assert_eq!(record.amount, 1000);
    let recipient = addr(5);
    let closed = match open(&w, box_key, &record, recipient, NOW + 10) {
        Ok(Action::Release(p)) => {
            assert!(p.to == recipient);
            assert!(p.box_address == box_key);
            assert_eq!(p.amount, 1000);
            assert_eq!(p.record.deadline, 0);
            assert_eq!(p.record.amount, 0);
            p.record
        }
        other => panic!("open refused: {:?}", other),
    };
    let again = open(&w, box_key, &closed, recipient, NOW + 20);
    assert!(is_escrow(&again, EscrowError::UnknownId));
    let swept = sweep(&w, box_key, &closed, w.authority, NOW + 2 * DAY);
    assert!(is_escrow(&swept, EscrowError::UnknownId));
}

#[test]
fn open_after_deadline_is_too_late_and_sweep_takes_it() {
    let w = world();
    let (box_key, record) = create_currency_box(&w, 1000, 1);
    let late = NOW + DAY + 1;
    assert!(is_escrow(&open(&w, box_key, &record, addr(5), late), EscrowError::TooLate));
    let closed = match sweep(&w, box_key, &record, w.authority, late) {
        Ok(Action::Release(p)) => {
            assert!(p.to == w.authority);
            assert_eq!(p.amount, 1000);
            p.record
        }
        other => panic!("sweep refused: {:?}", other),
    };
    assert!(is_escrow(&sweep(&w, box_key, &closed, w.authority, late), EscrowError::UnknownId));
}

#[test]
fn deadline_boundary_belongs_to_sweep() {
    let w = world();
    let (box_key, record) = create_currency_box(&w, 77, 2);
    let d = record.deadline;
    assert!(open(&w, box_key, &record, addr(5), d - 1).is_ok());
    assert!(is_escrow(&open(&w, box_key, &record, addr(5), d), EscrowError::TooLate));
    assert!(is_escrow(&sweep(&w, box_key, &record, w.authority, d - 1), EscrowError::NotExpired));
    assert!(sweep(&w, box_key, &record, w.authority, d).is_ok());
}

#[test]
fn sweep_by_other_than_authority_is_unauthorized() {
    let w = world();
    let (box_key, record) = create_currency_box(&w, 10, 1);
    let r = sweep(&w, box_key, &record, addr(66), NOW + 5 * DAY);
    assert!(is_escrow(&r, EscrowError::Unauthorized));
}

#[test]
fn create_box_checks_inputs() {
    let w = world();
    let box_key = pda(&[b"box", &w.sender.bytes, &w.id.bytes], &w.program);
    let signer = acct(w.sender, addr(0), true, vec![]);
    let good = vec![signer.clone(), plain(box_key), plain(addr(0))];
    let r = Processor::process(&w.program, &good, &create_data(1, &w.id, 0, 5), NOW);
    assert!(is_escrow(&r, EscrowError::BadDeadline));
    let r = Processor::process(&w.program, &good, &create_data(1, &w.id, 366, 5), NOW);
    assert!(is_escrow(&r, EscrowError::BadDeadline));
    assert!(Processor::process(&w.program, &good, &create_data(1, &w.id, 365, 5), NOW).is_ok());
    let r = Processor::process(&w.program, &good, &create_data(1, &w.id, 3, 0), NOW);
    assert!(is_escrow(&r, EscrowError::NoSol));
    let unsigned = vec![plain(w.sender), plain(box_key), plain(addr(0))];
    let r = Processor::process(&w.program, &unsigned, &create_data(1, &w.id, 3, 5), NOW);
    assert!(matches!(r, Err(ProcessError::MissingRequiredSignature)));
    let wrong = vec![signer.clone(), plain(addr(8)), plain(addr(0))];
    let r = Processor::process(&w.program, &wrong, &create_data(1, &w.id, 3, 5), NOW);
    assert!(matches!(r, Err(ProcessError::InvalidSeeds)));
    let r = Processor::process(&w.program, &good, &create_data(1, &w.id, 365, 5), i64::MAX - 10);
    assert!(matches!(r, Err(ProcessError::ArithmeticOverflow)));
    let r = Processor::process(&w.program, &good[..2].to_vec(), &create_data(1, &w.id, 3, 5), NOW);
    assert!(matches!(r, Err(ProcessError::NotEnoughAccountKeys)));
}

#[test]
fn open_checks_owner_and_address() {
    let w = world();
    let (box_key, record) = create_currency_box(&w, 1000, 1);
    let foreign = vec![acct(box_key, addr(1), false, record.pack()), plain(addr(5))];
    let r = Processor::process(&w.program, &foreign, &vec![2], NOW);
    assert!(matches!(r, Err(ProcessError::InvalidAccountOwner)));
    let moved = vec![acct(addr(8), w.program, false, record.pack()), plain(addr(5))];
    let r = Processor::process(&w.program, &moved, &vec![2], NOW);
    assert!(matches!(r, Err(ProcessError::InvalidSeeds)));
    let short = vec![acct(box_key, w.program, false, vec![1, 2, 3]), plain(addr(5))];
    let r = Processor::process(&w.program, &short, &vec![2], NOW);
    assert!(matches!(r, Err(ProcessError::InvalidAccountData)));
}

#[test]
fn sweep_checks_state_address() {
    let w = world();
    let (box_key, record) = create_currency_box(&w, 1000, 1);
    let fake_state = acct(addr(4), w.program, false, ProgramState { authority: addr(66) }.pack());
    let accounts = vec![fake_state, acct(box_key, w.program, false, record.pack()), plain(addr(66))];
    let r = Processor::process(&w.program, &accounts, &vec![3], NOW + 3 * DAY);
    assert!(matches!(r, Err(ProcessError::InvalidSeeds)));
}

#[test]
fn initialize_records_signer_once() {
    let w = world();
    let accounts = vec![acct(w.authority, addr(0), true, vec![]), plain(w.state), plain(addr(0))];
    match Processor::process(&w.program, &accounts, &vec![0], NOW) {
        Ok(Action::Initialize(p)) => {
            assert!(p.authority == w.authority);
            assert!(p.state == w.state);
            assert!(p.record.authority == w.authority);
        }
        other => panic!("initialize refused: {:?}", other),
    }
    let again = vec![acct(addr(66), addr(0), true, vec![]), state_account(&w), plain(addr(0))];
    let r = Processor::process(&w.program, &again, &vec![0], NOW);
    assert!(matches!(r, Err(ProcessError::AccountAlreadyInitialized)));
    let unsigned = vec![plain(w.authority), plain(w.state), plain(addr(0))];
    let r = Processor::process(&w.program, &unsigned, &vec![0], NOW);
    assert!(matches!(r, Err(ProcessError::MissingRequiredSignature)));
    let wrong = vec![acct(w.authority, addr(0), true, vec![]), plain(addr(4)), plain(addr(0))];
    let r = Processor::process(&w.program, &wrong, &vec![0], NOW);
    assert!(matches!(r, Err(ProcessError::InvalidSeeds)));
}

struct TokenWorld {
    w: World,
    mint: Address,
    token_box: Address,
    vault_authority: Address,
    vault: Address,
}

fn token_world() -> TokenWorld {
    let w = world();
    let mint = addr(77);
    let token_box = pda(&[b"token_box", &w.sender.bytes, &w.id.bytes], &w.program);
    let vault_authority = pda(&[b"vault", &token_box.bytes], &w.program);
    let vault = ata(&vault_authority, &mint);
    TokenWorld { w, mint, token_box, vault_authority, vault }
}

fn create_token_accounts(t: &TokenWorld) -> Vec<AccountInfo> {
    vec![
        acct(t.w.sender, addr(0), true, vec![]),
        plain(addr(31)),
        plain(t.token_box),
        plain(t.vault),
        plain(t.mint),
        plain(t.vault_authority),
        plain(addr(32)),
        plain(addr(33)),
        plain(addr(0)),
    ]
}

fn create_token_box(t: &TokenWorld, amount: u64) -> TokenBox {
    match Processor::process(&t.w.program, &create_token_accounts(t), &create_data(4, &t.w.id, 1, amount), NOW) {
        Ok(Action::CreateTokenBox(p)) => {
            assert!(p.token_box == t.token_box);
            assert!(p.vault == t.vault);
            assert!(p.vault_authority == t.vault_authority);
            assert!(p.sender_token_account == addr(31));
            assert!(p.create_vault);
            assert!(p.record.mint == t.mint);
            assert_eq!(p.record.amount, amount);
            p.record
        }
        other => panic!("create token box refused: {:?}", other),
    }
}

fn sweep_token(t: &TokenWorld, record: &TokenBox, caller: Address, signs: bool, now: i64) -> Result<Action, ProcessError> {
    let accounts = vec![
        state_account(&t.w),
        acct(t.token_box, t.w.program, false, record.pack()),
        plain(t.vault),
        plain(addr(34)),
        acct(caller, addr(0), signs, vec![]),
        plain(t.vault_authority),
        plain(addr(32)),
    ];
    Processor::process(&t.w.program, &accounts, &vec![6], now)
}

fn open_token(t: &TokenWorld, record: &TokenBox, now: i64) -> Result<Action, ProcessError> {
    let accounts = vec![
        acct(t.token_box, t.w.program, false, record.pack()),
        plain(t.vault),
        plain(addr(35)),
        plain(t.w.sender),
        plain(t.vault_authority),
        plain(addr(32)),
    ];
    Processor::process(&t.w.program, &accounts, &vec![5], now)
}

#[test]
fn token_sweep_by_non_authority_moves_nothing() {
    let t = token_world();
    let record = create_token_box(&t, 500);
    let r = sweep_token(&t, &record, addr(66), true, NOW + 2 * DAY);
    assert!(is_escrow(&r, EscrowError::Unauthorized));
    assert_eq!(record.amount, 500);
    let r = sweep_token(&t, &record, t.w.authority, false, NOW + 2 * DAY);
    assert!(matches!(r, Err(ProcessError::MissingRequiredSignature)));
    match sweep_token(&t, &record, t.w.authority, true, NOW + 2 * DAY) {
        Ok(Action::ReleaseToken(p)) => {
            assert_eq!(p.amount, 500);
            assert!(p.destination == addr(34));
            assert!(p.rent_to == t.w.authority);
            assert!(p.vault == t.vault);
        }
        other => panic!("sweep refused: {:?}", other),
    }
}

#[test]
fn token_create_with_long_deadline_is_bad_deadline() {
    let t = token_world();
    let r = Processor::process(&t.w.program, &create_token_accounts(&t), &create_data(4, &t.w.id, 400, 500), NOW);
    assert!(is_escrow(&r, EscrowError::BadDeadline));
}

#[test]
fn token_create_checks_vault_addresses() {
    let t = token_world();
    let mut accounts = create_token_accounts(&t);
    accounts[3] = plain(addr(12));
    let r = Processor::process(&t.w.program, &accounts, &create_data(4, &t.w.id, 1, 5), NOW);
    assert!(is_escrow(&r, EscrowError::InvalidTokenAccount));
    let mut accounts = create_token_accounts(&t);
    accounts[5] = plain(addr(12));
    let r = Processor::process(&t.w.program, &accounts, &create_data(4, &t.w.id, 1, 5), NOW);
    assert!(matches!(r, Err(ProcessError::InvalidSeeds)));
    let mut accounts = create_token_accounts(&t);
    accounts[3] = acct(t.vault, addr(32), false, vec![0; 165]);
    let r = Processor::process(&t.w.program, &accounts, &create_data(4, &t.w.id, 1, 5), NOW);
    assert!(is_escrow(&r, EscrowError::InvalidTokenAccount));
}

fn token_account_bytes(t: &TokenWorld, amount: u64) -> Vec<u8> {
    let account = spl_token::state::Account {
        mint: Pubkey::new_from_array(t.mint.bytes),
        owner: Pubkey::new_from_array(t.vault_authority.bytes),
        amount,
        delegate: COption::None,
        state: spl_token::state::AccountState::Initialized,
        is_native: COption::None,
        delegated_amount: 0,
        close_authority: COption::None,
    };
    let mut data = vec![0u8; spl_token::state::Account::LEN];
    spl_token::state::Account::pack(account, &mut data).unwrap();
    data
}

#[test]
fn token_create_accepts_only_an_empty_existing_vault() {
    let t = token_world();
    let mut accounts = create_token_accounts(&t);
    accounts[3] = acct(t.vault, addr(32), false, token_account_bytes(&t, 0));
    match Processor::process(&t.w.program, &accounts, &create_data(4, &t.w.id, 1, 5), NOW) {
        Ok(Action::CreateTokenBox(p)) => assert!(!p.create_vault),
        other => panic!("create refused: {:?}", other),
    }
    accounts[3] = acct(t.vault, addr(32), false, token_account_bytes(&t, 7));
    let r = Processor::process(&t.w.program, &accounts, &create_data(4, &t.w.id, 1, 5), NOW);
    assert!(is_escrow(&r, EscrowError::InvalidTokenAccount));
}

#[test]
fn token_create_on_used_account_is_refused() {
    let t = token_world();
    let mut accounts = create_token_accounts(&t);
    accounts[2] = acct(t.token_box, t.w.program, false, vec![0; 112]);
    let r = Processor::process(&t.w.program, &accounts, &create_data(4, &t.w.id, 1, 5), NOW);
    assert!(matches!(r, Err(ProcessError::AccountAlreadyInitialized)));
}

#[test]
fn release_to_the_box_itself_is_refused() {
    let w = world();
    let (box_key, record) = create_currency_box(&w, 1000, 1);
    let r = open(&w, box_key, &record, box_key, NOW + 10);
    assert!(matches!(r, Err(ProcessError::RecipientIsBox)));
}

#[test]
fn create_on_used_account_is_refused() {
    let w = world();
    let box_key = pda(&[b"box", &w.sender.bytes, &w.id.bytes], &w.program);
    let used = Box { sender: w.sender, id: w.id, deadline: 0, amount: 0 };
    let accounts = vec![acct(w.sender, addr(0), true, vec![]), acct(box_key, w.program, false, used.pack()), plain(addr(0))];
    let r = Processor::process(&w.program, &accounts, &create_data(1, &w.id, 1, 5), NOW);
    assert!(matches!(r, Err(ProcessError::AccountAlreadyInitialized)));
}

#[test]
fn token_open_releases_once() {
    let t = token_world();
    let record = create_token_box(&t, 500);
    let closed = match open_token(&t, &record, NOW + 5) {
        Ok(Action::ReleaseToken(p)) => {
            assert_eq!(p.amount, 500);
            assert!(p.destination == addr(35));
            assert!(p.rent_to == t.w.sender);
            assert!(p.token_box == t.token_box);
            assert_eq!(p.record.amount, 0);
            p.record
        }
        other => panic!("open refused: {:?}", other),
    };
    assert!(is_escrow(&open_token(&t, &closed, NOW + 6), EscrowError::UnknownId));
    assert!(is_escrow(&sweep_token(&t, &closed, t.w.authority, true, NOW + 3 * DAY), EscrowError::UnknownId));
    assert!(is_escrow(&open_token(&t, &record, NOW + DAY), EscrowError::TooLate));
}

#[test]
fn unknown_or_malformed_requests_are_refused() {
    let w = world();
    let accounts = vec![plain(addr(1)); 9];
    for data in [vec![], vec![7], vec![200], vec![1, 2, 3], create_data(4, &w.id, 1, 1)[..42].to_vec()] {
        let r = Processor::process(&w.program, &accounts, &data, NOW);
        assert!(matches!(r, Err(ProcessError::InvalidInstructionData)));
    }
}

#[test]
fn error_codes_are_stable() {
    let all = [
        EscrowError::BadDeadline,
        EscrowError::UnknownId,
        EscrowError::TooLate,
        EscrowError::NotExpired,
        EscrowError::Unauthorized,
        EscrowError::NoSol,
        EscrowError::InvalidMint,
        EscrowError::TokenTransferFailed,
        EscrowError::InvalidTokenAccount,
    ];
    for (i, e) in all.iter().enumerate() {
        assert_eq!(e.code(), i as u32);
    }
}

#[test]
fn create_before_epoch_cannot_write_a_closed_box() {
    let w = world();
    let box_key = pda(&[b"box", &w.sender.bytes, &w.id.bytes], &w.program);
    let accounts = vec![acct(w.sender, addr(0), true, vec![]), plain(box_key), plain(addr(0))];
    let r = Processor::process(&w.program, &accounts, &create_data(1, &w.id, 1, 5), -DAY);
    assert!(matches!(r, Err(ProcessError::ArithmeticOverflow)));
    match Processor::process(&w.program, &accounts, &create_data(1, &w.id, 1, 5), -DAY + 1) {
        Ok(Action::CreateBox(p)) => assert_eq!(p.record.deadline, 1),
        other => panic!("create refused: {:?}", other),
    }
}

#[test]
fn foreign_account_is_refused_before_decoding() {
    let w = world();
    let accounts = vec![acct(addr(8), addr(1), false, vec![1, 2, 3]), plain(addr(5))];
    let r = Processor::process(&w.program, &accounts, &vec![2], NOW);
    assert!(matches!(r, Err(ProcessError::InvalidAccountOwner)));
    let accounts = vec![state_account(&w), acct(addr(8), addr(1), false, vec![1]), plain(w.authority)];
    let r = Processor::process(&w.program, &accounts, &vec![3], NOW);
    assert!(matches!(r, Err(ProcessError::InvalidAccountOwner)));
}

#[test]
fn closed_box_is_unknown_even_at_a_foreign_address() {
    let w = world();
    let closed = Box { sender: w.sender, id: w.id, deadline: 0, amount: 0 };
    let r = open(&w, addr(8), &closed, addr(5), NOW);
    assert!(is_escrow(&r, EscrowError::UnknownId));
}
