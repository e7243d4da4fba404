use escrow::address::{
    box_seed_list, check_associated_account, check_derived, signer_seeds, vault_seed_list, Address,
};
use escrow::instruction::EscrowInstruction;
use escrow::state::{Box, ProgramState, TokenBox};
use solana_program::pubkey::Pubkey;

fn addr(b: u8) -> Address {
    let mut bytes = [b; 32];
    bytes[0] = b.wrapping_add(1);
    Address { bytes }
}

#[test]
fn box_layout_matches_borsh() {
    let b = Box { sender: addr(1), id: addr(2), deadline: -5, amount: 0x0102_0304_0506_0708 };
    let expected = borsh::to_vec(&(b.sender.bytes, b.id.bytes, b.deadline, b.amount)).unwrap();
    assert_eq!(b.pack(), expected);
    assert_eq!(b.pack().len(), 80);
    let back = Box::unpack(&expected).unwrap();
    assert!(back.sender == b.sender && back.id == b.id);
    assert_eq!(back.deadline, -5);
    assert_eq!(back.amount, 0x0102_0304_0506_0708);
    assert!(Box::unpack(&expected[..79].to_vec()).is_none());
}

#[test]
fn token_box_layout_matches_borsh() {
    let b = TokenBox { sender: addr(1), id: addr(2), deadline: i64::MAX, amount: u64::MAX, mint: addr(9) };
    let expected =
        borsh::to_vec(&(b.sender.bytes, b.id.bytes, b.deadline, b.amount, b.mint.bytes)).unwrap();
    assert_eq!(b.pack(), expected);
    let back = TokenBox::unpack(&expected).unwrap();
    assert!(back.mint == b.mint);
    assert_eq!(back.deadline, i64::MAX);
    assert_eq!(back.amount, u64::MAX);
}

#[test]
fn program_state_layout() {
    let s = ProgramState { authority: addr(4) };
    assert_eq!(s.pack(), addr(4).bytes.to_vec());
    assert!(ProgramState::unpack(&s.pack()).unwrap().authority == addr(4));
    assert!(ProgramState::unpack(&vec![0; 31]).is_none());
}

#[test]
fn create_request_layout_matches_borsh() {
    let bytes = borsh::to_vec(&(1u8, addr(3).bytes, 365u16, 1000u64)).unwrap();
    match EscrowInstruction::unpack(&bytes).unwrap() {
        EscrowInstruction::CreateBox { id, deadline_days, amount } => {
            assert!(id == addr(3));
            assert_eq!(deadline_days, 365);
            assert_eq!(amount, 1000);
        }
        other => panic!("{:?}", other),
    }
    let mut longer = bytes.clone();
    longer.push(0);
    assert!(EscrowInstruction::unpack(&longer).is_err());
    assert!(matches!(EscrowInstruction::unpack(&vec![6, 1, 2]), Ok(EscrowInstruction::SweepBoxToken)));
}

#[test]
fn derivation_matches_runtime() {
    let program = addr(7);
    let seeds = box_seed_list(&addr(1), &addr(2));
    let pid = Pubkey::new_from_array(program.bytes);
    let (k, bump) = Pubkey::find_program_address(&[b"box", &addr(1).bytes, &addr(2).bytes], &pid);
    let key = Address { bytes: k.to_bytes() };
    assert_eq!(check_derived(&seeds, &program, &key), Some(bump));
    assert_eq!(check_derived(&seeds, &program, &addr(1)), None);
    let signed = signer_seeds(seeds, bump);
    assert_eq!(signed.len(), 4);
    assert_eq!(signed[0], b"box".to_vec());
    assert_eq!(signed[3], vec![bump]);
    let vault_seeds = vault_seed_list(&key);
    assert_eq!(vault_seeds[0], b"vault".to_vec());
    assert_eq!(vault_seeds[1], key.bytes.to_vec());
}

#[test]
fn associated_account_matches_token_subsystem() {
    let wallet = addr(5);
    let mint = addr(6);
    #[allow(deprecated)]
    let k = spl_associated_token_account::get_associated_token_address(
        &Pubkey::new_from_array(wallet.bytes),
        &Pubkey::new_from_array(mint.bytes),
    );
    let expected = Address { bytes: k.to_bytes() };
    assert!(check_associated_account(&wallet, &mint, &expected));
    assert!(!check_associated_account(&wallet, &mint, &wallet));
    assert!(!check_associated_account(&wallet, &addr(8), &expected));
}
