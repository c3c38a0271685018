//! Byte-level checks of the entrant ledger's packed storage region.

use qraffle::entrants::BASE_SIZE;
use qraffle::Buy;
use qraffle::Entrants;
use qraffle::Pubkey;
use qraffle::Raffle;
use qraffle::RaffleError;
use qraffle::buy;

#[test]
fn appends_pack_after_the_header() {
    let mut entrants = Entrants { total: 0, max: 2 };
    let mut data = vec![0xAAu8; BASE_SIZE + 32 * 2];
    let first = Pubkey::new([1u8; 32]);
    let second = Pubkey::new([2u8; 32]);

    assert_eq!(entrants.append_entrant(&mut data, first), Ok(()));
    assert_eq!(entrants.total, 1);
    assert_eq!(entrants.append_entrant(&mut data, second), Ok(()));
    assert_eq!(entrants.total, 2);

    // the header bytes are untouched
    assert!(data[..BASE_SIZE].iter().all(|b| *b == 0xAA));
    // slot 0 holds the first identity, slot 1 the second
    assert_eq!(&data[BASE_SIZE..BASE_SIZE + 32], &[1u8; 32]);
    assert_eq!(&data[BASE_SIZE + 32..BASE_SIZE + 64], &[2u8; 32]);

    // a third append overruns the capacity and changes nothing
    let snapshot = data.clone();
    assert_eq!(
        entrants.append_entrant(&mut data, Pubkey::new([3u8; 32])),
        Err(RaffleError::NotEnoughTicketsLeft)
    );
    assert_eq!(entrants.total, 2);
    assert_eq!(data, snapshot);
}

#[test]
fn get_entrant_projects_slots_in_order() {
    let mut ctx = Buy {
        raffle: Raffle { bump: 1, price: 10, end_timestamp: 100, entrants: Pubkey::new([0u8; 32]) },
        entrants: Entrants { total: 0, max: 4 },
        entrants_data: vec![0u8; BASE_SIZE + 32 * 4],
        proceeds_balance: 0,
        buyer: Pubkey::new([5u8; 32]),
    };
    assert_eq!(buy(&mut ctx, 50, 2), Ok(()));
    ctx.buyer = Pubkey::new([6u8; 32]);
    assert_eq!(buy(&mut ctx, 60, 1), Ok(()));

    // ticket numbering follows append order
    assert_eq!(Entrants::get_entrant(&ctx.entrants_data, 0).to_bytes(), [5u8; 32]);
    assert_eq!(Entrants::get_entrant(&ctx.entrants_data, 1).to_bytes(), [5u8; 32]);
    assert_eq!(Entrants::get_entrant(&ctx.entrants_data, 2).to_bytes(), [6u8; 32]);
}

#[test]
fn identity_roundtrip_and_equality() {
    let mut raw = [0u8; 32];
    for (i, b) in raw.iter_mut().enumerate() {
        *b = i as u8;
    }
    let k = Pubkey::new(raw);
    assert_eq!(k.to_bytes(), raw);
    assert!(k.equals(&Pubkey::new(raw)));
    let mut other = raw;
    other[31] = 0xFF;
    assert!(!k.equals(&Pubkey::new(other)));
}
