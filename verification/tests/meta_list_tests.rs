use transfer_hook::error::TransferError;
use transfer_hook::meta_list::init_extra_account_meta_list;
use transfer_hook::meta_list::size_of;
use transfer_hook::meta_list::ExtraAccountMeta;
use transfer_hook::meta_list::Seed;

/// The packed address configuration of the whitelist descriptor: the
/// literal-seed tag, the seed's length, the seed, zero padding.
fn whitelist_config() -> Vec<u8> {
    let mut c = vec![1u8, 9];
    c.extend_from_slice(b"whitelist");
    while c.len() < 32 {
        c.push(0);
    }
    c
}

#[test]
fn new_with_seeds_packs_a_literal() {
    let seeds = vec![Seed::Literal {
        bytes: b"whitelist".to_vec(),
    }];
    let meta = ExtraAccountMeta::new_with_seeds(&seeds, false, false).unwrap();
    assert_eq!(meta.discriminator, 1);
    assert_eq!(meta.address_config, whitelist_config());
    assert!(!meta.is_signer);
    assert!(!meta.is_writable);
}

#[test]
fn new_with_seeds_packs_two_literals() {
    let seeds = vec![
        Seed::Literal {
            bytes: vec![7, 8],
        },
        Seed::Literal {
            bytes: vec![9],
        },
    ];
    let meta = ExtraAccountMeta::new_with_seeds(&seeds, true, false).unwrap();
    let mut expected = vec![1u8, 2, 7, 8, 1, 1, 9];
    while expected.len() < 32 {
        expected.push(0);
    }
    assert_eq!(meta.address_config, expected);
    assert!(meta.is_signer);
    assert!(!meta.is_writable);
}

#[test]
fn new_with_seeds_rejects_an_oversized_seed() {
    let seeds = vec![Seed::Literal {
        bytes: vec![3u8; 31],
    }];
    let r = ExtraAccountMeta::new_with_seeds(&seeds, false, false);
    assert!(matches!(r, Err(TransferError::AllocationError)));
}

#[test]
fn size_of_counts_the_prefix_and_the_descriptors() {
    assert_eq!(size_of(0), Ok(4));
    assert_eq!(size_of(1), Ok(39));
    assert_eq!(size_of(2), Ok(74));
}

#[test]
fn init_writes_the_encoded_list() {
    let seeds = vec![Seed::Literal {
        bytes: b"whitelist".to_vec(),
    }];
    let meta = ExtraAccountMeta::new_with_seeds(&seeds, false, false).unwrap();
    let metas = vec![meta];
    let mut data = vec![0u8; 39];
    assert_eq!(init_extra_account_meta_list(&mut data, &metas), Ok(()));
    let mut expected = vec![1u8, 0, 0, 0, 1];
    expected.extend_from_slice(&whitelist_config());
    expected.push(0);
    expected.push(0);
    assert_eq!(data, expected);
}

#[test]
fn init_rejects_a_wrongly_sized_buffer() {
    let seeds = vec![Seed::Literal {
        bytes: b"whitelist".to_vec(),
    }];
    let meta = ExtraAccountMeta::new_with_seeds(&seeds, false, false).unwrap();
    let metas = vec![meta];
    let mut data = vec![0u8; 40];
    assert_eq!(
        init_extra_account_meta_list(&mut data, &metas),
        Err(TransferError::AllocationError)
    );
    assert_eq!(data, vec![0u8; 40]);
}
