use transfer_hook::error::TransferError;
use transfer_hook::hook::add_to_whitelist;
use transfer_hook::hook::extra_account_meta_list_seeds;
use transfer_hook::hook::initialize_extra_account_meta_list;
use transfer_hook::hook::transfer_hook;
use transfer_hook::hook::AddToWhiteList;
use transfer_hook::hook::InitializeExtraAccountMetaList;
use transfer_hook::hook::TransferHook;
use transfer_hook::pubkey::Pubkey;
use transfer_hook::whitelist::WhiteList;

fn key(b: u8) -> Pubkey {
    Pubkey::new([b; 32])
}

/// A source token account whose transfer-hook extension carries `flag`.
fn source_account(flag: u8) -> Vec<u8> {
    let mut v = vec![0u8; 165];
    v.push(2);
    v.extend_from_slice(&[15, 0, 1, 0, flag]);
    v
}

fn check(white_list: &WhiteList, destination: Pubkey, flag: u8) -> Result<(), TransferError> {
    let ctx = TransferHook {
        source_token: source_account(flag),
        mint: key(200),
        destination_token: destination,
        owner: key(201),
        extra_account_meta_list: vec![],
        white_list: WhiteList {
            authority: white_list.authority,
            white_list: white_list.white_list.clone(),
        },
    };
    transfer_hook(&ctx, 1_000)
}

#[test]
fn initialize_sets_authority_and_leaves_no_entries() {
    let payer = key(1);
    let ctx = initialize_extra_account_meta_list(payer, key(2)).unwrap();
    assert_eq!(ctx.white_list.authority, payer);
    assert_eq!(ctx.white_list.white_list.len(), 0);
    assert_eq!(ctx.payer, payer);
    assert_eq!(ctx.mint, key(2));
}

#[test]
fn initialize_stores_the_descriptor_list() {
    let ctx = initialize_extra_account_meta_list(key(1), key(2)).unwrap();
    let mut expected = vec![1u8, 0, 0, 0, 1, 1, 9];
    expected.extend_from_slice(b"whitelist");
    while expected.len() < 37 {
        expected.push(0);
    }
    expected.push(0);
    expected.push(0);
    assert_eq!(ctx.extra_account_meta_list, expected);
    assert_eq!(ctx.extra_account_meta_list.len(), 39);
}

#[test]
fn extra_account_metas_declares_the_whitelist() {
    let metas = InitializeExtraAccountMetaList::extra_account_metas().unwrap();
    assert_eq!(metas.len(), 1);
    assert_eq!(metas[0].discriminator, 1);
    assert!(!metas[0].is_signer);
    assert!(!metas[0].is_writable);
    let mut expected = vec![1u8, 9];
    expected.extend_from_slice(b"whitelist");
    while expected.len() < 32 {
        expected.push(0);
    }
    assert_eq!(metas[0].address_config, expected);
}

#[test]
fn meta_list_seeds_are_the_tag_and_the_mint() {
    let mint = key(42);
    let (tag, mint_bytes) = extra_account_meta_list_seeds(&mint);
    assert_eq!(tag, b"extra-account-metas".to_vec());
    assert_eq!(mint_bytes, vec![42u8; 32]);
}

#[test]
fn add_to_whitelist_requires_the_authority() {
    let payer = key(1);
    let stranger = key(2);
    let mut ctx = AddToWhiteList {
        new_account: key(10),
        white_list: WhiteList::new(payer),
        authority: stranger,
    };
    assert_eq!(
        add_to_whitelist(&mut ctx),
        Err(TransferError::AuthorizationError)
    );
    assert_eq!(ctx.white_list.white_list.len(), 0);
}

#[test]
fn add_to_whitelist_appends_idempotently() {
    let payer = key(1);
    let mut ctx = AddToWhiteList {
        new_account: key(10),
        white_list: WhiteList::new(payer),
        authority: payer,
    };
    assert_eq!(add_to_whitelist(&mut ctx), Ok(()));
    assert_eq!(ctx.white_list.white_list, vec![key(10)]);
    assert_eq!(add_to_whitelist(&mut ctx), Ok(()));
    assert_eq!(ctx.white_list.white_list, vec![key(10)]);
}

#[test]
fn transfer_hook_full_scenario() {
    // Initialize with payer P: the whitelist is {authority: P, entries: []}.
    let p = key(1);
    let q = key(2);
    let a = key(10);
    let b = key(11);
    let init = initialize_extra_account_meta_list(p, key(200)).unwrap();
    assert_eq!(init.white_list.authority, p);
    assert_eq!(init.white_list.white_list.len(), 0);

    // addToWhitelist(A) by P: entries become [A].
    let mut admin = AddToWhiteList {
        new_account: a,
        white_list: init.white_list,
        authority: p,
    };
    assert_eq!(add_to_whitelist(&mut admin), Ok(()));
    assert_eq!(admin.white_list.white_list, vec![a]);

    // validate(destination = A, transferring = true): success.
    assert_eq!(check(&admin.white_list, a, 1), Ok(()));

    // validate(destination = B, transferring = true): not whitelisted.
    assert_eq!(
        check(&admin.white_list, b, 1),
        Err(TransferError::NotWhitelisted)
    );

    // validate(destination = A, transferring = false): not transferring.
    assert_eq!(
        check(&admin.white_list, a, 0),
        Err(TransferError::IsNotCurrentlyTransferring)
    );

    // addToWhitelist(A) by Q != P: authorization error, entries still [A].
    let mut foreign = AddToWhiteList {
        new_account: a,
        white_list: admin.white_list,
        authority: q,
    };
    assert_eq!(
        add_to_whitelist(&mut foreign),
        Err(TransferError::AuthorizationError)
    );
    assert_eq!(foreign.white_list.white_list, vec![a]);
}

#[test]
fn transfer_hook_rejects_undecodable_source() {
    let mut w = WhiteList::new(key(1));
    w.append(key(10));
    let ctx = TransferHook {
        source_token: vec![0u8; 165],
        mint: key(200),
        destination_token: key(10),
        owner: key(201),
        extra_account_meta_list: vec![],
        white_list: w,
    };
    assert_eq!(transfer_hook(&ctx, 5), Err(TransferError::DecodeError));
}

#[test]
fn transfer_hook_ignores_the_amount() {
    let mut w = WhiteList::new(key(1));
    w.append(key(10));
    for amount in [0u64, 1, u64::MAX] {
        let ctx = TransferHook {
            source_token: source_account(1),
            mint: key(200),
            destination_token: key(10),
            owner: key(201),
            extra_account_meta_list: vec![],
            white_list: WhiteList {
                authority: w.authority,
                white_list: w.white_list.clone(),
            },
        };
        assert_eq!(transfer_hook(&ctx, amount), Ok(()));
    }
}
