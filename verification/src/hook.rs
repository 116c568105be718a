use vstd::prelude::*;
use vstd::pervasive::unreached;

use crate::error::TransferError;
use crate::extension::check_is_transferring;
use crate::extension::spec_transferring;
use crate::meta_list::init_extra_account_meta_list;
use crate::meta_list::size_of;
use crate::meta_list::spec_bool_byte;
use crate::meta_list::spec_encode_meta;
use crate::meta_list::spec_encode_meta_list;
use crate::meta_list::spec_encode_metas;
use crate::meta_list::spec_le_u32;
use crate::meta_list::spec_pack_seed;
use crate::meta_list::spec_pack_seeds;
use crate::meta_list::ExtraAccountMeta;
use crate::meta_list::Seed;
use crate::meta_list::DISCRIMINATOR_SEEDS;
use crate::meta_list::SEED_KIND_LITERAL;
use crate::pubkey::Pubkey;
use crate::whitelist::seq_append_key;
use crate::whitelist::spec_whitelist_seed;
use crate::whitelist::whitelist_seed;
use crate::whitelist::WhiteList;

verus! {

/// The state the one-time initializer creates: the payer that becomes the
/// whitelist's authority, the token's mint, the storage bytes of the
/// auxiliary meta list, and the whitelist record itself.
pub struct InitializeExtraAccountMetaList {
    pub payer: Pubkey,
    pub mint: Pubkey,
    pub extra_account_meta_list: Vec<u8>,
    pub white_list: WhiteList,
}

/// The accounts a transfer check receives, in their fixed order: the four
/// transfer-intrinsic accounts — the source account's raw bytes, the
/// mint, the destination, the owner — then the auxiliary accounts the
/// resolver declared: the meta list's bytes and the whitelist record.
pub struct TransferHook {
    pub source_token: Vec<u8>,
    pub mint: Pubkey,
    pub destination_token: Pubkey,
    pub owner: Pubkey,
    pub extra_account_meta_list: Vec<u8>,
    pub white_list: WhiteList,
}

/// The accounts of the administrative append: the identifier to admit,
/// the whitelist record, and the identity that signed the call.
pub struct AddToWhiteList {
    pub new_account: Pubkey,
    pub white_list: WhiteList,
    pub authority: Pubkey,
}

/// The fixed namespace tag the auxiliary meta list's address is derived
/// from: the bytes of "extra-account-metas". Unlike the whitelist's tag
/// it is joined by the token's identifier, so each token has a meta list
/// of its own.
pub open spec fn spec_meta_list_seed() -> Seq<u8> {
    seq![
        101u8,
        120u8,
        116u8,
        114u8,
        97u8,
        45u8,
        97u8,
        99u8,
        99u8,
        111u8,
        117u8,
        110u8,
        116u8,
        45u8,
        109u8,
        101u8,
        116u8,
        97u8,
        115u8,
    ]
}

/// The two seeds a caller derives the auxiliary meta list's address
/// from: the fixed namespace tag and the token's identifier. With them
/// and the whitelist's own tag, a transfer caller resolves every account
/// the hook needs without out-of-band configuration.
pub fn extra_account_meta_list_seeds(mint: &Pubkey) -> (r: (Vec<u8>, Vec<u8>))
    ensures
        r.0@ == spec_meta_list_seed(),
        r.1@ == mint@,
{
    let mut tag: Vec<u8> = Vec::new();
    tag.push(101);
    tag.push(120);
    tag.push(116);
    tag.push(114);
    tag.push(97);
    tag.push(45);
    tag.push(97);
    tag.push(99);
    tag.push(99);
    tag.push(111);
    tag.push(117);
    tag.push(110);
    tag.push(116);
    tag.push(45);
    tag.push(109);
    tag.push(101);
    tag.push(116);
    tag.push(97);
    tag.push(115);
    proof {
        assert(tag@ =~= spec_meta_list_seed());
    }
    let mut mint_bytes: Vec<u8> = Vec::new();
    let mut i: usize = 0;
    while i < 32
        invariant
            i <= 32,
            mint_bytes@ == mint.bytes@.take(i as int),
        decreases 32 - i,
    {
        mint_bytes.push(mint.bytes[i]);
        proof {
            assert(mint.bytes@.take(i as int + 1) =~= mint.bytes@.take(i as int).push(
                mint.bytes@[i as int],
            ));
        }
        i = i + 1;
    }
    proof {
        assert(mint.bytes@.take(32) =~= mint.bytes@);
    }
    (tag, mint_bytes)
}

/// The address configuration of the whitelist descriptor: the literal
/// whitelist namespace tag, packed and zero-padded to the fixed width.
pub open spec fn spec_whitelist_address_config() -> Seq<u8> {
    seq![SEED_KIND_LITERAL, 9u8] + spec_whitelist_seed() + Seq::new(21, |k: int| 0u8)
}

/// True of the one descriptor this hook declares: the whitelist record,
/// derived from the fixed namespace tag, not signing, and not writable —
/// a transfer check only reads the record; only the administrative path,
/// outside this descriptor, mutates the underlying storage.
pub open spec fn spec_is_whitelist_meta(m: ExtraAccountMeta) -> bool {
    &&& m.discriminator == DISCRIMINATOR_SEEDS
    &&& m.address_config@ == spec_whitelist_address_config()
    &&& !m.is_signer
    &&& !m.is_writable
}

/// The exact bytes the initializer stores as the auxiliary meta list: a
/// count of one, then the whitelist descriptor.
pub open spec fn spec_meta_list_bytes() -> Seq<u8> {
    spec_le_u32(1u32) + seq![DISCRIMINATOR_SEEDS] + spec_whitelist_address_config() + seq![
        spec_bool_byte(false),
        spec_bool_byte(false),
    ]
}

impl InitializeExtraAccountMetaList {
    /// The auxiliary accounts a transfer caller must supply beyond the
    /// four transfer-intrinsic ones: exactly one, the whitelist record by
    /// its fixed-namespace derivation, non-signing and not writable for
    /// the check path.
    pub fn extra_account_metas() -> (r: Result<Vec<ExtraAccountMeta>, TransferError>)
        ensures
            r is Ok,
            r matches Ok(v) ==> v@.len() == 1 && v@[0].wf() && spec_is_whitelist_meta(v@[0]),
    {
        let seed_bytes = whitelist_seed();
        let mut seeds: Vec<Seed> = Vec::new();
        seeds.push(Seed::Literal { bytes: seed_bytes });
        proof {
            let s = seeds@;
            assert(s.drop_first() =~= Seq::<Seed>::empty());
            assert(spec_pack_seeds(s) == spec_pack_seed(s[0]) + spec_pack_seeds(s.drop_first()));
            assert(spec_pack_seeds(s) =~= seq![SEED_KIND_LITERAL, 9u8] + spec_whitelist_seed());
        }
        let meta = match ExtraAccountMeta::new_with_seeds(&seeds, false, false) {
            Ok(m) => m,
            Err(_) => unreached(),
        };
        proof {
            assert(meta.address_config@ =~= spec_whitelist_address_config());
        }
        let mut metas: Vec<ExtraAccountMeta> = Vec::new();
        metas.push(meta);
        Ok(metas)
    }
}

/// One-time bootstrap of the hook for a token: creates the whitelist
/// record with the payer as its authority and no entries, and stores the
/// resolver's descriptor list in storage sized exactly to it, so that
/// later transfer callers can resolve the whitelist from the fixed
/// namespace tag alone.
pub fn initialize_extra_account_meta_list(payer: Pubkey, mint: Pubkey) -> (r: Result<
    InitializeExtraAccountMetaList,
    TransferError,
>)
    ensures
        r is Ok,
        r matches Ok(ctx) ==> ctx.payer == payer && ctx.mint == mint && ctx.white_list.authority
            == payer && ctx.white_list.white_list@.len() == 0 && ctx.white_list.wf()
            && ctx.extra_account_meta_list@ == spec_meta_list_bytes(),
{
    let white_list = WhiteList::new(payer);
    let metas = match InitializeExtraAccountMetaList::extra_account_metas() {
        Ok(v) => v,
        Err(_) => unreached(),
    };
    let space = match size_of(metas.len()) {
        Ok(s) => s,
        Err(_) => unreached(),
    };
    let mut data: Vec<u8> = Vec::new();
    while data.len() < space
        invariant
            data@.len() <= space,
        decreases space - data@.len(),
    {
        data.push(0);
    }
    match init_extra_account_meta_list(&mut data, &metas) {
        Ok(_) => {},
        Err(_) => unreached(),
    }
    proof {
        let ms = metas@;
        assert(ms.drop_first() =~= Seq::<ExtraAccountMeta>::empty());
        assert(spec_encode_metas(ms) == spec_encode_meta(ms[0]) + spec_encode_metas(
            ms.drop_first(),
        ));
        assert(data@ =~= spec_meta_list_bytes());
    }
    Ok(InitializeExtraAccountMetaList { payer, mint, extra_account_meta_list: data, white_list })
}

/// The per-transfer validation, invoked by the transfer-execution engine
/// as part of a larger atomic transfer. It admits the transfer exactly
/// when the source account carries a set transferring flag and the
/// destination is whitelisted; the amount never gates the decision. Each
/// failure is attributable: bytes that do not parse are `DecodeError`, a
/// clear flag is `IsNotCurrentlyTransferring`, an absent destination is
/// `NotWhitelisted`.
pub fn transfer_hook(ctx: &TransferHook, _amount: u64) -> (r: Result<(), TransferError>)
    ensures
        r is Ok <==> spec_transferring(ctx.source_token@) == Some(true)
            && ctx.white_list.spec_contains(ctx.destination_token@),
        r == Result::<(), TransferError>::Err(TransferError::DecodeError) <==> spec_transferring(
            ctx.source_token@,
        ) is None,
        r == Result::<(), TransferError>::Err(TransferError::IsNotCurrentlyTransferring)
            <==> spec_transferring(ctx.source_token@) == Some(false),
        r == Result::<(), TransferError>::Err(TransferError::NotWhitelisted) <==> spec_transferring(
            ctx.source_token@,
        ) == Some(true) && !ctx.white_list.spec_contains(ctx.destination_token@),
{
    match check_is_transferring(&ctx.source_token) {
        Ok(_) => {},
        Err(e) => {
            return Err(e);
        },
    }
    if !ctx.white_list.contains(&ctx.destination_token) {
        return Err(TransferError::NotWhitelisted);
    }
    Ok(())
}

/// The authority-gated administrative append. When the caller is the
/// stored authority it succeeds and admits the identifier idempotently —
/// present already means nothing changes; otherwise it appends at the
/// end. Any other caller fails with `AuthorizationError` and changes
/// nothing. The stored authority itself never changes.
pub fn add_to_whitelist(ctx: &mut AddToWhiteList) -> (r: Result<(), TransferError>)
    ensures
        final(ctx).new_account == old(ctx).new_account,
        final(ctx).authority == old(ctx).authority,
        final(ctx).white_list.authority == old(ctx).white_list.authority,
        r is Ok <==> old(ctx).authority@ == old(ctx).white_list.authority@,
        r is Ok ==> final(ctx).white_list.white_list@ == seq_append_key(
            old(ctx).white_list.white_list@,
            old(ctx).new_account,
        ),
        r is Err ==> r == Result::<(), TransferError>::Err(TransferError::AuthorizationError)
            && final(ctx).white_list == old(ctx).white_list,
        old(ctx).white_list.wf() ==> final(ctx).white_list.wf(),
{
    if !ctx.authority.key_eq(&ctx.white_list.authority) {
        return Err(TransferError::AuthorizationError);
    }
    let new_account = ctx.new_account;
    ctx.white_list.append(new_account);
    Ok(())
}

} // verus!
