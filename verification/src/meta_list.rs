use vstd::prelude::*;

use crate::error::TransferError;

verus! {

/// Seed-kind tag of a fixed byte string in a packed seed configuration.
pub const SEED_KIND_LITERAL: u8 = 1;

/// Descriptor kind saying that the account's address is derived from the
/// packed seeds held in the descriptor's address configuration.
pub const DISCRIMINATOR_SEEDS: u8 = 1;

/// Byte width of the address configuration of one descriptor.
pub const ADDRESS_CONFIG_LEN: usize = 32;

/// Byte width of one encoded descriptor: the kind, the address
/// configuration, and the two flag bytes.
pub const ENCODED_META_LEN: usize = 35;

/// How one seed of an auxiliary account's address is derived.
pub enum Seed {
    /// A fixed byte string, known before any transfer.
    Literal { bytes: Vec<u8> },
}

/// The packed form of one seed: the kind tag, a length byte, the bytes.
pub open spec fn spec_pack_seed(s: Seed) -> Seq<u8> {
    match s {
        Seed::Literal { bytes } => seq![SEED_KIND_LITERAL, bytes@.len() as u8] + bytes@,
    }
}

/// The packed form of a seed list: the seeds one after the other.
pub open spec fn spec_pack_seeds(seeds: Seq<Seed>) -> Seq<u8>
    decreases seeds.len(),
{
    if seeds.len() == 0 {
        Seq::<u8>::empty()
    } else {
        spec_pack_seed(seeds[0]) + spec_pack_seeds(seeds.drop_first())
    }
}

pub proof fn lemma_pack_seeds_push(s: Seq<Seed>, x: Seed)
    ensures
        spec_pack_seeds(s.push(x)) == spec_pack_seeds(s) + spec_pack_seed(x),
    decreases s.len(),
{
    if s.len() == 0 {
        assert(s.push(x).drop_first() =~= Seq::<Seed>::empty());
        assert(s.push(x)[0] == x);
        assert(spec_pack_seeds(Seq::<Seed>::empty()) == Seq::<u8>::empty());
        assert(spec_pack_seeds(s.push(x)) =~= spec_pack_seeds(s) + spec_pack_seed(x));
    } else {
        lemma_pack_seeds_push(s.drop_first(), x);
        assert(s.push(x).drop_first() =~= s.drop_first().push(x));
        assert(s.push(x)[0] == s[0]);
        assert(spec_pack_seeds(s.push(x)) =~= spec_pack_seeds(s) + spec_pack_seed(x));
    }
}

pub proof fn lemma_pack_seeds_take_mono(s: Seq<Seed>, i: int, j: int)
    requires
        0 <= i <= j <= s.len(),
    ensures
        spec_pack_seeds(s.take(i)).len() <= spec_pack_seeds(s.take(j)).len(),
    decreases j - i,
{
    if i < j {
        lemma_pack_seeds_take_mono(s, i, j - 1);
        assert(s.take(j) =~= s.take(j - 1).push(s[j - 1]));
        lemma_pack_seeds_push(s.take(j - 1), s[j - 1]);
    }
}

/// One auxiliary-account descriptor: how the account's address is derived
/// (the kind tag, interpreting the 32 configuration bytes), and whether
/// the account must sign or be writable.
pub struct ExtraAccountMeta {
    pub discriminator: u8,
    pub address_config: Vec<u8>,
    pub is_signer: bool,
    pub is_writable: bool,
}

impl ExtraAccountMeta {
    /// Well-formedness: the address configuration is exactly 32 bytes.
    pub open spec fn wf(self) -> bool {
        self.address_config@.len() == ADDRESS_CONFIG_LEN
    }

    /// A descriptor of an account whose address is derived from `seeds`,
    /// packed into the fixed-width address configuration and padded with
    /// zeros. Fails exactly when the packed seeds do not fit the 32
    /// configuration bytes.
    pub fn new_with_seeds(seeds: &Vec<Seed>, is_signer: bool, is_writable: bool) -> (r: Result<
        ExtraAccountMeta,
        TransferError,
    >)
        ensures
            r is Ok <==> spec_pack_seeds(seeds@).len() <= ADDRESS_CONFIG_LEN,
            r matches Ok(m) ==> m.wf() && m.discriminator == DISCRIMINATOR_SEEDS && m.is_signer
                == is_signer && m.is_writable == is_writable && m.address_config@ == spec_pack_seeds(
                seeds@,
            ) + Seq::new((ADDRESS_CONFIG_LEN - spec_pack_seeds(seeds@).len()) as nat, |k: int| 0u8),
            r matches Err(e) ==> e == TransferError::AllocationError,
    {
        let ghost packed = spec_pack_seeds(seeds@);
        let mut config: Vec<u8> = Vec::new();
        let mut i: usize = 0;
        while i < seeds.len()
            invariant
                i <= seeds@.len(),
                config@ == spec_pack_seeds(seeds@.take(i as int)),
                config@.len() <= ADDRESS_CONFIG_LEN,
                packed == spec_pack_seeds(seeds@),
            decreases seeds@.len() - i,
        {
            match &seeds[i] {
                Seed::Literal { bytes } => {
                    let bytes_len = bytes.len();
                    if bytes_len > 30 || config.len() + 2 + bytes_len > ADDRESS_CONFIG_LEN {
                        proof {
                            assert(seeds@.take(i as int + 1) =~= seeds@.take(i as int).push(
                                seeds@[i as int],
                            ));
                            lemma_pack_seeds_push(seeds@.take(i as int), seeds@[i as int]);
                            lemma_pack_seeds_take_mono(seeds@, i as int + 1, seeds@.len() as int);
                            assert(seeds@.take(seeds@.len() as int) =~= seeds@);
                        }
                        return Err(TransferError::AllocationError);
                    }
                    config.push(SEED_KIND_LITERAL);
                    config.push(bytes_len as u8);
                    let mut b: usize = 0;
                    while b < bytes.len()
                        invariant
                            b <= bytes@.len(),
                            bytes_len == bytes@.len() <= 30,
                            spec_pack_seeds(seeds@.take(i as int)).len() + 2 + bytes_len
                                <= ADDRESS_CONFIG_LEN,
                            config@ == spec_pack_seeds(seeds@.take(i as int)) + seq![
                                SEED_KIND_LITERAL,
                                bytes_len as u8,
                            ] + bytes@.take(b as int),
                            config@.len() <= ADDRESS_CONFIG_LEN,
                        decreases bytes@.len() - b,
                    {
                        config.push(bytes[b]);
                        proof {
                            assert(bytes@.take(b as int + 1) =~= bytes@.take(b as int).push(
                                bytes@[b as int],
                            ));
                            assert(config@ =~= spec_pack_seeds(seeds@.take(i as int)) + seq![
                                SEED_KIND_LITERAL,
                                bytes_len as u8,
                            ] + bytes@.take(b as int + 1));
                        }
                        b = b + 1;
                    }
                    proof {
                        assert(bytes@.take(bytes@.len() as int) =~= bytes@);
                        assert(seeds@[i as int] == (Seed::Literal { bytes: *bytes }));
                        assert(seeds@.take(i as int + 1) =~= seeds@.take(i as int).push(
                            seeds@[i as int],
                        ));
                        lemma_pack_seeds_push(seeds@.take(i as int), seeds@[i as int]);
                        assert(config@ =~= spec_pack_seeds(seeds@.take(i as int + 1)));
                    }
                },
            }
            i = i + 1;
        }
        proof {
            assert(seeds@.take(seeds@.len() as int) =~= seeds@);
        }
        let packed_len = config.len();
        while config.len() < ADDRESS_CONFIG_LEN
            invariant
                packed == spec_pack_seeds(seeds@),
                packed.len() == packed_len <= config@.len() <= ADDRESS_CONFIG_LEN,
                config@ == packed + Seq::new((config@.len() - packed.len()) as nat, |k: int| 0u8),
            decreases ADDRESS_CONFIG_LEN - config@.len(),
        {
            config.push(0u8);
            proof {
                assert(config@ =~= packed + Seq::new((config@.len() - packed.len()) as nat, |k: int| 0u8));
            }
        }
        Ok(
            ExtraAccountMeta {
                discriminator: DISCRIMINATOR_SEEDS,
                address_config: config,
                is_signer,
                is_writable,
            },
        )
    }
}

/// The flag byte of a boolean: one for true, zero for false.
pub open spec fn spec_bool_byte(b: bool) -> u8 {
    if b {
        1u8
    } else {
        0u8
    }
}

/// One descriptor's 35-byte encoded form: the kind tag, the 32-byte
/// address configuration, then the signer and writable flag bytes.
pub open spec fn spec_encode_meta(m: ExtraAccountMeta) -> Seq<u8> {
    seq![m.discriminator] + m.address_config@ + seq![
        spec_bool_byte(m.is_signer),
        spec_bool_byte(m.is_writable),
    ]
}

/// The descriptors' encoded forms, one after the other.
pub open spec fn spec_encode_metas(ms: Seq<ExtraAccountMeta>) -> Seq<u8>
    decreases ms.len(),
{
    if ms.len() == 0 {
        Seq::<u8>::empty()
    } else {
        spec_encode_meta(ms[0]) + spec_encode_metas(ms.drop_first())
    }
}

/// The stored form of the whole list: a 32-bit little-endian count, then
/// the encoded descriptors.
pub open spec fn spec_encode_meta_list(ms: Seq<ExtraAccountMeta>) -> Seq<u8> {
    spec_le_u32(ms.len() as u32) + spec_encode_metas(ms)
}

/// The four little-endian bytes of a 32-bit integer.
pub open spec fn spec_le_u32(n: u32) -> Seq<u8> {
    seq![
        (n as int % 256) as u8,
        (n as int / 256 % 256) as u8,
        (n as int / 65536 % 256) as u8,
        (n as int / 16777216 % 256) as u8,
    ]
}

pub proof fn lemma_encode_metas_push(ms: Seq<ExtraAccountMeta>, m: ExtraAccountMeta)
    ensures
        spec_encode_metas(ms.push(m)) == spec_encode_metas(ms) + spec_encode_meta(m),
    decreases ms.len(),
{
    if ms.len() == 0 {
        assert(ms.push(m).drop_first() =~= Seq::<ExtraAccountMeta>::empty());
        assert(ms.push(m)[0] == m);
        assert(spec_encode_metas(Seq::<ExtraAccountMeta>::empty()) == Seq::<u8>::empty());
        assert(spec_encode_metas(ms.push(m)) =~= spec_encode_metas(ms) + spec_encode_meta(m));
    } else {
        lemma_encode_metas_push(ms.drop_first(), m);
        assert(ms.push(m).drop_first() =~= ms.drop_first().push(m));
        assert(ms.push(m)[0] == ms[0]);
        assert(spec_encode_metas(ms.push(m)) =~= spec_encode_metas(ms) + spec_encode_meta(m));
    }
}

/// Every well-formed descriptor encodes to exactly 35 bytes, so the list
/// body is 35 bytes per descriptor.
pub proof fn lemma_encode_metas_len(ms: Seq<ExtraAccountMeta>)
    requires
        forall|i: int| 0 <= i < ms.len() ==> ms[i].wf(),
    ensures
        spec_encode_metas(ms).len() == ENCODED_META_LEN * ms.len(),
    decreases ms.len(),
{
    if ms.len() > 0 {
        assert(forall|i: int| 0 <= i < ms.drop_first().len() ==> ms.drop_first()[i] == ms[i + 1]);
        lemma_encode_metas_len(ms.drop_first());
    }
}

/// The exact byte size the list's storage must be allocated with: the
/// count prefix plus 35 bytes per descriptor. Fails exactly when that
/// size does not fit the machine's word.
pub fn size_of(len: usize) -> (r: Result<usize, TransferError>)
    ensures
        r is Ok <==> 4 + ENCODED_META_LEN * (len as int) <= usize::MAX,
        r matches Ok(s) ==> s as int == 4 + ENCODED_META_LEN * (len as int),
        r matches Err(e) ==> e == TransferError::AllocationError,
{
    match ENCODED_META_LEN.checked_mul(len) {
        Some(m) => match m.checked_add(4) {
            Some(s) => Ok(s),
            None => Err(TransferError::AllocationError),
        },
        None => Err(TransferError::AllocationError),
    }
}

/// Appends the four little-endian bytes of `n`.
fn push_le_u32(data: &mut Vec<u8>, n: u32)
    ensures
        final(data)@ == old(data)@ + spec_le_u32(n),
{
    data.push((n % 256) as u8);
    data.push((n / 256 % 256) as u8);
    data.push((n / 65536 % 256) as u8);
    data.push((n / 16777216 % 256) as u8);
    proof {
        assert(data@ =~= old(data)@ + spec_le_u32(n));
    }
}

/// Appends one descriptor's encoded form.
fn push_meta(data: &mut Vec<u8>, m: &ExtraAccountMeta)
    requires
        m.wf(),
    ensures
        final(data)@ == old(data)@ + spec_encode_meta(*m),
{
    data.push(m.discriminator);
    let mut i: usize = 0;
    while i < m.address_config.len()
        invariant
            i <= m.address_config@.len(),
            data@ == old(data)@ + seq![m.discriminator] + m.address_config@.take(i as int),
        decreases m.address_config@.len() - i,
    {
        data.push(m.address_config[i]);
        proof {
            assert(m.address_config@.take(i as int + 1) =~= m.address_config@.take(i as int).push(
                m.address_config@[i as int],
            ));
            assert(data@ =~= old(data)@ + seq![m.discriminator] + m.address_config@.take(
                i as int + 1,
            ));
        }
        i = i + 1;
    }
    proof {
        assert(m.address_config@.take(m.address_config@.len() as int) =~= m.address_config@);
    }
    let signer_byte: u8 = if m.is_signer { 1 } else { 0 };
    let writable_byte: u8 = if m.is_writable { 1 } else { 0 };
    data.push(signer_byte);
    data.push(writable_byte);
    proof {
        assert(data@ =~= old(data)@ + spec_encode_meta(*m));
    }
}

/// Writes the descriptor list into its freshly allocated storage. The
/// buffer must be sized exactly to the list — the size `size_of` gives
/// for its length — and is overwritten whole; any other size fails and
/// leaves the buffer untouched.
pub fn init_extra_account_meta_list(data: &mut Vec<u8>, metas: &Vec<ExtraAccountMeta>) -> (r:
    Result<(), TransferError>)
    requires
        forall|i: int| 0 <= i < metas@.len() ==> metas@[i].wf(),
        metas@.len() <= u32::MAX,
    ensures
        r is Ok <==> old(data)@.len() == spec_encode_meta_list(metas@).len(),
        r is Ok <==> old(data)@.len() == 4 + ENCODED_META_LEN * metas@.len(),
        r is Ok ==> final(data)@ == spec_encode_meta_list(metas@),
        r is Err ==> final(data)@ == old(data)@ && r == Result::<(), TransferError>::Err(
            TransferError::AllocationError,
        ),
{
    proof {
        lemma_encode_metas_len(metas@);
    }
    let cur_len = data.len();
    let expected = match size_of(metas.len()) {
        Ok(s) => s,
        Err(_) => {
            proof {
                assert(cur_len as int <= usize::MAX);
            }
            return Err(TransferError::AllocationError);
        },
    };
    if cur_len != expected {
        return Err(TransferError::AllocationError);
    }
    let count = metas.len() as u32;
    data.clear();
    push_le_u32(data, count);
    let mut i: usize = 0;
    while i < metas.len()
        invariant
            i <= metas@.len(),
            count == metas@.len() as u32,
            forall|j: int| 0 <= j < metas@.len() ==> metas@[j].wf(),
            data@ == spec_le_u32(count) + spec_encode_metas(metas@.take(i as int)),
        decreases metas@.len() - i,
    {
        push_meta(data, &metas[i]);
        proof {
            assert(metas@.take(i as int + 1) =~= metas@.take(i as int).push(metas@[i as int]));
            lemma_encode_metas_push(metas@.take(i as int), metas@[i as int]);
            assert(data@ =~= spec_le_u32(count) + spec_encode_metas(metas@.take(i as int + 1)));
        }
        i = i + 1;
    }
    proof {
        assert(metas@.take(metas@.len() as int) =~= metas@);
    }
    Ok(())
}

} // verus!
