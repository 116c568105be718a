use vstd::prelude::*;

use crate::error::TransferError;

verus! {

/// Byte length of the base token-account layout; the extension region,
/// when present, follows it.
pub const BASE_ACCOUNT_LEN: usize = 165;

/// Byte length of a multisig account. A buffer of exactly this length is
/// never an extended token account, whatever its trailing bytes hold.
pub const MULTISIG_LEN: usize = 355;

/// Account-type tag that marks an extended buffer as a token account.
pub const ACCOUNT_TYPE_TOKEN_ACCOUNT: u8 = 2;

/// Extension type tag of the transfer-hook account state; its value is
/// the one-byte transferring flag.
pub const TRANSFER_HOOK_ACCOUNT_EXTENSION: u16 = 15;

/// The 16-bit little-endian integer held by two consecutive bytes.
pub open spec fn le_u16(lo: u8, hi: u8) -> u16 {
    (lo as int + 256 * (hi as int)) as u16
}

/// The value bytes of the first entry with type `ext` in the
/// type-length-value region of `data` starting at `pos`. Each entry is a
/// 16-bit type, a 16-bit length, then that many value bytes; a type of
/// zero ends the region. `None` when the region is malformed or ends
/// before an entry of type `ext`.
pub open spec fn find_extension(data: Seq<u8>, pos: int, ext: u16) -> Option<Seq<u8>>
    decreases data.len() - pos,
{
    if pos + 4 > data.len() {
        None
    } else {
        let t = le_u16(data[pos], data[pos + 1]);
        if t == 0 {
            None
        } else {
            let l = le_u16(data[pos + 2], data[pos + 3]) as int;
            if pos + 4 + l > data.len() {
                None
            } else if t == ext {
                Some(data.subrange(pos + 4, pos + 4 + l))
            } else {
                find_extension(data, pos + 4 + l, ext)
            }
        }
    }
}

/// What a source account's bytes say about the transfer in progress:
/// `Some(flag)` when `data` parses as a base token account followed by an
/// extension region holding the transfer-hook account state, `None` when
/// it does not parse that way or that extension is absent.
pub open spec fn spec_transferring(data: Seq<u8>) -> Option<bool> {
    if data.len() <= BASE_ACCOUNT_LEN || data.len() == MULTISIG_LEN || data[BASE_ACCOUNT_LEN as int]
        != ACCOUNT_TYPE_TOKEN_ACCOUNT {
        None
    } else {
        match find_extension(data, BASE_ACCOUNT_LEN as int + 1, TRANSFER_HOOK_ACCOUNT_EXTENSION) {
            Option::Some(v) => if v.len() == 1 {
                Some(v[0] != 0)
            } else {
                None
            },
            Option::None => None,
        }
    }
}

/// The 16-bit little-endian integer at `pos`.
fn read_le_u16(data: &Vec<u8>, pos: usize) -> (r: u16)
    requires
        pos + 2 <= data@.len() <= usize::MAX,
    ensures
        r == le_u16(data@[pos as int], data@[pos as int + 1]),
{
    data[pos] as u16 + (data[pos + 1] as u16) * 256
}

/// Decodes the transferring flag out of a source account's bytes:
/// walks the extension region for the transfer-hook account state and
/// returns its flag, or a decode error when the buffer does not parse or
/// the extension is absent.
pub fn decode_transferring(data: &Vec<u8>) -> (r: Result<bool, TransferError>)
    ensures
        spec_transferring(data@) matches Some(b) ==> r == Result::<bool, TransferError>::Ok(b),
        spec_transferring(data@) is None ==> r == Result::<bool, TransferError>::Err(
            TransferError::DecodeError,
        ),
{
    let n = data.len();
    if n <= BASE_ACCOUNT_LEN || n == MULTISIG_LEN {
        return Err(TransferError::DecodeError);
    }
    if data[BASE_ACCOUNT_LEN] != ACCOUNT_TYPE_TOKEN_ACCOUNT {
        return Err(TransferError::DecodeError);
    }
    let ghost start: int = BASE_ACCOUNT_LEN as int + 1;
    let mut pos: usize = BASE_ACCOUNT_LEN + 1;
    while pos <= n - 4
        invariant
            n == data@.len(),
            BASE_ACCOUNT_LEN < n,
            n != MULTISIG_LEN,
            data@[BASE_ACCOUNT_LEN as int] == ACCOUNT_TYPE_TOKEN_ACCOUNT,
            BASE_ACCOUNT_LEN as int + 1 <= pos <= n,
            start == BASE_ACCOUNT_LEN as int + 1,
            find_extension(data@, start, TRANSFER_HOOK_ACCOUNT_EXTENSION) == find_extension(
                data@,
                pos as int,
                TRANSFER_HOOK_ACCOUNT_EXTENSION,
            ),
        decreases n - pos,
    {
        let t = read_le_u16(data, pos);
        if t == 0 {
            return Err(TransferError::DecodeError);
        }
        let l = read_le_u16(data, pos + 2) as usize;
        if l > n - pos - 4 {
            return Err(TransferError::DecodeError);
        }
        if t == TRANSFER_HOOK_ACCOUNT_EXTENSION {
            proof {
                let v = find_extension(
                    data@,
                    pos as int,
                    TRANSFER_HOOK_ACCOUNT_EXTENSION,
                )->Some_0;
                assert(v == data@.subrange(pos as int + 4, pos as int + 4 + l as int));
                assert(v.len() == l);
            }
            if l != 1 {
                return Err(TransferError::DecodeError);
            }
            proof {
                let v = find_extension(
                    data@,
                    pos as int,
                    TRANSFER_HOOK_ACCOUNT_EXTENSION,
                )->Some_0;
                assert(v == data@.subrange(pos as int + 4, pos as int + 5));
                assert(v[0] == data@[pos as int + 4]);
            }
            return Ok(data[pos + 4] != 0);
        }
        proof {
            assert(find_extension(data@, pos as int, TRANSFER_HOOK_ACCOUNT_EXTENSION)
                == find_extension(
                data@,
                pos as int + 4 + l as int,
                TRANSFER_HOOK_ACCOUNT_EXTENSION,
            ));
        }
        pos = pos + 4 + l;
    }
    Err(TransferError::DecodeError)
}

/// The transfer validator's replay guard: succeeds exactly when the
/// source account's bytes carry a transferring flag that is set. A flag
/// that is present but clear is `IsNotCurrentlyTransferring`; bytes that
/// do not parse, or lack the extension, are `DecodeError`.
pub fn check_is_transferring(source_token_data: &Vec<u8>) -> (r: Result<(), TransferError>)
    ensures
        r is Ok <==> spec_transferring(source_token_data@) == Some(true),
        r == Result::<(), TransferError>::Err(TransferError::IsNotCurrentlyTransferring)
            <==> spec_transferring(source_token_data@) == Some(false),
        r == Result::<(), TransferError>::Err(TransferError::DecodeError) <==> spec_transferring(
            source_token_data@,
        ) is None,
{
    match decode_transferring(source_token_data) {
        Ok(true) => Ok(()),
        Ok(false) => Err(TransferError::IsNotCurrentlyTransferring),
        Err(_) => Err(TransferError::DecodeError),
    }
}

} // verus!
