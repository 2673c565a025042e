//! The Ethereum address to which an inscription can be teleburned: the first
//! 20 bytes of the SHA-256 hash of the inscription id, written with the
//! mixed-case checksum of EIP-55.
use vstd::prelude::*;
use sha3::Digest;
use crate::ids::{InscriptionId, Txid};
use crate::text::{hex_digit, push_char};

verus! {

/// The SHA-256 digest of `bytes`, as `bitcoin::hashes::sha256` computes it.
pub uninterp spec fn sha256_of(bytes: Seq<u8>) -> Seq<u8>;

/// The Keccak-256 digest of `bytes`, as `sha3::Keccak256` computes it.
pub uninterp spec fn keccak256_of(bytes: Seq<u8>) -> Seq<u8>;

/// Calls `bitcoin::hashes::sha256::Hash::hash`; the digest is named
/// `sha256_of` and is 32 bytes long.
#[verifier::external_body]
fn sha256(bytes: &[u8]) -> (r: Vec<u8>)
    ensures
        r@ == sha256_of(bytes@),
        r@.len() == 32,
{
    let digest = <bitcoin::hashes::sha256::Hash as bitcoin::hashes::Hash>::hash(bytes);
    <bitcoin::hashes::sha256::Hash as bitcoin::hashes::Hash>::to_byte_array(digest).to_vec()
}

/// Calls `sha3::Keccak256::digest`; the digest is named `keccak256_of` and
/// is 32 bytes long.
#[verifier::external_body]
fn keccak256(bytes: &[u8]) -> (r: Vec<u8>)
    ensures
        r@ == keccak256_of(bytes@),
        r@.len() == 32,
{
    sha3::Keccak256::digest(bytes).to_vec()
}

/// The low `k` bytes of `n`, least significant first.
pub open spec fn le_bytes(n: nat, k: nat) -> Seq<u8>
    decreases k,
{
    if k == 0 {
        Seq::empty()
    } else {
        seq![(n % 256) as u8] + le_bytes(n / 256, (k - 1) as nat)
    }
}

/// The low `k` bytes of `n`, most significant first.
pub open spec fn be_bytes(n: nat, k: nat) -> Seq<u8>
    decreases k,
{
    if k == 0 {
        Seq::empty()
    } else {
        be_bytes(n / 256, (k - 1) as nat).push((n % 256) as u8)
    }
}

/// The bytes of a transaction hash as stored: the reverse of the order in
/// which the id is shown.
pub open spec fn txid_bytes(txid: Txid) -> Seq<u8> {
    le_bytes(txid.3 as nat, 8) + le_bytes(txid.2 as nat, 8) + le_bytes(txid.1 as nat, 8) + le_bytes(
        txid.0 as nat,
        8,
    )
}

/// The 36 bytes that the address commits to: the reveal transaction's hash
/// as stored, then the index, big-endian.
pub open spec fn teleburn_preimage(id: InscriptionId) -> Seq<u8> {
    txid_bytes(id.txid) + be_bytes(id.index as nat, 4)
}

/// The `i`th hexadecimal digit of `bytes`, high half of each byte first.
pub open spec fn nibble(bytes: Seq<u8>, i: int) -> nat {
    if i % 2 == 0 {
        (bytes[i / 2] / 16) as nat
    } else {
        (bytes[i / 2] % 16) as nat
    }
}

/// `bytes` in lowercase hexadecimal.
pub open spec fn lower_hex(bytes: Seq<u8>) -> Seq<char> {
    Seq::new(2 * bytes.len(), |i: int| hex_digit(nibble(bytes, i)))
}

/// The ASCII code of the lowercase hexadecimal digit of `d`.
pub open spec fn hex_byte(d: nat) -> u8 {
    if d < 10 {
        (48 + d) as u8
    } else {
        (87 + d) as u8
    }
}

/// The ASCII codes of the characters of `bytes` in lowercase hexadecimal.
pub open spec fn lower_hex_ascii(bytes: Seq<u8>) -> Seq<u8> {
    Seq::new(2 * bytes.len(), |i: int| hex_byte(nibble(bytes, i)))
}

/// A hexadecimal digit in upper case; digits stay as they are.
pub open spec fn upper_hex_digit(d: nat) -> char {
    if d < 10 {
        (48 + d) as char
    } else {
        (55 + d) as char
    }
}

/// EIP-55: digit `i` of the address is written in upper case where
/// digit `i` of the hash is 8 or more.
pub open spec fn checksummed(digits: Seq<u8>, hash: Seq<u8>) -> Seq<char> {
    Seq::new(
        2 * digits.len(),
        |i: int|
            if nibble(hash, i) >= 8 {
                upper_hex_digit(nibble(digits, i))
            } else {
                hex_digit(nibble(digits, i))
            },
    )
}

/// A letter in lower case; other characters stay as they are.
pub open spec fn ascii_lower(c: char) -> char {
    if 'A' <= c && c <= 'Z' {
        ((c as int) + 32) as char
    } else {
        c
    }
}

/// The EIP-55 checksum only changes case: lowered, a checksummed address
/// is the lowercase hexadecimal form of its bytes, whatever the hash.
pub proof fn lemma_checksum_only_changes_case(digits: Seq<u8>, hash: Seq<u8>)
    ensures
        checksummed(digits, hash).map_values(|c: char| ascii_lower(c)) == lower_hex(digits),
{
    let lowered = checksummed(digits, hash).map_values(|c: char| ascii_lower(c));
    assert forall|i: int| 0 <= i < lowered.len() implies lowered[i] == lower_hex(digits)[i] by {
        let d = nibble(digits, i);
        assert(d < 16);
    }
    assert(lowered =~= lower_hex(digits));
}

/// The teleburn address of an inscription: `0x` and the first 20 bytes of
/// the SHA-256 hash of its id, checksummed by the Keccak-256 hash of their
/// lowercase hexadecimal form.
pub open spec fn teleburn_text(id: InscriptionId) -> Seq<char> {
    let digits = sha256_of(teleburn_preimage(id)).take(20);
    "0x"@ + checksummed(digits, keccak256_of(lower_hex_ascii(digits)))
}

/// Appends the low `k` bytes of `n`, least significant first.
fn push_le_bytes(v: &mut Vec<u8>, n: u64, k: u32)
    ensures
        final(v)@ == old(v)@ + le_bytes(n as nat, k as nat),
    decreases k,
{
    if k > 0 {
        v.push((n % 256) as u8);
        push_le_bytes(v, n / 256, k - 1);
        assert(final(v)@ =~= old(v)@ + le_bytes(n as nat, k as nat));
    }
}

/// Appends the low `k` bytes of `n`, most significant first.
fn push_be_bytes(v: &mut Vec<u8>, n: u64, k: u32)
    ensures
        final(v)@ == old(v)@ + be_bytes(n as nat, k as nat),
    decreases k,
{
    if k > 0 {
        push_be_bytes(v, n / 256, k - 1);
        v.push((n % 256) as u8);
        assert(final(v)@ =~= old(v)@ + be_bytes(n as nat, k as nat));
    }
}

/// The `i`th hexadecimal digit of `bytes`.
fn nibble_at(bytes: &Vec<u8>, i: usize) -> (d: u8)
    requires
        i < 2 * bytes@.len(),
    ensures
        d == nibble(bytes@, i as int),
        d < 16,
{
    let b = bytes[i / 2];
    if i % 2 == 0 {
        b / 16
    } else {
        b % 16
    }
}

/// The teleburn address of an inscription.
pub fn teleburn_address(id: &InscriptionId) -> (r: String)
    ensures
        r@ == teleburn_text(*id),
{
    let mut preimage: Vec<u8> = Vec::new();
    push_le_bytes(&mut preimage, id.txid.3, 8);
    push_le_bytes(&mut preimage, id.txid.2, 8);
    push_le_bytes(&mut preimage, id.txid.1, 8);
    push_le_bytes(&mut preimage, id.txid.0, 8);
    push_be_bytes(&mut preimage, id.index as u64, 4);
    assert(preimage@ =~= teleburn_preimage(*id));
    let digest = sha256(preimage.as_slice());
    let ghost digits = digest@.take(20);
    let mut ascii: Vec<u8> = Vec::new();
    let mut i: usize = 0;
    while i < 40
        invariant
            i <= 40,
            digest@.len() == 32,
            digits == digest@.take(20),
            ascii@ =~= lower_hex_ascii(digits).take(i as int),
        decreases 40 - i,
    {
        let d = nibble_at(&digest, i);
        assert(nibble(digest@, i as int) == nibble(digits, i as int));
        let b: u8 = if d < 10 {
            48 + d
        } else {
            87 + d
        };
        ascii.push(b);
        i = i + 1;
    }
    assert(ascii@ =~= lower_hex_ascii(digits));
    let hash = keccak256(ascii.as_slice());
    let ghost expected = checksummed(digits, hash@);
    proof {
        reveal_strlit("0x");
    }
    let mut r = String::new();
    push_char(&mut r, '0');
    push_char(&mut r, 'x');
    let mut j: usize = 0;
    while j < 40
        invariant
            j <= 40,
            digest@.len() == 32,
            hash@.len() == 32,
            digits == digest@.take(20),
            expected == checksummed(digits, hash@),
            r@ =~= "0x"@ + expected.take(j as int),
        decreases 40 - j,
    {
        let d = nibble_at(&digest, j);
        assert(nibble(digest@, j as int) == nibble(digits, j as int));
        let h = nibble_at(&hash, j);
        let c: char = if h >= 8 {
            if d < 10 {
                ((48 + d) as u8) as char
            } else {
                ((55 + d) as u8) as char
            }
        } else {
            if d < 10 {
                ((48 + d) as u8) as char
            } else {
                ((87 + d) as u8) as char
            }
        };
        push_char(&mut r, c);
        j = j + 1;
    }
    assert(expected.take(40) =~= expected);
    r
}

} // verus!
