//! The frame protocol: descrambling, shape validation and the layout of a
//! decoded frame.

use vstd::prelude::*;
use vstd::string::StringSliceAdditionalSpecFns;

verus! {

/// USB vendor identifier of the sensor.
pub const VENDOR_ID: u16 = 0x04d9;

/// USB product identifier of the sensor.
pub const PRODUCT_ID: u16 = 0xa052;

/// Terminator that a decoded frame carries in byte 4.
pub const CODE_END: u8 = 0x0D;

/// Operation code of a CO2 concentration frame.
pub const CODE_CO2: u8 = 0x50;

/// Operation code of a temperature frame.
pub const CODE_TEMPERATURE: u8 = 0x42;

/// The value of eight bytes read as one unsigned integer, byte 0 being the
/// most significant.
pub open spec fn be_value(bytes: Seq<u8>) -> int
    recommends
        bytes.len() == 8,
{
    bytes[0] * 0x0100_0000_0000_0000 + bytes[1] * 0x0001_0000_0000_0000 + bytes[2]
        * 0x0000_0100_0000_0000 + bytes[3] * 0x0000_0001_0000_0000 + bytes[4] * 0x0100_0000
        + bytes[5] * 0x0001_0000 + bytes[6] * 0x0100 + bytes[7]
}

/// Reads eight bytes as a 64-bit unsigned integer, most significant byte
/// first.
pub fn list_to_longint(bytes: &[u8; 8]) -> (x: u64)
    ensures
        x == be_value(bytes@),
{
    let b0 = bytes[0];
    let b1 = bytes[1];
    let b2 = bytes[2];
    let b3 = bytes[3];
    let b4 = bytes[4];
    let b5 = bytes[5];
    let b6 = bytes[6];
    let b7 = bytes[7];
    let x = (b0 as u64) << 56 | (b1 as u64) << 48 | (b2 as u64) << 40 | (b3 as u64) << 32
        | (b4 as u64) << 24 | (b5 as u64) << 16 | (b6 as u64) << 8 | (b7 as u64);
    assert(x == b0 * 0x0100_0000_0000_0000 + b1 * 0x0001_0000_0000_0000 + b2
        * 0x0000_0100_0000_0000 + b3 * 0x0000_0001_0000_0000 + b4 * 0x0100_0000 + b5 * 0x0001_0000
        + b6 * 0x0100 + b7) by (bit_vector)
        requires
            x == (b0 as u64) << 56 | (b1 as u64) << 48 | (b2 as u64) << 40 | (b3 as u64) << 32 | (
            b4 as u64) << 24 | (b5 as u64) << 16 | (b6 as u64) << 8 | (b7 as u64),
    ;
    x
}

/// The ASCII text from which the subtraction mask is derived.
pub const MAGIC_WORD: &'static str = "Htemp99e";

/// A byte with its upper and lower four bits exchanged.
pub open spec fn swap_nibbles(b: u8) -> u8 {
    ((b % 16) * 16 + b / 16) as u8
}

/// The eight mask bytes: the ASCII codes of `Htemp99e`, each with its
/// nibbles exchanged.
pub open spec fn magic_word() -> Seq<u8> {
    seq![0x84u8, 0x47u8, 0x56u8, 0xd6u8, 0x07u8, 0x93u8, 0x93u8, 0x56u8]
}

/// Derives the subtraction mask from [`MAGIC_WORD`].
pub fn gen_magic_word() -> (ret: [u8; 8])
    ensures
        ret@ == magic_word(),
        forall|i: int| 0 <= i < 8 ==> ret@[i] == swap_nibbles(#[trigger] MAGIC_WORD@[i] as u8),
{
    let text = MAGIC_WORD.as_bytes();
    proof {
        reveal_strlit("Htemp99e");
        assert(vstd::string::is_ascii(MAGIC_WORD));
        vstd::string::is_ascii_spec_bytes(MAGIC_WORD);
        assert(text@ =~= seq![0x48u8, 0x74u8, 0x65u8, 0x6du8, 0x70u8, 0x39u8, 0x39u8, 0x65u8]);
    }
    let mut ret: [u8; 8] = [0; 8];
    for i in 0..8usize
        invariant
            text@ == MAGIC_WORD.spec_bytes(),
            text@.len() == 8,
            forall|j: int| 0 <= j < i ==> ret@[j] == swap_nibbles(text@[j]),
    {
        let byte = text[i];
        assert(((byte << 4) | (byte >> 4)) == ((byte % 16) * 16 + byte / 16) as u8) by (bit_vector);
        ret[i] = (byte << 4) | (byte >> 4);
    }
    ret
}

/// The eight bytes of a 64-bit unsigned integer, most significant first.
pub open spec fn be_bytes(x: u64) -> Seq<u8> {
    seq![
        (x / 0x0100_0000_0000_0000) as u8,
        (x / 0x0001_0000_0000_0000 % 256) as u8,
        (x / 0x0000_0100_0000_0000 % 256) as u8,
        (x / 0x0000_0001_0000_0000 % 256) as u8,
        (x / 0x0100_0000 % 256) as u8,
        (x / 0x0001_0000 % 256) as u8,
        (x / 0x0100 % 256) as u8,
        (x % 256) as u8,
    ]
}

/// Splits a 64-bit unsigned integer into its eight bytes, most significant
/// byte first.
pub fn longint_to_list(x: u64) -> (buf: [u8; 8])
    ensures
        buf@ == be_bytes(x),
{
    assert({
        &&& ((x >> 56) & 0xFF) as u8 == (x / 0x0100_0000_0000_0000) as u8
        &&& ((x >> 48) & 0xFF) as u8 == (x / 0x0001_0000_0000_0000 % 256) as u8
        &&& ((x >> 40) & 0xFF) as u8 == (x / 0x0000_0100_0000_0000 % 256) as u8
        &&& ((x >> 32) & 0xFF) as u8 == (x / 0x0000_0001_0000_0000 % 256) as u8
        &&& ((x >> 24) & 0xFF) as u8 == (x / 0x0100_0000 % 256) as u8
        &&& ((x >> 16) & 0xFF) as u8 == (x / 0x0001_0000 % 256) as u8
        &&& ((x >> 8) & 0xFF) as u8 == (x / 0x0100 % 256) as u8
        &&& (x & 0xFF) as u8 == (x % 256) as u8
    }) by (bit_vector);
    let buf: [u8; 8] = [
        ((x >> 56) & 0xFF) as u8,
        ((x >> 48) & 0xFF) as u8,
        ((x >> 40) & 0xFF) as u8,
        ((x >> 32) & 0xFF) as u8,
        ((x >> 24) & 0xFF) as u8,
        ((x >> 16) & 0xFF) as u8,
        ((x >> 8) & 0xFF) as u8,
        (x & 0xFF) as u8,
    ];
    assert(buf@ =~= be_bytes(x));
    buf
}

/// For each source index, the index at which descrambling places that byte.
pub const SHUFFLE: [usize; 8] = [2, 4, 0, 7, 1, 6, 5, 3];

/// The bytes of `input` rearranged so that the byte at index `i` stands at
/// index `SHUFFLE[i]`.
pub open spec fn permute(input: Seq<u8>) -> Seq<u8>
    recommends
        input.len() == 8,
{
    seq![input[2], input[4], input[0], input[7], input[1], input[6], input[5], input[3]]
}

/// `permute` places every byte where `SHUFFLE` says, and applying it twice
/// gives the input back.
pub proof fn lemma_permute(input: Seq<u8>)
    requires
        input.len() == 8,
    ensures
        permute(input).len() == 8,
        forall|i: int| 0 <= i < 8 ==> permute(input)[#[trigger] SHUFFLE@[i] as int] == input[i],
        permute(permute(input)) == input,
{
    assert(SHUFFLE@[0] == 2 && SHUFFLE@[1] == 4 && SHUFFLE@[2] == 0 && SHUFFLE@[3] == 7);
    assert(SHUFFLE@[4] == 1 && SHUFFLE@[5] == 6 && SHUFFLE@[6] == 5 && SHUFFLE@[7] == 3);
    assert(permute(permute(input)) =~= input);
}

/// A 64-bit value rotated right by three bits: the three lowest bits
/// reenter at the top.
pub open spec fn rotate_right_3(x: u64) -> u64 {
    (x / 8 + (x % 8) * 0x2000_0000_0000_0000) as u64
}

/// A 64-bit value rotated left by three bits: the three highest bits
/// reenter at the bottom.
pub open spec fn rotate_left_3(x: u64) -> u64 {
    ((x % 0x2000_0000_0000_0000) * 8 + x / 0x2000_0000_0000_0000) as u64
}

/// Each of eight bytes less the mask byte at its position, modulo 256.
pub open spec fn unmask(bytes: Seq<u8>) -> Seq<u8>
    recommends
        bytes.len() == 8,
{
    Seq::new(8, |i: int| ((bytes[i] - magic_word()[i]) % 256) as u8)
}

/// Each of eight bytes plus the mask byte at its position, modulo 256.
pub open spec fn mask(bytes: Seq<u8>) -> Seq<u8>
    recommends
        bytes.len() == 8,
{
    Seq::new(8, |i: int| ((bytes[i] + magic_word()[i]) % 256) as u8)
}

/// The decoded frame that a raw frame stands for: the bytes permuted, read
/// as one big-endian integer, rotated right by three bits, split into bytes
/// again and unmasked.
pub open spec fn descramble(raw: Seq<u8>) -> Seq<u8>
    recommends
        raw.len() == 8,
{
    unmask(be_bytes(rotate_right_3(be_value(permute(raw)) as u64)))
}

/// The raw frame that stands for a decoded frame: the steps of
/// [`descramble`] undone in reverse order.
pub open spec fn scramble(decoded: Seq<u8>) -> Seq<u8>
    recommends
        decoded.len() == 8,
{
    permute(be_bytes(rotate_left_3(be_value(mask(decoded)) as u64)))
}

/// Reverses the obfuscation of a raw frame.
pub fn decrypt(bytes: &[u8; 8]) -> (decrypted: [u8; 8])
    ensures
        decrypted@ == descramble(bytes@),
{
    let magic = gen_magic_word();

    let mut unshuffled: [u8; 8] = [0; 8];
    for i in 0..8usize
        invariant
            forall|k: int| 0 <= k < i ==> unshuffled@[#[trigger] SHUFFLE@[k] as int] == bytes@[k],
    {
        unshuffled[SHUFFLE[i]] = bytes[i];
    }
    proof {
        lemma_permute(bytes@);
        assert(unshuffled@ =~= permute(bytes@));
    }

    let msg = list_to_longint(&unshuffled);
    let res = (msg >> 3) | (msg << 61);
    assert(res == rotate_right_3(msg)) by (bit_vector)
        requires
            res == (msg >> 3) | (msg << 61),
    ;
    let res_list = longint_to_list(res);

    let mut decrypted: [u8; 8] = [0; 8];
    for i in 0..8usize
        invariant
            forall|k: int|
                0 <= k < i ==> decrypted@[k] == ((res_list@[k] - magic@[k]) % 256) as u8,
    {
        decrypted[i] = res_list[i].wrapping_sub(magic[i]);
    }
    assert(decrypted@ =~= unmask(res_list@));
    decrypted
}

/// Applies the obfuscation to a decoded frame.
pub fn encrypt(bytes: &[u8; 8]) -> (encrypted: [u8; 8])
    ensures
        encrypted@ == scramble(bytes@),
{
    let magic = gen_magic_word();

    let mut masked: [u8; 8] = [0; 8];
    for i in 0..8usize
        invariant
            forall|k: int| 0 <= k < i ==> masked@[k] == ((bytes@[k] + magic@[k]) % 256) as u8,
    {
        masked[i] = bytes[i].wrapping_add(magic[i]);
    }
    assert(masked@ =~= mask(bytes@));

    let msg = list_to_longint(&masked);
    let res = (msg << 3) | (msg >> 61);
    assert(res == rotate_left_3(msg)) by (bit_vector)
        requires
            res == (msg << 3) | (msg >> 61),
    ;
    let res_list = longint_to_list(res);

    let mut encrypted: [u8; 8] = [0; 8];
    for i in 0..8usize
        invariant
            forall|k: int| 0 <= k < i ==> encrypted@[k] == res_list@[#[trigger] SHUFFLE@[k] as int],
    {
        encrypted[i] = res_list[SHUFFLE[i]];
    }
    assert(encrypted@ =~= permute(res_list@));
    encrypted
}

/// Eight bytes are the big-endian digits of `x` exactly when `x` is their
/// big-endian value.
proof fn lemma_be_digits(x: u64, b0: u8, b1: u8, b2: u8, b3: u8, b4: u8, b5: u8, b6: u8, b7: u8)
    by (bit_vector)
    ensures
        (x == b0 * 0x0100_0000_0000_0000 + b1 * 0x0001_0000_0000_0000 + b2 * 0x0000_0100_0000_0000
            + b3 * 0x0000_0001_0000_0000 + b4 * 0x0100_0000 + b5 * 0x0001_0000 + b6 * 0x0100 + b7)
            <==> {
            &&& b0 == (x / 0x0100_0000_0000_0000) as u8
            &&& b1 == (x / 0x0001_0000_0000_0000 % 256) as u8
            &&& b2 == (x / 0x0000_0100_0000_0000 % 256) as u8
            &&& b3 == (x / 0x0000_0001_0000_0000 % 256) as u8
            &&& b4 == (x / 0x0100_0000 % 256) as u8
            &&& b5 == (x / 0x0001_0000 % 256) as u8
            &&& b6 == (x / 0x0100 % 256) as u8
            &&& b7 == (x % 256) as u8
        },
{
}

/// Splitting an integer into its big-endian bytes and reading them back
/// gives the integer.
pub proof fn lemma_be_value_of_bytes(x: u64)
    ensures
        be_bytes(x).len() == 8,
        be_value(be_bytes(x)) == x,
{
    let b = be_bytes(x);
    lemma_be_digits(x, b[0], b[1], b[2], b[3], b[4], b[5], b[6], b[7]);
}

/// Reading eight bytes as a big-endian integer and splitting it again gives
/// the bytes.
pub proof fn lemma_be_bytes_of_value(bytes: Seq<u8>)
    requires
        bytes.len() == 8,
    ensures
        0 <= be_value(bytes) <= u64::MAX,
        be_bytes(be_value(bytes) as u64) == bytes,
{
    let x = be_value(bytes) as u64;
    lemma_be_digits(
        x,
        bytes[0],
        bytes[1],
        bytes[2],
        bytes[3],
        bytes[4],
        bytes[5],
        bytes[6],
        bytes[7],
    );
    assert(be_bytes(x) =~= bytes);
}

/// The two rotations undo each other.
pub proof fn lemma_rotations(x: u64)
    ensures
        rotate_left_3(rotate_right_3(x)) == x,
        rotate_right_3(rotate_left_3(x)) == x,
{
}

/// Masking and unmasking undo each other.
pub proof fn lemma_masks(bytes: Seq<u8>)
    requires
        bytes.len() == 8,
    ensures
        mask(bytes).len() == 8,
        unmask(bytes).len() == 8,
        mask(unmask(bytes)) == bytes,
        unmask(mask(bytes)) == bytes,
{
    assert(mask(unmask(bytes)) =~= bytes);
    assert(unmask(mask(bytes)) =~= bytes);
}

/// Descrambling a raw frame and scrambling the result recovers the raw
/// frame, whatever its eight bytes are.
pub proof fn lemma_scramble_descramble(raw: Seq<u8>)
    requires
        raw.len() == 8,
    ensures
        descramble(raw).len() == 8,
        scramble(descramble(raw)) == raw,
{
    lemma_permute(raw);
    lemma_be_bytes_of_value(permute(raw));
    let v = be_value(permute(raw)) as u64;
    let r = rotate_right_3(v);
    lemma_be_value_of_bytes(r);
    lemma_masks(be_bytes(r));
    lemma_rotations(v);
}

/// Scrambling a decoded frame and descrambling the result recovers the
/// decoded frame, whatever its eight bytes are.
pub proof fn lemma_descramble_scramble(decoded: Seq<u8>)
    requires
        decoded.len() == 8,
    ensures
        scramble(decoded).len() == 8,
        descramble(scramble(decoded)) == decoded,
{
    lemma_masks(decoded);
    lemma_be_bytes_of_value(mask(decoded));
    let v = be_value(mask(decoded)) as u64;
    let l = rotate_left_3(v);
    lemma_be_value_of_bytes(l);
    lemma_permute(be_bytes(l));
    lemma_rotations(v);
}

/// Whether a decoded frame has the shape of a measurement frame: the
/// terminator in byte 4, zero padding in bytes 5 to 7, and in byte 3 the sum
/// of bytes 0 to 2 modulo 256.
pub open spec fn frame_valid(bytes: Seq<u8>) -> bool
    recommends
        bytes.len() >= 8,
{
    &&& bytes[4] == CODE_END
    &&& bytes[5] == 0
    &&& bytes[6] == 0
    &&& bytes[7] == 0
    &&& bytes[3] == (bytes[0] + bytes[1] + bytes[2]) % 256
}

/// Checks the shape and the checksum of a decoded frame.
pub fn verify_checksum(bytes: &[u8]) -> (ok: bool)
    requires
        bytes@.len() >= 8,
    ensures
        ok == frame_valid(bytes@),
{
    if bytes[5] != 0 || bytes[6] != 0 || bytes[7] != 0 {
        return false;
    }
    if bytes[4] != CODE_END {
        return false;
    }
    // low byte of the sum of the first three bytes
    let sum: u32 = bytes[0] as u32 + bytes[1] as u32 + bytes[2] as u32;
    assert(sum & 0xff == sum % 256) by (bit_vector);
    if (sum & 0xff) as u8 != bytes[3] {
        return false;
    }
    true
}

} // verus!
