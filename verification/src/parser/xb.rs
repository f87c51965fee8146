//! Request-signature cipher: repeated MD5 hashing, an RC4-style stream cipher
//! and a base64 encoding over a custom alphabet.

use md5::{Digest, Md5};
use vstd::prelude::*;
use vstd::string::*;
use vstd::utf8::*;

use crate::error::{ErrorView, ResolutionError};

verus! {

/// Alphabet of the outer encoding of a signature.
pub const SIGNATURE_ALPHABET: &'static str =
    "Dkdpgh4ZKsQB80/Mfvw36XI1R25-WUAlEi7NLboqYTOPuzmFjJnryx9HVGcaStCe=";

/// Alphabet of the encoding applied to the encrypted client identity.
pub const IDENTITY_ALPHABET: &'static str =
    "ABCDEFGHIJKLMNOPQRSTUVWXYZabcdefghijklmnopqrstuvwxyz0123456789+/=";

/// The MD5 digest of a byte string.
pub uninterp spec fn md5_digest(data: Seq<u8>) -> Seq<u8>;

/// Calls `Md5::new`, `Digest::update` and `Digest::finalize` of the `md-5`
/// crate. The contract names the digest of the input and claims that it is
/// 16 bytes long, as the hasher's fixed output size says; nothing is claimed
/// about its content.
#[verifier::external_body]
fn md5_bytes(data: &[u8]) -> (digest: Vec<u8>)
    ensures
        digest@ == md5_digest(data@),
        digest@.len() == 16,
{
    let mut hasher = Md5::new();
    hasher.update(data);
    hasher.finalize().to_vec()
}

/// The lower-case hexadecimal digit of a value below 16.
pub open spec fn hex_digit(n: u8) -> u8 {
    if n < 10 {
        (48 + n) as u8
    } else {
        (87 + n) as u8
    }
}

/// Lower-case hexadecimal text of a byte string, two digits per byte, as
/// ASCII codes.
pub open spec fn hex_lower(bytes: Seq<u8>) -> Seq<u8> {
    Seq::new(
        2 * bytes.len(),
        |i: int|
            if i % 2 == 0 {
                hex_digit(bytes[i / 2] >> 4)
            } else {
                hex_digit(bytes[i / 2] & 15)
            },
    )
}

/// The value of a lower-case hexadecimal digit given by its ASCII code.
pub open spec fn hex_value(code: u8) -> Option<u8> {
    if 48 <= code <= 57 {
        Some((code - 48) as u8)
    } else if 97 <= code <= 102 {
        Some((code - 87) as u8)
    } else {
        None
    }
}

/// The byte written by a pair of hexadecimal digits, if both are digits.
pub open spec fn pair_value(high: u8, low: u8) -> Option<u8> {
    match (hex_value(high), hex_value(low)) {
        (Some(h), Some(l)) => Some((h << 4) | l),
        _ => None,
    }
}

/// The bytes written by the first `pairs` digit pairs of `text`, pairs that
/// are not two hexadecimal digits left out.
pub open spec fn decoded_pairs(text: Seq<u8>, pairs: nat) -> Seq<u8>
    decreases pairs,
{
    if pairs == 0 {
        Seq::empty()
    } else {
        let before = decoded_pairs(text, (pairs - 1) as nat);
        match pair_value(text[2 * pairs - 2], text[2 * pairs - 1]) {
            Some(v) => before.push(v),
            None => before,
        }
    }
}

/// Hex unpack: one byte per pair of characters of `text`. Pairs that are not
/// hexadecimal digits write nothing, and the result is filled up with zeros
/// to half the length of the text.
pub open spec fn hex_unpack(text: Seq<u8>) -> Seq<u8> {
    let pairs = text.len() / 2;
    let decoded = decoded_pairs(text, pairs);
    decoded + Seq::new((pairs - decoded.len()) as nat, |i: int| 0u8)
}

pub proof fn lemma_decoded_pairs_len(text: Seq<u8>, pairs: nat)
    ensures
        decoded_pairs(text, pairs).len() <= pairs,
    decreases pairs,
{
    if pairs > 0 {
        lemma_decoded_pairs_len(text, (pairs - 1) as nat);
    }
}

proof fn lemma_hex_digit_round_trip(b: u8)
    ensures
        pair_value(hex_digit(b >> 4), hex_digit(b & 15)) == Some(b),
{
    let h = b >> 4;
    let l = b & 15;
    assert(h < 16 && l < 16 && (h << 4) | l == b) by (bit_vector)
        requires
            h == b >> 4,
            l == b & 15,
    ;
    assert(hex_value(hex_digit(h)) == Some(h));
    assert(hex_value(hex_digit(l)) == Some(l));
}

proof fn lemma_decoded_pairs_of_hex(bytes: Seq<u8>, pairs: nat)
    requires
        pairs <= bytes.len(),
    ensures
        decoded_pairs(hex_lower(bytes), pairs) == bytes.take(pairs as int),
    decreases pairs,
{
    if pairs > 0 {
        lemma_decoded_pairs_of_hex(bytes, (pairs - 1) as nat);
        let b = bytes[pairs - 1];
        lemma_hex_digit_round_trip(b);
        let text = hex_lower(bytes);
        assert(text[2 * pairs - 2] == hex_digit(b >> 4));
        assert(text[2 * pairs - 1] == hex_digit(b & 15));
        assert(bytes.take(pairs as int) =~= bytes.take(pairs - 1).push(b));
    } else {
        assert(bytes.take(0) =~= Seq::<u8>::empty());
    }
}

/// Unpacking the hexadecimal text of a byte string gives the byte string back.
pub proof fn lemma_hex_unpack_of_hex_lower(bytes: Seq<u8>)
    ensures
        hex_unpack(hex_lower(bytes)) == bytes,
{
    lemma_decoded_pairs_of_hex(bytes, bytes.len());
    assert(bytes.take(bytes.len() as int) =~= bytes);
    assert(hex_unpack(hex_lower(bytes)) =~= bytes);
}


/// Lower-case hexadecimal MD5 digest of `data`.
pub fn md5_hex(data: &[u8]) -> (text: String)
    ensures
        encode_utf8(text@) == hex_lower(md5_digest(data@)),
        md5_digest(data@).len() == 16,
        text@.len() == 32,
{
    let digest = md5_bytes(data);
    let mut text = String::new();
    let mut i: usize = 0;
    while i < digest.len()
        invariant
            i <= digest.len(),
            text@.len() == 2 * i,
            is_ascii_chars(text@),
            forall|j: int| 0 <= j < 2 * i ==> text@[j] as u8 == #[trigger] hex_lower(digest@)[j],
        decreases digest.len() - i,
    {
        let b = digest[i];
        let high = b >> 4;
        let low = b & 15;
        assert(high < 16 && low < 16) by (bit_vector)
            requires
                high == b >> 4,
                low == b & 15,
        ;
        let c1 = hex_char(high);
        let c2 = hex_char(low);
        text.push(c1);
        text.push(c2);
        i += 1;
    }
    proof {
        is_ascii_chars_encode_utf8(text@);
        assert(encode_utf8(text@) =~= hex_lower(digest@));
    }
    text
}

/// The character of a hexadecimal digit.
fn hex_char(n: u8) -> (c: char)
    requires
        n < 16,
    ensures
        c as u8 == hex_digit(n),
        '\0' <= c <= '\u{7f}',
{
    let code: u8 = if n < 10 {
        48 + n
    } else {
        87 + n
    };
    code as char
}

/// Hex unpack of `aa`: each successive pair of hexadecimal characters becomes
/// one byte.
pub fn m_transform(aa: &str) -> (u: Vec<u8>)
    ensures
        u@ == hex_unpack(encode_utf8(aa@)),
{
    let text = aa.as_bytes();
    let w = text.len();
    let l = w / 2;
    let mut u: Vec<u8> = Vec::new();
    let mut b: usize = 0;
    while b < l
        invariant
            b <= l,
            w == text@.len(),
            l == w / 2,
            u@ == decoded_pairs(text@, b as nat),
        decreases l - b,
    {
        let v1 = hex_digit_value(text[2 * b]);
        let v2 = hex_digit_value(text[2 * b + 1]);
        match (v1, v2) {
            (Some(a), Some(val_b)) => {
                u.push((a << 4) | val_b);
            },
            _ => {},
        }
        b += 1;
    }
    proof {
        lemma_decoded_pairs_len(text@, l as nat);
    }
    let ghost decoded = u@;
    while u.len() < l
        invariant
            decoded.len() <= u.len() <= l,
            u@ == decoded + Seq::new((u.len() - decoded.len()) as nat, |i: int| 0u8),
        decreases l - u.len(),
    {
        u.push(0);
        assert(u@ =~= decoded + Seq::new((u.len() - decoded.len()) as nat, |i: int| 0u8));
    }
    u
}

fn hex_digit_value(code: u8) -> (v: Option<u8>)
    ensures
        v == hex_value(code),
        v matches Some(n) ==> n < 16,
{
    if 48 <= code && code <= 57 {
        Some(code - 48)
    } else if 97 <= code && code <= 102 {
        Some(code - 87)
    } else {
        None
    }
}


/// The 24-bit value of one group of three bytes.
pub open spec fn group_value(n1: u8, n2: u8, n3: u8) -> u32 {
    ((n1 as u32) << 16) | ((n2 as u32) << 8) | (n3 as u32)
}

/// The `j`-th six-bit value of the encoding of `data`, four to a group of
/// three bytes, the highest bits first.
pub open spec fn sextet(data: Seq<u8>, j: int) -> u32 {
    let g = j / 4;
    let m = group_value(data[3 * g], data[3 * g + 1], data[3 * g + 2]);
    if j % 4 == 0 {
        (m >> 18) & 63
    } else if j % 4 == 1 {
        (m >> 12) & 63
    } else if j % 4 == 2 {
        (m >> 6) & 63
    } else {
        m & 63
    }
}

/// Base64-style text of `data` over `alphabet`: four characters for every
/// complete group of three bytes. Bytes after the last complete group are
/// left out, and no padding is written.
pub open spec fn encode_groups(data: Seq<u8>, alphabet: Seq<u8>) -> Seq<char> {
    Seq::new(4 * (data.len() / 3), |j: int| alphabet[sextet(data, j) as int] as char)
}

/// Encodes `aa` over the alphabet `bb`, or over `SIGNATURE_ALPHABET` where
/// `bb` is `None`.
pub fn u_transform(aa: &[u8], bb: Option<&str>) -> (v: String)
    requires
        bb matches Some(alphabet) ==> encode_utf8(alphabet@).len() >= 64,
    ensures
        v@ == encode_groups(
            aa@,
            match bb {
                Some(alphabet) => encode_utf8(alphabet@),
                None => encode_utf8(SIGNATURE_ALPHABET@),
            },
        ),
{
    let bb_str = match bb {
        Some(alphabet) => alphabet,
        None => SIGNATURE_ALPHABET,
    };
    proof {
        lemma_alphabets();
    }
    let bb_bytes = bb_str.as_bytes();
    let w = aa.len();
    let groups = w / 3;
    let mut v = String::new();
    let mut g: usize = 0;
    while g < groups
        invariant
            g <= groups,
            w == aa@.len(),
            groups == aa@.len() / 3,
            bb_bytes@.len() >= 64,
            v@ == Seq::new(4 * g as nat, |j: int| bb_bytes@[sextet(aa@, j) as int] as char),
        decreases groups - g,
    {
        assert(3 * g + 3 <= aa@.len()) by (nonlinear_arith)
            requires
                g < groups,
                groups == aa@.len() / 3,
        ;
        let n1 = aa[3 * g];
        let n2 = aa[3 * g + 1];
        let n3 = aa[3 * g + 2];
        let m: u32 = ((n1 as u32) << 16) | ((n2 as u32) << 8) | (n3 as u32);
        let i0 = (m >> 18) & 63;
        let i1 = (m >> 12) & 63;
        let i2 = (m >> 6) & 63;
        let i3 = m & 63;
        assert(i0 < 64 && i1 < 64 && i2 < 64 && i3 < 64) by (bit_vector)
            requires
                i0 == (m >> 18) & 63,
                i1 == (m >> 12) & 63,
                i2 == (m >> 6) & 63,
                i3 == m & 63,
        ;
        v.push(bb_bytes[i0 as usize] as char);
        v.push(bb_bytes[i1 as usize] as char);
        v.push(bb_bytes[i2 as usize] as char);
        v.push(bb_bytes[i3 as usize] as char);
        g += 1;
        assert(v@ =~= Seq::new(4 * g as nat, |j: int| bb_bytes@[sextet(aa@, j) as int] as char));
    }
    v
}

/// Both alphabets hold 65 one-byte characters.
pub proof fn lemma_alphabets()
    ensures
        encode_utf8(SIGNATURE_ALPHABET@).len() == 65,
        encode_utf8(IDENTITY_ALPHABET@).len() == 65,
{
    reveal_strlit("Dkdpgh4ZKsQB80/Mfvw36XI1R25-WUAlEi7NLboqYTOPuzmFjJnryx9HVGcaStCe=");
    reveal_strlit("ABCDEFGHIJKLMNOPQRSTUVWXYZabcdefghijklmnopqrstuvwxyz0123456789+/=");
    assert(is_ascii_chars(SIGNATURE_ALPHABET@));
    assert(is_ascii_chars(IDENTITY_ALPHABET@));
    is_ascii_chars_encode_utf8(SIGNATURE_ALPHABET@);
    is_ascii_chars_encode_utf8(IDENTITY_ALPHABET@);
}


/// The permutation table before the key schedule: entry `i` holds `i`.
pub open spec fn identity_table() -> Seq<u8> {
    Seq::new(256, |i: int| i as u8)
}

/// `q` with the entries at `i` and `j` exchanged.
pub open spec fn exchanged(q: Seq<u8>, i: int, j: int) -> Seq<u8> {
    q.update(i, q[j]).update(j, q[i])
}

/// The key byte mixed in at round `y` of the schedule: the key is used
/// cyclically, and an empty key counts as zeros.
pub open spec fn key_byte(key: Seq<u8>, y: int) -> int {
    if key.len() > 0 {
        key[y % (key.len() as int)] as int
    } else {
        0
    }
}

/// Table and running index after `rounds` rounds of the key schedule.
pub open spec fn schedule(key: Seq<u8>, rounds: nat) -> (Seq<u8>, int)
    decreases rounds,
{
    if rounds == 0 {
        (identity_table(), 0)
    } else {
        let (q, c) = schedule(key, (rounds - 1) as nat);
        let y = rounds - 1;
        let c2 = (c + q[y] as int + key_byte(key, y)) % 256;
        (exchanged(q, y, c2), c2)
    }
}

/// Table and the two indices after `n` bytes of key stream were produced.
pub open spec fn stream_state(key: Seq<u8>, n: nat) -> (Seq<u8>, int, int)
    decreases n,
{
    if n == 0 {
        (schedule(key, 256).0, 0, 0)
    } else {
        let (q, d, c) = stream_state(key, (n - 1) as nat);
        let d2 = (d + 1) % 256;
        let c2 = (c + q[d2] as int) % 256;
        (exchanged(q, d2, c2), d2, c2)
    }
}

/// The `n`-th byte of the key stream, counted from 0.
pub open spec fn keystream_byte(key: Seq<u8>, n: nat) -> u8 {
    let (q, d, c) = stream_state(key, n + 1);
    q[(q[d] as int + q[c] as int) % 256]
}

/// `data` encrypted under `key`: each byte XORed with the key stream.
pub open spec fn stream_cipher(key: Seq<u8>, data: Seq<u8>) -> Seq<u8> {
    Seq::new(data.len(), |i: int| data[i] ^ keystream_byte(key, i as nat))
}

/// The stream cipher undoes itself: encrypting twice under one key gives
/// the data back.
pub proof fn lemma_stream_cipher_is_an_involution(key: Seq<u8>, data: Seq<u8>)
    ensures
        stream_cipher(key, stream_cipher(key, data)) == data,
{
    let once = stream_cipher(key, data);
    let twice = stream_cipher(key, once);
    assert forall|i: int| 0 <= i < data.len() implies twice[i] == data[i] by {
        let d = data[i];
        let k = keystream_byte(key, i as nat);
        assert((d ^ k) ^ k == d) by (bit_vector);
    }
    assert(twice =~= data);
}

fn exchange(q: &mut Vec<u8>, i: usize, j: usize)
    requires
        i < old(q)@.len(),
        j < old(q)@.len(),
    ensures
        final(q)@ == exchanged(old(q)@, i as int, j as int),
{
    let a = q[i];
    let b = q[j];
    q.set(i, b);
    q.set(j, a);
}

/// Encrypts `z` with the stream cipher keyed by `aa`.
pub fn k_transform(aa: &[u8], z: &[u8]) -> (p_out: Vec<u8>)
    ensures
        p_out@ == stream_cipher(aa@, z@),
{
    let mut q: Vec<u8> = Vec::new();
    let mut n: usize = 0;
    while n < 256
        invariant
            n <= 256,
            q@ == Seq::new(n as nat, |i: int| i as u8),
        decreases 256 - n,
    {
        q.push(n as u8);
        n += 1;
        assert(q@ =~= Seq::new(n as nat, |i: int| i as u8));
    }
    assert(q@ =~= identity_table());
    let mut c: usize = 0;
    let mut y: usize = 0;
    while y < 256
        invariant
            y <= 256,
            c < 256,
            q@.len() == 256,
            (q@, c as int) == schedule(aa@, y as nat),
        decreases 256 - y,
    {
        let p: usize = if aa.len() > 0 {
            aa[y % aa.len()] as usize
        } else {
            0
        };
        c = (c + q[y] as usize + p) % 256;
        exchange(&mut q, y, c);
        y += 1;
    }
    let mut d: usize = 0;
    let mut c: usize = 0;
    let mut p_out: Vec<u8> = Vec::new();
    let mut i: usize = 0;
    while i < z.len()
        invariant
            i <= z.len(),
            d < 256,
            c < 256,
            q@.len() == 256,
            (q@, d as int, c as int) == stream_state(aa@, i as nat),
            p_out@ == stream_cipher(aa@, z@).take(i as int),
        decreases z.len() - i,
    {
        d = (d + 1) % 256;
        c = (c + q[d] as usize) % 256;
        exchange(&mut q, d, c);
        let k = q[(q[d] as usize + q[c] as usize) % 256];
        p_out.push(z[i] ^ k);
        i += 1;
        assert(p_out@ =~= stream_cipher(aa@, z@).take(i as int));
    }
    assert(p_out@ =~= stream_cipher(aa@, z@));
    p_out
}

/// The key of the identity cipher: the low two bytes of `aa`, high byte
/// first, then the low byte of `bb`.
pub open spec fn packed_key(aa: u32, bb: u32) -> Seq<u8> {
    seq![((aa >> 8) & 255) as u8, (aa & 255) as u8, (bb & 255) as u8]
}

/// Packs two small integers into a three-byte cipher key.
pub fn s_transform(aa: u32, bb: u32) -> (q: Vec<u8>)
    ensures
        q@ == packed_key(aa, bb),
{
    let b0 = (aa >> 8) & 255;
    let b1 = aa & 255;
    let b2 = bb & 255;
    assert(b0 < 256 && b1 < 256 && b2 < 256) by (bit_vector)
        requires
            b0 == (aa >> 8) & 255,
            b1 == aa & 255,
            b2 == bb & 255,
    ;
    let mut q: Vec<u8> = Vec::new();
    q.push(b0 as u8);
    q.push(b1 as u8);
    q.push(b2 as u8);
    assert(q@ =~= packed_key(aa, bb));
    q
}

/// Length of the buffer that enters the last cipher pass.
pub const KEY_LENGTH: usize = 19;

/// Where each byte of the reordered buffer comes from: position `j` of the
/// result holds the byte at `source_index(j)` of the input.
pub open spec fn source_index(j: int) -> int {
    seq![0int, 10, 1, 11, 2, 12, 3, 13, 4, 14, 5, 15, 6, 16, 7, 17, 8, 18, 9][j]
}

/// The fixed reordering of a 19-byte buffer. A shorter input gives 19 zeros;
/// bytes after the 19th are not read.
pub open spec fn reordered(params: Seq<u8>) -> Seq<u8> {
    if params.len() < 19 {
        Seq::new(19, |j: int| 0u8)
    } else {
        Seq::new(19, |j: int| params[source_index(j)])
    }
}

/// Reorders the 19 bytes of `params` by the fixed table.
pub fn h_transform(params: Vec<u8>) -> (k: Vec<u8>)
    ensures
        k@ == reordered(params@),
{
    let mut k: Vec<u8> = Vec::new();
    if params.len() < KEY_LENGTH {
        let mut n: usize = 0;
        while n < KEY_LENGTH
            invariant
                n <= KEY_LENGTH,
                k@ == Seq::new(n as nat, |j: int| 0u8),
            decreases KEY_LENGTH - n,
        {
            k.push(0);
            n += 1;
            assert(k@ =~= Seq::new(n as nat, |j: int| 0u8));
        }
        return k;
    }
    k.push(params[0]);
    k.push(params[10]);
    k.push(params[1]);
    k.push(params[11]);
    k.push(params[2]);
    k.push(params[12]);
    k.push(params[3]);
    k.push(params[13]);
    k.push(params[4]);
    k.push(params[14]);
    k.push(params[5]);
    k.push(params[15]);
    k.push(params[6]);
    k.push(params[16]);
    k.push(params[7]);
    k.push(params[17]);
    k.push(params[8]);
    k.push(params[18]);
    k.push(params[9]);
    assert(k@ =~= reordered(params@));
    k
}

/// XOR of the first `n` bytes of `r`.
pub open spec fn xor_prefix(r: Seq<u8>, n: nat) -> u8
    decreases n,
{
    if n == 0 {
        0
    } else {
        xor_prefix(r, (n - 1) as nat) ^ r[n - 1]
    }
}

/// The running XOR checksum over all bytes of `r`.
pub open spec fn checksum(r: Seq<u8>) -> u8 {
    xor_prefix(r, r.len())
}

/// XOR checksum of `r`, which holds at least two bytes.
pub fn c_transform(r: &[u8]) -> (a: u8)
    requires
        r@.len() >= 2,
    ensures
        a == checksum(r@),
{
    let mut a = r[0] ^ r[1];
    assert(a == xor_prefix(r@, 2)) by {
        let x = r@[0];
        assert(0u8 ^ x == x) by (bit_vector);
        assert(xor_prefix(r@, 0) == 0);
        assert(xor_prefix(r@, 1) == xor_prefix(r@, 0) ^ r@[0]);
    }
    let mut i: usize = 2;
    while i < r.len()
        invariant
            2 <= i <= r.len(),
            a == xor_prefix(r@, i as nat),
        decreases r.len() - i,
    {
        a = a ^ r[i];
        i += 1;
    }
    a
}


/// The four bytes of `v`, the highest first.
pub open spec fn be_bytes(v: u32) -> Seq<u8> {
    seq![
        ((v >> 24) & 255) as u8,
        ((v >> 16) & 255) as u8,
        ((v >> 8) & 255) as u8,
        (v & 255) as u8,
    ]
}

/// The 18-byte frame of a signature: three protocol constants, the
/// parameter `aa`, the last two bytes of each of the three digests, the
/// time stamp and the pseudo-random value.
pub open spec fn frame(aa: u8, l1: Seq<u8>, l2: Seq<u8>, l3: Seq<u8>, now: u32, random: u32) -> Seq<
    u8,
> {
    seq![64u8, 0u8, 1u8, aa, l1[14], l1[15], l2[14], l2[15], l3[14], l3[15]] + be_bytes(now)
        + be_bytes(random)
}

/// The bytes of `r` at even positions, then `v`, then those at odd positions.
pub open spec fn interleaved(r: Seq<u8>, v: u8) -> Seq<u8> {
    Seq::new((r.len() + 1) / 2, |i: int| r[2 * i]) + seq![v] + Seq::new(
        r.len() / 2,
        |i: int| r[2 * i + 1],
    )
}

fn be_bytes_of(v: u32) -> (b: [u8; 4])
    ensures
        b@ == be_bytes(v),
{
    let b0 = (v >> 24) & 255;
    let b1 = (v >> 16) & 255;
    let b2 = (v >> 8) & 255;
    let b3 = v & 255;
    assert(b0 < 256 && b1 < 256 && b2 < 256 && b3 < 256) by (bit_vector)
        requires
            b0 == (v >> 24) & 255,
            b1 == (v >> 16) & 255,
            b2 == (v >> 8) & 255,
            b3 == v & 255,
    ;
    let b = [b0 as u8, b1 as u8, b2 as u8, b3 as u8];
    assert(b@ =~= be_bytes(v));
    b
}

/// Builds the frame from the three digests, the time stamp `now` and the
/// pseudo-random value `random`, and interleaves its checksum.
pub fn f_transform(aa: u8, l1: &[u8], l2: &[u8], l3: &[u8], now: u32, random: u32) -> (r_final:
    Vec<u8>)
    requires
        l1@.len() >= 16,
        l2@.len() >= 16,
        l3@.len() >= 16,
    ensures
        r_final@ == interleaved(
            frame(aa, l1@, l2@, l3@, now, random),
            checksum(frame(aa, l1@, l2@, l3@, now, random)),
        ),
{
    let t = be_bytes_of(now);
    let m = be_bytes_of(random);
    let mut r: Vec<u8> = Vec::new();
    r.push(64);
    r.push(0);
    r.push(1);
    r.push(aa);
    r.push(l1[14]);
    r.push(l1[15]);
    r.push(l2[14]);
    r.push(l2[15]);
    r.push(l3[14]);
    r.push(l3[15]);
    r.push(t[0]);
    r.push(t[1]);
    r.push(t[2]);
    r.push(t[3]);
    r.push(m[0]);
    r.push(m[1]);
    r.push(m[2]);
    r.push(m[3]);
    assert(r@ =~= frame(aa, l1@, l2@, l3@, now, random));
    let v = c_transform(r.as_slice());
    let mut r_final: Vec<u8> = Vec::new();
    let mut index: usize = 0;
    while index < r.len()
        invariant
            index <= r.len(),
            r.len() == 18,
            index % 2 == 0,
            r_final@ == Seq::new((index / 2) as nat, |i: int| r@[2 * i]),
        decreases r.len() - index,
    {
        r_final.push(r[index]);
        index += 2;
        assert(r_final@ =~= Seq::new((index / 2) as nat, |i: int| r@[2 * i]));
    }
    r_final.push(v);
    let ghost head = r_final@;
    let mut index: usize = 1;
    while index < r.len()
        invariant
            index <= r.len() + 1,
            r.len() == 18,
            index % 2 == 1,
            r_final@ == head + Seq::new((index / 2) as nat, |i: int| r@[2 * i + 1]),
        decreases r.len() + 1 - index,
    {
        r_final.push(r[index]);
        index += 2;
        assert(r_final@ =~= head + Seq::new((index / 2) as nat, |i: int| r@[2 * i + 1]));
    }
    assert(r_final@ =~= interleaved(r@, v));
    r_final
}

/// Reordering the interleaved buffer gives the frame followed by its
/// checksum.
pub proof fn lemma_reordered_interleaved(r: Seq<u8>, v: u8)
    requires
        r.len() == 18,
    ensures
        reordered(interleaved(r, v)) == r.push(v),
{
    let p = interleaved(r, v);
    assert(p.len() == 19);
    assert forall|j: int| 0 <= j < 19 implies p[source_index(j)] == r.push(v)[j] by {
        if j % 2 == 0 && j < 18 {
            assert(source_index(j) == j / 2);
        } else if j == 18 {
            assert(source_index(j) == 9);
        } else {
            assert(source_index(j) == 10 + j / 2);
        }
    }
    assert(reordered(p) =~= r.push(v));
}

/// The text whose double digest enters every signature: the hexadecimal MD5
/// digest of the empty byte string.
pub const EMPTY_DIGEST: &'static str = "d41d8cd98f00b204e9800998ecf8427e";

/// The pseudo-random value of a signature when none is supplied.
pub const FIXED_RANDOM: u32 = 536919696;

/// The signature of a request to `url` by the client `ua`, made at the time
/// `now` with the pseudo-random value `random`. It is handed out for an
/// identity that is not empty only.
pub open spec fn signature(url: Seq<char>, ua: Seq<char>, now: u32, random: u32) -> Seq<char> {
    let y = md5_digest(md5_digest(encode_utf8(url)));
    let l = md5_digest(md5_digest(encode_utf8(EMPTY_DIGEST@)));
    let a = md5_digest(
        encode_utf8(
            encode_groups(
                stream_cipher(packed_key(1, 12), encode_utf8(ua)),
                encode_utf8(IDENTITY_ALPHABET@),
            ),
        ),
    );
    let f = frame(12, y, l, a, now, random);
    encode_groups(
        seq![2u8, 255u8] + stream_cipher(seq![255u8], f.push(checksum(f))),
        encode_utf8(SIGNATURE_ALPHABET@),
    )
}

/// MD5 of the MD5 of `data`, by way of the hexadecimal text and its unpacking.
fn double_digest(data: &[u8]) -> (d: Vec<u8>)
    ensures
        d@ == md5_digest(md5_digest(data@)),
        d@.len() == 16,
{
    let first_hex = md5_hex(data);
    let first = m_transform(first_hex.as_str());
    proof {
        lemma_hex_unpack_of_hex_lower(md5_digest(data@));
    }
    let second_hex = md5_hex(first.as_slice());
    let second = m_transform(second_hex.as_str());
    proof {
        lemma_hex_unpack_of_hex_lower(md5_digest(first@));
    }
    second
}

/// The signature of a request to `url` by the client `ua`, which is not
/// empty, for the time stamp `now` and the pseudo-random value `random`.
fn sign(url: &str, ua: &str, now: u32, random: u32) -> (sig: String)
    requires
        ua@.len() > 0,
    ensures
        sig@ == signature(url@, ua@, now, random),
{
    let y_vec = double_digest(url.as_bytes());
    let l_vec = double_digest(EMPTY_DIGEST.as_bytes());
    proof {
        lemma_alphabets();
    }
    let s_res = s_transform(1, 12);
    let k_res = k_transform(s_res.as_slice(), ua.as_bytes());
    let u_res = u_transform(k_res.as_slice(), Some(IDENTITY_ALPHABET));
    let a_hex = md5_hex(u_res.as_str().as_bytes());
    let a_vec = m_transform(a_hex.as_str());
    proof {
        lemma_hex_unpack_of_hex_lower(md5_digest(encode_utf8(u_res@)));
    }
    let e = f_transform(12, y_vec.as_slice(), l_vec.as_slice(), a_vec.as_slice(), now, random);
    let a_h = h_transform(e);
    proof {
        let f = frame(12, y_vec@, l_vec@, a_vec@, now, random);
        lemma_reordered_interleaved(f, checksum(f));
    }
    let key: [u8; 1] = [255];
    let b_k = k_transform(key.as_slice(), a_h.as_slice());
    let mut c_bytes: Vec<u8> = Vec::new();
    c_bytes.push(2);
    c_bytes.push(255);
    let mut i: usize = 0;
    while i < b_k.len()
        invariant
            i <= b_k.len(),
            c_bytes@ == seq![2u8, 255u8] + b_k@.take(i as int),
        decreases b_k.len() - i,
    {
        c_bytes.push(b_k[i]);
        i += 1;
        assert(c_bytes@ =~= seq![2u8, 255u8] + b_k@.take(i as int));
    }
    assert(b_k@.take(b_k@.len() as int) =~= b_k@);
    assert(key@ =~= seq![255u8]);
    u_transform(c_bytes.as_slice(), None)
}

/// The signature of a request to `target_url` by `client_identity`, for
/// the time stamp `now` and the pseudo-random value `random`; or
/// `SignatureDerivationFailed` where the identity is empty.
pub fn derive_signature_with(target_url: &str, client_identity: &str, now: u32, random: u32) -> (r:
    Result<String, ResolutionError>)
    ensures
        match r {
            Ok(sig) => client_identity@.len() > 0 && sig@ == signature(
                target_url@,
                client_identity@,
                now,
                random,
            ),
            Err(e) => client_identity@.len() == 0 && e@ == ErrorView::SignatureDerivationFailed,
        },
{
    if client_identity.is_empty() {
        return Err(ResolutionError::SignatureDerivationFailed);
    }
    Ok(sign(target_url, client_identity, now, random))
}

#[verifier::external_type_specification]
#[verifier::external_body]
pub struct ExSystemTime(std::time::SystemTime);

/// `SystemTime::now` of std: the time by the system's clock. Nothing is
/// claimed of it.
#[verifier::external_body]
fn clock_now() -> (t: std::time::SystemTime) {
    std::time::SystemTime::now()
}

/// `SystemTime::duration_since` of std, taken against the Unix epoch: the
/// time that has passed since then, `None` where `t` lies before it.
/// Nothing is claimed of the value.
#[verifier::external_body]
fn since_epoch(t: &std::time::SystemTime) -> (d: Option<std::time::Duration>) {
    match t.duration_since(std::time::UNIX_EPOCH) {
        Ok(elapsed) => Some(elapsed),
        Err(_) => None,
    }
}

/// `Duration::as_secs` of std: the whole seconds of a duration.
pub assume_specification[ std::time::Duration::as_secs ](d: &std::time::Duration) -> (secs: u64);

/// The whole seconds since the Unix epoch by the system's clock, or 0
/// where the clock is set before the epoch.
fn unix_seconds() -> (secs: u64) {
    let t = clock_now();
    match since_epoch(&t) {
        Some(elapsed) => elapsed.as_secs(),
        None => 0,
    }
}

/// The signature of a request to `url` by the client `ua`, stamped with the
/// current time and the fixed pseudo-random value. The client identity must
/// not be empty; `derive_signature` reports an empty one as a failure.
pub fn get_x_b(url: &str, ua: &str) -> (sig: String)
    requires
        ua@.len() > 0,
    ensures
        exists|now: u32| sig@ == signature(url@, ua@, now, FIXED_RANDOM),
{
    let secs = unix_seconds();
    let now = (secs & 0xffff_ffff) as u32;
    sign(url, ua, now, FIXED_RANDOM)
}

/// The signature of a request to `target_url` by `client_identity`,
/// stamped with the current time; or `SignatureDerivationFailed` where the
/// identity is empty.
pub fn derive_signature(target_url: &str, client_identity: &str) -> (r: Result<
    String,
    ResolutionError,
>)
    ensures
        match r {
            Ok(sig) => client_identity@.len() > 0 && exists|now: u32|
                sig@ == signature(target_url@, client_identity@, now, FIXED_RANDOM),
            Err(e) => client_identity@.len() == 0 && e@ == ErrorView::SignatureDerivationFailed,
        },
{
    if client_identity.is_empty() {
        return Err(ResolutionError::SignatureDerivationFailed);
    }
    Ok(get_x_b(target_url, client_identity))
}

/// The signature depends on nothing but its four inputs.
pub proof fn lemma_signature_deterministic(
    url1: Seq<char>,
    ua1: Seq<char>,
    now1: u32,
    random1: u32,
    url2: Seq<char>,
    ua2: Seq<char>,
    now2: u32,
    random2: u32,
)
    requires
        url1 == url2,
        ua1 == ua2,
        now1 == now2,
        random1 == random2,
    ensures
        signature(url1, ua1, now1, random1) == signature(url2, ua2, now2, random2),
{
}

} // verus!
