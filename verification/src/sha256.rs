//! SHA-256 (FIPS 180-4) and HMAC-SHA256 (RFC 2104) over byte sequences,
//! specified by the standards' own definitions and proved against them.
use vstd::prelude::*;

verus! {

/// The eight working words of the hash state, `H0` to `H7`.
pub type HashState = (u32, u32, u32, u32, u32, u32, u32, u32);

/// Addition modulo 2^32.
pub open spec fn wadd(x: u32, y: u32) -> u32 {
    ((x as int + y as int) % 0x1_0000_0000) as u32
}

/// Rotation of a word right by `n` bits, `0 < n < 32`.
pub open spec fn rotr(x: u32, n: u32) -> u32 {
    (x >> n) | (x << ((32 - n) as u32))
}

pub open spec fn big_sigma0(x: u32) -> u32 {
    rotr(x, 2) ^ rotr(x, 13) ^ rotr(x, 22)
}

pub open spec fn big_sigma1(x: u32) -> u32 {
    rotr(x, 6) ^ rotr(x, 11) ^ rotr(x, 25)
}

pub open spec fn small_sigma0(x: u32) -> u32 {
    rotr(x, 7) ^ rotr(x, 18) ^ (x >> 3u32)
}

pub open spec fn small_sigma1(x: u32) -> u32 {
    rotr(x, 17) ^ rotr(x, 19) ^ (x >> 10u32)
}

/// `Ch`: each bit of `x` chooses between the bits of `y` and `z`.
pub open spec fn choose_bits(x: u32, y: u32, z: u32) -> u32 {
    (x & y) ^ (!x & z)
}

/// `Maj`: the majority of each bit position.
pub open spec fn majority(x: u32, y: u32, z: u32) -> u32 {
    (x & y) ^ (x & z) ^ (y & z)
}

/// The sixty-four round constants `K`.
pub open spec fn round_constants() -> Seq<u32> {
    seq![
        0x428a2f98u32, 0x71374491, 0xb5c0fbcf, 0xe9b5dba5, 0x3956c25b, 0x59f111f1, 0x923f82a4, 0xab1c5ed5,
        0xd807aa98, 0x12835b01, 0x243185be, 0x550c7dc3, 0x72be5d74, 0x80deb1fe, 0x9bdc06a7, 0xc19bf174,
        0xe49b69c1, 0xefbe4786, 0x0fc19dc6, 0x240ca1cc, 0x2de92c6f, 0x4a7484aa, 0x5cb0a9dc, 0x76f988da,
        0x983e5152, 0xa831c66d, 0xb00327c8, 0xbf597fc7, 0xc6e00bf3, 0xd5a79147, 0x06ca6351, 0x14292967,
        0x27b70a85, 0x2e1b2138, 0x4d2c6dfc, 0x53380d13, 0x650a7354, 0x766a0abb, 0x81c2c92e, 0x92722c85,
        0xa2bfe8a1, 0xa81a664b, 0xc24b8b70, 0xc76c51a3, 0xd192e819, 0xd6990624, 0xf40e3585, 0x106aa070,
        0x19a4c116, 0x1e376c08, 0x2748774c, 0x34b0bcb5, 0x391c0cb3, 0x4ed8aa4a, 0x5b9cca4f, 0x682e6ff3,
        0x748f82ee, 0x78a5636f, 0x84c87814, 0x8cc70208, 0x90befffa, 0xa4506ceb, 0xbef9a3f7, 0xc67178f2,
    ]
}

/// The initial hash value `H(0)`.
pub open spec fn initial_state() -> HashState {
    (0x6a09e667, 0xbb67ae85, 0x3c6ef372, 0xa54ff53a, 0x510e527f, 0x9b05688c, 0x1f83d9ab, 0x5be0cd19)
}

/// Word `t` of the message schedule of a block of sixteen words.
pub open spec fn schedule_word(words: Seq<u32>, t: nat) -> u32
    decreases t,
{
    if t < 16 {
        words[t as int]
    } else {
        wadd(
            wadd(small_sigma1(schedule_word(words, (t - 2) as nat)), schedule_word(words, (t - 7) as nat)),
            wadd(small_sigma0(schedule_word(words, (t - 15) as nat)), schedule_word(words, (t - 16) as nat)),
        )
    }
}

/// The whole sixty-four-word message schedule.
pub open spec fn schedule(words: Seq<u32>) -> Seq<u32> {
    Seq::new(64, |t: int| schedule_word(words, t as nat))
}

/// One round of the compression function with constant `k` and schedule word `w`.
pub open spec fn round(s: HashState, k: u32, w: u32) -> HashState {
    let (a, b, c, d, e, f, g, h) = s;
    let t1 = wadd(wadd(wadd(wadd(h, big_sigma1(e)), choose_bits(e, f, g)), k), w);
    let t2 = wadd(big_sigma0(a), majority(a, b, c));
    (wadd(t1, t2), a, b, c, wadd(d, t1), e, f, g)
}

/// The working state after the first `t` rounds over schedule `ws`.
pub open spec fn rounds(s: HashState, ws: Seq<u32>, t: nat) -> HashState
    decreases t,
{
    if t == 0 {
        s
    } else {
        round(rounds(s, ws, (t - 1) as nat), round_constants()[t - 1], ws[t - 1])
    }
}

/// Word-wise sum of two states.
pub open spec fn add_states(s: HashState, r: HashState) -> HashState {
    (wadd(s.0, r.0), wadd(s.1, r.1), wadd(s.2, r.2), wadd(s.3, r.3),
     wadd(s.4, r.4), wadd(s.5, r.5), wadd(s.6, r.6), wadd(s.7, r.7))
}

/// The compression function: the state after one block of sixteen words.
pub open spec fn compress(s: HashState, words: Seq<u32>) -> HashState {
    add_states(s, rounds(s, schedule(words), 64))
}

/// Number of 64-byte blocks of the padded form of an `n`-byte message: room
/// for the message, the `0x80` marker and the 8-byte length.
pub open spec fn block_count(n: int) -> int {
    (n + 72) / 64
}

/// Byte `k` (big-endian, `0 <= k < 8`) of the 64-bit length field `bits`.
pub open spec fn length_byte(bits: int, k: int) -> u8 {
    let v = if k == 0 { bits / 0x0100_0000_0000_0000 }
        else if k == 1 { bits / 0x0001_0000_0000_0000 }
        else if k == 2 { bits / 0x0000_0100_0000_0000 }
        else if k == 3 { bits / 0x0000_0001_0000_0000 }
        else if k == 4 { bits / 0x0000_0000_0100_0000 }
        else if k == 5 { bits / 0x0000_0000_0001_0000 }
        else if k == 6 { bits / 0x0000_0000_0000_0100 }
        else { bits };
    (v % 256) as u8
}

/// Byte `i` of the padded message: the message, `0x80`, zeros, and the
/// message length in bits (modulo 2^64) as a big-endian 64-bit number.
pub open spec fn padded_byte(m: Seq<u8>, i: int) -> u8 {
    let n = m.len() as int;
    let total = 64 * block_count(n);
    if i < n {
        m[i]
    } else if i == n {
        0x80
    } else if i >= total - 8 {
        length_byte((n * 8) % 0x1_0000_0000_0000_0000, i - (total - 8))
    } else {
        0
    }
}

/// The big-endian word of four bytes.
pub open spec fn be_word(b0: u8, b1: u8, b2: u8, b3: u8) -> u32 {
    (b0 as int * 0x100_0000 + b1 as int * 0x1_0000 + b2 as int * 0x100 + b3 as int) as u32
}

/// The sixteen words of block `b` of the padded message.
pub open spec fn block_words(m: Seq<u8>, b: int) -> Seq<u32> {
    Seq::new(16, |i: int| be_word(
        padded_byte(m, 64 * b + 4 * i), padded_byte(m, 64 * b + 4 * i + 1),
        padded_byte(m, 64 * b + 4 * i + 2), padded_byte(m, 64 * b + 4 * i + 3),
    ))
}

/// The state after the first `k` blocks of the padded message.
pub open spec fn hash_blocks(m: Seq<u8>, k: nat) -> HashState
    decreases k,
{
    if k == 0 {
        initial_state()
    } else {
        compress(hash_blocks(m, (k - 1) as nat), block_words(m, k - 1))
    }
}

/// The four big-endian bytes of a word.
pub open spec fn word_bytes(x: u32) -> Seq<u8> {
    seq![(x / 0x100_0000) as u8, ((x / 0x1_0000) % 256) as u8, ((x / 0x100) % 256) as u8, (x % 256) as u8]
}

/// The 32-byte digest of a final state.
pub open spec fn digest_bytes(s: HashState) -> Seq<u8> {
    word_bytes(s.0) + word_bytes(s.1) + word_bytes(s.2) + word_bytes(s.3)
        + word_bytes(s.4) + word_bytes(s.5) + word_bytes(s.6) + word_bytes(s.7)
}

/// SHA-256 of a byte sequence.
pub open spec fn spec_sha256(m: Seq<u8>) -> Seq<u8> {
    digest_bytes(hash_blocks(m, block_count(m.len() as int) as nat))
}

/// The HMAC key block: the key (hashed first when longer than 64 bytes),
/// padded with zeros to 64 bytes.
pub open spec fn key_block(key: Seq<u8>) -> Seq<u8> {
    let k = if key.len() > 64 { spec_sha256(key) } else { key };
    Seq::new(64, |i: int| if i < k.len() { k[i] } else { 0u8 })
}

/// Each byte of `k` XOR `pad`.
pub open spec fn masked(k: Seq<u8>, pad: u8) -> Seq<u8> {
    Seq::new(k.len(), |i: int| k[i] ^ pad)
}

/// HMAC-SHA256 of `msg` under `key`.
pub open spec fn spec_hmac_sha256(key: Seq<u8>, msg: Seq<u8>) -> Seq<u8> {
    let kb = key_block(key);
    spec_sha256(masked(kb, 0x5c) + spec_sha256(masked(kb, 0x36) + msg))
}

fn wrapping_sum(x: u32, y: u32) -> (r: u32)
    ensures
        r == wadd(x, y),
{
    ((x as u64 + y as u64) % 0x1_0000_0000) as u32
}

fn rotate(x: u32, n: u32) -> (r: u32)
    requires
        0 < n < 32,
    ensures
        r == rotr(x, n),
{
    (x >> n) | (x << (32 - n))
}

fn round_step(s: HashState, k: u32, w: u32) -> (r: HashState)
    ensures
        r == round(s, k, w),
{
    let (a, b, c, d, e, f, g, h) = s;
    let s1 = rotate(e, 6) ^ rotate(e, 11) ^ rotate(e, 25);
    let ch = (e & f) ^ (!e & g);
    let t1 = wrapping_sum(wrapping_sum(wrapping_sum(wrapping_sum(h, s1), ch), k), w);
    let s0 = rotate(a, 2) ^ rotate(a, 13) ^ rotate(a, 22);
    let maj = (a & b) ^ (a & c) ^ (b & c);
    let t2 = wrapping_sum(s0, maj);
    (wrapping_sum(t1, t2), a, b, c, wrapping_sum(d, t1), e, f, g)
}

fn round_constant_table() -> (ks: Vec<u32>)
    ensures
        ks@ == round_constants(),
{
    let ks: Vec<u32> = vec![
        0x428a2f98u32, 0x71374491, 0xb5c0fbcf, 0xe9b5dba5, 0x3956c25b, 0x59f111f1, 0x923f82a4, 0xab1c5ed5,
        0xd807aa98, 0x12835b01, 0x243185be, 0x550c7dc3, 0x72be5d74, 0x80deb1fe, 0x9bdc06a7, 0xc19bf174,
        0xe49b69c1, 0xefbe4786, 0x0fc19dc6, 0x240ca1cc, 0x2de92c6f, 0x4a7484aa, 0x5cb0a9dc, 0x76f988da,
        0x983e5152, 0xa831c66d, 0xb00327c8, 0xbf597fc7, 0xc6e00bf3, 0xd5a79147, 0x06ca6351, 0x14292967,
        0x27b70a85, 0x2e1b2138, 0x4d2c6dfc, 0x53380d13, 0x650a7354, 0x766a0abb, 0x81c2c92e, 0x92722c85,
        0xa2bfe8a1, 0xa81a664b, 0xc24b8b70, 0xc76c51a3, 0xd192e819, 0xd6990624, 0xf40e3585, 0x106aa070,
        0x19a4c116, 0x1e376c08, 0x2748774c, 0x34b0bcb5, 0x391c0cb3, 0x4ed8aa4a, 0x5b9cca4f, 0x682e6ff3,
        0x748f82ee, 0x78a5636f, 0x84c87814, 0x8cc70208, 0x90befffa, 0xa4506ceb, 0xbef9a3f7, 0xc67178f2,
    ];
    assert(ks@ =~= round_constants());
    ks
}

fn compress_block(s: HashState, words: &Vec<u32>) -> (r: HashState)
    requires
        words.len() == 16,
    ensures
        r == compress(s, words@),
{
    let mut w: Vec<u32> = Vec::new();
    let mut t: usize = 0;
    while t < 64
        invariant
            t <= 64,
            words.len() == 16,
            w.len() == t,
            forall|j: int| 0 <= j < t ==> w@[j] == schedule_word(words@, j as nat),
        decreases 64 - t,
    {
        let x: u32 = if t < 16 {
            words[t]
        } else {
            let a = w[t - 2];
            let s1 = rotate(a, 17) ^ rotate(a, 19) ^ (a >> 10u32);
            let b = w[t - 15];
            let s0 = rotate(b, 7) ^ rotate(b, 18) ^ (b >> 3u32);
            wrapping_sum(wrapping_sum(s1, w[t - 7]), wrapping_sum(s0, w[t - 16]))
        };
        w.push(x);
        t = t + 1;
    }
    assert(w@ =~= schedule(words@));
    let ks = round_constant_table();
    let mut st = s;
    let mut t: usize = 0;
    while t < 64
        invariant
            t <= 64,
            w@ == schedule(words@),
            ks@ == round_constants(),
            st == rounds(s, w@, t as nat),
        decreases 64 - t,
    {
        st = round_step(st, ks[t], w[t]);
        t = t + 1;
    }
    (wrapping_sum(s.0, st.0), wrapping_sum(s.1, st.1), wrapping_sum(s.2, st.2), wrapping_sum(s.3, st.3),
     wrapping_sum(s.4, st.4), wrapping_sum(s.5, st.5), wrapping_sum(s.6, st.6), wrapping_sum(s.7, st.7))
}

fn length_byte_of(bits: u64, k: u128) -> (r: u8)
    requires
        k < 8,
    ensures
        r == length_byte(bits as int, k as int),
{
    let v: u64 = if k == 0 { bits / 0x0100_0000_0000_0000 }
        else if k == 1 { bits / 0x0001_0000_0000_0000 }
        else if k == 2 { bits / 0x0000_0100_0000_0000 }
        else if k == 3 { bits / 0x0000_0001_0000_0000 }
        else if k == 4 { bits / 0x0000_0000_0100_0000 }
        else if k == 5 { bits / 0x0000_0000_0001_0000 }
        else if k == 6 { bits / 0x0000_0000_0000_0100 }
        else { bits };
    (v % 256) as u8
}

/// Byte `pos` of the padded form of the concatenation `a + b`.
fn padded_byte_at(a: &Vec<u8>, b: &Vec<u8>, pos: u128, n: u128, blocks: u128, bits: u64) -> (r: u8)
    requires
        n == a.len() + b.len(),
        blocks == block_count(n as int),
        bits == (n * 8) % 0x1_0000_0000_0000_0000,
        pos < 64 * blocks,
    ensures
        r == padded_byte(a@ + b@, pos as int),
{
    let la: u128 = a.len() as u128;
    let total: u128 = 64 * blocks;
    if pos < la {
        a[pos as usize]
    } else if pos < n {
        b[(pos - la) as usize]
    } else if pos == n {
        0x80
    } else if pos >= total - 8 {
        length_byte_of(bits, pos - (total - 8))
    } else {
        0
    }
}

/// The sixteen words of block `bi` of the padded form of `a + b`.
fn block_words_at(a: &Vec<u8>, b: &Vec<u8>, bi: u128, n: u128, blocks: u128, bits: u64) -> (ws: Vec<u32>)
    requires
        n == a.len() + b.len(),
        blocks == block_count(n as int),
        bits == (n * 8) % 0x1_0000_0000_0000_0000,
        bi < blocks,
    ensures
        ws@ == block_words(a@ + b@, bi as int),
{
    let mut ws: Vec<u32> = Vec::new();
    let mut i: u128 = 0;
    while i < 16
        invariant
            i <= 16,
            bi < blocks,
            n == a.len() + b.len(),
            blocks == block_count(n as int),
            bits == (n * 8) % 0x1_0000_0000_0000_0000,
            ws.len() == i,
            forall|j: int| 0 <= j < i ==> ws@[j] == #[trigger] block_words(a@ + b@, bi as int)[j],
        decreases 16 - i,
    {
        let base: u128 = 64 * bi + 4 * i;
        let b0 = padded_byte_at(a, b, base, n, blocks, bits);
        let b1 = padded_byte_at(a, b, base + 1, n, blocks, bits);
        let b2 = padded_byte_at(a, b, base + 2, n, blocks, bits);
        let b3 = padded_byte_at(a, b, base + 3, n, blocks, bits);
        let word: u32 = (b0 as u32) * 0x100_0000 + (b1 as u32) * 0x1_0000 + (b2 as u32) * 0x100 + (b3 as u32);
        ws.push(word);
        i = i + 1;
    }
    assert(ws@ =~= block_words(a@ + b@, bi as int));
    ws
}

fn push_word(d: &mut Vec<u8>, x: u32)
    ensures
        final(d)@ == old(d)@ + word_bytes(x),
{
    d.push((x / 0x100_0000) as u8);
    d.push(((x / 0x1_0000) % 256) as u8);
    d.push(((x / 0x100) % 256) as u8);
    d.push((x % 256) as u8);
    assert(d@ =~= old(d)@ + word_bytes(x));
}

/// SHA-256 of the concatenation `a + b`.
pub fn sha256_concat(a: &Vec<u8>, b: &Vec<u8>) -> (d: Vec<u8>)
    ensures
        d@ == spec_sha256(a@ + b@),
        d@.len() == 32,
{
    let n: u128 = a.len() as u128 + b.len() as u128;
    let blocks: u128 = (n + 72) / 64;
    let bits: u64 = ((n * 8) % 0x1_0000_0000_0000_0000) as u64;
    let ghost m = a@ + b@;
    let mut st: HashState = (0x6a09e667, 0xbb67ae85, 0x3c6ef372, 0xa54ff53a, 0x510e527f, 0x9b05688c, 0x1f83d9ab, 0x5be0cd19);
    let mut bi: u128 = 0;
    while bi < blocks
        invariant
            bi <= blocks,
            n == a.len() + b.len(),
            m == a@ + b@,
            blocks == block_count(n as int),
            bits == (n * 8) % 0x1_0000_0000_0000_0000,
            st == hash_blocks(m, bi as nat),
        decreases blocks - bi,
    {
        let ws = block_words_at(a, b, bi, n, blocks, bits);
        st = compress_block(st, &ws);
        bi = bi + 1;
    }
    let mut d: Vec<u8> = Vec::new();
    push_word(&mut d, st.0);
    push_word(&mut d, st.1);
    push_word(&mut d, st.2);
    push_word(&mut d, st.3);
    push_word(&mut d, st.4);
    push_word(&mut d, st.5);
    push_word(&mut d, st.6);
    push_word(&mut d, st.7);
    assert(d@ =~= digest_bytes(st));
    d
}

/// HMAC-SHA256 of `msg` under `key`.
pub fn hmac_sha256_bytes(key: &Vec<u8>, msg: &Vec<u8>) -> (d: Vec<u8>)
    ensures
        d@ == spec_hmac_sha256(key@, msg@),
        d@.len() == 32,
{
    let empty: Vec<u8> = Vec::new();
    let k: Vec<u8> = if key.len() > 64 {
        let h = sha256_concat(key, &empty);
        assert(key@ + empty@ =~= key@);
        h
    } else {
        key.clone()
    };
    let ghost kb = key_block(key@);
    let mut inner_key: Vec<u8> = Vec::new();
    let mut outer_key: Vec<u8> = Vec::new();
    let mut i: usize = 0;
    while i < 64
        invariant
            i <= 64,
            k@ == (if key@.len() > 64 { spec_sha256(key@) } else { key@ }),
            kb == key_block(key@),
            inner_key.len() == i,
            outer_key.len() == i,
            forall|j: int| 0 <= j < i ==> inner_key@[j] == kb[j] ^ 0x36u8,
            forall|j: int| 0 <= j < i ==> outer_key@[j] == kb[j] ^ 0x5cu8,
        decreases 64 - i,
    {
        let byte: u8 = if i < k.len() { k[i] } else { 0 };
        inner_key.push(byte ^ 0x36);
        outer_key.push(byte ^ 0x5c);
        i = i + 1;
    }
    assert(inner_key@ =~= masked(kb, 0x36));
    assert(outer_key@ =~= masked(kb, 0x5c));
    let inner = sha256_concat(&inner_key, msg);
    sha256_concat(&outer_key, &inner)
}

} // verus!
