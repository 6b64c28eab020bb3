//! Byte layout of the disk-backed replay buffer.  A transition is a record
//! of 32-bit words (observation, action, reward, next observation, done
//! flag, each number by its bit pattern), stored little endian at
//! `index * record bytes` in the file.
use vstd::prelude::*;

verus! {

/// Byte `j` (0 = least significant) of the word `w`.
pub open spec fn byte_of(w: u32, j: int) -> u8 {
    ((w >> ((8 * j) as u32)) & 0xff) as u8
}

/// The word whose little-endian bytes are `b0 b1 b2 b3`.
pub open spec fn le_word(b0: u8, b1: u8, b2: u8, b3: u8) -> u32 {
    (b0 as u32) | ((b1 as u32) << 8u32) | ((b2 as u32) << 16u32) | ((b3 as u32) << 24u32)
}

/// The little-endian bytes of `words`, four per word.
pub open spec fn spec_encoded(words: Seq<u32>) -> Seq<u8> {
    Seq::new(4 * words.len(), |i: int| byte_of(words[i / 4], i % 4))
}

/// The `count` words read little endian from `bytes` at `offset`.
pub open spec fn spec_decoded(bytes: Seq<u8>, offset: int, count: int) -> Seq<u32> {
    Seq::new(
        count as nat,
        |i: int| le_word(bytes[offset + 4 * i], bytes[offset + 4 * i + 1], bytes[offset + 4 * i + 2], bytes[offset + 4 * i + 3]),
    )
}

/// `buf` with `data` written over it from `offset` on.
pub open spec fn spec_splice(buf: Seq<u8>, offset: int, data: Seq<u8>) -> Seq<u8> {
    buf.take(offset) + data + buf.skip(offset + data.len())
}

proof fn lemma_word_bytes(w: u32)
    ensures
        le_word(byte_of(w, 0), byte_of(w, 1), byte_of(w, 2), byte_of(w, 3)) == w,
{
    assert(((w >> 0u32) & 0xff) as u8 as u32 | (((w >> 8u32) & 0xff) as u8 as u32) << 8u32
        | (((w >> 16u32) & 0xff) as u8 as u32) << 16u32 | (((w >> 24u32) & 0xff) as u8 as u32) << 24u32 == w)
        by (bit_vector);
}

proof fn lemma_index_split(i: int, j: int)
    requires
        0 <= j < 4,
    ensures
        (4 * i + j) / 4 == i,
        (4 * i + j) % 4 == j,
{
    assert((4 * i + j) / 4 == i && (4 * i + j) % 4 == j) by (nonlinear_arith)
        requires 0 <= j < 4;
}

/// Reading back the bytes of `words` gives `words`.
pub proof fn lemma_decode_encode(words: Seq<u32>)
    ensures
        spec_decoded(spec_encoded(words), 0, words.len() as int) == words,
{
    let enc = spec_encoded(words);
    let dec = spec_decoded(enc, 0, words.len() as int);
    assert forall|i: int| 0 <= i < words.len() implies dec[i] == words[i] by {
        lemma_index_split(i, 0);
        lemma_index_split(i, 1);
        lemma_index_split(i, 2);
        lemma_index_split(i, 3);
        assert(4 * i + 3 < 4 * words.len()) by (nonlinear_arith)
            requires 0 <= i < words.len();
        assert(enc[4 * i] == byte_of(words[i], 0));
        assert(enc[4 * i + 1] == byte_of(words[i], 1));
        assert(enc[4 * i + 2] == byte_of(words[i], 2));
        assert(enc[4 * i + 3] == byte_of(words[i], 3));
        lemma_word_bytes(words[i]);
    }
    assert(dec =~= words);
}

proof fn lemma_splice_at(buf: Seq<u8>, offset: int, data: Seq<u8>, b: int)
    requires
        0 <= offset,
        offset + data.len() <= buf.len(),
        0 <= b < data.len(),
    ensures
        spec_splice(buf, offset, data)[offset + b] == data[b],
        spec_splice(buf, offset, data).len() == buf.len(),
{
    let p = buf.take(offset);
    let q = p + data;
    let r = buf.skip(offset + data.len());
    assert(q[offset + b] == data[b]);
    assert((q + r)[offset + b] == q[offset + b]);
}

/// Reading a region back after writing the bytes of `words` over it gives
/// `words`, whatever the rest of the buffer holds.
pub proof fn lemma_read_after_write(buf: Seq<u8>, offset: int, words: Seq<u32>)
    requires
        0 <= offset,
        offset + 4 * words.len() <= buf.len(),
    ensures
        spec_decoded(spec_splice(buf, offset, spec_encoded(words)), offset, words.len() as int) == words,
        spec_splice(buf, offset, spec_encoded(words)).len() == buf.len(),
{
    let enc = spec_encoded(words);
    let out = spec_splice(buf, offset, enc);
    lemma_decode_encode(words);
    let d1 = spec_decoded(out, offset, words.len() as int);
    let d0 = spec_decoded(enc, 0, words.len() as int);
    assert forall|i: int| 0 <= i < words.len() implies d1[i] == d0[i] by {
        assert(4 * i + 3 < 4 * words.len()) by (nonlinear_arith)
            requires 0 <= i < words.len();
        lemma_splice_at(buf, offset, enc, 4 * i);
        lemma_splice_at(buf, offset, enc, 4 * i + 1);
        lemma_splice_at(buf, offset, enc, 4 * i + 2);
        lemma_splice_at(buf, offset, enc, 4 * i + 3);
        assert(offset + (4 * i + 1) == offset + 4 * i + 1);
    }
    assert(d1 =~= d0);
    if words.len() > 0 {
        lemma_splice_at(buf, offset, enc, 0);
    } else {
        assert(out =~= buf);
    }
}

/// The little-endian bytes of `words`.
pub fn encode_words(words: &Vec<u32>) -> (bytes: Vec<u8>)
    requires
        4 * words.len() <= usize::MAX,
    ensures
        bytes@ == spec_encoded(words@),
{
    let mut bytes: Vec<u8> = Vec::new();
    let mut i: usize = 0;
    while i < words.len()
        invariant
            i <= words.len(),
            4 * words.len() <= usize::MAX,
            bytes.len() == 4 * i,
            forall|b: int| 0 <= b < 4 * i ==> #[trigger] bytes@[b] == byte_of(words@[b / 4], b % 4),
        decreases words.len() - i,
    {
        let w = words[i];
        let ghost before = bytes@;
        bytes.push((w & 0xff) as u8);
        bytes.push(((w >> 8u32) & 0xff) as u8);
        bytes.push(((w >> 16u32) & 0xff) as u8);
        bytes.push(((w >> 24u32) & 0xff) as u8);
        proof {
            let ii = i as int;
            lemma_index_split(ii, 0);
            lemma_index_split(ii, 1);
            lemma_index_split(ii, 2);
            lemma_index_split(ii, 3);
            assert((w & 0xff) as u8 == byte_of(w, 0)) by {
                assert(w >> 0u32 == w) by (bit_vector);
            }
            assert forall|b: int| 0 <= b < 4 * (ii + 1) implies #[trigger] bytes@[b] == byte_of(words@[b / 4], b % 4) by {
                if b < 4 * ii {
                    assert(bytes@[b] == before[b]);
                }
            }
        }
        i = i + 1;
    }
    assert(bytes@ =~= spec_encoded(words@));
    bytes
}

/// The `count` words read little endian from `bytes` at `offset`.
pub fn decode_words(bytes: &[u8], offset: usize, count: usize) -> (words: Vec<u32>)
    requires
        offset + 4 * count <= bytes@.len(),
    ensures
        words@ == spec_decoded(bytes@, offset as int, count as int),
{
    let mut words: Vec<u32> = Vec::new();
    let mut i: usize = 0;
    let mut at: usize = offset;
    while i < count
        invariant
            i <= count,
            offset + 4 * count <= bytes@.len(),
            at == offset + 4 * i,
            words.len() == i,
            forall|k: int| 0 <= k < i ==> #[trigger] words@[k] == spec_decoded(bytes@, offset as int, count as int)[k],
        decreases count - i,
    {
        let b0 = bytes[at];
        let b1 = bytes[at + 1];
        let b2 = bytes[at + 2];
        let b3 = bytes[at + 3];
        let w: u32 = (b0 as u32) | ((b1 as u32) << 8u32) | ((b2 as u32) << 16u32) | ((b3 as u32) << 24u32);
        words.push(w);
        i = i + 1;
        at = at + 4;
    }
    assert(words@ =~= spec_decoded(bytes@, offset as int, count as int));
    words
}

/// Field sizes of a stored transition.
#[derive(Debug, Clone, Copy, PartialEq, Eq, Structural)]
pub struct RecordLayout {
    /// Words of an observation.
    pub obs_dim: usize,
    /// Words of an action.
    pub action_dim: usize,
}

/// Words of a record: observation, action, reward, next observation, done.
pub open spec fn spec_record_words(obs_dim: nat, action_dim: nat) -> nat {
    obs_dim + action_dim + 1 + obs_dim + 1
}

/// The words written for a transition: at most `obs_dim` observation words,
/// at most `action_dim` action words, the reward, at most `obs_dim` next
/// observation words and the done flag, one after the other.
pub open spec fn spec_assembled(
    layout: RecordLayout,
    obs: Seq<u32>,
    action: Seq<u32>,
    reward: u32,
    next_obs: Seq<u32>,
    done: u32,
) -> Seq<u32> {
    obs.take(prefix_len(obs.len() as int, layout.obs_dim as int)) + action.take(prefix_len(action.len() as int, layout.action_dim as int))
        + seq![reward] + next_obs.take(prefix_len(next_obs.len() as int, layout.obs_dim as int)) + seq![done]
}

/// Length of the prefix kept of a field of length `a` limited to `b` words.
pub open spec fn prefix_len(a: int, b: int) -> int {
    if a < b { a } else { b }
}

/// Appends the first `limit` elements of `src` (all of them if fewer).
fn push_prefix(out: &mut Vec<u32>, src: &Vec<u32>, limit: usize)
    ensures
        final(out)@ == old(out)@ + src@.take(prefix_len(src.len() as int, limit as int)),
{
    let end = if src.len() < limit { src.len() } else { limit };
    let ghost start = out@;
    let mut i: usize = 0;
    while i < end
        invariant
            i <= end,
            end <= src.len(),
            end == prefix_len(src.len() as int, limit as int),
            out@ == start + src@.take(i as int),
        decreases end - i,
    {
        out.push(src[i]);
        proof {
            assert(src@.take(i as int + 1) =~= src@.take(i as int).push(src@[i as int]));
        }
        i = i + 1;
    }
}

impl RecordLayout {
    /// Words of one record.
    pub fn record_words(&self) -> (n: usize)
        requires
            spec_record_words(self.obs_dim as nat, self.action_dim as nat) <= usize::MAX,
        ensures
            n == spec_record_words(self.obs_dim as nat, self.action_dim as nat),
    {
        self.obs_dim + self.action_dim + 1 + self.obs_dim + 1
    }

    /// Byte offset of record `index` in the file.
    pub fn record_offset(&self, index: usize) -> (off: usize)
        requires
            4 * spec_record_words(self.obs_dim as nat, self.action_dim as nat) <= usize::MAX,
            index * (4 * spec_record_words(self.obs_dim as nat, self.action_dim as nat)) <= usize::MAX,
        ensures
            off == index * (4 * spec_record_words(self.obs_dim as nat, self.action_dim as nat)),
    {
        let words = self.obs_dim + self.action_dim + 1 + self.obs_dim + 1;
        index * (4 * words)
    }

    /// The words written for a transition (see [`spec_assembled`]).
    pub fn assemble(
        &self,
        obs: &Vec<u32>,
        action: &Vec<u32>,
        reward: u32,
        next_obs: &Vec<u32>,
        done: u32,
    ) -> (words: Vec<u32>)
        ensures
            words@ == spec_assembled(*self, obs@, action@, reward, next_obs@, done),
    {
        let mut words: Vec<u32> = Vec::new();
        push_prefix(&mut words, obs, self.obs_dim);
        push_prefix(&mut words, action, self.action_dim);
        words.push(reward);
        push_prefix(&mut words, next_obs, self.obs_dim);
        words.push(done);
        assert(words@ =~= spec_assembled(*self, obs@, action@, reward, next_obs@, done));
        words
    }

    /// Splits a record into observation, action, reward, next observation
    /// and done words.
    pub fn split(&self, words: &Vec<u32>) -> (parts: (Vec<u32>, Vec<u32>, u32, Vec<u32>, u32))
        requires
            words.len() == spec_record_words(self.obs_dim as nat, self.action_dim as nat),
        ensures
            parts.0@ == words@.subrange(0, self.obs_dim as int),
            parts.1@ == words@.subrange(self.obs_dim as int, self.obs_dim + self.action_dim),
            parts.2 == words@[self.obs_dim + self.action_dim],
            parts.3@ == words@.subrange(self.obs_dim + self.action_dim + 1, 2 * self.obs_dim + self.action_dim + 1),
            parts.4 == words@[2 * self.obs_dim + self.action_dim + 1],
    {
        let o = self.obs_dim;
        let a = self.action_dim;
        let obs = slice_words(words, 0, o);
        let action = slice_words(words, o, o + a);
        let reward = words[o + a];
        let next_obs = slice_words(words, o + a + 1, o + a + 1 + o);
        let done = words[o + a + 1 + o];
        (obs, action, reward, next_obs, done)
    }
}

/// The words `words[from..to]`.
fn slice_words(words: &Vec<u32>, from: usize, to: usize) -> (v: Vec<u32>)
    requires
        from <= to <= words.len(),
    ensures
        v@ == words@.subrange(from as int, to as int),
{
    let mut v: Vec<u32> = Vec::new();
    let mut i: usize = from;
    while i < to
        invariant
            from <= i <= to,
            to <= words.len(),
            v@ == words@.subrange(from as int, i as int),
        decreases to - i,
    {
        v.push(words[i]);
        proof {
            assert(words@.subrange(from as int, i as int + 1) =~= words@.subrange(from as int, i as int).push(words@[i as int]));
        }
        i = i + 1;
    }
    v
}

/// A transition written with full-length fields is read back field by field.
pub proof fn lemma_split_assembled(
    layout: RecordLayout,
    obs: Seq<u32>,
    action: Seq<u32>,
    reward: u32,
    next_obs: Seq<u32>,
    done: u32,
)
    requires
        obs.len() == layout.obs_dim,
        action.len() == layout.action_dim,
        next_obs.len() == layout.obs_dim,
    ensures
        ({
            let w = spec_assembled(layout, obs, action, reward, next_obs, done);
            let o = layout.obs_dim as int;
            let a = layout.action_dim as int;
            &&& w.len() == spec_record_words(layout.obs_dim as nat, layout.action_dim as nat)
            &&& w.subrange(0, o) == obs
            &&& w.subrange(o, o + a) == action
            &&& w[o + a] == reward
            &&& w.subrange(o + a + 1, 2 * o + a + 1) == next_obs
            &&& w[2 * o + a + 1] == done
        }),
{
    let w = spec_assembled(layout, obs, action, reward, next_obs, done);
    let o = layout.obs_dim as int;
    let a = layout.action_dim as int;
    assert(obs.take(o) =~= obs);
    assert(action.take(a) =~= action);
    assert(next_obs.take(o) =~= next_obs);
    assert(w.subrange(0, o) =~= obs);
    assert(w.subrange(o, o + a) =~= action);
    assert(w.subrange(o + a + 1, 2 * o + a + 1) =~= next_obs);
}

} // verus!
