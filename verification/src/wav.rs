use crate::error::WavError;
use crate::header;
use vstd::arithmetic::div_mod::{
    lemma_fundamental_div_mod, lemma_fundamental_div_mod_converse, lemma_mod_bound,
};
use vstd::prelude::*;

verus! {

/// The signed 16-bit value encoded little-endian by the byte pair
/// `(lo, hi)`, as a two's-complement integer.
pub open spec fn spec_sample_of(lo: u8, hi: u8) -> i16 {
    if hi >= 128 {
        (lo + hi * 0x100 - 0x10000) as i16
    } else {
        (lo + hi * 0x100) as i16
    }
}

/// The `n`-th sample of a byte stream: the little-endian pair at bytes
/// `2n` and `2n + 1`.
pub open spec fn spec_sample(b: Seq<u8>, n: int) -> i16 {
    spec_sample_of(b[2 * n], b[2 * n + 1])
}

/// How many of `total` round-robin-distributed samples land in channel
/// `c` out of `chans`: channels below `total % chans` receive one more
/// than the rest.
pub open spec fn spec_channel_len(total: int, chans: int, c: int) -> int {
    total / chans + if c < total % chans {
        1int
    } else {
        0int
    }
}

/// Channel `c`'s sample sequence under round-robin distribution of the
/// stream `b` across `chans` channels: sample `k` of the channel is
/// sample `k * chans + c` of the stream.
pub open spec fn spec_channel(b: Seq<u8>, chans: int, c: int) -> Seq<i16> {
    Seq::new(
        spec_channel_len((b.len() / 2) as int, chans, c) as nat,
        |k: int| spec_sample(b, k * chans + c),
    )
}

/// Immutable metadata of an opened container: channel count, bit depth
/// and sample rate from the header, plus the path of the backing file.
#[derive(Debug)]
pub struct Wav {
    channels: u16,
    bits_per_sample: u16,
    rate: u32,
    path_buf: String,
}

impl Wav {
    /// The channel count the header declared.
    pub closed spec fn spec_channels(&self) -> u16 {
        self.channels
    }

    /// The bit depth the header declared.
    pub closed spec fn spec_bits_per_sample(&self) -> u16 {
        self.bits_per_sample
    }

    /// The sample rate the header declared, in samples per second.
    pub closed spec fn spec_rate(&self) -> u32 {
        self.rate
    }

    /// The path of the backing file.
    pub closed spec fn spec_path(&self) -> Seq<char> {
        self.path_buf@
    }

    /// Build a container handle from the header bytes read at open time,
    /// remembering `path` as the source of the sample body.
    ///
    /// Fails exactly as `decode_header` does and produces no partial
    /// handle; on success the handle carries exactly the decoded fields.
    pub fn from_header(header: &[u8], path: String) -> (r: Result<Wav, WavError>)
        ensures
            header@.len() < header::HEADER_LEN ==> (r matches Err(e) && e == WavError::IoError),
            header@.len() >= header::HEADER_LEN && !header::spec_magic_ok(header@) ==> (r matches Err(e)
                && e == WavError::MalformedContainer),
            header@.len() >= header::HEADER_LEN && header::spec_magic_ok(header@) ==> (r matches Ok(w)
                && w.spec_channels() == header::spec_le16(header@, 22)
                && w.spec_bits_per_sample() == header::spec_le16(header@, 34)
                && w.spec_rate() == header::spec_le32(header@, 24)
                && w.spec_path() == path@),
    {
        let (channels, bits_per_sample, rate) = match header::decode_header(header) {
            Ok(fields) => fields,
            Err(e) => {
                return Err(e);
            },
        };
        Ok(Wav { channels, bits_per_sample, rate, path_buf: path })
    }

    /// The path of the backing file.
    pub fn path(&self) -> (r: &String)
        ensures
            r@ == self.spec_path(),
    {
        &self.path_buf
    }

    /// The sample rate, in samples per second.
    pub fn rate(&self) -> (r: u32)
        ensures
            r == self.spec_rate(),
    {
        self.rate
    }

    /// The channel count.
    pub fn channels(&self) -> (r: u16)
        ensures
            r == self.spec_channels(),
    {
        self.channels
    }

    /// The bit depth of one sample.
    pub fn bits_per_sample(&self) -> (r: u16)
        ensures
            r == self.spec_bits_per_sample(),
    {
        self.bits_per_sample
    }

    /// Distribute the 16-bit little-endian samples of `bytes` round-robin
    /// over the per-channel sequences in `dst`, appending in stream order:
    /// the `n`-th decoded sample goes to channel `n % channels`.  A
    /// trailing odd byte is not a sample and is ignored, as a normal end
    /// of the stream.
    pub fn read_samples(&self, bytes: &[u8], dst: &mut Vec<Vec<i16>>)
        requires
            self.spec_channels() >= 1,
            old(dst)@.len() == self.spec_channels(),
        ensures
            final(dst)@.len() == old(dst)@.len(),
            forall|c: int|
                0 <= c < final(dst)@.len() ==> #[trigger] final(dst)@[c]@ == old(dst)@[c]@
                    + spec_channel(bytes@, self.spec_channels() as int, c),
    {
        let ghost dst0: Seq<Vec<i16>> = dst@;
        let chans: usize = self.channels as usize;
        let total: usize = bytes.len() / 2;
        let mut n: usize = 0;
        let mut ch: usize = 0;
        let ghost mut q: int = 0;
        while n < total
            invariant
                1 <= chans <= u16::MAX,
                chans == self.spec_channels(),
                total == bytes@.len() as int / 2,
                bytes@.len() <= usize::MAX,
                2 * total <= bytes@.len(),
                n <= total,
                ch < chans,
                0 <= q,
                n == q * chans + ch,
                dst@.len() == dst0.len(),
                dst0.len() == chans,
                forall|c: int|
                    0 <= c < chans ==> #[trigger] dst@[c]@.len() == dst0[c]@.len() + q + if c < ch {
                        1int
                    } else {
                        0int
                    },
                forall|c: int, i: int|
                    0 <= c < chans && 0 <= i < dst0[c]@.len() ==> #[trigger] dst@[c]@[i] == dst0[c]@[i],
                forall|c: int, i: int|
                    0 <= c < chans && dst0[c]@.len() <= i < dst@[c]@.len() ==> #[trigger] dst@[c]@[i]
                        == spec_sample(bytes@, (i - dst0[c]@.len()) * chans + c),
            decreases total - n,
        {
            let lo = bytes[2 * n];
            let hi = bytes[2 * n + 1];
            let sample = sample_from_le(lo, hi);
            let ghost pre = dst@;
            dst[ch].push(sample);
            proof {
                assert(pre[ch as int]@.len() - dst0[ch as int]@.len() == q);
                assert(q * chans + ch == n);
            }
            n = n + 1;
            ch = ch + 1;
            if ch == chans {
                ch = 0;
                proof {
                    q = q + 1;
                    assert(q * chans == (q - 1) * chans + chans) by (nonlinear_arith);
                }
            }
        }
        proof {
            lemma_fundamental_div_mod_converse(total as int, chans as int, q, ch as int);
            assert forall|c: int| 0 <= c < dst@.len() implies #[trigger] dst@[c]@ == dst0[c]@
                + spec_channel(bytes@, self.spec_channels() as int, c) by {
                assert(dst@[c]@ =~= dst0[c]@ + spec_channel(bytes@, chans as int, c));
            }
        }
    }
}

/// Round-robin balance: any two channels receive sample counts that
/// differ by at most one.
pub proof fn lemma_channel_lengths_balanced(total: int, chans: int, c1: int, c2: int)
    requires
        chans >= 1,
        0 <= c1 < chans,
        0 <= c2 < chans,
    ensures
        spec_channel_len(total, chans, c1) - spec_channel_len(total, chans, c2) <= 1,
        spec_channel_len(total, chans, c2) - spec_channel_len(total, chans, c1) <= 1,
{
}

/// Round-robin reconstruction: sample `n` of the stream is element
/// `n / chans` of channel `n % chans`, so reading the channels back
/// round-robin rebuilds the original sample order exactly, dropping and
/// reordering nothing.
pub proof fn lemma_round_robin_reconstruct(b: Seq<u8>, chans: int, n: int)
    requires
        chans >= 1,
        0 <= n < b.len() / 2,
    ensures
        0 <= n % chans < chans,
        0 <= n / chans < spec_channel_len((b.len() / 2) as int, chans, n % chans),
        spec_channel(b, chans, n % chans)[n / chans] == spec_sample(b, n),
{
    let total = (b.len() / 2) as int;
    let q = n / chans;
    let r = n % chans;
    let bigq = total / chans;
    let bigr = total % chans;
    lemma_mod_bound(n, chans);
    lemma_mod_bound(total, chans);
    lemma_fundamental_div_mod(n, chans);
    lemma_fundamental_div_mod(total, chans);
    assert(0 <= q) by (nonlinear_arith)
        requires
            n >= 0,
            chans >= 1,
            q == n / chans,
    ;
    if q > bigq {
        assert(false) by (nonlinear_arith)
            requires
                chans >= 1,
                q >= bigq + 1,
                n == chans * q + r,
                total == chans * bigq + bigr,
                0 <= r,
                bigr < chans,
                n < total,
        ;
    }
    if q == bigq {
        assert(r < bigr);
    }
    assert(q < spec_channel_len(total, chans, r));
    assert(spec_channel(b, chans, r)[q] == spec_sample(b, q * chans + r));
    assert(q * chans + r == n) by {
        assert(chans * q == q * chans) by (nonlinear_arith);
    }
}

/// Decode one sample from its two little-endian bytes.
fn sample_from_le(lo: u8, hi: u8) -> (r: i16)
    ensures
        r == spec_sample_of(lo, hi),
{
    let v: i32 = lo as i32 + (hi as i32) * 0x100;
    if v >= 0x8000 {
        (v - 0x10000) as i16
    } else {
        v as i16
    }
}

} // verus!
