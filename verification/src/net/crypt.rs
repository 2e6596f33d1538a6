//! The VIE stream cipher: key negotiation, keystream and the chained
//! four-byte lane transform.
//!
//! The first byte of a packet is never enciphered, nor is the second byte
//! of a core packet. From there on the packet is taken in lanes of four
//! bytes; every lane is combined with the keystream lane of the same
//! number and with the ciphertext of the lane before it, the first lane
//! with the session key. A last lane of one to three bytes is padded with
//! zeros for the transform and cut back to its length afterwards.

use crate::clock::LocalTick;
use crate::codec::{
    lemma_u32_roundtrip, u16_bytes, u16_to_le, u32_bytes, u32_to_le, unsigned32,
};
use crate::net::rand::{seed_after, VieRng};
use rand::Rng;
use vstd::prelude::*;

verus! {

/// Length of the keystream, which is the largest packet.
pub const KEYSTREAM_SIZE: usize = 520;

/// The two's complement of a key: `(!k) + 1` in 32 bits.
pub open spec fn negated_key(k: u32) -> u32 {
    ((0x1_0000_0000 - k as int) % 0x1_0000_0000) as u32
}

/// The `k`-th 16-bit word of the keystream seeded with `seed`: the low 16
/// bits of the generator's output after `k + 1` steps.
pub open spec fn keystream_word(seed: i32, k: nat) -> u16 {
    (unsigned32(seed_after(seed, k + 1)) % 65536) as u16
}

/// The keystream seeded with `seed`: 260 words of the generator, each
/// stored little-endian.
pub open spec fn keystream_of(seed: i32) -> Seq<u8> {
    Seq::new(520, |i: int| u16_bytes(keystream_word(seed, (i / 2) as nat))[i % 2])
}

/// The byte of `s` at `i`, or zero beyond the end of `s`.
pub open spec fn byte_or_zero(s: Seq<u8>, i: int) -> u8 {
    if 0 <= i < s.len() {
        s[i]
    } else {
        0
    }
}

/// The little-endian word of the four bytes of `s` from `at` on, padded
/// with zeros beyond the end of `s`.
pub open spec fn word_at(s: Seq<u8>, at: int) -> u32 {
    (byte_or_zero(s, at) as int + 256 * (byte_or_zero(s, at + 1) as int) + 65536 * (byte_or_zero(
        s,
        at + 2,
    ) as int) + 16777216 * (byte_or_zero(s, at + 3) as int)) as u32
}

/// Lane `k` of `s`: the word of its bytes `4k` to `4k + 3`.
pub open spec fn lane(s: Seq<u8>, k: int) -> u32 {
    word_at(s, 4 * k)
}

/// Where enciphering starts: after the type byte, and after both header
/// bytes of a core packet.
pub open spec fn payload_start(p: Seq<u8>) -> int {
    if p[0] == 0 {
        2
    } else {
        1
    }
}

/// The packets that the cipher hands on as they are: all of them while the
/// cipher is disabled, and core packets that are nothing but a header.
pub open spec fn passes_through(key: u32, p: Seq<u8>) -> bool {
    key == 0 || p.len() == 0 || (p[0] == 0 && p.len() <= 2)
}

/// The feedback that goes into lane `k` when enciphering: the session key
/// for the first lane, the ciphertext of the lane before for the others.
pub open spec fn cipher_feedback(ks: Seq<u8>, key: u32, payload: Seq<u8>, k: nat) -> u32
    decreases k, 0nat,
{
    if k == 0 {
        key
    } else {
        cipher_lane(ks, key, payload, (k - 1) as nat)
    }
}

/// Ciphertext of lane `k` of `payload`: plaintext XOR keystream XOR
/// feedback.
pub open spec fn cipher_lane(ks: Seq<u8>, key: u32, payload: Seq<u8>, k: nat) -> u32
    decreases k, 1nat,
{
    (lane(payload, k as int) ^ lane(ks, k as int)) ^ cipher_feedback(ks, key, payload, k)
}

/// The packet `p` enciphered under session key `key` with keystream `ks`.
pub open spec fn encrypted(ks: Seq<u8>, key: u32, p: Seq<u8>) -> Seq<u8> {
    if passes_through(key, p) {
        p
    } else {
        let start = payload_start(p);
        let payload = p.subrange(start, p.len() as int);
        Seq::new(
            p.len(),
            |i: int|
                if i < start {
                    p[i]
                } else {
                    u32_bytes(cipher_lane(ks, key, payload, ((i - start) / 4) as nat))[(i - start)
                        % 4]
                },
        )
    }
}

/// The feedback that goes into lane `k` when deciphering: the session key
/// for the first lane, the ciphertext lane before for the others.
pub open spec fn plain_feedback(key: u32, payload: Seq<u8>, k: int) -> u32 {
    if k == 0 {
        key
    } else {
        lane(payload, k - 1)
    }
}

/// Plaintext of lane `k` of the ciphertext `payload`: keystream XOR
/// feedback XOR ciphertext.
pub open spec fn plain_lane(ks: Seq<u8>, key: u32, payload: Seq<u8>, k: int) -> u32 {
    (lane(ks, k) ^ plain_feedback(key, payload, k)) ^ lane(payload, k)
}

/// The packet `c` deciphered under session key `key` with keystream `ks`.
pub open spec fn decrypted(ks: Seq<u8>, key: u32, c: Seq<u8>) -> Seq<u8> {
    if passes_through(key, c) {
        c
    } else {
        let start = payload_start(c);
        let payload = c.subrange(start, c.len() as int);
        Seq::new(
            c.len(),
            |i: int|
                if i < start {
                    c[i]
                } else {
                    u32_bytes(plain_lane(ks, key, payload, (i - start) / 4))[(i - start) % 4]
                },
        )
    }
}

/// The client key made from a tick and two 16-bit random draws: with
/// `t = tick * 0xCCCCCCCD`, the sum `(r1 << 16) + (t >> 3) + r2`, all in
/// 32 bits, negated when its top bit is clear.
pub open spec fn client_key_from(tick: u32, r1: u16, r2: u16) -> u32 {
    let t = (tick as int * 0xCCCC_CCCD) % 0x1_0000_0000;
    let k = ((r1 as int) * 65536 + t / 8 + r2 as int) % 0x1_0000_0000;
    if k <= 0x7FFF_FFFF {
        negated_key(k as u32)
    } else {
        k as u32
    }
}

/// The bytes of a XOR of two words are the XORs of their bytes.
proof fn lemma_xor_bytes(x: u32, y: u32)
    ensures
        u32_bytes(x ^ y)[0] == u32_bytes(x)[0] ^ u32_bytes(y)[0],
        u32_bytes(x ^ y)[1] == u32_bytes(x)[1] ^ u32_bytes(y)[1],
        u32_bytes(x ^ y)[2] == u32_bytes(x)[2] ^ u32_bytes(y)[2],
        u32_bytes(x ^ y)[3] == u32_bytes(x)[3] ^ u32_bytes(y)[3],
{
    assert(((x ^ y) % 256) as u8 == ((x % 256) as u8) ^ ((y % 256) as u8)) by (bit_vector);
    assert((((x ^ y) / 256) % 256) as u8 == (((x / 256) % 256) as u8) ^ (((y / 256) % 256) as u8))
        by (bit_vector);
    assert((((x ^ y) / 65536) % 256) as u8 == (((x / 65536) % 256) as u8) ^ (((y / 65536)
        % 256) as u8)) by (bit_vector);
    assert(((x ^ y) / 16777216) as u8 == ((x / 16777216) as u8) ^ ((y / 16777216) as u8))
        by (bit_vector);
}

/// Byte `b` of a lane is the byte of the sequence at that place, or zero
/// beyond its end.
proof fn lemma_lane_bytes(s: Seq<u8>, k: int, b: int)
    requires
        0 <= b < 4,
    ensures
        u32_bytes(lane(s, k))[b] == byte_or_zero(s, 4 * k + b),
{
    let b0 = byte_or_zero(s, 4 * k) as int;
    let b1 = byte_or_zero(s, 4 * k + 1) as int;
    let b2 = byte_or_zero(s, 4 * k + 2) as int;
    let b3 = byte_or_zero(s, 4 * k + 3) as int;
    let v = b0 + 256 * b1 + 65536 * b2 + 16777216 * b3;
    assert(v / 65536 == b2 + 256 * b3);
    assert(v / 16777216 == b3);
}

/// A whole lane of the ciphertext is the ciphertext word of that lane.
proof fn lemma_cipher_lane_readback(ks: Seq<u8>, key: u32, pp: Seq<u8>, ep: Seq<u8>, m: int)
    requires
        0 <= m,
        4 * m + 4 <= ep.len(),
        ep.len() == pp.len(),
        forall|x: int|
            0 <= x < ep.len() ==> ep[x] == u32_bytes(cipher_lane(ks, key, pp, (x / 4) as nat))[x
                % 4],
    ensures
        lane(ep, m) == cipher_lane(ks, key, pp, m as nat),
{
    let c = cipher_lane(ks, key, pp, m as nat);
    lemma_u32_roundtrip(c);
    assert(ep[4 * m] == u32_bytes(c)[0]);
    assert(ep[4 * m + 1] == u32_bytes(c)[1]);
    assert(ep[4 * m + 2] == u32_bytes(c)[2]);
    assert(ep[4 * m + 3] == u32_bytes(c)[3]);
}

/// With a zero session key the cipher changes nothing, in either
/// direction.
pub proof fn lemma_disabled_cipher_is_identity(ks: Seq<u8>, p: Seq<u8>)
    ensures
        encrypted(ks, 0, p) == p,
        decrypted(ks, 0, p) == p,
{
}

/// The cipher keeps the length of a packet and never changes its first
/// byte, nor the second byte of a packet whose first byte is zero.
pub proof fn lemma_header_passes(ks: Seq<u8>, key: u32, p: Seq<u8>)
    requires
        p.len() >= 1,
    ensures
        encrypted(ks, key, p).len() == p.len(),
        decrypted(ks, key, p).len() == p.len(),
        encrypted(ks, key, p)[0] == p[0],
        decrypted(ks, key, p)[0] == p[0],
        p[0] == 0 && p.len() >= 2 ==> encrypted(ks, key, p)[1] == p[1] && decrypted(ks, key, p)[1]
            == p[1],
{
}

/// One byte of a payload comes back from its ciphertext `ep`.
proof fn lemma_payload_byte_comes_back(ks: Seq<u8>, key: u32, pp: Seq<u8>, ep: Seq<u8>, x: int)
    requires
        0 <= x < pp.len(),
        ep.len() == pp.len(),
        forall|y: int|
            0 <= y < ep.len() ==> ep[y] == u32_bytes(cipher_lane(ks, key, pp, (y / 4) as nat))[y
                % 4],
    ensures
        u32_bytes(plain_lane(ks, key, ep, x / 4))[x % 4] == pp[x],
{
    let k = x / 4;
    let b = x % 4;
    let stream = lane(ks, k);
    let feedback = cipher_feedback(ks, key, pp, k as nat);
    if k > 0 {
        lemma_cipher_lane_readback(ks, key, pp, ep, k - 1);
    }
    let plain = lane(pp, k);
    let cipher = cipher_lane(ks, key, pp, k as nat);
    lemma_lane_bytes(ep, k, b);
    lemma_lane_bytes(pp, k, b);
    lemma_xor_bytes(plain, stream);
    lemma_xor_bytes(plain ^ stream, feedback);
    lemma_xor_bytes(stream, feedback);
    lemma_xor_bytes(stream ^ feedback, lane(ep, k));
    let w = u32_bytes(plain)[b];
    let s = u32_bytes(stream)[b];
    let f = u32_bytes(feedback)[b];
    assert((s ^ f) ^ ((w ^ s) ^ f) == w) by (bit_vector);
}

/// Deciphering an enciphered packet under the same key and keystream
/// gives the packet back.
pub proof fn lemma_decrypt_inverts_encrypt(ks: Seq<u8>, key: u32, p: Seq<u8>)
    ensures
        decrypted(ks, key, encrypted(ks, key, p)) == p,
{
    let e = encrypted(ks, key, p);
    if passes_through(key, p) {
        assert(decrypted(ks, key, e) =~= p);
    } else {
        let n = p.len() as int;
        let start = payload_start(p);
        let pp = p.subrange(start, n);
        let ep = e.subrange(start, n);
        let d = decrypted(ks, key, e);
        assert forall|x: int| 0 <= x < ep.len() implies ep[x] == u32_bytes(
            cipher_lane(ks, key, pp, (x / 4) as nat),
        )[x % 4] by {
            assert(ep[x] == e[start + x]);
        }
        assert forall|i: int| 0 <= i < n implies d[i] == p[i] by {
            if i >= start {
                lemma_payload_byte_comes_back(ks, key, pp, ep, i - start);
            }
        }
    }
}

fn read_lane(src: &[u8], at: usize) -> (r: u32)
    requires
        at <= src@.len(),
    ensures
        r == word_at(src@, at as int),
{
    let n: usize = src.len();
    let b0: u32 = if at < n {
        src[at] as u32
    } else {
        0
    };
    let b1: u32 = if n - at > 1 {
        src[at + 1] as u32
    } else {
        0
    };
    let b2: u32 = if n - at > 2 {
        src[at + 2] as u32
    } else {
        0
    };
    let b3: u32 = if n - at > 3 {
        src[at + 3] as u32
    } else {
        0
    };
    b0 + 256 * b1 + 65536 * b2 + 16777216 * b3
}

fn store_word(dest: &mut [u8], at: usize, word: u32, count: usize)
    requires
        count <= 4,
        at + count <= old(dest)@.len(),
    ensures
        final(dest)@.len() == old(dest)@.len(),
        forall|j: int|
            0 <= j < old(dest)@.len() ==> #[trigger] final(dest)@[j] == (if at <= j < at + count {
                u32_bytes(word)[j - at]
            } else {
                old(dest)@[j]
            }),
{
    let bytes = u32_to_le(word);
    let len: usize = dest.len();
    let mut b: usize = 0;
    while b < count
        invariant
            b <= count <= 4,
            len == dest@.len(),
            at + count <= len,
            dest@.len() == old(dest)@.len(),
            bytes@ == u32_bytes(word),
            forall|j: int|
                0 <= j < dest@.len() ==> #[trigger] dest@[j] == (if at <= j < at + b {
                    u32_bytes(word)[j - at]
                } else {
                    old(dest)@[j]
                }),
        decreases count - b,
    {
        dest[at + b] = bytes[b];
        b += 1;
    }
}

fn copy_into(dest: &mut [u8], src: &[u8])
    requires
        src@.len() <= old(dest)@.len(),
    ensures
        final(dest)@.len() == old(dest)@.len(),
        forall|j: int|
            0 <= j < old(dest)@.len() ==> #[trigger] final(dest)@[j] == (if j < src@.len() {
                src@[j]
            } else {
                old(dest)@[j]
            }),
{
    let n: usize = src.len();
    let mut i: usize = 0;
    while i < n
        invariant
            i <= n,
            n == src@.len(),
            n <= dest@.len(),
            dest@.len() == old(dest)@.len(),
            forall|j: int|
                0 <= j < dest@.len() ==> #[trigger] dest@[j] == (if j < i {
                    src@[j]
                } else {
                    old(dest)@[j]
                }),
        decreases n - i,
    {
        dest[i] = src[i];
        i += 1;
    }
}

/// `rand::rngs::ThreadRng`, the handle of the thread's random generator.
#[verifier::external_type_specification]
#[verifier::external_body]
pub struct ExThreadRng(::rand::rngs::ThreadRng);

/// `rand::rng`: a handle of the thread's random generator. The first call
/// in a thread seeds the generator from the operating system and panics
/// when that source of entropy fails, which no caller can tell beforehand.
#[verifier::external_body]
fn thread_generator() -> (r: ::rand::rngs::ThreadRng) {
    rand::rng()
}

/// `Rng::random_range` over `0..=65535`: one draw, which lies in the range
/// asked for.
#[verifier::external_body]
fn draw_word(generator: &mut ::rand::rngs::ThreadRng) -> (r: u32)
    ensures
        r <= 65535,
{
    generator.random_range(0..=65535)
}

pub struct VieEncrypt {
    pub session_key: u32,
    pub client_key: u32,
    pub rng: VieRng,
    pub keystream: Box<[u8; KEYSTREAM_SIZE]>,
}

impl VieEncrypt {
    /// The keys that a server may answer with: the session key already
    /// accepted, the client key itself, or the client key negated.
    pub open spec fn spec_is_valid_key(&self, server_key: u32) -> bool {
        server_key == self.session_key || server_key == self.client_key || server_key
            == negated_key(self.client_key)
    }

    /// A cipher that waits for the server's key: disabled, with an empty
    /// keystream.
    pub fn new(client_key: u32) -> (r: Self)
        ensures
            r.session_key == 0,
            r.client_key == client_key,
            r.rng.seed == 0,
            r.keystream@ == Seq::new(520, |i: int| 0u8),
    {
        let r = Self {
            session_key: 0,
            client_key,
            rng: VieRng::new(0),
            keystream: Box::new([0u8; KEYSTREAM_SIZE]),
        };
        r
    }

    /// What a server key does to the cipher. An invalid key changes
    /// nothing. The client key itself disables the cipher. Any other valid
    /// key becomes the session key and seeds the keystream.
    pub open spec fn keyed(&self, after: &VieEncrypt, server_key: u32) -> bool {
        if !self.spec_is_valid_key(server_key) {
            *after == *self
        } else if server_key == self.client_key {
            &&& after.client_key == self.client_key
            &&& after.session_key == 0
            &&& after.rng == self.rng
            &&& after.keystream@ == Seq::new(520, |i: int| 0u8)
        } else {
            &&& after.client_key == self.client_key
            &&& after.session_key == server_key
            &&& after.rng.seed == seed_after(crate::codec::signed32(server_key), 260)
            &&& after.keystream@ == keystream_of(crate::codec::signed32(server_key))
        }
    }

    /// Takes the server's key, and says whether it was valid.
    pub fn initialize(&mut self, server_key: u32) -> (r: bool)
        ensures
            r == old(self).spec_is_valid_key(server_key),
            old(self).keyed(final(self), server_key),
    {
        if !self.is_valid_key(server_key) {
            return false;
        }
        if self.client_key == server_key {
            self.session_key = 0;
            self.keystream = Box::new([0u8; KEYSTREAM_SIZE]);
            assert(self.keystream@ =~= Seq::new(520, |i: int| 0u8));
        } else {
            self.session_key = server_key;
            self.rng.seed = crate::codec::u32_to_i32(server_key);
            let ghost seed = self.rng.seed;
            let mut k: usize = 0;
            while k < 260
                invariant
                    k <= 260,
                    self.session_key == server_key,
                    self.client_key == old(self).client_key,
                    self.rng.seed == seed_after(seed, k as nat),
                    forall|j: int| 0 <= j < 2 * k ==> self.keystream@[j] == keystream_of(seed)[j],
                decreases 260 - k,
            {
                let word: u16 = (self.rng.next() % 65536) as u16;
                let bytes = u16_to_le(word);
                self.keystream[2 * k] = bytes[0];
                self.keystream[2 * k + 1] = bytes[1];
                k += 1;
            }
            assert(self.keystream@ =~= keystream_of(seed));
        }
        true
    }

    /// Enciphers `pkt` into the front of `dest`; the rest of `dest` stays
    /// as it is.
    pub fn encrypt(&self, pkt: &[u8], dest: &mut [u8])
        requires
            pkt@.len() <= old(dest)@.len(),
            self.session_key == 0 || pkt@.len() <= KEYSTREAM_SIZE,
        ensures
            final(dest)@.len() == old(dest)@.len(),
            final(dest)@.subrange(0, pkt@.len() as int) == encrypted(
                self.keystream@,
                self.session_key,
                pkt@,
            ),
            final(dest)@.subrange(pkt@.len() as int, old(dest)@.len() as int) == old(
                dest,
            )@.subrange(pkt@.len() as int, old(dest)@.len() as int),
    {
        let n: usize = pkt.len();
        let key: u32 = self.session_key;
        copy_into(dest, pkt);
        if key == 0 || n == 0 {
            return ;
        }
        let start: usize = if pkt[0] == 0 {
            2
        } else {
            1
        };
        if pkt[0] == 0 && n <= 2 {
            return ;
        }
        let ks = self.keystream.as_slice();
        let ghost payload = pkt@.subrange(start as int, n as int);
        let mut i: usize = start;
        let mut iv: u32 = key;
        while n - i >= 4
            invariant
                n == pkt@.len(),
                n <= KEYSTREAM_SIZE,
                start <= i <= n,
                1 <= start <= 2,
                (i - start) % 4 == 0,
                dest@.len() == old(dest)@.len(),
                n <= dest@.len(),
                ks@ == self.keystream@,
                ks@.len() == 520,
                payload == pkt@.subrange(start as int, n as int),
                iv == cipher_feedback(ks@, key, payload, ((i - start) / 4) as nat),
                forall|j: int| 0 <= j < start ==> dest@[j] == pkt@[j],
                forall|j: int|
                    start <= j < i ==> dest@[j] == u32_bytes(
                        cipher_lane(ks@, key, payload, ((j - start) / 4) as nat),
                    )[(j - start) % 4],
                forall|j: int| n <= j < dest@.len() ==> dest@[j] == old(dest)@[j],
            decreases n - i,
        {
            let ghost k = ((i - start) / 4) as nat;
            let word: u32 = read_lane(pkt, i);
            let stream: u32 = read_lane(ks, i - start);
            let out: u32 = (word ^ stream) ^ iv;
            proof {
                assert(out == cipher_lane(ks@, key, payload, k));
                assert(cipher_feedback(ks@, key, payload, k + 1) == out);
            }
            store_word(dest, i, out, 4);
            iv = out;
            i += 4;
        }
        if i < n {
            let ghost k = ((i - start) / 4) as nat;
            let word: u32 = read_lane(pkt, i);
            let stream: u32 = read_lane(ks, i - start);
            let out: u32 = (word ^ stream) ^ iv;
            proof {
                assert(out == cipher_lane(ks@, key, payload, k));
            }
            store_word(dest, i, out, n - i);
        }
        assert(dest@.subrange(0, n as int) =~= encrypted(self.keystream@, key, pkt@));
    }

    /// Deciphers `pkt` in place.
    pub fn decrypt(&self, pkt: &mut [u8])
        requires
            self.session_key == 0 || old(pkt)@.len() <= KEYSTREAM_SIZE,
        ensures
            final(pkt)@ == decrypted(self.keystream@, self.session_key, old(pkt)@),
    {
        let n: usize = pkt.len();
        let key: u32 = self.session_key;
        if key == 0 || n == 0 {
            return ;
        }
        let start: usize = if pkt[0] == 0 {
            2
        } else {
            1
        };
        if pkt[0] == 0 && n <= 2 {
            return ;
        }
        let ks = self.keystream.as_slice();
        let ghost payload = old(pkt)@.subrange(start as int, n as int);
        let mut i: usize = start;
        let mut iv: u32 = key;
        while n - i >= 4
            invariant
                n == pkt@.len(),
                n == old(pkt)@.len(),
                n <= KEYSTREAM_SIZE,
                start <= i <= n,
                1 <= start <= 2,
                (i - start) % 4 == 0,
                ks@ == self.keystream@,
                ks@.len() == 520,
                payload == old(pkt)@.subrange(start as int, n as int),
                iv == plain_feedback(key, payload, (i - start) / 4),
                forall|j: int| 0 <= j < start ==> pkt@[j] == old(pkt)@[j],
                forall|j: int|
                    start <= j < i ==> pkt@[j] == u32_bytes(
                        plain_lane(ks@, key, payload, (j - start) / 4),
                    )[(j - start) % 4],
                forall|j: int| i <= j < n ==> pkt@[j] == old(pkt)@[j],
            decreases n - i,
        {
            let ghost k = (i - start) / 4;
            let word: u32 = read_lane(pkt, i);
            let stream: u32 = read_lane(ks, i - start);
            let out: u32 = (stream ^ iv) ^ word;
            store_word(pkt, i, out, 4);
            iv = word;
            i += 4;
        }
        if i < n {
            let ghost k = (i - start) / 4;
            let word: u32 = read_lane(pkt, i);
            let stream: u32 = read_lane(ks, i - start);
            let out: u32 = (stream ^ iv) ^ word;
            proof {
                assert(word_at(pkt@, i as int) == lane(payload, k));
            }
            store_word(pkt, i, out, n - i);
        }
    }

    /// A fresh client key from the current tick and two random draws: zero
    /// or a key with the top bit set, whatever clock and generator say.
    pub fn generate_key() -> (r: u32)
        ensures
            r == 0 || r >= 0x8000_0000,
    {
        let tick = LocalTick::now();
        let mut first = thread_generator();
        let r1: u32 = draw_word(&mut first);
        let mut second = thread_generator();
        let r2: u32 = draw_word(&mut second);
        Self::key_from(tick.value(), r1 as u16, r2 as u16)
    }

    /// The client key made from a tick and two 16-bit draws.
    pub fn key_from(tick: u32, r1: u16, r2: u16) -> (r: u32)
        ensures
            r == client_key_from(tick, r1, r2),
            r == 0 || r >= 0x8000_0000,
    {
        let t: u64 = ((tick as u64) * 0xCCCC_CCCD) % 0x1_0000_0000;
        let k: u64 = ((r1 as u64) * 65536 + t / 8 + (r2 as u64)) % 0x1_0000_0000;
        if k <= 0x7FFF_FFFF {
            ((0x1_0000_0000 - k) % 0x1_0000_0000) as u32
        } else {
            k as u32
        }
    }

    #[verifier::when_used_as_spec(spec_is_valid_key)]
    pub fn is_valid_key(&self, server_key: u32) -> (r: bool)
        ensures
            r == self.spec_is_valid_key(server_key),
    {
        let negated: u32 = ((0x1_0000_0000u64 - (self.client_key as u64)) % 0x1_0000_0000) as u32;
        server_key == self.session_key || server_key == self.client_key || server_key == negated
    }
}

} // verus!
