use vstd::prelude::*;

verus! {

/// Bit `j` of a big-endian byte sequence: bit 0 is the least significant
/// bit of the last byte.
pub open spec fn bit_of(s: Seq<u8>, j: int) -> bool {
    (s[s.len() - 1 - j / 8] >> ((j % 8) as u8)) & 1u8 == 1u8
}

proof fn lemma_or_bit(b: u8, s: u8, t: u8)
    requires
        s < 8,
        t < 8,
    ensures
        ((b | (1u8 << s)) >> t) & 1u8 == (if s == t { 1u8 } else { (b >> t) & 1u8 }),
{
    assert(((b | (1u8 << s)) >> t) & 1u8 == (if s == t { 1u8 } else { (b >> t) & 1u8 }))
        by (bit_vector)
        requires
            s < 8,
            t < 8,
    ;
}

proof fn lemma_zero_bit(t: u8)
    requires
        t < 8,
    ensures
        (0u8 >> t) & 1u8 == 0u8,
{
    assert((0u8 >> t) & 1u8 == 0u8) by (bit_vector);
}

/// Reads bit `j` of a big-endian byte sequence.
pub fn get_bit(s: &[u8], j: usize) -> (b: bool)
    requires
        j < 8 * s@.len(),
    ensures
        b == bit_of(s@, j as int),
{
    let idx: usize = s.len() - 1 - j / 8;
    (s[idx] >> ((j % 8) as u8)) & 1u8 == 1u8
}

/// Sets bit `j` of a big-endian byte array, leaving the other bits as they are.
pub fn set_bit<const N: usize>(a: &mut [u8; N], j: usize)
    requires
        j < 8 * N,
    ensures
        forall|t: int|
            0 <= t < 8 * N ==> bit_of(final(a)@, t) == (t == j || bit_of(old(a)@, t)),
{
    let idx: usize = N - 1 - j / 8;
    let s: u8 = (j % 8) as u8;
    let b: u8 = a[idx];
    a[idx] = b | (1u8 << s);
    proof {
        assert forall|t: int| 0 <= t < 8 * N implies bit_of(a@, t) == (t == j || bit_of(
            old(a)@,
            t,
        )) by {
            let u = (t % 8) as u8;
            if t / 8 == j / 8 {
                lemma_or_bit(b, s, u);
            }
        }
    }
}


/// Steering bit for logical position `i` of a search that replays `rom`
/// up to its last discrepancy `ld`: the known prefix is replayed, the last
/// discrepancy is forced to one, and later positions are left at zero.
pub open spec fn steering(rom: Seq<u8>, ld: int, i: int) -> bool {
    ld != 0 && ((i < ld - 1 && bit_of(rom, i)) || i == ld - 1)
}

/// `f` is the search frame that `encode_frame` builds from `rom` and `ld`.
pub open spec fn is_search_frame(f: Seq<u8>, rom: Seq<u8>, ld: int) -> bool {
    &&& f.len() == 16
    &&& forall|i: int|
        #![trigger steering(rom, ld, i)]
        0 <= i < 64 ==> !bit_of(f, 2 * i) && (bit_of(f, 2 * i + 1) == steering(rom, ld, i))
}

/// Builds the 128-bit search frame: for each logical bit `i` the pair
/// (bit `2i`, bit `2i + 1`) holds a zero data bit and the steering bit.
pub fn encode_frame(rom: &[u8; 8], last_discrepancy: u32) -> (f: [u8; 16])
    requires
        last_discrepancy <= 64,
    ensures
        is_search_frame(f@, rom@, last_discrepancy as int),
{
    let mut f = [0u8; 16];
    proof {
        assert forall|j: int| 0 <= j < 128 implies !bit_of(f@, j) by {
            lemma_zero_bit((j % 8) as u8);
        }
    }
    let mut i: usize = 0;
    while i < 64
        invariant
            i <= 64,
            last_discrepancy <= 64,
            forall|j: int|
                0 <= j < 128 ==> bit_of(f@, j) == (j % 2 == 1 && j / 2 < i && steering(
                    rom@,
                    last_discrepancy as int,
                    j / 2,
                )),
        decreases 64 - i,
    {
        let steer = if last_discrepancy == 0 {
            false
        } else if i < (last_discrepancy - 1) as usize {
            get_bit(rom, i)
        } else {
            i == (last_discrepancy - 1) as usize
        };
        if steer {
            set_bit(&mut f, 2 * i + 1);
        }
        i = i + 1;
    }
    proof {
        assert forall|k: int| 0 <= k < 64 implies !bit_of(f@, 2 * k) && bit_of(f@, 2 * k + 1)
            == steering(rom@, last_discrepancy as int, k) by {
            assert((2 * k + 1) / 2 == k);
            assert((2 * k) % 2 == 0);
        }
    }
    f
}

/// The frame carried by a 17-byte search response, once the chip's byte
/// order is corrected: bytes 1 and 2, 3 and 4, ..., 15 and 16 trade places
/// and the leading byte is dropped.
pub open spec fn response_frame(raw: Seq<u8>) -> Seq<u8> {
    Seq::new(16, |k: int| if k % 2 == 0 { raw[k + 2] } else { raw[k] })
}

/// Corrects the byte order of a search response and returns its frame.
pub fn unscramble(raw: &[u8; 17]) -> (f: [u8; 16])
    ensures
        f@ == response_frame(raw@),
{
    let mut buf = *raw;
    let mut i: usize = 0;
    while i < 8
        invariant
            i <= 8,
            forall|p: int|
                1 <= p < 17 ==> buf@[p] == (if p > 2 * i { raw@[p] } else if p % 2 == 1 {
                    raw@[p + 1]
                } else {
                    raw@[p - 1]
                }),
        decreases 8 - i,
    {
        let a: u8 = buf[2 * i + 1];
        let b: u8 = buf[2 * i + 2];
        buf[2 * i + 1] = b;
        buf[2 * i + 2] = a;
        i = i + 1;
    }
    let mut f = [0u8; 16];
    let mut k: usize = 0;
    while k < 16
        invariant
            k <= 16,
            forall|p: int|
                1 <= p < 17 ==> buf@[p] == (if p % 2 == 1 { raw@[p + 1] } else { raw@[p - 1] }),
            forall|q: int| 0 <= q < k ==> f@[q] == response_frame(raw@)[q],
        decreases 16 - k,
    {
        f[k] = buf[k + 1];
        k = k + 1;
    }
    assert(f@ =~= response_frame(raw@));
    f
}

/// Logical position `i` of a frame holds a discrepancy that took the zero
/// branch: the flag bit is set and the chosen bit is clear.
pub open spec fn zero_branch(f: Seq<u8>, i: int) -> bool {
    bit_of(f, 2 * i) && !bit_of(f, 2 * i + 1)
}

/// One plus the last position below `n` that holds a zero-branch
/// discrepancy, or 0 where there is none.
pub open spec fn last_zero(f: Seq<u8>, n: int) -> int
    decreases n,
{
    if n <= 0 {
        0
    } else if zero_branch(f, n - 1) {
        n
    } else {
        last_zero(f, n - 1)
    }
}

/// `rom` holds, as bit `i`, the chosen bit of logical position `i` of `f`.
pub open spec fn rom_of_frame(rom: Seq<u8>, f: Seq<u8>) -> bool {
    &&& rom.len() == 8
    &&& forall|i: int| 0 <= i < 64 ==> bit_of(rom, i) == bit_of(f, 2 * i + 1)
}

/// Result of decoding a search frame.
#[derive(Clone, Copy, Debug)]
pub struct Decoded {
    pub rom: [u8; 8],
    pub last_zero: u32,
    pub family_zero: u32,
}

/// Reads the ROM value and the discrepancy positions out of a search frame.
pub fn decode_frame(f: &[u8; 16]) -> (d: Decoded)
    ensures
        rom_of_frame(d.rom@, f@),
        d.last_zero == last_zero(f@, 64),
        d.family_zero == last_zero(f@, 8),
{
    let mut rom = [0u8; 8];
    let mut lz: u32 = 0;
    let mut fam: u32 = 0;
    proof {
        assert forall|j: int| 0 <= j < 64 implies !bit_of(rom@, j) by {
            lemma_zero_bit((j % 8) as u8);
        }
    }
    let mut i: usize = 0;
    while i < 64
        invariant
            i <= 64,
            lz == last_zero(f@, i as int),
            fam == last_zero(f@, if i < 8 { i as int } else { 8 }),
            forall|j: int|
                0 <= j < 64 ==> bit_of(rom@, j) == (j < i && bit_of(f@, 2 * j + 1)),
        decreases 64 - i,
    {
        let chosen = get_bit(f, 2 * i + 1);
        if chosen {
            set_bit(&mut rom, i);
        }
        if get_bit(f, 2 * i) && !chosen {
            lz = (i + 1) as u32;
            if i < 8 {
                fam = (i + 1) as u32;
            }
        }
        i = i + 1;
    }
    Decoded { rom, last_zero: lz, family_zero: fam }
}


proof fn lemma_byte_from_bits(a: u8, b: u8)
    requires
        ((a >> 0u8) & 1u8 == 1u8) == ((b >> 0u8) & 1u8 == 1u8),
        ((a >> 1u8) & 1u8 == 1u8) == ((b >> 1u8) & 1u8 == 1u8),
        ((a >> 2u8) & 1u8 == 1u8) == ((b >> 2u8) & 1u8 == 1u8),
        ((a >> 3u8) & 1u8 == 1u8) == ((b >> 3u8) & 1u8 == 1u8),
        ((a >> 4u8) & 1u8 == 1u8) == ((b >> 4u8) & 1u8 == 1u8),
        ((a >> 5u8) & 1u8 == 1u8) == ((b >> 5u8) & 1u8 == 1u8),
        ((a >> 6u8) & 1u8 == 1u8) == ((b >> 6u8) & 1u8 == 1u8),
        ((a >> 7u8) & 1u8 == 1u8) == ((b >> 7u8) & 1u8 == 1u8),
    ensures
        a == b,
{
    assert(a == b) by (bit_vector)
        requires
            ((a >> 0u8) & 1u8 == 1u8) == ((b >> 0u8) & 1u8 == 1u8),
            ((a >> 1u8) & 1u8 == 1u8) == ((b >> 1u8) & 1u8 == 1u8),
            ((a >> 2u8) & 1u8 == 1u8) == ((b >> 2u8) & 1u8 == 1u8),
            ((a >> 3u8) & 1u8 == 1u8) == ((b >> 3u8) & 1u8 == 1u8),
            ((a >> 4u8) & 1u8 == 1u8) == ((b >> 4u8) & 1u8 == 1u8),
            ((a >> 5u8) & 1u8 == 1u8) == ((b >> 5u8) & 1u8 == 1u8),
            ((a >> 6u8) & 1u8 == 1u8) == ((b >> 6u8) & 1u8 == 1u8),
            ((a >> 7u8) & 1u8 == 1u8) == ((b >> 7u8) & 1u8 == 1u8),
    ;
}

/// Two 8-byte values with the same 64 bits are equal.
proof fn lemma_rom_bits_determine(a: Seq<u8>, b: Seq<u8>)
    requires
        a.len() == 8,
        b.len() == 8,
        forall|i: int| 0 <= i < 64 ==> bit_of(a, i) == bit_of(b, i),
    ensures
        a == b,
{
    assert forall|k: int| 0 <= k < 8 implies a[k] == b[k] by {
        let base = 8 * (7 - k);
        assert((base + 0) / 8 == 7 - k && (base + 0) % 8 == 0);
        assert(bit_of(a, base + 0) == bit_of(b, base + 0));
        assert((base + 1) / 8 == 7 - k && (base + 1) % 8 == 1);
        assert(bit_of(a, base + 1) == bit_of(b, base + 1));
        assert((base + 2) / 8 == 7 - k && (base + 2) % 8 == 2);
        assert(bit_of(a, base + 2) == bit_of(b, base + 2));
        assert((base + 3) / 8 == 7 - k && (base + 3) % 8 == 3);
        assert(bit_of(a, base + 3) == bit_of(b, base + 3));
        assert((base + 4) / 8 == 7 - k && (base + 4) % 8 == 4);
        assert(bit_of(a, base + 4) == bit_of(b, base + 4));
        assert((base + 5) / 8 == 7 - k && (base + 5) % 8 == 5);
        assert(bit_of(a, base + 5) == bit_of(b, base + 5));
        assert((base + 6) / 8 == 7 - k && (base + 6) % 8 == 6);
        assert(bit_of(a, base + 6) == bit_of(b, base + 6));
        assert((base + 7) / 8 == 7 - k && (base + 7) % 8 == 7);
        assert(bit_of(a, base + 7) == bit_of(b, base + 7));
        lemma_byte_from_bits(a[k], b[k]);
    }
    assert(a =~= b);
}

proof fn lemma_last_zero_stays(f: Seq<u8>, ld: int, n: int)
    requires
        0 <= ld <= n,
        ld == 0 || zero_branch(f, ld - 1),
        forall|i: int| ld <= i < n ==> !zero_branch(f, i),
    ensures
        last_zero(f, n) == ld,
    decreases n,
{
    if n > ld {
        lemma_last_zero_stays(f, ld, n - 1);
    } else if ld > 0 {
        assert(last_zero(f, n) == n);
    }
}

/// Decoding recovers what the chip echoed: where the response frame, once
/// its byte order is corrected, carries the bits of `rom` as its chosen
/// bits and its last zero-branch discrepancy at position `ld`, the decoded
/// ROM is exactly `rom` and the decoded discrepancy position is `ld`.
pub proof fn lemma_decode_round_trip(raw: Seq<u8>, rom: Seq<u8>, ld: int)
    requires
        raw.len() == 17,
        rom.len() == 8,
        0 <= ld <= 64,
        forall|i: int| 0 <= i < 64 ==> bit_of(response_frame(raw), 2 * i + 1) == bit_of(rom, i),
        ld == 0 || zero_branch(response_frame(raw), ld - 1),
        forall|i: int| ld <= i < 64 ==> !zero_branch(response_frame(raw), i),
    ensures
        forall|r: Seq<u8>| rom_of_frame(r, response_frame(raw)) <==> r == rom,
        last_zero(response_frame(raw), 64) == ld,
{
    let f = response_frame(raw);
    lemma_last_zero_stays(f, ld, 64);
    assert forall|r: Seq<u8>| rom_of_frame(r, f) <==> r == rom by {
        if rom_of_frame(r, f) {
            lemma_rom_bits_determine(r, rom);
        }
    }
}

/// The ROM value that a search frame carries.
pub open spec fn frame_rom(f: Seq<u8>) -> Seq<u8> {
    choose|r: Seq<u8>| rom_of_frame(r, f)
}

/// A frame carries one ROM value only.
pub proof fn lemma_frame_rom(r: Seq<u8>, f: Seq<u8>)
    requires
        rom_of_frame(r, f),
    ensures
        r == frame_rom(f),
{
    let c = frame_rom(f);
    assert(rom_of_frame(c, f));
    lemma_rom_bits_determine(r, c);
}

} // verus!
