//! Samples: decoding them from bytes, pairing stereo frames, cutting them up.
use crate::ieee::Binary32;
use vstd::prelude::*;

verus! {

/// The model runs on mono audio at this many samples a second.
pub const MODEL_SAMPLE_RATE: u32 = 24_000;

/// The model's native step: 80 ms of audio at [`MODEL_SAMPLE_RATE`].
pub const CHUNK_SAMPLES: usize = 1920;

/// Whether two texts are the same.
pub fn same_text(a: &str, b: &str) -> (same: bool)
    ensures
        same == (a@ == b@),
{
    a.to_owned() == b.to_owned()
}

/// The signed 16-bit number that two little-endian bytes hold.
pub open spec fn signed16(low: u8, high: u8) -> int {
    let unsigned = low + 256 * high;
    if unsigned < 0x8000 {
        unsigned
    } else {
        unsigned - 0x1_0000
    }
}

/// The 32-bit pattern that four little-endian bytes hold.
pub open spec fn pattern32(b0: u8, b1: u8, b2: u8, b3: u8) -> int {
    b0 + 0x100 * b1 + 0x1_0000 * b2 + 0x100_0000 * b3
}

/// The characters of a text, if there is one.
pub open spec fn optional_text(text: Option<&str>) -> Option<Seq<char>> {
    match text {
        Some(text) => Some(text@),
        None => None,
    }
}

/// Whether `samples` is what `data` holds: for the format `S16LE`, one sample
/// for each two bytes, in units of full scale; for any other, and when no
/// format is known, one single-precision number for each four bytes. Bytes
/// after the last whole sample count for nothing.
pub open spec fn decodes(data: Seq<u8>, format: Option<Seq<char>>, samples: Seq<Binary32>) -> bool {
    if format == Some("S16LE"@) {
        &&& samples.len() == data.len() / 2
        &&& forall|i: int|
            0 <= i < samples.len() ==> (#[trigger] samples[i]).encodes_sample(
                signed16(data[2 * i], data[2 * i + 1]),
            )
    } else {
        &&& samples.len() == data.len() / 4
        &&& forall|i: int|
            0 <= i < samples.len() ==> (#[trigger] samples[i]).bits == pattern32(
                data[4 * i],
                data[4 * i + 1],
                data[4 * i + 2],
                data[4 * i + 3],
            )
    }
}

/// What bytes decode to is determined by them and by the format.
pub proof fn decoding_is_unique(
    data: Seq<u8>,
    format: Option<Seq<char>>,
    a: Seq<Binary32>,
    b: Seq<Binary32>,
)
    requires
        decodes(data, format, a),
        decodes(data, format, b),
    ensures
        a == b,
{
    assert forall|i: int| 0 <= i < a.len() implies a[i] == b[i] by {
        if format == Some("S16LE"@) {
            crate::ieee::sample_encoding_is_unique(
                a[i],
                b[i],
                signed16(data[2 * i], data[2 * i + 1]),
            );
        }
    }
    assert(a =~= b);
}

/// Decodes raw bytes into samples. `format` is the one that was negotiated, if
/// any was.
pub fn bytes_to_f32(data: &[u8], format: Option<&str>) -> (samples: Vec<Binary32>)
    ensures
        decodes(data@, optional_text(format), samples@),
{
    let sixteen_bit = match format {
        Some(name) => same_text(name, "S16LE"),
        None => false,
    };
    let length: usize = data.len();
    let mut samples: Vec<Binary32> = Vec::new();
    if sixteen_bit {
        let count: usize = length / 2;
        let mut i: usize = 0;
        while i < count
            invariant
                i <= count,
                length == data@.len(),
                count == length / 2,
                samples@.len() == i,
                forall|j: int|
                    0 <= j < i ==> (#[trigger] samples@[j]).encodes_sample(
                        signed16(data@[2 * j], data@[2 * j + 1]),
                    ),
            decreases count - i,
        {
            let unsigned: i32 = data[2 * i] as i32 + 256 * data[2 * i + 1] as i32;
            let sample: i16 = if unsigned < 0x8000 {
                unsigned as i16
            } else {
                (unsigned - 0x1_0000) as i16
            };
            samples.push(Binary32::from_sample(sample));
            i = i + 1;
        }
    } else {
        let count: usize = length / 4;
        let mut i: usize = 0;
        while i < count
            invariant
                i <= count,
                length == data@.len(),
                count == length / 4,
                samples@.len() == i,
                forall|j: int|
                    0 <= j < i ==> (#[trigger] samples@[j]).bits == pattern32(
                        data@[4 * j],
                        data@[4 * j + 1],
                        data@[4 * j + 2],
                        data@[4 * j + 3],
                    ),
            decreases count - i,
        {
            let bits: u32 = data[4 * i] as u32 + 0x100 * data[4 * i + 1] as u32 + 0x1_0000 * data[4
                * i + 2] as u32 + 0x100_0000 * data[4 * i + 3] as u32;
            samples.push(Binary32 { bits });
            i = i + 1;
        }
    }
    samples
}

/// The left and right samples of each stereo frame; an odd sample at the end
/// belongs to no frame.
pub open spec fn frames_of(samples: Seq<Binary32>) -> Seq<(Binary32, Binary32)> {
    Seq::new(samples.len() / 2, |i: int| (samples[2 * i], samples[2 * i + 1]))
}

/// Pairs up interleaved stereo samples.
pub fn stereo_frames(samples: &[Binary32]) -> (frames: Vec<(Binary32, Binary32)>)
    ensures
        frames@ == frames_of(samples@),
{
    let length: usize = samples.len();
    let count: usize = length / 2;
    let mut frames: Vec<(Binary32, Binary32)> = Vec::new();
    let mut i: usize = 0;
    while i < count
        invariant
            i <= count,
            length == samples@.len(),
            count == length / 2,
            frames@ == frames_of(samples@).take(i as int),
        decreases count - i,
    {
        frames.push((samples[2 * i], samples[2 * i + 1]));
        i = i + 1;
        assert(frames_of(samples@).take(i as int).drop_last() =~= frames_of(samples@).take(i - 1));
    }
    assert(frames_of(samples@).take(count as int) =~= frames_of(samples@));
    frames
}

/// A sequence cut into pieces of `size`; the last piece holds what is left.
pub open spec fn pieces<T>(whole: Seq<T>, size: nat) -> Seq<Seq<T>>
    recommends
        size > 0,
{
    Seq::new(
        (whole.len() + size - 1) as nat / size,
        |i: int|
            whole.subrange(
                i * size,
                if (i + 1) * size <= whole.len() {
                    (i + 1) * size
                } else {
                    whole.len() as int
                },
            ),
    )
}

/// Cuts samples into pieces of [`CHUNK_SAMPLES`].
pub fn cut(samples: &[Binary32]) -> (cuts: Vec<Vec<Binary32>>)
    ensures
        cuts@.map_values(|piece: Vec<Binary32>| piece@) == pieces(
            samples@,
            CHUNK_SAMPLES as nat,
        ),
{
    let mut cuts: Vec<Vec<Binary32>> = Vec::new();
    let mut at: usize = 0;
    let ghost view = |piece: Vec<Binary32>| piece@;
    let ghost goal = pieces(samples@, CHUNK_SAMPLES as nat);
    while at < samples.len()
        invariant
            goal == pieces(samples@, CHUNK_SAMPLES as nat),
            at <= samples@.len(),
            at == CHUNK_SAMPLES * cuts@.len() || at == samples@.len(),
            cuts@.len() == (at + CHUNK_SAMPLES - 1) / CHUNK_SAMPLES as int,
            view == (|piece: Vec<Binary32>| piece@),
            cuts@.map_values(view) == goal.take(cuts@.len() as int),
        decreases samples@.len() - at,
    {
        let end: usize = if samples.len() - at > CHUNK_SAMPLES {
            at + CHUNK_SAMPLES
        } else {
            samples.len()
        };
        let piece = vstd::slice::slice_to_vec(vstd::slice::slice_subrange(samples, at, end));
        let ghost before = cuts@;
        cuts.push(piece);
        at = end;
        proof {
            assert(goal[before.len() as int] == piece@);
            assert(cuts@.map_values(view) =~= before.map_values(view).push(piece@));
            assert(goal.take(cuts@.len() as int) =~= goal.take(before.len() as int).push(piece@));
        }
    }
    assert(goal.take(cuts@.len() as int) =~= goal);
    cuts
}

/// Cutting loses and reorders nothing, makes no empty piece, and makes every
/// piece but the last one full.
pub proof fn pieces_make_the_whole<T>(whole: Seq<T>, size: nat)
    requires
        size > 0,
    ensures
        pieces(whole, size).flatten() == whole,
        forall|i: int|
            0 <= i < pieces(whole, size).len() ==> 0 < (#[trigger] pieces(whole, size)[i]).len()
                <= size,
        forall|i: int|
            0 <= i < pieces(whole, size).len() - 1 ==> (#[trigger] pieces(whole, size)[i]).len()
                == size,
{
    let all = pieces(whole, size);
    let count = all.len();
    vstd::arithmetic::div_mod::lemma_fundamental_div_mod(whole.len() + size - 1, size as int);
    assert(count * size <= whole.len() + size - 1 < count * size + size) by (nonlinear_arith)
        requires
            whole.len() + size - 1 == size * count + (whole.len() + size - 1) % (size as int),
            0 <= (whole.len() + size - 1) % (size as int),
            (whole.len() + size - 1) % (size as int) < size,
    ;
    assert forall|i: int| 0 <= i < count implies {
        &&& 0 < (#[trigger] all[i]).len() <= size
        &&& i < count - 1 ==> all[i].len() == size
    } by {
        piece_bounds(whole.len(), size, count, i);
    }
    pieces_join(whole, size, count);
    assert(all.take(count as int) =~= all);
    all.lemma_flatten_and_flatten_alt_are_equivalent();
    assert(whole.take(
        if count * size <= whole.len() {
            (count * size) as int
        } else {
            whole.len() as int
        },
    ) =~= whole) by {
        piece_bounds(whole.len(), size, count, count as int - 1);
    }
}

proof fn piece_bounds(length: nat, size: nat, count: nat, i: int)
    requires
        size > 0,
        count * size <= length + size - 1 < count * size + size,
        -1 <= i < count,
    ensures
        i >= 0 ==> i * size < length,
        i < count - 1 ==> (i + 1) * size <= length,
        (i + 1) * size == i * size + size,
        i == count - 1 ==> (i + 1) * size >= length,
{
    assert((i + 1) * size == i * size + size) by (nonlinear_arith);
    if i < count - 1 {
        assert((i + 2) * size <= count * size) by (nonlinear_arith)
            requires
                i + 2 <= count,
        ;
        assert((i + 2) * size == i * size + 2 * size) by (nonlinear_arith);
    } else {
        assert((i + 1) * size == count * size) by (nonlinear_arith)
            requires
                i + 1 == count,
        ;
    }
}

proof fn pieces_join<T>(whole: Seq<T>, size: nat, n: nat)
    requires
        size > 0,
        n <= pieces(whole, size).len(),
        pieces(whole, size).len() * size <= whole.len() + size - 1 < pieces(whole, size).len() * size
            + size,
    ensures
        pieces(whole, size).take(n as int).flatten_alt() == whole.take(
            if n * size <= whole.len() {
                (n * size) as int
            } else {
                whole.len() as int
            },
        ),
    decreases n,
{
    let all = pieces(whole, size);
    if n == 0 {
        assert(0 * size == 0) by (nonlinear_arith);
        assert(all.take(0).flatten_alt() =~= whole.take(0));
    } else {
        let m = (n - 1) as nat;
        pieces_join(whole, size, m);
        piece_bounds(whole.len(), size, all.len(), m as int);
        assert(all.take(n as int).drop_last() =~= all.take(m as int));
        assert(all.take(n as int).last() == all[m as int]);
        let end = if n * size <= whole.len() {
            (n * size) as int
        } else {
            whole.len() as int
        };
        assert(whole.take(end) =~= whole.take((m * size) as int) + whole.subrange(
            (m * size) as int,
            end,
        ));
    }
}

/// The byte at place `k` of a number that is written least significant byte first.
pub open spec fn byte_at(number: int, k: int) -> int {
    if k == 0 {
        number % 256
    } else if k == 1 {
        number / 256 % 256
    } else if k == 2 {
        number / 0x1_0000 % 256
    } else {
        number / 0x100_0000 % 256
    }
}

/// Single-precision numbers that were written down, least significant byte first,
/// are read back, in every format but `S16LE`, whatever bytes follow that do not
/// make another number.
pub proof fn numbers_are_read_back(
    data: Seq<u8>,
    format: Option<Seq<char>>,
    numbers: Seq<Binary32>,
)
    requires
        format != Some("S16LE"@),
        4 * numbers.len() <= data.len() < 4 * numbers.len() + 4,
        forall|i: int, k: int|
            0 <= i < numbers.len() && 0 <= k < 4 ==> #[trigger] byte_at(numbers[i].bits as int, k)
                == data[4 * i + k],
    ensures
        forall|samples: Seq<Binary32>| #[trigger]
            decodes(data, format, samples) <==> samples == numbers,
{
    assert(decodes(data, format, numbers)) by {
        assert forall|i: int| 0 <= i < numbers.len() implies (#[trigger] numbers[i]).bits
            == pattern32(data[4 * i], data[4 * i + 1], data[4 * i + 2], data[4 * i + 3]) by {
            let bits = numbers[i].bits as int;
            assert(byte_at(bits, 0) == data[4 * i + 0]);
            assert(byte_at(bits, 1) == data[4 * i + 1]);
            assert(byte_at(bits, 2) == data[4 * i + 2]);
            assert(byte_at(bits, 3) == data[4 * i + 3]);
        }
    }
    assert forall|samples: Seq<Binary32>| #[trigger] decodes(data, format, samples) implies samples
        == numbers by {
        decoding_is_unique(data, format, samples, numbers);
    }
}

/// Signed 16-bit numbers that were written down in two's complement, least
/// significant byte first, are read as so many parts of full scale, in the format
/// `S16LE`, whatever byte follows.
pub proof fn sixteen_bits_are_read_back(data: Seq<u8>, numbers: Seq<i16>, samples: Seq<Binary32>)
    requires
        2 * numbers.len() <= data.len() < 2 * numbers.len() + 2,
        forall|i: int, k: int|
            0 <= i < numbers.len() && 0 <= k < 2 ==> #[trigger] byte_at(
                numbers[i] as int % 0x1_0000,
                k,
            ) == data[2 * i + k],
        decodes(data, Some("S16LE"@), samples),
    ensures
        samples.len() == numbers.len(),
        forall|i: int|
            0 <= i < numbers.len() ==> (#[trigger] samples[i]).scaled() == numbers[i]
                * vstd::arithmetic::power2::pow2(134) && !samples[i].is_nan(),
{
    assert forall|i: int| 0 <= i < numbers.len() implies (#[trigger] samples[i]).scaled()
        == numbers[i] * vstd::arithmetic::power2::pow2(134) && !samples[i].is_nan() by {
        let word = numbers[i] as int % 0x1_0000;
        assert(byte_at(word, 0) == data[2 * i + 0]);
        assert(byte_at(word, 1) == data[2 * i + 1]);
        assert(signed16(data[2 * i], data[2 * i + 1]) == numbers[i]);
    }
}

/// Stereo frames whose samples were put one after the other, left before right, are
/// found again, whatever sample follows.
pub proof fn frames_are_found_again(samples: Seq<Binary32>, frames: Seq<(Binary32, Binary32)>)
    requires
        2 * frames.len() <= samples.len() < 2 * frames.len() + 2,
        forall|i: int|
            0 <= i < frames.len() ==> (#[trigger] frames[i]).0 == samples[2 * i] && frames[i].1
                == samples[2 * i + 1],
    ensures
        frames_of(samples) == frames,
{
    assert(frames_of(samples) =~= frames);
}

} // verus!
