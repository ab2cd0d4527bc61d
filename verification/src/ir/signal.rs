//! The signals of a 44-button LED remote and their decoding from
//! pulse sequences.
use vstd::prelude::*;
use crate::ir::pulse::{bits_of, code_of, lemma_code_bound, lemma_two_pow_32, two_pow, Pulse};

verus! {

/// The different buttons on the remote, plus an "Unrecognized" signal.
#[derive(Clone, Copy, Debug, PartialEq, Eq, Structural)]
pub enum Signal {
    Power,
    PlayPause,
    BrightnessDown,
    BrightnessUp,
    White,
    Red,
    Green,
    Blue,
    Orange1,
    Orange2,
    Orange3,
    Yellow,
    GrassGreen,
    Turquise,
    Petrol,
    DarkPetrol,
    Blue2,
    Violet,
    LightViolet,
    Pink,
    Rose1,
    Rose2,
    Azure1,
    Azure2,
    RedUp,
    RedDown,
    GreenUp,
    GreenDown,
    BlueUp,
    BlueDown,
    Quick,
    Slow,
    Diy1,
    Diy2,
    Diy3,
    Diy4,
    Diy5,
    Diy6,
    Auto,
    Flash,
    Jump3,
    Jump7,
    Fade3,
    Fade7,
    Unrecognized,
}

/// The signal that a 32 bit button code stands for.  Codes are read
/// from the first pulse on, a short pulse being a 0 and a long pulse a
/// 1.
pub open spec fn signal_for_code(code: u32) -> Signal {
    match code {
        0b00000000_11111111_00000010_11111101 => Signal::Power,
        0b00000000_11111111_10000010_01111101 => Signal::PlayPause,
        0b00000000_11111111_10111010_01000101 => Signal::BrightnessDown,
        0b00000000_11111111_00111010_11000101 => Signal::BrightnessUp,
        0b00000000_11111111_00100010_11011101 => Signal::White,
        0b00000000_11111111_00011010_11100101 => Signal::Red,
        0b00000000_11111111_10011010_01100101 => Signal::Green,
        0b00000000_11111111_10100010_01011101 => Signal::Blue,
        0b00000000_11111111_00101010_11010101 => Signal::Orange1,
        0b00000000_11111111_00001010_11110101 => Signal::Orange2,
        0b00000000_11111111_00111000_11000111 => Signal::Orange3,
        0b00000000_11111111_00011000_11100111 => Signal::Yellow,
        0b00000000_11111111_10101010_01010101 => Signal::GrassGreen,
        0b00000000_11111111_10001010_01110101 => Signal::Turquise,
        0b00000000_11111111_10111000_01000111 => Signal::Petrol,
        0b00000000_11111111_10011000_01100111 => Signal::DarkPetrol,
        0b00000000_11111111_10010010_01101101 => Signal::Blue2,
        0b00000000_11111111_10110010_01001101 => Signal::Violet,
        0b00000000_11111111_01111000_10000111 => Signal::LightViolet,
        0b00000000_11111111_01011000_10100111 => Signal::Pink,
        0b00000000_11111111_00010010_11101101 => Signal::Rose1,
        0b00000000_11111111_00110010_11001101 => Signal::Rose2,
        0b00000000_11111111_11111000_00000111 => Signal::Azure1,
        0b00000000_11111111_11011000_00100111 => Signal::Azure2,
        0b00000000_11111111_00101000_11010111 => Signal::RedUp,
        0b00000000_11111111_00001000_11110111 => Signal::RedDown,
        0b00000000_11111111_10101000_01010111 => Signal::GreenUp,
        0b00000000_11111111_10001000_01110111 => Signal::GreenDown,
        0b00000000_11111111_01101000_10010111 => Signal::BlueUp,
        0b00000000_11111111_01001000_10110111 => Signal::BlueDown,
        0b00000000_11111111_11101000_00010111 => Signal::Quick,
        0b00000000_11111111_11001000_00110111 => Signal::Slow,
        0b00000000_11111111_00110000_11001111 => Signal::Diy1,
        0b00000000_11111111_10110000_01001111 => Signal::Diy2,
        0b00000000_11111111_01110000_10001111 => Signal::Diy3,
        0b00000000_11111111_00010000_11101111 => Signal::Diy4,
        0b00000000_11111111_10010000_01101111 => Signal::Diy5,
        0b00000000_11111111_01010000_10101111 => Signal::Diy6,
        0b00000000_11111111_11110000_00001111 => Signal::Auto,
        0b00000000_11111111_11010000_00101111 => Signal::Flash,
        0b00000000_11111111_00100000_11011111 => Signal::Jump3,
        0b00000000_11111111_10100000_01011111 => Signal::Jump7,
        0b00000000_11111111_01100000_10011111 => Signal::Fade3,
        0b00000000_11111111_11100000_00011111 => Signal::Fade7,
        _ => Signal::Unrecognized,
    }
}

/// The signal that a pulse sequence encodes: all button codes are 32
/// short or long pulses long; other pulses in the sequence are skipped.
pub open spec fn signal_of_pulses(seq: Seq<Pulse>) -> Signal {
    if bits_of(seq).len() == 32 {
        signal_for_code(code_of(bits_of(seq)) as u32)
    } else {
        Signal::Unrecognized
    }
}

fn signal_for_code_exec(code: u32) -> (s: Signal)
    ensures
        s == signal_for_code(code),
{
    match code {
            0b00000000_11111111_00000010_11111101 => Signal::Power,
            0b00000000_11111111_10000010_01111101 => Signal::PlayPause,
            0b00000000_11111111_10111010_01000101 => Signal::BrightnessDown,
            0b00000000_11111111_00111010_11000101 => Signal::BrightnessUp,
            0b00000000_11111111_00100010_11011101 => Signal::White,
            0b00000000_11111111_00011010_11100101 => Signal::Red,
            0b00000000_11111111_10011010_01100101 => Signal::Green,
            0b00000000_11111111_10100010_01011101 => Signal::Blue,
            0b00000000_11111111_00101010_11010101 => Signal::Orange1,
            0b00000000_11111111_00001010_11110101 => Signal::Orange2,
            0b00000000_11111111_00111000_11000111 => Signal::Orange3,
            0b00000000_11111111_00011000_11100111 => Signal::Yellow,
            0b00000000_11111111_10101010_01010101 => Signal::GrassGreen,
            0b00000000_11111111_10001010_01110101 => Signal::Turquise,
            0b00000000_11111111_10111000_01000111 => Signal::Petrol,
            0b00000000_11111111_10011000_01100111 => Signal::DarkPetrol,
            0b00000000_11111111_10010010_01101101 => Signal::Blue2,
            0b00000000_11111111_10110010_01001101 => Signal::Violet,
            0b00000000_11111111_01111000_10000111 => Signal::LightViolet,
            0b00000000_11111111_01011000_10100111 => Signal::Pink,
            0b00000000_11111111_00010010_11101101 => Signal::Rose1,
            0b00000000_11111111_00110010_11001101 => Signal::Rose2,
            0b00000000_11111111_11111000_00000111 => Signal::Azure1,
            0b00000000_11111111_11011000_00100111 => Signal::Azure2,
            0b00000000_11111111_00101000_11010111 => Signal::RedUp,
            0b00000000_11111111_00001000_11110111 => Signal::RedDown,
            0b00000000_11111111_10101000_01010111 => Signal::GreenUp,
            0b00000000_11111111_10001000_01110111 => Signal::GreenDown,
            0b00000000_11111111_01101000_10010111 => Signal::BlueUp,
            0b00000000_11111111_01001000_10110111 => Signal::BlueDown,
            0b00000000_11111111_11101000_00010111 => Signal::Quick,
            0b00000000_11111111_11001000_00110111 => Signal::Slow,
            0b00000000_11111111_00110000_11001111 => Signal::Diy1,
            0b00000000_11111111_10110000_01001111 => Signal::Diy2,
            0b00000000_11111111_01110000_10001111 => Signal::Diy3,
            0b00000000_11111111_00010000_11101111 => Signal::Diy4,
            0b00000000_11111111_10010000_01101111 => Signal::Diy5,
            0b00000000_11111111_01010000_10101111 => Signal::Diy6,
            0b00000000_11111111_11110000_00001111 => Signal::Auto,
            0b00000000_11111111_11010000_00101111 => Signal::Flash,
            0b00000000_11111111_00100000_11011111 => Signal::Jump3,
            0b00000000_11111111_10100000_01011111 => Signal::Jump7,
            0b00000000_11111111_01100000_10011111 => Signal::Fade3,
            0b00000000_11111111_11100000_00011111 => Signal::Fade7,
            _ => Signal::Unrecognized,
    }
}

impl Signal {
    /// Attempts to match a pulse sequence to a signal.  All button codes
    /// are 32 pulses long (32 bits).
    pub fn from_pulse_seq(pulse_seq: &Vec<Pulse>) -> (s: Signal)
        ensures
            s == signal_of_pulses(pulse_seq@),
    {
        let mut code: u64 = 0;
        let mut count: usize = 0;
        let mut i: usize = 0;
        while i < pulse_seq.len()
            invariant
                0 <= i <= pulse_seq@.len(),
                count == bits_of(pulse_seq@.take(i as int)).len(),
                count <= 32,
                code == code_of(bits_of(pulse_seq@.take(i as int))),
                code < two_pow(count as nat),
                two_pow(count as nat) <= 0x1_0000_0000,
            decreases pulse_seq@.len() - i,
        {
            let ghost prefix = pulse_seq@.take(i as int);
            assert(pulse_seq@.take((i + 1) as int).drop_last() =~= prefix);
            let p = pulse_seq[i];
            match p {
                Pulse::Short => {
                    if count == 32 {
                        proof {
                            assert(bits_of(pulse_seq@.take((i + 1) as int)).len() == 33);
                            lemma_bits_grow(pulse_seq@, (i + 1) as int);
                            assert(pulse_seq@.take(pulse_seq@.len() as int) =~= pulse_seq@);
                        }
                        return Signal::Unrecognized;
                    }
                    assert(bits_of(pulse_seq@.take((i + 1) as int)).drop_last() =~= bits_of(prefix));
                    proof {
                        lemma_two_pow_32((count + 1) as nat);
                    }
                    code = 2 * code;
                    count = count + 1;
                },
                Pulse::Long => {
                    if count == 32 {
                        proof {
                            assert(bits_of(pulse_seq@.take((i + 1) as int)).len() == 33);
                            lemma_bits_grow(pulse_seq@, (i + 1) as int);
                            assert(pulse_seq@.take(pulse_seq@.len() as int) =~= pulse_seq@);
                        }
                        return Signal::Unrecognized;
                    }
                    assert(bits_of(pulse_seq@.take((i + 1) as int)).drop_last() =~= bits_of(prefix));
                    proof {
                        lemma_two_pow_32((count + 1) as nat);
                    }
                    code = 2 * code + 1;
                    count = count + 1;
                },
                _ => {
                    assert(bits_of(pulse_seq@.take((i + 1) as int)) =~= bits_of(prefix));
                },
            }
            i = i + 1;
        }
        assert(pulse_seq@.take(pulse_seq@.len() as int) =~= pulse_seq@);
        if count == 32 {
            proof {
                lemma_code_bound(bits_of(pulse_seq@));
                lemma_two_pow_32(32);
            }
            signal_for_code_exec(code as u32)
        } else {
            Signal::Unrecognized
        }
    }
}

/// The bits of a longer prefix are never fewer.
proof fn lemma_bits_grow(seq: Seq<Pulse>, n: int)
    requires
        0 <= n <= seq.len(),
    ensures
        forall|m: int| n <= m <= seq.len() ==> bits_of(seq.take(n)).len() <= #[trigger] bits_of(seq.take(m)).len(),
{
    assert forall|m: int| n <= m <= seq.len() implies bits_of(seq.take(n)).len() <= #[trigger] bits_of(seq.take(m)).len() by {
        lemma_bits_grow_to(seq, n, m);
    }
}

proof fn lemma_bits_grow_to(seq: Seq<Pulse>, n: int, m: int)
    requires
        0 <= n <= m <= seq.len(),
    ensures
        bits_of(seq.take(n)).len() <= bits_of(seq.take(m)).len(),
    decreases m - n,
{
    if n < m {
        lemma_bits_grow_to(seq, n, m - 1);
        assert(seq.take(m).drop_last() =~= seq.take(m - 1));
    }
}

/// Every button of the remote has its own code: decoding the code of a
/// button gives that button back.
pub proof fn lemma_codes_decode()
    ensures
        signal_for_code(0b00000000_11111111_00000010_11111101) == Signal::Power,
        signal_for_code(0b00000000_11111111_10000010_01111101) == Signal::PlayPause,
        signal_for_code(0b00000000_11111111_10111010_01000101) == Signal::BrightnessDown,
        signal_for_code(0b00000000_11111111_00111010_11000101) == Signal::BrightnessUp,
        signal_for_code(0b00000000_11111111_00100010_11011101) == Signal::White,
        signal_for_code(0b00000000_11111111_00011010_11100101) == Signal::Red,
        signal_for_code(0b00000000_11111111_10011010_01100101) == Signal::Green,
        signal_for_code(0b00000000_11111111_10100010_01011101) == Signal::Blue,
        signal_for_code(0b00000000_11111111_00101010_11010101) == Signal::Orange1,
        signal_for_code(0b00000000_11111111_00001010_11110101) == Signal::Orange2,
        signal_for_code(0b00000000_11111111_00111000_11000111) == Signal::Orange3,
        signal_for_code(0b00000000_11111111_00011000_11100111) == Signal::Yellow,
        signal_for_code(0b00000000_11111111_10101010_01010101) == Signal::GrassGreen,
        signal_for_code(0b00000000_11111111_10001010_01110101) == Signal::Turquise,
        signal_for_code(0b00000000_11111111_10111000_01000111) == Signal::Petrol,
        signal_for_code(0b00000000_11111111_10011000_01100111) == Signal::DarkPetrol,
        signal_for_code(0b00000000_11111111_10010010_01101101) == Signal::Blue2,
        signal_for_code(0b00000000_11111111_10110010_01001101) == Signal::Violet,
        signal_for_code(0b00000000_11111111_01111000_10000111) == Signal::LightViolet,
        signal_for_code(0b00000000_11111111_01011000_10100111) == Signal::Pink,
        signal_for_code(0b00000000_11111111_00010010_11101101) == Signal::Rose1,
        signal_for_code(0b00000000_11111111_00110010_11001101) == Signal::Rose2,
        signal_for_code(0b00000000_11111111_11111000_00000111) == Signal::Azure1,
        signal_for_code(0b00000000_11111111_11011000_00100111) == Signal::Azure2,
        signal_for_code(0b00000000_11111111_00101000_11010111) == Signal::RedUp,
        signal_for_code(0b00000000_11111111_00001000_11110111) == Signal::RedDown,
        signal_for_code(0b00000000_11111111_10101000_01010111) == Signal::GreenUp,
        signal_for_code(0b00000000_11111111_10001000_01110111) == Signal::GreenDown,
        signal_for_code(0b00000000_11111111_01101000_10010111) == Signal::BlueUp,
        signal_for_code(0b00000000_11111111_01001000_10110111) == Signal::BlueDown,
        signal_for_code(0b00000000_11111111_11101000_00010111) == Signal::Quick,
        signal_for_code(0b00000000_11111111_11001000_00110111) == Signal::Slow,
        signal_for_code(0b00000000_11111111_00110000_11001111) == Signal::Diy1,
        signal_for_code(0b00000000_11111111_10110000_01001111) == Signal::Diy2,
        signal_for_code(0b00000000_11111111_01110000_10001111) == Signal::Diy3,
        signal_for_code(0b00000000_11111111_00010000_11101111) == Signal::Diy4,
        signal_for_code(0b00000000_11111111_10010000_01101111) == Signal::Diy5,
        signal_for_code(0b00000000_11111111_01010000_10101111) == Signal::Diy6,
        signal_for_code(0b00000000_11111111_11110000_00001111) == Signal::Auto,
        signal_for_code(0b00000000_11111111_11010000_00101111) == Signal::Flash,
        signal_for_code(0b00000000_11111111_00100000_11011111) == Signal::Jump3,
        signal_for_code(0b00000000_11111111_10100000_01011111) == Signal::Jump7,
        signal_for_code(0b00000000_11111111_01100000_10011111) == Signal::Fade3,
        signal_for_code(0b00000000_11111111_11100000_00011111) == Signal::Fade7,
{
}

} // verus!
