//! A cosmetic easter egg: a walking crab animation, shown on a small random
//! fraction of runs and for a few magic command words.  The animation
//! frames and the trigger decisions live here; the terminal drawing is the
//! shell's.

use vstd::prelude::*;

use crate::keyed::str_eq;

use std::collections::hash_map::DefaultHasher;
use std::hash::Hasher;
use vstd::std_specs::hash::DefaultHasherAdditionalSpecFns;

verus! {

/// The word appears in the frame starting at position `k`.
pub open spec fn shows_at(s: Seq<char>, word: Seq<char>, k: int) -> bool {
    0 <= k && k + word.len() <= s.len() && s.subrange(k, k + word.len()) == word
}

/// The word appears contiguously somewhere in the frame.
pub open spec fn frame_shows(s: Seq<char>, word: Seq<char>) -> bool {
    exists|k: int| shows_at(s, word, k)
}

/// A concrete position where the word appears witnesses `frame_shows`.
proof fn lemma_frame_shows(s: Seq<char>, word: Seq<char>, k: int)
    requires
        shows_at(s, word, k),
    ensures
        frame_shows(s, word),
{
}

/// The walking-crab animation frames, left to right and back; every frame
/// shows the crab glyph.
pub fn crab_frames() -> (r: Vec<&'static str>)
    ensures
        r@.len() == 10,
        forall|i: int| 0 <= i < 10 ==> (#[trigger] r@[i])@.len() == 6,
        forall|i: int| 0 <= i < 10 ==> frame_shows((#[trigger] r@[i])@, "🦀"@),
{
    let mut v: Vec<&'static str> = Vec::new();
    v.push("🦀     ");
    v.push(" 🦀    ");
    v.push("  🦀   ");
    v.push("   🦀  ");
    v.push("    🦀 ");
    v.push("     🦀");
    v.push("    🦀 ");
    v.push("   🦀  ");
    v.push("  🦀   ");
    v.push(" 🦀    ");
    proof {
        reveal_strlit("🦀");
        reveal_strlit("🦀     ");
        reveal_strlit(" 🦀    ");
        reveal_strlit("  🦀   ");
        reveal_strlit("   🦀  ");
        reveal_strlit("    🦀 ");
        reveal_strlit("     🦀");
        assert forall|i: int| 0 <= i < 10 implies frame_shows((#[trigger] v@[i])@, "🦀"@) by {
            if i == 0 {
                assert(v@[0]@.subrange(0, 1) =~= "🦀"@);
                lemma_frame_shows(v@[0]@, "🦀"@, 0);
            } else if i == 1 {
                assert(v@[1]@.subrange(1, 2) =~= "🦀"@);
                lemma_frame_shows(v@[1]@, "🦀"@, 1);
            } else if i == 2 {
                assert(v@[2]@.subrange(2, 3) =~= "🦀"@);
                lemma_frame_shows(v@[2]@, "🦀"@, 2);
            } else if i == 3 {
                assert(v@[3]@.subrange(3, 4) =~= "🦀"@);
                lemma_frame_shows(v@[3]@, "🦀"@, 3);
            } else if i == 4 {
                assert(v@[4]@.subrange(4, 5) =~= "🦀"@);
                lemma_frame_shows(v@[4]@, "🦀"@, 4);
            } else if i == 5 {
                assert(v@[5]@.subrange(5, 6) =~= "🦀"@);
                lemma_frame_shows(v@[5]@, "🦀"@, 5);
            } else if i == 6 {
                assert(v@[6]@.subrange(4, 5) =~= "🦀"@);
                lemma_frame_shows(v@[6]@, "🦀"@, 4);
            } else if i == 7 {
                assert(v@[7]@.subrange(3, 4) =~= "🦀"@);
                lemma_frame_shows(v@[7]@, "🦀"@, 3);
            } else if i == 8 {
                assert(v@[8]@.subrange(2, 3) =~= "🦀"@);
                lemma_frame_shows(v@[8]@, "🦀"@, 2);
            } else if i == 9 {
                assert(v@[9]@.subrange(1, 2) =~= "🦀"@);
                lemma_frame_shows(v@[9]@, "🦀"@, 1);
            }
        }
    }
    v
}

/// The walking runtime-logo animation frames; every frame shows the crab
/// glyph and the runtime's name.
pub fn jetcrab_frames() -> (r: Vec<&'static str>)
    ensures
        r@.len() == 10,
        forall|i: int| 0 <= i < 10 ==> (#[trigger] r@[i])@.len() == 14,
        forall|i: int| 0 <= i < 10 ==> frame_shows((#[trigger] r@[i])@, "🦀"@),
        forall|i: int| 0 <= i < 10 ==> frame_shows((#[trigger] r@[i])@, "JetCrab"@),
{
    let mut v: Vec<&'static str> = Vec::new();
    v.push("🦀 JetCrab     ");
    v.push(" 🦀 JetCrab    ");
    v.push("  🦀 JetCrab   ");
    v.push("   🦀 JetCrab  ");
    v.push("    🦀 JetCrab ");
    v.push("     🦀 JetCrab");
    v.push("    🦀 JetCrab ");
    v.push("   🦀 JetCrab  ");
    v.push("  🦀 JetCrab   ");
    v.push(" 🦀 JetCrab    ");
    proof {
        reveal_strlit("🦀");
        reveal_strlit("JetCrab");
        reveal_strlit("🦀 JetCrab     ");
        reveal_strlit(" 🦀 JetCrab    ");
        reveal_strlit("  🦀 JetCrab   ");
        reveal_strlit("   🦀 JetCrab  ");
        reveal_strlit("    🦀 JetCrab ");
        reveal_strlit("     🦀 JetCrab");
        assert forall|i: int| 0 <= i < 10 implies frame_shows((#[trigger] v@[i])@, "🦀"@) by {
            if i == 0 {
                assert(v@[0]@.subrange(0, 1) =~= "🦀"@);
                lemma_frame_shows(v@[0]@, "🦀"@, 0);
            } else if i == 1 {
                assert(v@[1]@.subrange(1, 2) =~= "🦀"@);
                lemma_frame_shows(v@[1]@, "🦀"@, 1);
            } else if i == 2 {
                assert(v@[2]@.subrange(2, 3) =~= "🦀"@);
                lemma_frame_shows(v@[2]@, "🦀"@, 2);
            } else if i == 3 {
                assert(v@[3]@.subrange(3, 4) =~= "🦀"@);
                lemma_frame_shows(v@[3]@, "🦀"@, 3);
            } else if i == 4 {
                assert(v@[4]@.subrange(4, 5) =~= "🦀"@);
                lemma_frame_shows(v@[4]@, "🦀"@, 4);
            } else if i == 5 {
                assert(v@[5]@.subrange(5, 6) =~= "🦀"@);
                lemma_frame_shows(v@[5]@, "🦀"@, 5);
            } else if i == 6 {
                assert(v@[6]@.subrange(4, 5) =~= "🦀"@);
                lemma_frame_shows(v@[6]@, "🦀"@, 4);
            } else if i == 7 {
                assert(v@[7]@.subrange(3, 4) =~= "🦀"@);
                lemma_frame_shows(v@[7]@, "🦀"@, 3);
            } else if i == 8 {
                assert(v@[8]@.subrange(2, 3) =~= "🦀"@);
                lemma_frame_shows(v@[8]@, "🦀"@, 2);
            } else if i == 9 {
                assert(v@[9]@.subrange(1, 2) =~= "🦀"@);
                lemma_frame_shows(v@[9]@, "🦀"@, 1);
            }
        }
        assert forall|i: int| 0 <= i < 10 implies frame_shows((#[trigger] v@[i])@, "JetCrab"@) by {
            if i == 0 {
                assert(v@[0]@.subrange(2, 9) =~= "JetCrab"@);
                lemma_frame_shows(v@[0]@, "JetCrab"@, 2);
            } else if i == 1 {
                assert(v@[1]@.subrange(3, 10) =~= "JetCrab"@);
                lemma_frame_shows(v@[1]@, "JetCrab"@, 3);
            } else if i == 2 {
                assert(v@[2]@.subrange(4, 11) =~= "JetCrab"@);
                lemma_frame_shows(v@[2]@, "JetCrab"@, 4);
            } else if i == 3 {
                assert(v@[3]@.subrange(5, 12) =~= "JetCrab"@);
                lemma_frame_shows(v@[3]@, "JetCrab"@, 5);
            } else if i == 4 {
                assert(v@[4]@.subrange(6, 13) =~= "JetCrab"@);
                lemma_frame_shows(v@[4]@, "JetCrab"@, 6);
            } else if i == 5 {
                assert(v@[5]@.subrange(7, 14) =~= "JetCrab"@);
                lemma_frame_shows(v@[5]@, "JetCrab"@, 7);
            } else if i == 6 {
                assert(v@[6]@.subrange(6, 13) =~= "JetCrab"@);
                lemma_frame_shows(v@[6]@, "JetCrab"@, 6);
            } else if i == 7 {
                assert(v@[7]@.subrange(5, 12) =~= "JetCrab"@);
                lemma_frame_shows(v@[7]@, "JetCrab"@, 5);
            } else if i == 8 {
                assert(v@[8]@.subrange(4, 11) =~= "JetCrab"@);
                lemma_frame_shows(v@[8]@, "JetCrab"@, 4);
            } else if i == 9 {
                assert(v@[9]@.subrange(3, 10) =~= "JetCrab"@);
                lemma_frame_shows(v@[9]@, "JetCrab"@, 3);
            }
        }
    }
    v
}

/// The walking tool-logo animation frames; every frame shows the crab
/// glyph and the tool's name.
pub fn claw_frames() -> (r: Vec<&'static str>)
    ensures
        r@.len() == 10,
        forall|i: int| 0 <= i < 10 ==> (#[trigger] r@[i])@.len() == 11,
        forall|i: int| 0 <= i < 10 ==> frame_shows((#[trigger] r@[i])@, "🦀"@),
        forall|i: int| 0 <= i < 10 ==> frame_shows((#[trigger] r@[i])@, "Claw"@),
{
    let mut v: Vec<&'static str> = Vec::new();
    v.push("🦀 Claw     ");
    v.push(" 🦀 Claw    ");
    v.push("  🦀 Claw   ");
    v.push("   🦀 Claw  ");
    v.push("    🦀 Claw ");
    v.push("     🦀 Claw");
    v.push("    🦀 Claw ");
    v.push("   🦀 Claw  ");
    v.push("  🦀 Claw   ");
    v.push(" 🦀 Claw    ");
    proof {
        reveal_strlit("🦀");
        reveal_strlit("Claw");
        reveal_strlit("🦀 Claw     ");
        reveal_strlit(" 🦀 Claw    ");
        reveal_strlit("  🦀 Claw   ");
        reveal_strlit("   🦀 Claw  ");
        reveal_strlit("    🦀 Claw ");
        reveal_strlit("     🦀 Claw");
        assert forall|i: int| 0 <= i < 10 implies frame_shows((#[trigger] v@[i])@, "🦀"@) by {
            if i == 0 {
                assert(v@[0]@.subrange(0, 1) =~= "🦀"@);
                lemma_frame_shows(v@[0]@, "🦀"@, 0);
            } else if i == 1 {
                assert(v@[1]@.subrange(1, 2) =~= "🦀"@);
                lemma_frame_shows(v@[1]@, "🦀"@, 1);
            } else if i == 2 {
                assert(v@[2]@.subrange(2, 3) =~= "🦀"@);
                lemma_frame_shows(v@[2]@, "🦀"@, 2);
            } else if i == 3 {
                assert(v@[3]@.subrange(3, 4) =~= "🦀"@);
                lemma_frame_shows(v@[3]@, "🦀"@, 3);
            } else if i == 4 {
                assert(v@[4]@.subrange(4, 5) =~= "🦀"@);
                lemma_frame_shows(v@[4]@, "🦀"@, 4);
            } else if i == 5 {
                assert(v@[5]@.subrange(5, 6) =~= "🦀"@);
                lemma_frame_shows(v@[5]@, "🦀"@, 5);
            } else if i == 6 {
                assert(v@[6]@.subrange(4, 5) =~= "🦀"@);
                lemma_frame_shows(v@[6]@, "🦀"@, 4);
            } else if i == 7 {
                assert(v@[7]@.subrange(3, 4) =~= "🦀"@);
                lemma_frame_shows(v@[7]@, "🦀"@, 3);
            } else if i == 8 {
                assert(v@[8]@.subrange(2, 3) =~= "🦀"@);
                lemma_frame_shows(v@[8]@, "🦀"@, 2);
            } else if i == 9 {
                assert(v@[9]@.subrange(1, 2) =~= "🦀"@);
                lemma_frame_shows(v@[9]@, "🦀"@, 1);
            }
        }
        assert forall|i: int| 0 <= i < 10 implies frame_shows((#[trigger] v@[i])@, "Claw"@) by {
            if i == 0 {
                assert(v@[0]@.subrange(2, 6) =~= "Claw"@);
                lemma_frame_shows(v@[0]@, "Claw"@, 2);
            } else if i == 1 {
                assert(v@[1]@.subrange(3, 7) =~= "Claw"@);
                lemma_frame_shows(v@[1]@, "Claw"@, 3);
            } else if i == 2 {
                assert(v@[2]@.subrange(4, 8) =~= "Claw"@);
                lemma_frame_shows(v@[2]@, "Claw"@, 4);
            } else if i == 3 {
                assert(v@[3]@.subrange(5, 9) =~= "Claw"@);
                lemma_frame_shows(v@[3]@, "Claw"@, 5);
            } else if i == 4 {
                assert(v@[4]@.subrange(6, 10) =~= "Claw"@);
                lemma_frame_shows(v@[4]@, "Claw"@, 6);
            } else if i == 5 {
                assert(v@[5]@.subrange(7, 11) =~= "Claw"@);
                lemma_frame_shows(v@[5]@, "Claw"@, 7);
            } else if i == 6 {
                assert(v@[6]@.subrange(6, 10) =~= "Claw"@);
                lemma_frame_shows(v@[6]@, "Claw"@, 6);
            } else if i == 7 {
                assert(v@[7]@.subrange(5, 9) =~= "Claw"@);
                lemma_frame_shows(v@[7]@, "Claw"@, 5);
            } else if i == 8 {
                assert(v@[8]@.subrange(4, 8) =~= "Claw"@);
                lemma_frame_shows(v@[8]@, "Claw"@, 4);
            } else if i == 9 {
                assert(v@[9]@.subrange(3, 7) =~= "Claw"@);
                lemma_frame_shows(v@[9]@, "Claw"@, 3);
            }
        }
    }
    v
}

/// Relies on `std::time::SystemTime::now` and
/// `std::time::SystemTime::duration_since`: the wall clock, read as whole
/// seconds since the Unix epoch; nothing can be promised of its value, and
/// a clock set before the epoch reads as absence.
#[verifier::external_body]
fn unix_time_seconds() -> (r: Option<u64>)
{
    match std::time::SystemTime::now().duration_since(std::time::UNIX_EPOCH) {
        Ok(d) => Some(d.as_secs()),
        Err(_) => None,
    }
}

/// The eight little-endian bytes of a timestamp, as fed to the hasher.
pub open spec fn spec_time_bytes(x: u64) -> Seq<u8> {
    Seq::new(8, |i: int| ((x >> ((8 * i) as u64)) & 0xff) as u8)
}

/// The trigger decision for a given timestamp: the timestamp's hash lands
/// in a fixed one-in-ten residue class.
pub fn trigger_for_time(now: u64) -> (r: bool)
    ensures
        r == (DefaultHasher::spec_finish(seq![spec_time_bytes(now)]) % 10 == 0),
{
    let mut bytes: Vec<u8> = Vec::new();
    let mut k: usize = 0;
    while k < 8
        invariant
            k <= 8,
            bytes@ =~= spec_time_bytes(now).take(k as int),
        decreases 8 - k,
    {
        let b: u8 = ((now >> (8 * (k as u64))) & 0xff) as u8;
        bytes.push(b);
        proof {
            assert(spec_time_bytes(now)[k as int] == b);
            assert(bytes@ =~= spec_time_bytes(now).take(k + 1));
        }
        k += 1;
    }
    proof {
        assert(spec_time_bytes(now).take(8) =~= spec_time_bytes(now));
    }
    let mut hasher = DefaultHasher::new();
    hasher.write(bytes.as_slice());
    let h = hasher.finish();
    proof {
        assert(hasher@ =~= seq![spec_time_bytes(now)]);
    }
    h % 10 == 0
}

/// Whether this run shows the easter egg: roughly one run in ten, decided
/// by hashing the current time.  A clock reading before the epoch never
/// triggers it.
pub fn should_trigger_easter_egg() -> bool {
    match unix_time_seconds() {
        Some(now) => trigger_for_time(now),
        None => false,
    }
}

/// Whether a typed command word triggers the easter egg: exactly the four
/// magic words do.
pub fn should_trigger_easter_egg_for_command(command: &str) -> (r: bool)
    ensures
        r == (command@ == "crab"@ || command@ == "walk"@ || command@ == "dance"@ || command@
            == "party"@),
{
    str_eq(command, "crab") || str_eq(command, "walk") || str_eq(command, "dance") || str_eq(
        command,
        "party",
    )
}

} // verus!
