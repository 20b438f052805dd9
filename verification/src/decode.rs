//! Decoding one framed telegram into a `Reading`.
//!
//! The wire format — line framing, CRC16 checksum, field codes — is the
//! `dsmr5` crate's work. This module states only that the outcome is a
//! function of the frame's bytes alone and hands it to the verified logic
//! as plain values.
//!
//! The parser is not total: on a frame holding a non-ASCII byte its string
//! slicing can split a character, and on a sub-device meter-reading line
//! whose measurement's decimal point sits far into its group its
//! fixed-point arithmetic underflows — either would end the process
//! instead of the connection. A verified pre-filter, `frame_is_tame`,
//! admits only frames outside both failure shapes; everything else is
//! rejected as `DecodeError::Malformed` before the parser runs, which is
//! the same recovery every other malformed frame gets.

use vstd::prelude::*;

use crate::reading::{DecodeError, Reading, SubDevice};
use dsmr5::state::State;
use dsmr5::Readout;

verus! {

/// The surmised metering state of one telegram, as the decoder builds it.
/// Opaque here: everything the logic needs is carried over into a
/// `Reading` as plain values.
#[verifier::external_type_specification]
#[verifier::external_body]
pub struct ExState(State);

/// The `Reading` (or failure) that decoding one 2048-byte telegram frame
/// yields: a function of the frame's bytes alone. Its exact value is the
/// wire format's business and is not restated here.
pub uninterp spec fn telegram_reading(frame: Seq<u8>) -> Result<Reading, DecodeError>;

/// The first index at or after `from` where `s` holds byte `b`, or
/// `s.len()` if there is none.
pub open spec fn find_from(s: Seq<u8>, from: int, b: u8) -> int
    decreases s.len() - from,
{
    if from < 0 || from >= s.len() {
        s.len() as int
    } else if s[from] == b {
        from
    } else {
        find_from(s, from + 1, b)
    }
}

/// Every byte of the frame is plain ASCII, so every byte index falls on a
/// character boundary of the parser's string view.
pub open spec fn frame_ascii(frame: Seq<u8>) -> bool {
    forall|i: int| 0 <= i < frame.len() ==> frame[i] < 128
}

/// `i` starts a line: it is in range, is not itself a line feed, and
/// either begins the frame or follows a line feed.
pub open spec fn is_line_start(frame: Seq<u8>, i: int) -> bool {
    0 <= i < frame.len() && frame[i] != 10 && (i == 0 || frame[i - 1] == 10)
}

/// The line starting at `i` opens like a sub-device meter-reading record:
/// `0-`, a channel byte, any byte, then `24.2.1` and its first parenthesis
/// at the fixed offset — the one line shape on which the parser derives a
/// decimal-point position.
pub open spec fn slave_reading_head_at(frame: Seq<u8>, i: int) -> bool {
    &&& find_from(frame, i, 10) - i >= 11
    &&& frame[i] == 48  // '0'
    &&& frame[i + 1] == 45  // '-'
    &&& frame[i + 4] == 50  // '2'
    &&& frame[i + 5] == 52  // '4'
    &&& frame[i + 6] == 46  // '.'
    &&& frame[i + 7] == 50  // '2'
    &&& frame[i + 8] == 46  // '.'
    &&& frame[i + 9] == 49  // '1'
    &&& frame[i + 10] == 40  // '('
}

/// In such a record's measurement — the group opened by the next
/// parenthesis after the timestamp group — the first decimal point sits
/// within nine bytes of that parenthesis, if the line holds either at
/// all. The parser subtracts the point's offset from nine; further out,
/// that underflows.
pub open spec fn slave_reading_dot_ok_at(frame: Seq<u8>, i: int) -> bool {
    let line_end = find_from(frame, i, 10);
    let group = find_from(frame, i + 11, 40);
    let dot = find_from(frame, group, 46);
    group >= line_end || dot >= line_end || dot <= group + 9
}

/// The line starting at `i` is safe to hand to the telegram parser.
pub open spec fn line_tame_at(frame: Seq<u8>, i: int) -> bool {
    slave_reading_head_at(frame, i) ==> slave_reading_dot_ok_at(frame, i)
}

/// Every line of the frame is safe to hand to the telegram parser.
pub open spec fn frame_lines_tame(frame: Seq<u8>) -> bool {
    forall|i: int| #[trigger] is_line_start(frame, i) ==> line_tame_at(frame, i)
}

/// The frames on which the embedded parser is known to return instead of
/// failing: ASCII throughout, and every sub-device meter-reading line
/// well-shaped. Real telegrams satisfy both.
pub open spec fn spec_frame_tame(frame: Seq<u8>) -> bool {
    frame_ascii(frame) && frame_lines_tame(frame)
}

proof fn lemma_find_from_ge(s: Seq<u8>, from: int, b: u8)
    requires
        0 <= from <= s.len(),
    ensures
        find_from(s, from, b) >= from,
    decreases s.len() - from,
{
    if from < s.len() && s[from] != b {
        lemma_find_from_ge(s, from + 1, b);
    }
}

proof fn lemma_find_from_exact(s: Seq<u8>, from: int, b: u8, r: int)
    requires
        0 <= from <= r <= s.len(),
        forall|m: int| from <= m < r ==> s[m] != b,
        r < s.len() ==> s[r] == b,
    ensures
        find_from(s, from, b) == r,
    decreases r - from,
{
    if from < r {
        assert(s[from] != b);
        lemma_find_from_exact(s, from + 1, b, r);
    }
}

proof fn lemma_find_from_skips(s: Seq<u8>, from: int, b: u8, bound: int)
    requires
        0 <= from <= s.len(),
        bound <= s.len(),
        forall|m: int| from <= m < bound ==> s[m] != b,
    ensures
        find_from(s, from, b) >= bound,
    decreases bound - from,
{
    if from < bound {
        assert(s[from] != b);
        lemma_find_from_skips(s, from + 1, b, bound);
    } else {
        lemma_find_from_ge(s, from, b);
    }
}

/// Whether the line running from `start` to `end` (its line feed, or the
/// frame's end) is safe for the parser.
fn line_is_tame(frame: &[u8; 2048], start: usize, end: usize) -> (r: bool)
    requires
        start < end <= 2048,
        find_from(frame@, start as int, 10) == end as int,
    ensures
        r == line_tame_at(frame@, start as int),
{
    if end - start < 11 {
        return true;
    }
    let head = frame[start] == 48 && frame[start + 1] == 45 && frame[start + 4] == 50
        && frame[start + 5] == 52 && frame[start + 6] == 46 && frame[start + 7] == 50
        && frame[start + 8] == 46 && frame[start + 9] == 49 && frame[start + 10] == 40;
    if !head {
        return true;
    }
    let mut group: usize = start + 11;
    while group < end && frame[group] != 40
        invariant
            start + 11 <= group <= end,
            end <= 2048,
            frame@.len() == 2048,
            forall|m: int| start + 11 <= m < group ==> frame@[m] != 40,
        decreases end - group,
    {
        group = group + 1;
    }
    if group == end {
        proof {
            lemma_find_from_skips(frame@, start as int + 11, 40, end as int);
        }
        return true;
    }
    proof {
        lemma_find_from_exact(frame@, start as int + 11, 40, group as int);
    }
    let mut dot: usize = group;
    while dot < end && frame[dot] != 46
        invariant
            group <= dot <= end,
            end <= 2048,
            frame@.len() == 2048,
            forall|m: int| group <= m < dot ==> frame@[m] != 46,
        decreases end - dot,
    {
        dot = dot + 1;
    }
    if dot == end {
        proof {
            lemma_find_from_skips(frame@, group as int, 46, end as int);
        }
        return true;
    }
    proof {
        lemma_find_from_exact(frame@, group as int, 46, dot as int);
    }
    dot <= group + 9
}

/// Whether the embedded parser is known to handle this frame without
/// failing: every byte ASCII, every sub-device meter-reading line
/// well-shaped. `decode_frame` rejects everything else outright.
pub fn frame_is_tame(frame: &[u8; 2048]) -> (r: bool)
    ensures
        r == spec_frame_tame(frame@),
{
    let mut i: usize = 0;
    while i < 2048
        invariant
            i <= 2048,
            frame@.len() == 2048,
            forall|j: int| 0 <= j < i ==> frame@[j] < 128,
        decreases 2048 - i,
    {
        if frame[i] >= 128 {
            proof {
                assert(frame@[i as int] >= 128);
                assert(!frame_ascii(frame@));
            }
            return false;
        }
        i = i + 1;
    }
    assert(frame_ascii(frame@));
    let mut i: usize = 0;
    while i < 2048
        invariant
            i <= 2048,
            frame@.len() == 2048,
            frame_ascii(frame@),
            i == 0 || i == 2048 || frame@[i - 1] == 10,
            forall|k: int| #[trigger] is_line_start(frame@, k) && k < i ==> line_tame_at(
                frame@,
                k,
            ),
        decreases 2048 - i,
    {
        if frame[i] == 10 {
            i = i + 1;
        } else {
            let start: usize = i;
            let mut line_end: usize = i;
            while line_end < 2048 && frame[line_end] != 10
                invariant
                    start <= line_end <= 2048,
                    frame@.len() == 2048,
                    forall|m: int| start <= m < line_end ==> frame@[m] != 10,
                decreases 2048 - line_end,
            {
                line_end = line_end + 1;
            }
            proof {
                lemma_find_from_exact(frame@, start as int, 10, line_end as int);
                assert(line_end > start);
            }
            if !line_is_tame(frame, start, line_end) {
                proof {
                    assert(is_line_start(frame@, start as int));
                    assert(!frame_lines_tame(frame@));
                }
                return false;
            }
            proof {
                assert forall|k: int|
                    #[trigger] is_line_start(frame@, k) && k < line_end + 1 implies line_tame_at(
                    frame@,
                    k,
                ) by {
                    if (start as int) < k && k <= line_end as int {
                        assert(frame@[k - 1] != 10);
                        assert(!is_line_start(frame@, k));
                    }
                }
            }
            if line_end == 2048 {
                i = 2048;
            } else {
                i = line_end + 1;
            }
        }
    }
    proof {
        assert(frame_lines_tame(frame@));
    }
    true
}

/// Carry the decoder's state over into a `Reading`, field for field:
/// meter values become their IEEE-754 bit patterns, the four sub-device
/// slots are handed out in order. Trusted conversion of an opaque outside
/// value; it decides nothing.
#[verifier::external_body]
fn reading_of_state(s: State) -> Reading {
    Reading {
        power_delivered: s.power_delivered.map(|v| v.to_bits()),
        power_received: s.power_received.map(|v| v.to_bits()),
        energy_delivered_low: s.meterreadings[0].to.map(|v| v.to_bits()),
        energy_delivered_high: s.meterreadings[1].to.map(|v| v.to_bits()),
        energy_received_low: s.meterreadings[0].by.map(|v| v.to_bits()),
        energy_received_high: s.meterreadings[1].by.map(|v| v.to_bits()),
        tariff_indicator: s.tariff_indicator,
        sub_devices: s.slaves.into_iter().map(
            |d| SubDevice {
                device_type: d.device_type,
                meter_reading: d.meter_reading.map(|m| m.1.to_bits()),
            },
        ).collect(),
    }
}

/// Relies on `dsmr5::Readout::to_telegram` (framing and CRC16 validation)
/// and on `dsmr5::state::State::try_from` (field interpretation): both are
/// pure parses of the buffer, so the outcome depends on the frame's bytes
/// alone. The `requires` admits only tame frames — ASCII throughout, so no
/// slice can split a character, and every sub-device meter-reading line
/// with its decimal point within nine bytes of its measurement group, so
/// the parser's `9 - offset` fixed-point arithmetic cannot underflow — the
/// shapes on which the parser is known to return a result.
#[verifier::external_body]
fn decode_frame_raw(frame: &[u8; 2048]) -> (r: Result<Reading, DecodeError>)
    requires
        spec_frame_tame(frame@),
    ensures
        r == telegram_reading(frame@),
{
    let readout = Readout { buffer: *frame };
    let t = readout.to_telegram().map_err(|_| DecodeError::Malformed)?;
    let s = State::try_from(&t).map_err(|_| DecodeError::Malformed)?;
    Ok(reading_of_state(s))
}

/// Decode one framed telegram. A malformed frame, a checksum mismatch, an
/// uninterpretable field — or a frame outside the tame shape the embedded
/// parser is known to handle — is reported as `DecodeError::Malformed`;
/// the caller must then abandon the connection the frame came from.
pub fn decode_frame(frame: &[u8; 2048]) -> (r: Result<Reading, DecodeError>)
    ensures
        spec_frame_tame(frame@) ==> r == telegram_reading(frame@),
        !spec_frame_tame(frame@) ==> r == Err::<Reading, DecodeError>(DecodeError::Malformed),
{
    if frame_is_tame(frame) {
        decode_frame_raw(frame)
    } else {
        Err(DecodeError::Malformed)
    }
}

} // verus!
