//! Wave XLR: the 34-byte state blob that the device's vendor control
//! interface (USB interface 3) reads and writes, and what the blob says.
//!
//! Known state-blob fields:
//!
//! | offset | field        | notes                                       |
//! |-------:|--------------|---------------------------------------------|
//! | 0–1    | `mic_gain`   | little-endian u16, 14 bits used             |
//! | 3      | `header_tag` | always `0xEC`                               |
//! | 4      | `mute_flag`  | `0`/`1`; the tag button folds into this byte |
//! | 9      | `knob_fine`  | sub-detent encoder                          |
//! | 10     | `knob_delta` | signed detent counter                       |
//! | 16–24  | `led[3]`     | three RGB zones                             |
//!
//! Every write starts from the most recent blob read from the device,
//! so bytes whose meaning is not decoded are preserved verbatim: each
//! operation here changes exactly the bytes of its field.

use vstd::prelude::*;

use crate::device::opt_view;
use crate::device_model::Rgb;
use crate::text::{
    chars_of, contains, contains_chars, lines, parse_u32, parse_u32_chars, split_lines,
    split_words, string_from_chars, views, words,
};

verus! {

/// Wave XLR USB Product ID on Elgato's VID `0x0FD9`.
pub const WAVE_XLR_PID: u16 = 0x007D;

/// Vendor-specific control interface ("Elgato Wave XLR Controls").
pub const CONTROL_INTERFACE: u8 = 3;
/// `bmRequestType = IN | Class | Interface`.
pub const BM_REQUEST_TYPE_GET: u8 = 0xA1;
/// `bmRequestType = OUT | Class | Interface`.
pub const BM_REQUEST_TYPE_SET: u8 = 0x21;
pub const B_REQUEST_GET_MEM: u8 = 0x85;
pub const B_REQUEST_SET_MEM: u8 = 0x05;
pub const W_VALUE: u16 = 0x0000;
/// `(entity_id=0x33 << 8) | interface_number=0x03`.
pub const W_INDEX: u16 = 0x3303;

/// Length in bytes of the Wave XLR state blob.
pub const STATE_BLOB_LEN: usize = 34;

pub const OFFSET_MIC_GAIN_LO: usize = 0;
pub const OFFSET_MIC_GAIN_HI: usize = 1;
pub const OFFSET_HEADER_TAG: usize = 3;
pub const HEADER_TAG_VALUE: u8 = 0xEC;
pub const OFFSET_MUTE_FLAG: usize = 4;
pub const OFFSET_KNOB_FINE: usize = 9;
pub const OFFSET_KNOB_DELTA: usize = 10;
pub const OFFSET_LED_ZONES: usize = 16;
pub const LED_ZONE_COUNT: usize = 3;
pub const LED_ZONE_BYTES: usize = 3;

/// Conservative 14-bit gain range.
pub const GAIN_FULL_SCALE: u16 = 0x3FFF;

/// What the blob reports: the mute flag and the raw gain, capped at
/// [`GAIN_FULL_SCALE`] (the gain as a fraction is this over the full
/// scale).
#[derive(Debug, Clone, Copy, PartialEq, Eq, Structural)]
pub struct BlobState {
    pub mic_muted: bool,
    pub mic_gain_raw: u16,
}

/// The mute flag of a blob.
pub open spec fn blob_muted(b: Seq<u8>) -> bool {
    b[4] != 0
}

/// The raw gain of a blob: its first two bytes, little-endian, capped
/// at the full scale.
pub open spec fn blob_gain_raw(b: Seq<u8>) -> int {
    let v = b[0] + 256 * b[1];
    if v <= 0x3FFF {
        v
    } else {
        0x3FFF
    }
}

/// The blob with the mute flag set to `muted`.
pub open spec fn blob_set_mute(b: Seq<u8>, muted: bool) -> Seq<u8> {
    b.update(4, if muted { 1u8 } else { 0u8 })
}

/// The blob with the gain field holding `raw`, little-endian.
pub open spec fn blob_set_gain(b: Seq<u8>, raw: u16) -> Seq<u8> {
    b.update(0, (raw % 256) as u8).update(1, (raw / 256) as u8)
}

/// The colour of LED zone `i`: the `i`-th given colour, or the last one
/// where fewer colours are given than zones.
pub open spec fn zone_color(zones: Seq<Rgb>, i: int) -> Rgb {
    if i < zones.len() {
        zones[i]
    } else {
        zones.last()
    }
}

/// The blob with the three LED zones holding the given colours, as
/// R, G, B bytes from offset 16.
pub open spec fn blob_set_leds(b: Seq<u8>, zones: Seq<Rgb>) -> Seq<u8> {
    Seq::new(
        b.len(),
        |k: int|
            if 16 <= k < 25 {
                let c = zone_color(zones, (k - 16) / 3);
                if (k - 16) % 3 == 0 {
                    c.r
                } else if (k - 16) % 3 == 1 {
                    c.g
                } else {
                    c.b
                }
            } else {
                b[k]
            },
    )
}

/// Reads the mute flag and the raw gain out of a state blob.
pub fn parse_state(blob: &[u8; STATE_BLOB_LEN]) -> (s: BlobState)
    ensures
        s.mic_muted == blob_muted(blob@),
        s.mic_gain_raw == blob_gain_raw(blob@),
{
    let lo = blob[OFFSET_MIC_GAIN_LO];
    let hi = blob[OFFSET_MIC_GAIN_HI];
    let gain = (lo as u16) + 256 * (hi as u16);
    BlobState {
        mic_muted: blob[OFFSET_MUTE_FLAG] != 0,
        mic_gain_raw: if gain <= GAIN_FULL_SCALE {
            gain
        } else {
            GAIN_FULL_SCALE
        },
    }
}

/// Whether the blob carries the expected header tag.
pub fn has_header_tag(blob: &[u8; STATE_BLOB_LEN]) -> (b: bool)
    ensures
        b == (blob@[3] == 0xEC),
{
    blob[OFFSET_HEADER_TAG] == HEADER_TAG_VALUE
}

/// Why a state transfer was refused.
#[derive(Debug, Clone, Copy, PartialEq, Eq, Structural)]
pub enum BlobTransferError {
    /// The transfer moved this many bytes, not the whole blob.
    Short(usize),
    /// The blob read back does not carry the header tag; this byte
    /// stands in its place.
    BadHeaderTag(u8),
}

/// Checks a `GET_MEM` read of `n` bytes into `blob`: the whole blob must
/// have arrived, and it must carry the header tag.
pub fn check_state_read(n: usize, blob: &[u8; STATE_BLOB_LEN]) -> (r: Result<[u8; STATE_BLOB_LEN], BlobTransferError>)
    ensures
        n != STATE_BLOB_LEN ==> r == Err::<[u8; STATE_BLOB_LEN], BlobTransferError>(
            BlobTransferError::Short(n),
        ),
        n == STATE_BLOB_LEN && blob@[3] != 0xEC ==> r == Err::<[u8; STATE_BLOB_LEN], BlobTransferError>(
            BlobTransferError::BadHeaderTag(blob@[3]),
        ),
        r is Ok <==> n == STATE_BLOB_LEN && blob@[3] == 0xEC,
        r matches Ok(b) ==> b@ == blob@,
{
    if n != STATE_BLOB_LEN {
        return Err(BlobTransferError::Short(n));
    }
    if !has_header_tag(blob) {
        return Err(BlobTransferError::BadHeaderTag(blob[OFFSET_HEADER_TAG]));
    }
    Ok(*blob)
}

/// Checks a `SET_MEM` write of `n` bytes: the whole blob must have
/// gone out.
pub fn check_state_write(n: usize) -> (r: Result<(), BlobTransferError>)
    ensures
        r == if n == STATE_BLOB_LEN {
            Ok::<(), BlobTransferError>(())
        } else {
            Err(BlobTransferError::Short(n))
        },
{
    if n != STATE_BLOB_LEN {
        return Err(BlobTransferError::Short(n));
    }
    Ok(())
}

/// The blob to write to set the microphone mute state.
pub fn with_mute(blob: &[u8; STATE_BLOB_LEN], muted: bool) -> (r: [u8; STATE_BLOB_LEN])
    ensures
        r@ == blob_set_mute(blob@, muted),
{
    let mut r = *blob;
    r[OFFSET_MUTE_FLAG] = if muted {
        1
    } else {
        0
    };
    assert(r@ =~= blob_set_mute(blob@, muted));
    r
}

/// The blob to write to set the raw microphone gain.
pub fn with_gain(blob: &[u8; STATE_BLOB_LEN], raw: u16) -> (r: [u8; STATE_BLOB_LEN])
    ensures
        r@ == blob_set_gain(blob@, raw),
{
    let mut r = *blob;
    r[OFFSET_MIC_GAIN_LO] = (raw % 256) as u8;
    r[OFFSET_MIC_GAIN_HI] = (raw / 256) as u8;
    assert(r@ =~= blob_set_gain(blob@, raw));
    r
}

/// The blob to write to set the LED zones, or `None` when no colour is
/// given (nothing is written then).
pub fn with_leds(blob: &[u8; STATE_BLOB_LEN], zones: &[Rgb]) -> (r: Option<[u8; STATE_BLOB_LEN]>)
    ensures
        zones@.len() == 0 ==> r is None,
        zones@.len() > 0 ==> (r matches Some(nb) && nb@ == blob_set_leds(blob@, zones@)),
{
    if zones.len() == 0 {
        return None;
    }
    let fallback = zones[zones.len() - 1];
    let mut r = *blob;
    let mut i: usize = 0;
    while i < LED_ZONE_COUNT
        invariant
            zones@.len() > 0,
            fallback == zones@.last(),
            i <= 3,
            r@.len() == 34,
            forall|k: int|
                0 <= k < 34 ==> #[trigger] r@[k] == if 16 <= k < 16 + 3 * i {
                    blob_set_leds(blob@, zones@)[k]
                } else {
                    blob@[k]
                },
        decreases 3 - i,
    {
        let color = if i < zones.len() {
            zones[i]
        } else {
            fallback
        };
        let off = OFFSET_LED_ZONES + i * LED_ZONE_BYTES;
        // Byte order unconfirmed; RGB is the placeholder.
        r[off] = color.r;
        r[off + 1] = color.g;
        r[off + 2] = color.b;
        assert(color == zone_color(zones@, i as int));
        i = i + 1;
    }
    assert(r@ =~= blob_set_leds(blob@, zones@));
    Some(r)
}

/// Setting the mute flag is read back as that flag, and leaves the gain
/// as it was.
pub proof fn lemma_mute_read_back(b: Seq<u8>, muted: bool)
    requires
        b.len() == 34,
    ensures
        blob_muted(blob_set_mute(b, muted)) == muted,
        blob_gain_raw(blob_set_mute(b, muted)) == blob_gain_raw(b),
{
}

/// Setting the gain is read back as that gain (capped at the full
/// scale), and leaves the mute flag as it was.
pub proof fn lemma_gain_read_back(b: Seq<u8>, raw: u16)
    requires
        b.len() == 34,
    ensures
        blob_gain_raw(blob_set_gain(b, raw)) == if raw <= 0x3FFF {
            raw as int
        } else {
            0x3FFF
        },
        blob_muted(blob_set_gain(b, raw)) == blob_muted(b),
{
}

/// Setting the LED zones changes neither the mute flag nor the gain.
pub proof fn lemma_leds_keep_state(b: Seq<u8>, zones: Seq<Rgb>)
    requires
        b.len() == 34,
        zones.len() > 0,
    ensures
        blob_muted(blob_set_leds(b, zones)) == blob_muted(b),
        blob_gain_raw(blob_set_leds(b, zones)) == blob_gain_raw(b),
{
}

/// The ALSA card of a Wave XLR that a line of the card list names: the
/// line mentions `Wave XLR` or `Wave_XLR` and starts with a card
/// number, which is the card (`amixer -c` takes the bare number).
pub open spec fn xlr_card_of_line(line: Seq<char>) -> Option<Seq<char>> {
    if (contains(line, "Wave XLR"@) || contains(line, "Wave_XLR"@)) && words(line).len() > 0
        && parse_u32(words(line)[0]) is Some {
        Some(words(line)[0])
    } else {
        None
    }
}

/// The first Wave XLR card that the lines name.
pub open spec fn scan_xlr_card(ls: Seq<Seq<char>>) -> Option<Seq<char>>
    decreases ls.len(),
{
    if ls.len() == 0 {
        None
    } else {
        match xlr_card_of_line(ls[0]) {
            Some(c) => Some(c),
            None => scan_xlr_card(ls.drop_first()),
        }
    }
}

/// The Wave XLR ALSA card that a card list names.
pub open spec fn spec_xlr_card(cards: Seq<char>) -> Option<Seq<char>> {
    scan_xlr_card(lines(cards))
}

/// Detection result for a connected Wave XLR.
pub struct WaveXlrDevice {
    serial: String,
    /// ALSA card number from `/proc/asound/cards`, used for the
    /// headphone volume; `None` while the card is not registered yet.
    alsa_card: Option<String>,
}

impl WaveXlrDevice {
    pub closed spec fn spec_serial(&self) -> Seq<char> {
        self.serial@
    }

    pub closed spec fn spec_alsa_card(&self) -> Option<Seq<char>> {
        opt_view(self.alsa_card)
    }

    /// Detects a Wave XLR from what the system reports.
    ///
    /// `usb` is the outcome of enumerating the USB bus: its error when
    /// the enumeration failed, else `Some` when a Wave XLR is on the
    /// bus, holding the serial it reported if that could be read.
    /// `asound_cards` is the content of `/proc/asound/cards` if it
    /// could be read. An enumeration failure is returned as is; no
    /// device on the bus gives `Ok(None)`.
    pub fn detect<E>(usb: Result<Option<Option<String>>, E>, asound_cards: Option<String>) -> (r:
        Result<Option<Self>, E>)
        ensures
            match usb {
                Err(e) => r == Err::<Option<Self>, E>(e),
                Ok(None) => r matches Ok(None),
                Ok(Some(serial)) => r matches Ok(Some(d)) && d.spec_serial() == (match serial {
                    Some(s) => s@,
                    None => "unknown"@,
                }) && d.spec_alsa_card() == (match asound_cards {
                    Some(t) => spec_xlr_card(t@),
                    None => None,
                }),
            },
    {
        match usb {
            Err(e) => Err(e),
            Ok(Some(serial)) => {
                let serial = match serial {
                    Some(s) => s,
                    None => String::from_str("unknown"),
                };
                let alsa_card = match asound_cards {
                    Some(t) => Self::find_alsa_card(t.as_str()),
                    None => None,
                };
                Ok(Some(WaveXlrDevice { serial, alsa_card }))
            },
            Ok(None) => Ok(None),
        }
    }

    /// The Wave XLR ALSA card number that a card list names.
    pub fn find_alsa_card(cards: &str) -> (r: Option<String>)
        ensures
            opt_view(r) == spec_xlr_card(cards@),
    {
        let text = chars_of(cards);
        let ls = split_lines(&text);
        let k1 = chars_of("Wave XLR");
        let k2 = chars_of("Wave_XLR");
        let ghost all = views(ls@);
        let mut i: usize = 0;
        assert(all.skip(0) =~= all);
        while i < ls.len()
            invariant
                all == views(ls@),
                all == lines(cards@),
                i <= ls.len(),
                k1@ == "Wave XLR"@,
                k2@ == "Wave_XLR"@,
                scan_xlr_card(all) == scan_xlr_card(all.skip(i as int)),
            decreases ls.len() - i,
        {
            assert(all.skip(i as int).drop_first() =~= all.skip(i + 1));
            assert(all.skip(i as int)[0] == ls@[i as int]@);
            let line = &ls[i];
            if contains_chars(line, &k1) || contains_chars(line, &k2) {
                let ws = split_words(line);
                if ws.len() > 0 {
                    assert(views(ws@)[0] == ws@[0]@);
                    if parse_u32_chars(&ws[0]).is_some() {
                        return Some(string_from_chars(&ws[0]));
                    }
                }
            }
            i = i + 1;
        }
        None
    }

    pub fn serial(&self) -> (r: &str)
        ensures
            r@ == self.spec_serial(),
    {
        self.serial.as_str()
    }

    pub fn alsa_card(&self) -> (r: Option<&str>)
        ensures
            match r {
                Some(c) => self.spec_alsa_card() == Some(c@),
                None => self.spec_alsa_card() is None,
            },
    {
        match &self.alsa_card {
            Some(c) => Some(c.as_str()),
            None => None,
        }
    }
}

/// The Wave XLR card found in a list of lines is the first word of a
/// line that mentions "Wave XLR" or "Wave_XLR", and that word is a card
/// number; no line mentioning either gives no card.
pub proof fn lemma_xlr_card_from_xlr_line(ls: Seq<Seq<char>>)
    ensures
        scan_xlr_card(ls) matches Some(card) ==> exists|i: int|
            0 <= i < ls.len() && (contains(#[trigger] ls[i], "Wave XLR"@) || contains(
                ls[i],
                "Wave_XLR"@,
            )) && words(ls[i]).len() > 0 && card == words(ls[i])[0] && parse_u32(card) is Some,
        (forall|i: int|
            0 <= i < ls.len() ==> !contains(#[trigger] ls[i], "Wave XLR"@) && !contains(
                ls[i],
                "Wave_XLR"@,
            )) ==> scan_xlr_card(ls) is None,
    decreases ls.len(),
{
    if ls.len() > 0 {
        let rest = ls.drop_first();
        lemma_xlr_card_from_xlr_line(rest);
        assert forall|i: int| 0 <= i < rest.len() implies #[trigger] rest[i] == ls[i + 1] by {}
        match xlr_card_of_line(ls[0]) {
            Some(c) => {
                assert(contains(ls[0], "Wave XLR"@) || contains(ls[0], "Wave_XLR"@));
            },
            None => {
                if scan_xlr_card(rest) is Some {
                    let card = scan_xlr_card(rest)->Some_0;
                    let i = choose|i: int|
                        0 <= i < rest.len() && (contains(#[trigger] rest[i], "Wave XLR"@) || contains(
                            rest[i],
                            "Wave_XLR"@,
                        )) && words(rest[i]).len() > 0 && card == words(rest[i])[0] && parse_u32(
                            card,
                        ) is Some;
                    assert(ls[i + 1] == rest[i]);
                }
                if forall|i: int|
                    0 <= i < ls.len() ==> !contains(#[trigger] ls[i], "Wave XLR"@) && !contains(
                        ls[i],
                        "Wave_XLR"@,
                    ) {
                    assert forall|i: int| 0 <= i < rest.len() implies !contains(
                        #[trigger] rest[i],
                        "Wave XLR"@,
                    ) && !contains(rest[i], "Wave_XLR"@) by {
                        assert(rest[i] == ls[i + 1]);
                    }
                }
            },
        }
    }
}

} // verus!
