//! Wave:3 detection from what the system reports: whether a Wave:3 is
//! on the USB bus (and its serial), and the ALSA card list
//! (`/proc/asound/cards`).

use vstd::prelude::*;

use crate::text::{
    append_chars, chars_of, contains, contains_chars, decimal, decimal_chars, lines, parse_u32,
    parse_u32_chars, split_lines, split_words, string_from_chars, views, words,
};

verus! {

/// Wave:3 USB Product ID.
pub const WAVE3_PID: u16 = 0x0070;

/// The ALSA device of a Wave:3 that a line of the card list names: the
/// line mentions `Wave:3` or `Wave 3` and starts with a card number
/// `n`, giving `hw:n`.
pub open spec fn wave3_card_of_line(line: Seq<char>) -> Option<Seq<char>> {
    if (contains(line, "Wave:3"@) || contains(line, "Wave 3"@)) && words(line).len() > 0 {
        match parse_u32(words(line)[0]) {
            Some(n) => Some("hw:"@ + decimal(n as nat)),
            None => None,
        }
    } else {
        None
    }
}

/// The first Wave:3 card that the lines name.
pub open spec fn scan_wave3_card(ls: Seq<Seq<char>>) -> Option<Seq<char>>
    decreases ls.len(),
{
    if ls.len() == 0 {
        None
    } else {
        match wave3_card_of_line(ls[0]) {
            Some(c) => Some(c),
            None => scan_wave3_card(ls.drop_first()),
        }
    }
}

/// The Wave:3 ALSA device that a card list names.
pub open spec fn spec_wave3_card(cards: Seq<char>) -> Option<Seq<char>> {
    scan_wave3_card(lines(cards))
}

/// The string views of an optional string.
pub open spec fn opt_view(s: Option<String>) -> Option<Seq<char>> {
    match s {
        Some(x) => Some(x@),
        None => None,
    }
}

/// A detected Wave:3 device, before any control handle is attached.
pub struct Wave3Device {
    serial: String,
    alsa_card: Option<String>,
}

impl Wave3Device {
    pub closed spec fn spec_serial(&self) -> Seq<char> {
        self.serial@
    }

    pub closed spec fn spec_alsa_card(&self) -> Option<Seq<char>> {
        opt_view(self.alsa_card)
    }

    /// Detects a Wave:3 from what the system reports.
    ///
    /// `usb` is `Some` when a Wave:3 is on the USB bus, holding the
    /// serial it reported if that could be read; `asound_cards` is the
    /// content of `/proc/asound/cards`, or the error of reading it.
    /// A device on the bus is detected whatever the card list holds;
    /// otherwise the card list decides, and its read error is returned.
    pub fn detect<E>(usb: Option<Option<String>>, asound_cards: Result<String, E>) -> (r: Result<
        Option<Self>,
        E,
    >)
        ensures
            match usb {
                Some(serial) => r matches Ok(Some(d)) && d.spec_serial() == (match serial {
                    Some(s) => s@,
                    None => "unknown"@,
                }) && d.spec_alsa_card() == (match asound_cards {
                    Ok(t) => spec_wave3_card(t@),
                    Err(_) => None,
                }),
                None => match asound_cards {
                    Err(e) => r == Err::<Option<Self>, E>(e),
                    Ok(t) => match spec_wave3_card(t@) {
                        Some(c) => r matches Ok(Some(d)) && d.spec_serial() == "unknown"@
                            && d.spec_alsa_card() == Some(c),
                        None => r matches Ok(None),
                    },
                },
            },
    {
        match usb {
            Some(serial) => {
                let serial = match serial {
                    Some(s) => s,
                    None => String::from_str("unknown"),
                };
                let alsa_card = match asound_cards {
                    Ok(t) => Self::find_alsa_card(t.as_str()),
                    Err(_) => None,
                };
                Ok(Some(Wave3Device { serial, alsa_card }))
            },
            None => {
                let cards = match asound_cards {
                    Ok(t) => t,
                    Err(e) => {
                        return Err(e);
                    },
                };
                match Self::find_alsa_card(cards.as_str()) {
                    Some(card) => {
                        let serial = match Self::get_serial_from_alsa(card.as_str()) {
                            Some(s) => s,
                            None => String::from_str("unknown"),
                        };
                        Ok(Some(Wave3Device { serial, alsa_card: Some(card) }))
                    },
                    None => Ok(None),
                }
            },
        }
    }

    /// The Wave:3 ALSA device (`hw:N`) that a card list names.
    pub fn find_alsa_card(cards: &str) -> (r: Option<String>)
        ensures
            opt_view(r) == spec_wave3_card(cards@),
    {
        let text = chars_of(cards);
        let ls = split_lines(&text);
        let k1 = chars_of("Wave:3");
        let k2 = chars_of("Wave 3");
        let prefix = chars_of("hw:");
        let ghost all = views(ls@);
        let mut i: usize = 0;
        assert(all.skip(0) =~= all);
        while i < ls.len()
            invariant
                all == views(ls@),
                all == lines(cards@),
                i <= ls.len(),
                k1@ == "Wave:3"@,
                k2@ == "Wave 3"@,
                prefix@ == "hw:"@,
                scan_wave3_card(all) == scan_wave3_card(all.skip(i as int)),
            decreases ls.len() - i,
        {
            assert(all.skip(i as int).drop_first() =~= all.skip(i + 1));
            assert(all.skip(i as int)[0] == ls@[i as int]@);
            let line = &ls[i];
            if contains_chars(line, &k1) || contains_chars(line, &k2) {
                let ws = split_words(line);
                if ws.len() > 0 {
                    assert(views(ws@)[0] == ws@[0]@);
                    match parse_u32_chars(&ws[0]) {
                        Some(n) => {
                            let mut name = chars_of("hw:");
                            append_chars(&mut name, &decimal_chars(n));
                            return Some(string_from_chars(&name));
                        },
                        None => {},
                    }
                }
            }
            i = i + 1;
        }
        None
    }

    /// The serial of a Wave:3 found only through ALSA: the card list
    /// does not carry it.
    fn get_serial_from_alsa(_card: &str) -> (r: Option<String>)
        ensures
            r is None,
    {
        None
    }

    pub fn serial(&self) -> (r: &str)
        ensures
            r@ == self.spec_serial(),
    {
        self.serial.as_str()
    }

    pub fn alsa_card(&self) -> (r: Option<&str>)
        ensures
            match r {
                Some(c) => self.spec_alsa_card() == Some(c@),
                None => self.spec_alsa_card() is None,
            },
    {
        match &self.alsa_card {
            Some(c) => Some(c.as_str()),
            None => None,
        }
    }
}

/// The Wave:3 card found in a list of lines comes from a line that
/// mentions "Wave:3" or "Wave 3" and starts with a card number `n`, and
/// is `hw:n`; no line mentioning either gives no card.
pub proof fn lemma_wave3_card_from_wave3_line(ls: Seq<Seq<char>>)
    ensures
        scan_wave3_card(ls) matches Some(card) ==> exists|i: int|
            0 <= i < ls.len() && (contains(#[trigger] ls[i], "Wave:3"@) || contains(
                ls[i],
                "Wave 3"@,
            )) && words(ls[i]).len() > 0 && (parse_u32(words(ls[i])[0]) matches Some(n) && card
                == "hw:"@ + decimal(n as nat)),
        (forall|i: int|
            0 <= i < ls.len() ==> !contains(#[trigger] ls[i], "Wave:3"@) && !contains(
                ls[i],
                "Wave 3"@,
            )) ==> scan_wave3_card(ls) is None,
    decreases ls.len(),
{
    if ls.len() > 0 {
        let rest = ls.drop_first();
        lemma_wave3_card_from_wave3_line(rest);
        assert forall|i: int| 0 <= i < rest.len() implies #[trigger] rest[i] == ls[i + 1] by {}
        match wave3_card_of_line(ls[0]) {
            Some(c) => {
                assert(contains(ls[0], "Wave:3"@) || contains(ls[0], "Wave 3"@));
            },
            None => {
                if scan_wave3_card(rest) is Some {
                    let card = scan_wave3_card(rest)->Some_0;
                    let i = choose|i: int|
                        0 <= i < rest.len() && (contains(#[trigger] rest[i], "Wave:3"@) || contains(
                            rest[i],
                            "Wave 3"@,
                        )) && words(rest[i]).len() > 0 && (parse_u32(words(rest[i])[0]) matches Some(
                            n,
                        ) && card == "hw:"@ + decimal(n as nat));
                    assert(ls[i + 1] == rest[i]);
                }
                if forall|i: int|
                    0 <= i < ls.len() ==> !contains(#[trigger] ls[i], "Wave:3"@) && !contains(
                        ls[i],
                        "Wave 3"@,
                    ) {
                    assert forall|i: int| 0 <= i < rest.len() implies !contains(
                        #[trigger] rest[i],
                        "Wave:3"@,
                    ) && !contains(rest[i], "Wave 3"@) by {
                        assert(rest[i] == ls[i + 1]);
                    }
                }
            },
        }
    }
}

/// The Wave:3 card that a card list names is `hw:n` for a line of the
/// list that mentions "Wave:3" or "Wave 3" and starts with `n`; a list
/// with no such mention names no Wave:3 card.
pub proof fn lemma_wave3_card_law(cards: Seq<char>)
    ensures
        spec_wave3_card(cards) matches Some(card) ==> exists|i: int|
            0 <= i < lines(cards).len() && (contains(#[trigger] lines(cards)[i], "Wave:3"@)
                || contains(lines(cards)[i], "Wave 3"@)) && words(lines(cards)[i]).len() > 0 && (
            parse_u32(words(lines(cards)[i])[0]) matches Some(n) && card == "hw:"@ + decimal(
                n as nat,
            )),
        (forall|i: int|
            0 <= i < lines(cards).len() ==> !contains(#[trigger] lines(cards)[i], "Wave:3"@)
                && !contains(lines(cards)[i], "Wave 3"@)) ==> spec_wave3_card(cards) is None,
{
    lemma_wave3_card_from_wave3_line(lines(cards));
}

} // verus!
