//! ALSA mixer control of the microphone through `amixer`, and reading
//! what `amixer` prints.
//!
//! Running `amixer` is the caller's part; this module holds the card a
//! control belongs to, the words it passes, and the readings of its
//! output.

use vstd::prelude::*;

use crate::text::{
    chars_of, contains, contains_chars, ends_with, ends_with_chars, parse_u32, parse_u32_chars,
    split_words, starts_with, starts_with_chars, sub_chars, trim_end_matches,
    trim_end_matches_chars, trim_start_matches, trim_start_matches_chars, views, words,
};

verus! {

/// ALSA-based microphone control of one sound card.
pub struct AlsaMicControl {
    card_name: String,
}

/// The percent in a `[N%]` word of `amixer sget` output, read as the
/// mic control reads it: every leading `[` and every trailing `%]`
/// removed, the rest a `u32`.
pub open spec fn bracket_percent(w: Seq<char>) -> Option<u32> {
    if starts_with(w, seq!['[']) && ends_with(w, "%]"@) {
        parse_u32(trim_end_matches(trim_start_matches(w, '['), "%]"@))
    } else {
        None
    }
}

/// The percent in a `[N%]` word, read as the playback-volume control
/// reads it: one `[` and one `%]` removed, the rest a `u32`.
pub open spec fn stripped_percent(w: Seq<char>) -> Option<u32> {
    if starts_with(w, seq!['[']) && ends_with(w.skip(1), "%]"@) {
        parse_u32(w.subrange(1, w.len() - 2))
    } else {
        None
    }
}

/// The first word that yields a percent.
pub open spec fn first_bracket_percent(ws: Seq<Seq<char>>) -> Option<u32>
    decreases ws.len(),
{
    if ws.len() == 0 {
        None
    } else {
        match bracket_percent(ws[0]) {
            Some(p) => Some(p),
            None => first_bracket_percent(ws.drop_first()),
        }
    }
}

/// The first word that yields a percent.
pub open spec fn first_stripped_percent(ws: Seq<Seq<char>>) -> Option<u32>
    decreases ws.len(),
{
    if ws.len() == 0 {
        None
    } else {
        match stripped_percent(ws[0]) {
            Some(p) => Some(p),
            None => first_stripped_percent(ws.drop_first()),
        }
    }
}

/// The capture state that `amixer sget` output shows: `[off]` is
/// muted, else `[on]` is live, else unknown.
pub open spec fn spec_capture_muted(out: Seq<char>) -> Option<bool> {
    if contains(out, "[off]"@) {
        Some(true)
    } else if contains(out, "[on]"@) {
        Some(false)
    } else {
        None
    }
}

/// The `amixer sset` word that sets a capture switch.
pub open spec fn spec_capture_switch(muted: bool) -> Seq<char> {
    if muted {
        "nocap"@
    } else {
        "cap"@
    }
}

impl AlsaMicControl {
    /// The card this control addresses.
    pub closed spec fn card(&self) -> Seq<char> {
        self.card_name@
    }

    /// Create a new ALSA mic control for the given card.
    pub fn new(card_name: String) -> (r: Self)
        ensures
            r.card() == card_name@,
    {
        AlsaMicControl { card_name }
    }

    /// The card this control addresses, as `amixer -c` takes it.
    pub fn card_name(&self) -> (r: &str)
        ensures
            r@ == self.card(),
    {
        self.card_name.as_str()
    }

    /// The switch word for `amixer sset <card> Mic <word>`. Capture
    /// switches use `cap`/`nocap`; `mute`/`unmute` only work for
    /// playback switches.
    pub fn capture_switch(muted: bool) -> (r: &'static str)
        ensures
            r@ == spec_capture_switch(muted),
    {
        if muted {
            "nocap"
        } else {
            "cap"
        }
    }

    /// The microphone volume, in percent, that a successful `amixer
    /// sget` reports: `N` for the first whitespace-separated word of the
    /// form `[N%]` whose `N` is a `u32`, and full volume (100) when no
    /// word has that form.
    pub fn mic_volume_percent(output: &str) -> (r: u32)
        ensures
            r == match first_bracket_percent(words(output@)) {
                Some(n) => n,
                None => 100,
            },
    {
        match Self::parse_volume_percent(output) {
            Some(n) => n,
            None => 100,
        }
    }

    /// The microphone volume in percent that `amixer sget` output
    /// reports, if a `[N%]` word is present.
    pub fn parse_volume_percent(output: &str) -> (r: Option<u32>)
        ensures
            r == first_bracket_percent(words(output@)),
    {
        let text = chars_of(output);
        let ws = split_words(&text);
        let open = chars_of("[");
        let close = chars_of("%]");
        proof {
            reveal_strlit("[");
            reveal_strlit("%]");
            assert(open@ =~= seq!['[']);
        }
        let ghost all = views(ws@);
        let mut i: usize = 0;
        assert(all.skip(0) =~= all);
        while i < ws.len()
            invariant
                all == views(ws@),
                all == words(output@),
                i <= ws.len(),
                open@ == seq!['['],
                close@ == "%]"@,
                close@.len() == 2,
                first_bracket_percent(all) == first_bracket_percent(all.skip(i as int)),
            decreases ws.len() - i,
        {
            assert(all.skip(i as int).drop_first() =~= all.skip(i + 1));
            assert(all.skip(i as int)[0] == ws@[i as int]@);
            let w = &ws[i];
            if starts_with_chars(w, &open) && ends_with_chars(w, &close) {
                let inner = trim_end_matches_chars(&trim_start_matches_chars(w, '['), &close);
                let p = parse_u32_chars(&inner);
                if p.is_some() {
                    return p;
                }
            }
            i = i + 1;
        }
        None
    }

    /// Whether `amixer sget` output shows the capture switch off
    /// (`[off]`) or on (`[on]`); `None` when it shows neither.
    pub fn parse_capture_muted(output: &str) -> (r: Option<bool>)
        ensures
            r == spec_capture_muted(output@),
    {
        let text = chars_of(output);
        if contains_chars(&text, &chars_of("[off]")) {
            Some(true)
        } else if contains_chars(&text, &chars_of("[on]")) {
            Some(false)
        } else {
            None
        }
    }
}

/// The playback volume in percent that `amixer sget PCM` output
/// reports, if a `[N%]` word is present.
pub fn parse_playback_percent(output: &str) -> (r: Option<u32>)
    ensures
        r == first_stripped_percent(words(output@)),
{
    let text = chars_of(output);
    let ws = split_words(&text);
    let open = chars_of("[");
    let close = chars_of("%]");
    proof {
        reveal_strlit("[");
        assert(open@ =~= seq!['[']);
        reveal_strlit("%]");
    }
    let ghost all = views(ws@);
    let mut i: usize = 0;
    assert(all.skip(0) =~= all);
    while i < ws.len()
        invariant
            all == views(ws@),
            all == words(output@),
            i <= ws.len(),
            open@ == seq!['['],
            close@ == "%]"@,
            close@.len() == 2,
            first_stripped_percent(all) == first_stripped_percent(all.skip(i as int)),
        decreases ws.len() - i,
    {
        assert(all.skip(i as int).drop_first() =~= all.skip(i + 1));
        assert(all.skip(i as int)[0] == ws@[i as int]@);
        let w = &ws[i];
        if starts_with_chars(w, &open) {
            let rest = sub_chars(w, 1, w.len());
            assert(rest@ =~= w@.skip(1));
            if ends_with_chars(&rest, &close) {
                let inner = sub_chars(w, 1, w.len() - 2);
                let p = parse_u32_chars(&inner);
                if p.is_some() {
                    return p;
                }
            }
        }
        i = i + 1;
    }
    None
}

} // verus!
