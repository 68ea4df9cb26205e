use vstd::prelude::*;

verus! {

/// A resolved venue entry: the catalog key it was matched under, the short
/// display name used in notification text, and the paging channel number.
///
/// The channel number space is 1..=10: the paging network distinguishes at
/// most ten rubric sub-channels, so every entry (including the fallback)
/// carries a number in that range.
#[derive(Debug)]
pub struct Venue {
    pub canonical_key: String,
    pub short_name: String,
    pub channel_number: i8,
}

/// Channel number used for venue labels that are absent from the catalog.
pub const FALLBACK_CHANNEL: i8 = 10;

/// Whether a raw schedule venue label has a dedicated catalog entry.
pub open spec fn known_venue(raw: Seq<char>) -> bool {
    ||| raw == "Stage A"@
    ||| raw == "Stage B"@
    ||| raw == "Stage C"@
    ||| raw == "Workshop 0 (Drop-in)"@
    ||| raw == "Workshop 1 (NottingHack)"@
    ||| raw == "Workshop 2 (Milliways)"@
    ||| raw == "Workshop 3 (Furry High Commission)"@
    ||| raw == "Workshop 4 (FieldFX)"@
    ||| raw == "Workshop 5 (Maths)"@
    ||| raw == "Workshop 6 (Hardware Hacking)"@
    ||| raw == "Youth Workshop"@
    ||| raw == "Null Sector"@
}

/// The configured channel number for a raw venue label.
pub open spec fn spec_channel_number(raw: Seq<char>) -> i8 {
    if raw == "Stage A"@ {
        1
    } else if raw == "Stage B"@ {
        2
    } else if raw == "Stage C"@ {
        3
    } else if raw == "Workshop 0 (Drop-in)"@ {
        4
    } else if raw == "Workshop 1 (NottingHack)"@ {
        4
    } else if raw == "Workshop 2 (Milliways)"@ {
        4
    } else if raw == "Workshop 3 (Furry High Commission)"@ {
        4
    } else if raw == "Workshop 4 (FieldFX)"@ {
        4
    } else if raw == "Workshop 5 (Maths)"@ {
        4
    } else if raw == "Workshop 6 (Hardware Hacking)"@ {
        4
    } else if raw == "Youth Workshop"@ {
        5
    } else if raw == "Null Sector"@ {
        6
    } else {
        FALLBACK_CHANNEL
    }
}

/// The configured short display name for a raw venue label; an unknown label
/// is its own short name.
pub open spec fn spec_short_name(raw: Seq<char>) -> Seq<char> {
    if raw == "Stage A"@ {
        "Stg A"@
    } else if raw == "Stage B"@ {
        "Stg B"@
    } else if raw == "Stage C"@ {
        "Stg C"@
    } else if raw == "Workshop 0 (Drop-in)"@ {
        "Wksp 0"@
    } else if raw == "Workshop 1 (NottingHack)"@ {
        "Wksp 1"@
    } else if raw == "Workshop 2 (Milliways)"@ {
        "Wksp 2"@
    } else if raw == "Workshop 3 (Furry High Commission)"@ {
        "Wksp 3"@
    } else if raw == "Workshop 4 (FieldFX)"@ {
        "Wksp 4"@
    } else if raw == "Workshop 5 (Maths)"@ {
        "Wksp 5"@
    } else if raw == "Workshop 6 (Hardware Hacking)"@ {
        "Wksp 6"@
    } else if raw == "Youth Workshop"@ {
        "Yth Wksp"@
    } else if raw == "Null Sector"@ {
        "Nul Sec"@
    } else {
        raw
    }
}

/// The key a raw venue label resolves under: itself when it is in the
/// catalog, the fixed key "other" when it is not.
pub open spec fn spec_canonical_key(raw: Seq<char>) -> Seq<char> {
    if known_venue(raw) {
        raw
    } else {
        "other"@
    }
}

/// What a well-formed resolution result looks like for a given raw label.
pub open spec fn resolves_to(raw: Seq<char>, v: Venue) -> bool {
    &&& v.canonical_key@ == spec_canonical_key(raw)
    &&& v.short_name@ == spec_short_name(raw)
    &&& v.channel_number == spec_channel_number(raw)
}

/// Resolve a raw schedule venue label against the catalog.
///
/// Total: every label maps to exactly one entry. A label present in the
/// catalog yields its configured short name and channel number; any other
/// label yields itself as short name with the fallback channel.
pub fn resolve(raw: &str) -> (v: Venue)
    ensures
        resolves_to(raw@, v),
        1 <= v.channel_number <= 10,
{
    let s: String = raw.to_owned();
    if s == "Stage A".to_owned() {
        Venue {
            canonical_key: "Stage A".to_owned(),
            short_name: "Stg A".to_owned(),
            channel_number: 1,
        }
    } else if s == "Stage B".to_owned() {
        Venue {
            canonical_key: "Stage B".to_owned(),
            short_name: "Stg B".to_owned(),
            channel_number: 2,
        }
    } else if s == "Stage C".to_owned() {
        Venue {
            canonical_key: "Stage C".to_owned(),
            short_name: "Stg C".to_owned(),
            channel_number: 3,
        }
    } else if s == "Workshop 0 (Drop-in)".to_owned() {
        Venue {
            canonical_key: "Workshop 0 (Drop-in)".to_owned(),
            short_name: "Wksp 0".to_owned(),
            channel_number: 4,
        }
    } else if s == "Workshop 1 (NottingHack)".to_owned() {
        Venue {
            canonical_key: "Workshop 1 (NottingHack)".to_owned(),
            short_name: "Wksp 1".to_owned(),
            channel_number: 4,
        }
    } else if s == "Workshop 2 (Milliways)".to_owned() {
        Venue {
            canonical_key: "Workshop 2 (Milliways)".to_owned(),
            short_name: "Wksp 2".to_owned(),
            channel_number: 4,
        }
    } else if s == "Workshop 3 (Furry High Commission)".to_owned() {
        Venue {
            canonical_key: "Workshop 3 (Furry High Commission)".to_owned(),
            short_name: "Wksp 3".to_owned(),
            channel_number: 4,
        }
    } else if s == "Workshop 4 (FieldFX)".to_owned() {
        Venue {
            canonical_key: "Workshop 4 (FieldFX)".to_owned(),
            short_name: "Wksp 4".to_owned(),
            channel_number: 4,
        }
    } else if s == "Workshop 5 (Maths)".to_owned() {
        Venue {
            canonical_key: "Workshop 5 (Maths)".to_owned(),
            short_name: "Wksp 5".to_owned(),
            channel_number: 4,
        }
    } else if s == "Workshop 6 (Hardware Hacking)".to_owned() {
        Venue {
            canonical_key: "Workshop 6 (Hardware Hacking)".to_owned(),
            short_name: "Wksp 6".to_owned(),
            channel_number: 4,
        }
    } else if s == "Youth Workshop".to_owned() {
        Venue {
            canonical_key: "Youth Workshop".to_owned(),
            short_name: "Yth Wksp".to_owned(),
            channel_number: 5,
        }
    } else if s == "Null Sector".to_owned() {
        Venue {
            canonical_key: "Null Sector".to_owned(),
            short_name: "Nul Sec".to_owned(),
            channel_number: 6,
        }
    } else {
        Venue { canonical_key: "other".to_owned(), short_name: s, channel_number: FALLBACK_CHANNEL }
    }
}

impl Venue {
    /// Resolve a raw schedule venue label; same contract as `resolve`.
    pub fn from_schedule_name(v: &str) -> (r: Venue)
        ensures
            resolves_to(v@, r),
            1 <= r.channel_number <= 10,
    {
        resolve(v)
    }
}

/// The channel number of a resolved venue.
pub fn news_number_for_venue(venue: &Venue) -> (n: i8)
    ensures
        n == venue.channel_number,
{
    venue.channel_number
}

/// The short display name of a resolved venue.
pub fn venue_short_name(venue: Venue) -> (r: String)
    ensures
        r@ == venue.short_name@,
{
    venue.short_name
}

/// Every venue label, known or not, resolves to a channel number in 1..=10.
pub proof fn lemma_channel_number_range(raw: Seq<char>)
    ensures
        1 <= spec_channel_number(raw) <= 10,
{
}

/// A label present in the catalog resolves under its own key, and resolution
/// is a pure function of the label: two equal labels resolve identically.
pub proof fn lemma_known_venue_resolution(raw: Seq<char>, v1: Venue, v2: Venue)
    requires
        known_venue(raw),
        resolves_to(raw, v1),
        resolves_to(raw, v2),
    ensures
        v1.canonical_key@ == raw,
        v1.short_name@ == v2.short_name@,
        v1.channel_number == v2.channel_number,
{
}

/// A label absent from the catalog falls back to itself as short name, the
/// key "other", and the fallback channel number.
pub proof fn lemma_unknown_venue_fallback(raw: Seq<char>)
    requires
        !known_venue(raw),
    ensures
        spec_short_name(raw) == raw,
        spec_channel_number(raw) == FALLBACK_CHANNEL,
        spec_canonical_key(raw) == "other"@,
{
}

} // verus!
