//! Emote metadata shared by the chat platforms.

use vstd::prelude::*;

verus! {

/// Bit set in [`EmoteFlags`] for an emote that overlays the previous one.
pub const FLAG_OVERLAYING: u16 = 1;

/// Bit set in [`EmoteFlags`] for an emote hidden from the picker.
pub const FLAG_HIDDEN: u16 = 2;

/// Where an emote comes from.
#[derive(Clone, Copy, Debug, PartialEq, Eq, Hash, Structural)]
pub enum EmotePlatform {
    SevenTv,
    FrankerFaceZ,
    BetterTtv,
    Twitch,
}

impl EmotePlatform {
    /// The platform's display name.
    pub fn as_str(&self) -> (r: &'static str)
        ensures
            *self is SevenTv ==> r@ == "7TV"@,
            *self is FrankerFaceZ ==> r@ == "FFZ"@,
            *self is BetterTtv ==> r@ == "BTTV"@,
            *self is Twitch ==> r@ == "Twitch"@,
    {
        match self {
            EmotePlatform::SevenTv => "7TV",
            EmotePlatform::FrankerFaceZ => "FFZ",
            EmotePlatform::BetterTtv => "BTTV",
            EmotePlatform::Twitch => "Twitch",
        }
    }
}

/// An emote's behavior flags, as a bit set over [`FLAG_OVERLAYING`] and
/// [`FLAG_HIDDEN`].
#[derive(Clone, Copy, Debug, PartialEq, Eq, Hash, Structural)]
pub struct EmoteFlags {
    pub bits: u16,
}

impl EmoteFlags {
    pub fn empty() -> (r: EmoteFlags)
        ensures
            r.bits == 0,
    {
        EmoteFlags { bits: 0 }
    }

    pub fn from_bits(bits: u16) -> (r: EmoteFlags)
        ensures
            r.bits == bits,
    {
        EmoteFlags { bits }
    }

    pub fn overlaying(&self) -> (r: bool)
        ensures
            r == (self.bits & FLAG_OVERLAYING != 0),
    {
        self.bits & FLAG_OVERLAYING != 0
    }

    pub fn hidden(&self) -> (r: bool)
        ensures
            r == (self.bits & FLAG_HIDDEN != 0),
    {
        self.bits & FLAG_HIDDEN != 0
    }
}

/// What the library retains about one emote, independent of its images.
#[derive(Debug, Clone)]
pub struct EmoteMetadata {
    pub original_name: String,
    pub flags: EmoteFlags,
    pub id: String,
    pub platform: EmotePlatform,
}

impl EmoteMetadata {
    pub fn new(original_name: String, flags: EmoteFlags, id: String, platform: EmotePlatform) -> (r:
        EmoteMetadata)
        ensures
            r.original_name@ == original_name@,
            r.flags == flags,
            r.id@ == id@,
            r.platform == platform,
    {
        EmoteMetadata { original_name, flags, id, platform }
    }
}

} // verus!
