//! Plain data of the emote platform's API: emote sizes and the event
//! stream's close codes.

use vstd::prelude::*;

use vstd::string::StringExecFns;

verus! {

/// The four raster sizes an emote is served at.
#[derive(Clone, Copy, Debug, PartialEq, Eq, Hash, Structural)]
pub enum EmoteSize {
    OneX,
    TwoX,
    ThreeX,
    FourX,
}

impl EmoteSize {
    /// The size whose file names start with the given digit.
    pub fn from_digit(c: char) -> (r: Option<EmoteSize>)
        ensures
            c == '1' ==> r == Some(EmoteSize::OneX),
            c == '2' ==> r == Some(EmoteSize::TwoX),
            c == '3' ==> r == Some(EmoteSize::ThreeX),
            c == '4' ==> r == Some(EmoteSize::FourX),
            (c != '1' && c != '2' && c != '3' && c != '4') ==> r is None,
    {
        match c {
            '1' => Some(EmoteSize::OneX),
            '2' => Some(EmoteSize::TwoX),
            '3' => Some(EmoteSize::ThreeX),
            '4' => Some(EmoteSize::FourX),
            _ => None,
        }
    }

    /// The file name this size is served under.
    pub fn file_name(&self) -> (r: String)
        ensures
            *self is OneX ==> r@ == "1x.webp"@,
            *self is TwoX ==> r@ == "2x.webp"@,
            *self is ThreeX ==> r@ == "3x.webp"@,
            *self is FourX ==> r@ == "4x.webp"@,
    {
        match self {
            EmoteSize::OneX => String::from_str("1x.webp"),
            EmoteSize::TwoX => String::from_str("2x.webp"),
            EmoteSize::ThreeX => String::from_str("3x.webp"),
            EmoteSize::FourX => String::from_str("4x.webp"),
        }
    }
}

/// Why the event stream's server closed the connection.
#[derive(Clone, Copy, Debug, PartialEq, Eq, Hash, Structural)]
pub enum CloseCode {
    ServerError,
    UnknownOperation,
    InvalidPayload,
    AuthFailure,
    AlreadyIdentified,
    RateLimit,
    Restart,
    Maintenance,
    Timeout,
    AlreadySubscribed,
    NotSubscribed,
    InsufficientPrivilege,
    Reconnect,
    NormalClosure,
}

impl CloseCode {
    /// The numeric close code sent on the wire.
    pub fn code(&self) -> (r: u16)
        ensures
            r == self.code_spec(),
    {
        match self {
            CloseCode::ServerError => 4000,
            CloseCode::UnknownOperation => 4001,
            CloseCode::InvalidPayload => 4002,
            CloseCode::AuthFailure => 4003,
            CloseCode::AlreadyIdentified => 4004,
            CloseCode::RateLimit => 4005,
            CloseCode::Restart => 4006,
            CloseCode::Maintenance => 4007,
            CloseCode::Timeout => 4008,
            CloseCode::AlreadySubscribed => 4009,
            CloseCode::NotSubscribed => 4010,
            CloseCode::InsufficientPrivilege => 4011,
            CloseCode::Reconnect => 4012,
            CloseCode::NormalClosure => 4013,
        }
    }

    /// The numeric code of each variant.
    pub open spec fn code_spec(self) -> u16 {
        match self {
            CloseCode::ServerError => 4000,
            CloseCode::UnknownOperation => 4001,
            CloseCode::InvalidPayload => 4002,
            CloseCode::AuthFailure => 4003,
            CloseCode::AlreadyIdentified => 4004,
            CloseCode::RateLimit => 4005,
            CloseCode::Restart => 4006,
            CloseCode::Maintenance => 4007,
            CloseCode::Timeout => 4008,
            CloseCode::AlreadySubscribed => 4009,
            CloseCode::NotSubscribed => 4010,
            CloseCode::InsufficientPrivilege => 4011,
            CloseCode::Reconnect => 4012,
            CloseCode::NormalClosure => 4013,
        }
    }

    /// The variant carrying the given wire code, if any: the inverse of
    /// [`CloseCode::code`].
    pub fn from_code(code: u16) -> (r: Option<CloseCode>)
        ensures
            match r {
                Some(c) => c.code_spec() == code,
                None => forall|c: CloseCode| (#[trigger] c.code_spec()) != code,
            },
    {
        let r = match code {
            4000u16 => Some(CloseCode::ServerError),
            4001u16 => Some(CloseCode::UnknownOperation),
            4002u16 => Some(CloseCode::InvalidPayload),
            4003u16 => Some(CloseCode::AuthFailure),
            4004u16 => Some(CloseCode::AlreadyIdentified),
            4005u16 => Some(CloseCode::RateLimit),
            4006u16 => Some(CloseCode::Restart),
            4007u16 => Some(CloseCode::Maintenance),
            4008u16 => Some(CloseCode::Timeout),
            4009u16 => Some(CloseCode::AlreadySubscribed),
            4010u16 => Some(CloseCode::NotSubscribed),
            4011u16 => Some(CloseCode::InsufficientPrivilege),
            4012u16 => Some(CloseCode::Reconnect),
            4013u16 => Some(CloseCode::NormalClosure),
            _ => None,
        };
        proof {
            if r is None {
                assert forall|c: CloseCode| (#[trigger] c.code_spec()) != code by {
                    if c.code_spec() == code {
                        assert(4000 <= code <= 4013);
                    }
                }
            }
        }
        r
    }
}

} // verus!
