//! Device-related types: how a render is specified, and what it reports
//! about position and transport.

use crate::digits::{parse_i32, parse_int, parse_u32, IntError};
use crate::text::chars_of;
use vstd::hash_map::StringHashMap;
use vstd::prelude::*;
use vstd::string::*;

verus! {

/// An specification of a DLNA render device.
#[derive(Debug, Clone)]
pub enum RenderSpec {
    /// Render specified by a location URL
    Location(String),
    /// Render specified by a query string, searched for during a timeout in seconds
    Query(u64, String),
    /// The first render found during a timeout in seconds
    First(u64),
}

/// A `RenderSpec` with its strings as texts.
pub enum RenderSpecView {
    Location(Seq<char>),
    Query(u64, Seq<char>),
    First(u64),
}

impl View for RenderSpec {
    type V = RenderSpecView;

    open spec fn view(&self) -> RenderSpecView {
        match self {
            RenderSpec::Location(url) => RenderSpecView::Location(url@),
            RenderSpec::Query(timeout, query) => RenderSpecView::Query(*timeout, query@),
            RenderSpec::First(timeout) => RenderSpecView::First(*timeout),
        }
    }
}

impl RenderSpec {
    /// A copy of the specification.
    pub fn duplicate(&self) -> (r: Self)
        ensures
            r@ == self@,
    {
        match self {
            RenderSpec::Location(url) => RenderSpec::Location(url.clone()),
            RenderSpec::Query(timeout, query) => RenderSpec::Query(*timeout, query.clone()),
            RenderSpec::First(timeout) => RenderSpec::First(*timeout),
        }
    }
}

/// The flat key/value map a control action answers with.
pub struct ActionResponse {
    fields: StringHashMap<String>,
}

impl View for ActionResponse {
    type V = Map<Seq<char>, Seq<char>>;

    closed spec fn view(&self) -> Map<Seq<char>, Seq<char>> {
        Map::new(|k: Seq<char>| self.fields@.contains_key(k), |k: Seq<char>| self.fields@[k]@)
    }
}

impl ActionResponse {
    /// A response without fields.
    pub fn new() -> (r: Self)
        ensures
            r@ == Map::<Seq<char>, Seq<char>>::empty(),
    {
        let r = ActionResponse { fields: StringHashMap::new() };
        assert(r@ =~= Map::<Seq<char>, Seq<char>>::empty());
        r
    }

    /// Sets a field, replacing an earlier value of the same key.
    pub fn insert(&mut self, key: String, value: String)
        ensures
            final(self)@ == old(self)@.insert(key@, value@),
    {
        self.fields.insert(key, value);
        assert(self@ =~= old(self)@.insert(key@, value@));
    }

    /// The value of a field, if the response holds it.
    pub fn get(&self, key: &str) -> (r: Option<String>)
        ensures
            match r {
                Some(v) => self@.contains_key(key@) && self@[key@] == v@,
                None => !self@.contains_key(key@),
            },
    {
        match self.fields.get(key) {
            Some(v) => Some(v.clone()),
            None => None,
        }
    }

    /// The value of a field, or `default` where the response lacks it.
    pub fn get_or(&self, key: &str, default: &str) -> (r: String)
        ensures
            r@ == field_or(self@, key@, default@),
    {
        match self.fields.get(key) {
            Some(v) => v.clone(),
            None => String::from_str(default),
        }
    }
}

/// The value of a field, or `default` where the response lacks it.
pub open spec fn field_or(m: Map<Seq<char>, Seq<char>>, key: Seq<char>, default: Seq<char>) -> Seq<
    char,
> {
    if m.contains_key(key) {
        m[key]
    } else {
        default
    }
}

/// What is said of a number that could not be read.
pub open spec fn int_error_text(e: IntError) -> Seq<char> {
    match e {
        IntError::Empty => "cannot parse integer from empty string"@,
        IntError::InvalidDigit => "invalid digit found in string"@,
        IntError::PosOverflow => "number too large to fit in target type"@,
        IntError::NegOverflow => "number too small to fit in target type"@,
    }
}

/// What is said of a number that could not be read.
pub fn int_error_message(e: IntError) -> (r: &'static str)
    ensures
        r@ == int_error_text(e),
{
    match e {
        IntError::Empty => "cannot parse integer from empty string",
        IntError::InvalidDigit => "invalid digit found in string",
        IntError::PosOverflow => "number too large to fit in target type",
        IntError::NegOverflow => "number too small to fit in target type",
    }
}

/// Playback position information
///
/// Contains all information returned by the GetPositionInfo operation
#[derive(Debug, Clone)]
pub struct PositionInfo {
    /// Current track number
    pub track: u32,
    /// Total duration of current track (format: HH:MM:SS)
    pub track_duration: String,
    /// Metadata of current track
    pub track_meta_data: String,
    /// URI of current track
    pub track_uri: String,
    /// Relative time position (format: HH:MM:SS)
    pub rel_time: String,
    /// Absolute time position
    pub abs_time: String,
    /// Relative count position
    pub rel_count: i32,
    /// Absolute count position
    pub abs_count: i32,
}

/// A `PositionInfo` with its strings as texts.
pub struct PositionInfoView {
    pub track: u32,
    pub track_duration: Seq<char>,
    pub track_meta_data: Seq<char>,
    pub track_uri: Seq<char>,
    pub rel_time: Seq<char>,
    pub abs_time: Seq<char>,
    pub rel_count: i32,
    pub abs_count: i32,
}

impl View for PositionInfo {
    type V = PositionInfoView;

    open spec fn view(&self) -> PositionInfoView {
        PositionInfoView {
            track: self.track,
            track_duration: self.track_duration@,
            track_meta_data: self.track_meta_data@,
            track_uri: self.track_uri@,
            rel_time: self.rel_time@,
            abs_time: self.abs_time@,
            rel_count: self.rel_count,
            abs_count: self.abs_count,
        }
    }
}

/// The position reported where a response holds no field at all.
pub open spec fn default_position() -> PositionInfoView {
    PositionInfoView {
        track: 0,
        track_duration: Seq::empty(),
        track_meta_data: Seq::empty(),
        track_uri: Seq::empty(),
        rel_time: Seq::empty(),
        abs_time: Seq::empty(),
        rel_count: -1i32,
        abs_count: -1i32,
    }
}

/// What a response says of the position. A field that is absent counts as
/// empty, or as 0 for the track and -1 for the counters. The first of
/// `Track`, `RelCount` and `AbsCount` that is present and no number of its
/// type is reported by name.
pub open spec fn position_of(m: Map<Seq<char>, Seq<char>>) -> Result<PositionInfoView, Seq<char>> {
    match parse_int(field_or(m, "Track"@, "0"@), 0, u32::MAX as int) {
        Err(e) => Err("Failed to parse Track: "@ + int_error_text(e)),
        Ok(track) => match parse_int(
            field_or(m, "RelCount"@, "-1"@),
            i32::MIN as int,
            i32::MAX as int,
        ) {
            Err(e) => Err("Failed to parse RelCount: "@ + int_error_text(e)),
            Ok(rel_count) => match parse_int(
                field_or(m, "AbsCount"@, "-1"@),
                i32::MIN as int,
                i32::MAX as int,
            ) {
                Err(e) => Err("Failed to parse AbsCount: "@ + int_error_text(e)),
                Ok(abs_count) => Ok(
                    PositionInfoView {
                        track: track as u32,
                        track_duration: field_or(m, "TrackDuration"@, ""@),
                        track_meta_data: field_or(m, "TrackMetaData"@, ""@),
                        track_uri: field_or(m, "TrackURI"@, ""@),
                        rel_time: field_or(m, "RelTime"@, ""@),
                        abs_time: field_or(m, "AbsTime"@, ""@),
                        rel_count: rel_count as i32,
                        abs_count: abs_count as i32,
                    },
                ),
            },
        },
    }
}

fn parse_failure(field: &str, e: IntError) -> (r: String)
    ensures
        r@ == "Failed to parse "@ + field@ + ": "@ + int_error_text(e),
{
    let mut r = String::from_str("Failed to parse ");
    r.append(field);
    r.append(": ");
    r.append(int_error_message(e));
    r
}

impl Default for PositionInfo {
    fn default() -> (p: Self)
        ensures
            p@ == default_position(),
    {
        PositionInfo {
            track: 0,
            track_duration: String::new(),
            track_meta_data: String::new(),
            track_uri: String::new(),
            rel_time: String::new(),
            abs_time: String::new(),
            rel_count: -1,
            abs_count: -1,
        }
    }
}

impl PositionInfo {
    /// Parses PositionInfo from the response of the position info action
    pub fn from_map(map: &ActionResponse) -> (r: Result<Self, String>)
        ensures
            match r {
                Ok(p) => position_of(map@) == Ok::<PositionInfoView, Seq<char>>(p@),
                Err(e) => position_of(map@) == Err::<PositionInfoView, Seq<char>>(e@),
            },
    {
        proof {
            reveal_strlit("Failed to parse ");
            reveal_strlit("Failed to parse Track: ");
            reveal_strlit("Failed to parse RelCount: ");
            reveal_strlit("Failed to parse AbsCount: ");
            reveal_strlit("Track");
            reveal_strlit("RelCount");
            reveal_strlit("AbsCount");
            reveal_strlit(": ");
            assert("Failed to parse "@ + "Track"@ + ": "@ == "Failed to parse Track: "@);
            assert("Failed to parse "@ + "RelCount"@ + ": "@ == "Failed to parse RelCount: "@);
            assert("Failed to parse "@ + "AbsCount"@ + ": "@ == "Failed to parse AbsCount: "@);
        }
        let track = match parse_u32(&chars_of(map.get_or("Track", "0").as_str())) {
            Ok(t) => t,
            Err(e) => {
                return Err(parse_failure("Track", e));
            },
        };
        let rel_count = match parse_i32(&chars_of(map.get_or("RelCount", "-1").as_str())) {
            Ok(c) => c,
            Err(e) => {
                return Err(parse_failure("RelCount", e));
            },
        };
        let abs_count = match parse_i32(&chars_of(map.get_or("AbsCount", "-1").as_str())) {
            Ok(c) => c,
            Err(e) => {
                return Err(parse_failure("AbsCount", e));
            },
        };
        Ok(
            PositionInfo {
                track,
                track_duration: map.get_or("TrackDuration", ""),
                track_meta_data: map.get_or("TrackMetaData", ""),
                track_uri: map.get_or("TrackURI", ""),
                rel_time: map.get_or("RelTime", ""),
                abs_time: map.get_or("AbsTime", ""),
                rel_count,
                abs_count,
            },
        )
    }
}

/// Transport information
///
/// Contains information returned by the GetTransportInfo operation
#[derive(Debug, Clone)]
pub struct TransportInfo {
    /// Transport state (e.g., PLAYING, PAUSED_PLAYBACK, STOPPED)
    pub transport_state: String,
    /// Detailed transport status information
    pub transport_status: String,
    /// Playback speed
    pub speed: String,
}

/// A `TransportInfo` with its strings as texts.
pub struct TransportInfoView {
    pub transport_state: Seq<char>,
    pub transport_status: Seq<char>,
    pub speed: Seq<char>,
}

impl View for TransportInfo {
    type V = TransportInfoView;

    open spec fn view(&self) -> TransportInfoView {
        TransportInfoView {
            transport_state: self.transport_state@,
            transport_status: self.transport_status@,
            speed: self.speed@,
        }
    }
}

/// What a response says of the transport; a field that is absent counts as
/// empty.
pub open spec fn transport_of(m: Map<Seq<char>, Seq<char>>) -> TransportInfoView {
    TransportInfoView {
        transport_state: field_or(m, "CurrentTransportState"@, ""@),
        transport_status: field_or(m, "CurrentTransportStatus"@, ""@),
        speed: field_or(m, "CurrentSpeed"@, ""@),
    }
}

impl Default for TransportInfo {
    fn default() -> (t: Self)
        ensures
            t.transport_state@.len() == 0,
            t.transport_status@.len() == 0,
            t.speed@.len() == 0,
    {
        TransportInfo {
            transport_state: String::new(),
            transport_status: String::new(),
            speed: String::new(),
        }
    }
}

impl TransportInfo {
    /// Parses TransportInfo from the response of the transport info action;
    /// this never fails.
    pub fn from_map(map: &ActionResponse) -> (r: Result<Self, String>)
        ensures
            r.is_ok(),
            r.unwrap()@ == transport_of(map@),
    {
        Ok(
            TransportInfo {
                transport_state: map.get_or("CurrentTransportState", ""),
                transport_status: map.get_or("CurrentTransportStatus", ""),
                speed: map.get_or("CurrentSpeed", ""),
            },
        )
    }
}

} // verus!
