use vstd::prelude::*;

verus! {

/// One vertex of the search area's exterior ring. The two coordinates are
/// carried as the IEEE-754 bit patterns of their 64-bit float values; the
/// builder never interprets them, it only keeps them in order.
#[derive(Clone, Copy, PartialEq, Eq, Structural, Debug)]
pub struct AreaPoint {
    pub x: u64,
    pub y: u64,
}

/// A UTC instant: whole seconds since the Unix epoch plus the nanoseconds
/// into the current second.
#[derive(Clone, Copy, PartialEq, Eq, Structural, Debug)]
pub struct UtcTimestamp {
    pub secs: i64,
    pub nanos: u32,
}

/// Largest epoch second the time formatter accepts: 9999-12-31 23:59:59 UTC,
/// the last instant whose year still renders as four digits.
pub const MAX_FORMAT_SECS: i64 = 253402300799;

/// The rendering of an epoch second as `YYYY-MM-DD HH:MM:SS` in UTC; it
/// depends on the whole seconds alone.
pub uninterp spec fn utc_string_of(secs: int) -> Seq<char>;

/// Shape of position `j` of a formatted timestamp: hyphens, a space and
/// colons at the fixed separator positions, decimal digits everywhere else.
pub open spec fn timestamp_char_ok(c: char, j: int) -> bool {
    if j == 4 || j == 7 {
        c == '-'
    } else if j == 10 {
        c == ' '
    } else if j == 13 || j == 16 {
        c == ':'
    } else {
        '0' <= c <= '9'
    }
}

/// Relies on chrono's `DateTime::<Utc>::from_timestamp` and `format` with
/// `"%Y-%m-%d %H:%M:%S"`: for epoch seconds between 0 and `MAX_FORMAT_SECS`
/// the rendering depends on the seconds alone, is 19 characters long with
/// zero-padded fields and fixed separators, and carries no timezone
/// designator and no fractional part.
#[verifier::external_body]
fn format_utc_secs(secs: i64) -> (r: String)
    requires
        0 <= secs <= MAX_FORMAT_SECS,
    ensures
        r@ == utc_string_of(secs as int),
        r@.len() == 19,
        forall|j: int| 0 <= j < 19 ==> timestamp_char_ok(r@[j], j),
{
    match chrono::DateTime::<chrono::Utc>::from_timestamp(secs, 0) {
        Some(dt) => dt.format("%Y-%m-%d %H:%M:%S").to_string(),
        None => String::new(),
    }
}

/// A formatted timestamp holds no timezone designator: every position is a
/// digit or one of the three separators, so in particular no `Z`, no sign
/// and no letter ever appears.
pub proof fn lemma_timestamp_has_no_zone_designator(t: Seq<char>)
    requires
        t.len() == 19,
        forall|j: int| 0 <= j < 19 ==> timestamp_char_ok(t[j], j),
    ensures
        forall|j: int| 0 <= j < t.len() ==> t[j] != 'Z' && t[j] != 'z' && t[j] != '+',
{
    assert forall|j: int| 0 <= j < t.len() implies t[j] != 'Z' && t[j] != 'z' && t[j]
        != '+' by {
        assert(timestamp_char_ok(t[j], j));
    }
}

/// The outbound search document. Fields mirror the wire contract; the
/// builder starts from documented defaults and each `with_…` method replaces
/// one pair of values, leaving the rest untouched.
pub struct SkjalftalisaRequest {
    pub area: Vec<AreaPoint>,
    pub depth_min: i64,
    pub depth_max: i64,
    pub size_max: i64,
    pub size_min: i64,
    pub start_time: String,
    pub end_time: String,
    pub event_type: Vec<String>,
    pub fields: Vec<String>,
    pub magnitude_preference: Vec<String>,
    pub originating_system: Vec<String>,
}

/// The documented defaults for every filter field: depth range [0, 25],
/// magnitude bucket range [0, 11], the full 1970–2030 time range, quake
/// events only, the seven response fields, the `Mlw`/`Autmag` magnitude
/// preference and the `SIL picks` source filter.
pub open spec fn default_filters(r: SkjalftalisaRequest) -> bool {
    &&& r.depth_min == 0
    &&& r.depth_max == 25
    &&& r.size_min == 0
    &&& r.size_max == 11
    &&& r.start_time@ == "1970-01-01 00:00:00"@
    &&& r.end_time@ == "2030-12-31 23:59:59"@
    &&& r.event_type@.len() == 1
    &&& r.event_type@[0]@ == "qu"@
    &&& r.fields@.len() == 7
    &&& r.fields@[0]@ == "time"@
    &&& r.fields@[1]@ == "lat"@
    &&& r.fields@[2]@ == "long"@
    &&& r.fields@[3]@ == "depth"@
    &&& r.fields@[4]@ == "magnitude"@
    &&& r.fields@[5]@ == "magnitude_type"@
    &&& r.fields@[6]@ == "originating_system"@
    &&& r.magnitude_preference@.len() == 2
    &&& r.magnitude_preference@[0]@ == "Mlw"@
    &&& r.magnitude_preference@[1]@ == "Autmag"@
    &&& r.originating_system@.len() == 1
    &&& r.originating_system@[0]@ == "SIL picks"@
}

impl SkjalftalisaRequest {
    /// A request over the given exterior ring with every filter at its
    /// documented default. The ring is stored in the order supplied,
    /// closure convention included.
    pub fn new(area: Vec<AreaPoint>) -> (r: SkjalftalisaRequest)
        ensures
            r.area@ == area@,
            default_filters(r),
    {
        let mut r = SkjalftalisaRequest::default();
        r.area = area;
        r
    }

    /// Replaces the magnitude bucket bounds; no `min <= max` validation is
    /// performed, mirroring the permissive defaults policy.
    pub fn with_size(self, min: i64, max: i64) -> (r: Self)
        ensures
            r.size_min == min,
            r.size_max == max,
            r.area == self.area,
            r.depth_min == self.depth_min,
            r.depth_max == self.depth_max,
            r.start_time == self.start_time,
            r.end_time == self.end_time,
            r.event_type == self.event_type,
            r.fields == self.fields,
            r.magnitude_preference == self.magnitude_preference,
            r.originating_system == self.originating_system,
    {
        let mut r = self;
        r.size_min = min;
        r.size_max = max;
        r
    }

    /// Replaces the depth bounds (kilometers); no `min <= max` validation is
    /// performed, mirroring the permissive defaults policy.
    pub fn with_depth(self, min: i64, max: i64) -> (r: Self)
        ensures
            r.depth_min == min,
            r.depth_max == max,
            r.area == self.area,
            r.size_min == self.size_min,
            r.size_max == self.size_max,
            r.start_time == self.start_time,
            r.end_time == self.end_time,
            r.event_type == self.event_type,
            r.fields == self.fields,
            r.magnitude_preference == self.magnitude_preference,
            r.originating_system == self.originating_system,
    {
        let mut r = self;
        r.depth_min = min;
        r.depth_max = max;
        r
    }

    /// Replaces the time window with the two instants rendered as
    /// `YYYY-MM-DD HH:MM:SS`. Only the whole seconds of each instant enter
    /// the rendering: sub-second precision is truncated, and the fixed
    /// format carries no timezone designator.
    pub fn with_time(self, start: UtcTimestamp, end: UtcTimestamp) -> (r: Self)
        requires
            0 <= start.secs <= MAX_FORMAT_SECS,
            0 <= end.secs <= MAX_FORMAT_SECS,
        ensures
            r.start_time@ == utc_string_of(start.secs as int),
            r.end_time@ == utc_string_of(end.secs as int),
            r.start_time@.len() == 19,
            r.end_time@.len() == 19,
            forall|j: int| 0 <= j < 19 ==> timestamp_char_ok(r.start_time@[j], j),
            forall|j: int| 0 <= j < 19 ==> timestamp_char_ok(r.end_time@[j], j),
            r.area == self.area,
            r.depth_min == self.depth_min,
            r.depth_max == self.depth_max,
            r.size_min == self.size_min,
            r.size_max == self.size_max,
            r.event_type == self.event_type,
            r.fields == self.fields,
            r.magnitude_preference == self.magnitude_preference,
            r.originating_system == self.originating_system,
    {
        let mut r = self;
        r.start_time = format_utc_secs(start.secs);
        r.end_time = format_utc_secs(end.secs);
        r
    }
}

impl Default for SkjalftalisaRequest {
    /// The empty-area request with every filter at its documented default.
    fn default() -> (r: SkjalftalisaRequest)
        ensures
            r.area@.len() == 0,
            default_filters(r),
    {
        let mut event_type: Vec<String> = Vec::new();
        event_type.push("qu".to_owned());
        let mut fields: Vec<String> = Vec::new();
        fields.push("time".to_owned());
        fields.push("lat".to_owned());
        fields.push("long".to_owned());
        fields.push("depth".to_owned());
        fields.push("magnitude".to_owned());
        fields.push("magnitude_type".to_owned());
        fields.push("originating_system".to_owned());
        let mut magnitude_preference: Vec<String> = Vec::new();
        magnitude_preference.push("Mlw".to_owned());
        magnitude_preference.push("Autmag".to_owned());
        let mut originating_system: Vec<String> = Vec::new();
        originating_system.push("SIL picks".to_owned());
        SkjalftalisaRequest {
            area: Vec::new(),
            depth_min: 0,
            depth_max: 25,
            size_min: 0,
            size_max: 11,
            start_time: "1970-01-01 00:00:00".to_owned(),
            end_time: "2030-12-31 23:59:59".to_owned(),
            event_type,
            fields,
            magnitude_preference,
            originating_system,
        }
    }
}

} // verus!
