//! Reading subtitle files: the container format is told from the file
//! name, or else from how the text starts; the text is parsed by the
//! `aspasia` crate; and every timed event becomes one entry.

use crate::digits::is_digit;
use crate::error::Error;
use crate::media::subtitle_text::{clean_subtitle_text, cleaned};
use crate::text::{chars_of, is_text};
use crate::text::ascii_lower;
use crate::utils::path::extension;
use crate::utils::path::path_extension;
use vstd::prelude::*;
use vstd::string::*;

verus! {

/// The container formats that are read.
#[derive(Debug, Clone, Copy, PartialEq, Eq, Structural)]
pub enum SubtitleFormat {
    /// Advanced SubStation Alpha (.ass)
    Ass,
    /// MicroDVD (.sub)
    MicroDvd,
    /// SubStation Alpha (.ssa)
    Ssa,
    /// SubRip (.srt)
    SubRip,
    /// WebVTT (.vtt)
    WebVtt,
}

/// One event as the parser hands it out: start and end in milliseconds,
/// which may be negative, and the text as written.
#[derive(Debug, Clone)]
pub struct TimedEvent {
    pub start: i64,
    pub end: i64,
    pub text: String,
}

/// Subtitle entry containing timing and text information
#[derive(Debug, Clone)]
pub struct SubtitleEntry {
    /// Start time in milliseconds
    pub start_time: u64,
    /// End time in milliseconds
    pub end_time: u64,
    /// Subtitle text content
    pub text: String,
}

/// A `SubtitleEntry` with its text as a text.
pub struct SubtitleEntryView {
    pub start_time: u64,
    pub end_time: u64,
    pub text: Seq<char>,
}

impl View for SubtitleEntry {
    type V = SubtitleEntryView;

    open spec fn view(&self) -> SubtitleEntryView {
        SubtitleEntryView { start_time: self.start_time, end_time: self.end_time, text: self.text@ }
    }
}

/// The views of a list of entries.
pub open spec fn entry_views(entries: Seq<SubtitleEntry>) -> Seq<SubtitleEntryView> {
    Seq::new(entries.len(), |i: int| entries[i]@)
}

/// What a list of events is as plain values.
pub open spec fn event_values(events: Seq<TimedEvent>) -> Seq<(i64, i64, Seq<char>)> {
    Seq::new(events.len(), |i: int| (events[i].start, events[i].end, events[i].text@))
}

/// A time in milliseconds with what lies before zero cut off.
pub open spec fn clamped(ms: i64) -> u64 {
    if ms < 0 {
        0
    } else {
        ms as u64
    }
}

/// The entry that an event becomes: its times cut off at zero, its text
/// cleaned.
pub open spec fn entry_of(event: (i64, i64, Seq<char>)) -> SubtitleEntryView {
    SubtitleEntryView {
        start_time: clamped(event.0),
        end_time: clamped(event.1),
        text: cleaned(event.2),
    }
}

/// The entries that a list of events becomes, one for each, in order.
pub open spec fn entries_of(events: Seq<(i64, i64, Seq<char>)>) -> Seq<SubtitleEntryView> {
    Seq::new(events.len(), |i: int| entry_of(events[i]))
}

/// Turns the events of a subtitle file into entries.
pub fn entries_from_events(events: &Vec<TimedEvent>) -> (r: Vec<SubtitleEntry>)
    ensures
        entry_views(r@) == entries_of(event_values(events@)),
{
    let mut r: Vec<SubtitleEntry> = Vec::new();
    let mut i: usize = 0;
    while i < events.len()
        invariant
            i <= events.len(),
            r.len() == i,
            forall|k: int|
                0 <= k < i ==> (#[trigger] r[k])@ == entry_of(event_values(events@)[k]),
        decreases events.len() - i,
    {
        let event = &events[i];
        let start_time: u64 = if event.start < 0 {
            0
        } else {
            event.start as u64
        };
        let end_time: u64 = if event.end < 0 {
            0
        } else {
            event.end as u64
        };
        r.push(SubtitleEntry { start_time, end_time, text: clean_subtitle_text(event.text.as_str()) });
        i += 1;
    }
    assert(entry_views(r@) =~= entries_of(event_values(events@)));
    r
}

/// Whether a character is a sign.
pub open spec fn is_sign(c: char) -> bool {
    c == '+' || c == '-'
}

/// Whether a character parts the seconds of a timestamp from what follows
/// them.
pub open spec fn is_fraction_mark(c: char) -> bool {
    c == ',' || c == '.'
}

/// Whether the characters of a text from `from` up to `to` are a whole run
/// of digits: digits all, with no digit directly before or behind them.
pub open spec fn is_whole_run(s: Seq<char>, from: int, to: int) -> bool {
    &&& 0 <= from < to <= s.len()
    &&& forall|k: int| from <= k < to ==> is_digit(#[trigger] s[k])
    &&& (from == 0 || !is_digit(s[from - 1]))
    &&& (to == s.len() || !is_digit(s[to]))
}

/// Where the run of digits starts that ends directly before `end`; `end`
/// itself where no digit stands there.
pub open spec fn run_start(s: Seq<char>, end: int) -> int
    decreases end,
{
    if 0 < end <= s.len() && is_digit(s[end - 1]) {
        run_start(s, end - 1)
    } else {
        end
    }
}

/// Whether `c` stands directly before position `at`, or directly before a
/// sign that does.
pub open spec fn stands_behind(s: Seq<char>, at: int, c: char) -> bool {
    ||| (1 <= at <= s.len() && s[at - 1] == c)
    ||| (2 <= at <= s.len() && is_sign(s[at - 1]) && s[at - 2] == c)
}

/// Where the fraction mark stands that position `at` stands behind, with or
/// without a sign between; -1 where there is none.
pub open spec fn fraction_mark_before(s: Seq<char>, at: int) -> int {
    if 1 <= at <= s.len() && is_fraction_mark(s[at - 1]) {
        at - 1
    } else if 2 <= at <= s.len() && is_sign(s[at - 1]) && is_fraction_mark(s[at - 2]) {
        at - 2
    } else {
        -1
    }
}

/// Whether the last number of a timestamp may start at `at`: behind a
/// fraction mark that directly follows a number which stands behind `:`.
pub open spec fn ends_timestamp(s: Seq<char>, at: int) -> bool {
    let mark = fraction_mark_before(s, at);
    mark >= 0 && run_start(s, mark) < mark && stands_behind(s, run_start(s, mark), ':')
}

/// Whether a run of digits stands where a parser may read it as a number of
/// a timestamp or as a frame number. The numbers of a timestamp are written
/// `h:m:s,f` or `h:m:s.f` or `m:s.f`, each with or without a sign, so such a
/// run stands directly before `:`, or behind `:`, or behind the fraction
/// mark that follows a number behind `:`. A frame number stands between `{`
/// and `}`.
pub open spec fn in_number_place(s: Seq<char>, from: int, to: int) -> bool {
    ||| (to < s.len() && s[to] == ':')
    ||| stands_behind(s, from, ':')
    ||| ends_timestamp(s, from)
    ||| (stands_behind(s, from, '{') && to < s.len() && s[to] == '}')
}

/// Whether no run of more than `limit` digits stands where a parser may
/// read it as a number. A long run elsewhere, as in the text of a caption,
/// does not count.
pub open spec fn numbers_bounded(s: Seq<char>, limit: nat) -> bool {
    forall|from: int, to: int|
        #[trigger] is_whole_run(s, from, to) && in_number_place(s, from, to) ==> to - from
            <= limit
}

/// The longest run of digits for which times are computed without
/// overflow.
pub const MAX_DIGIT_RUN: usize = 12;

fn is_sign_char(c: char) -> (r: bool)
    ensures
        r == is_sign(c),
{
    c == '+' || c == '-'
}

fn is_behind(v: &Vec<char>, at: usize, c: char) -> (r: bool)
    requires
        at <= v.len(),
    ensures
        r == stands_behind(v@, at as int, c),
{
    (at >= 1 && v[at - 1] == c) || (at >= 2 && is_sign_char(v[at - 1]) && v[at - 2] == c)
}

fn start_of_run(v: &Vec<char>, end: usize) -> (r: usize)
    requires
        end <= v.len(),
    ensures
        r == run_start(v@, end as int),
        r <= end,
{
    let mut k: usize = end;
    while k > 0 && crate::digits::is_digit_char(v[k - 1])
        invariant
            k <= end <= v.len(),
            run_start(v@, end as int) == run_start(v@, k as int),
        decreases k,
    {
        k -= 1;
    }
    k
}

fn may_end_timestamp(v: &Vec<char>, at: usize) -> (r: bool)
    requires
        at <= v.len(),
    ensures
        r == ends_timestamp(v@, at as int),
{
    let mark: usize = if at >= 1 && (v[at - 1] == ',' || v[at - 1] == '.') {
        at - 1
    } else if at >= 2 && is_sign_char(v[at - 1]) && (v[at - 2] == ',' || v[at - 2] == '.') {
        at - 2
    } else {
        return false;
    };
    let start = start_of_run(v, mark);
    start < mark && is_behind(v, start, ':')
}

fn stands_as_number(v: &Vec<char>, from: usize, to: usize) -> (r: bool)
    requires
        from < to <= v.len(),
    ensures
        r == in_number_place(v@, from as int, to as int),
{
    if to < v.len() && v[to] == ':' {
        return true;
    }
    if is_behind(v, from, ':') {
        return true;
    }
    if may_end_timestamp(v, from) {
        return true;
    }
    is_behind(v, from, '{') && to < v.len() && v[to] == '}'
}

/// Checks that no run of more than `limit` digits stands where a parser
/// may read it as a number.
pub fn has_bounded_numbers(v: &Vec<char>, limit: usize) -> (r: bool)
    ensures
        r == numbers_bounded(v@, limit as nat),
{
    let len = v.len();
    let mut i: usize = 0;
    while i < len
        invariant
            i <= len == v.len(),
            i == 0 || i == len || !is_digit(v@[i - 1]) || !is_digit(v@[i as int]),
            forall|from: int, to: int|
                #[trigger] is_whole_run(v@, from, to) && to <= i && in_number_place(v@, from, to)
                    ==> to - from <= limit,
        decreases len - i,
    {
        if !crate::digits::is_digit_char(v[i]) {
            i += 1;
        } else {
            let mut j: usize = i + 1;
            while j < len && crate::digits::is_digit_char(v[j])
                invariant
                    i < j <= len == v.len(),
                    forall|k: int| i <= k < j ==> is_digit(#[trigger] v@[k]),
                decreases len - j,
            {
                j += 1;
            }
            assert(is_whole_run(v@, i as int, j as int));
            if j - i > limit && stands_as_number(v, i, j) {
                return false;
            }
            proof {
                assert forall|from: int, to: int|
                    #[trigger] is_whole_run(v@, from, to) && to <= j && in_number_place(
                        v@,
                        from,
                        to,
                    ) implies to - from <= limit by {
                    if to > i {
                        // the run reaches into the one just read, so it is that run
                        assert(is_digit(v@[to - 1]));
                        if to < j {
                            assert(is_digit(v@[to]));
                        }
                        if from > i {
                            assert(is_digit(v@[from - 1]));
                        }
                        if from < i {
                            assert(is_digit(v@[i - 1]));
                        }
                        assert(from == i && to == j);
                    }
                }
            }
            i = j;
        }
    }
    true
}

/// What `<aspasia::SubRipSubtitle as FromStr>::from_str` makes of a text:
/// its events, or what its error displays.
pub uninterp spec fn subrip_events(text: Seq<char>) -> Result<Seq<(i64, i64, Seq<char>)>, Seq<char>>;

/// What `<aspasia::WebVttSubtitle as FromStr>::from_str` makes of a text.
pub uninterp spec fn webvtt_events(text: Seq<char>) -> Result<Seq<(i64, i64, Seq<char>)>, Seq<char>>;

/// What `<aspasia::AssSubtitle as FromStr>::from_str` makes of a text.
pub uninterp spec fn ass_events(text: Seq<char>) -> Result<Seq<(i64, i64, Seq<char>)>, Seq<char>>;

/// What `<aspasia::SsaSubtitle as FromStr>::from_str` makes of a text.
pub uninterp spec fn ssa_events(text: Seq<char>) -> Result<Seq<(i64, i64, Seq<char>)>, Seq<char>>;

/// What `<aspasia::TimedMicroDvdSubtitle as FromStr>::from_str` makes of a
/// text.
pub uninterp spec fn microdvd_events(text: Seq<char>) -> Result<
    Seq<(i64, i64, Seq<char>)>,
    Seq<char>,
>;

/// What `aspasia::detect_format_from_str` makes of a text: the format it
/// tells, or nothing where it tells none.
pub uninterp spec fn detected_format(text: Seq<char>) -> Option<SubtitleFormat>;

/// Whether a parser's answer is what became of it as plain values.
pub open spec fn is_outcome(
    r: Result<Vec<TimedEvent>, String>,
    named: Result<Seq<(i64, i64, Seq<char>)>, Seq<char>>,
) -> bool {
    match r {
        Ok(events) => named == Ok::<Seq<(i64, i64, Seq<char>)>, Seq<char>>(event_values(events@)),
        Err(e) => named == Err::<Seq<(i64, i64, Seq<char>)>, Seq<char>>(e@),
    }
}

/// Calls `<aspasia::SubRipSubtitle as FromStr>::from_str` and hands out
/// start, end and text of each event. The parser multiplies the numbers of
/// a timestamp `h:m:s,f` as `i64`, so none of them may be a run of digits
/// long enough to overflow.
#[verifier::external_body]
fn parse_subrip(text: &str) -> (r: Result<Vec<TimedEvent>, String>)
    requires
        numbers_bounded(text@, MAX_DIGIT_RUN as nat),
    ensures
        is_outcome(r, subrip_events(text@)),
{
    match text.parse::<aspasia::SubRipSubtitle>() {
        Ok(s) => Ok(
            aspasia::Subtitle::events(&s).iter().map(
                |e| TimedEvent { start: e.start.into(), end: e.end.into(), text: e.text.clone() },
            ).collect(),
        ),
        Err(e) => Err(e.to_string()),
    }
}

/// Calls `<aspasia::WebVttSubtitle as FromStr>::from_str` and hands out
/// start, end and text of each event. The parser multiplies the numbers of
/// a timestamp `h:m:s.f` or `m:s.f` as `i64`, so none of them may be a run
/// of digits long enough to overflow.
#[verifier::external_body]
fn parse_webvtt(text: &str) -> (r: Result<Vec<TimedEvent>, String>)
    requires
        numbers_bounded(text@, MAX_DIGIT_RUN as nat),
    ensures
        is_outcome(r, webvtt_events(text@)),
{
    match text.parse::<aspasia::WebVttSubtitle>() {
        Ok(s) => Ok(
            aspasia::Subtitle::events(&s).iter().map(
                |e| TimedEvent { start: e.start.into(), end: e.end.into(), text: e.text.clone() },
            ).collect(),
        ),
        Err(e) => Err(e.to_string()),
    }
}

/// Calls `<aspasia::AssSubtitle as FromStr>::from_str` and hands out
/// start, end and text of each event. The parser multiplies the numbers of
/// a timestamp `h:m:s.f` as `i64`, so none of them may be a run of digits
/// long enough to overflow.
#[verifier::external_body]
fn parse_ass(text: &str) -> (r: Result<Vec<TimedEvent>, String>)
    requires
        numbers_bounded(text@, MAX_DIGIT_RUN as nat),
    ensures
        is_outcome(r, ass_events(text@)),
{
    match text.parse::<aspasia::AssSubtitle>() {
        Ok(s) => Ok(
            aspasia::Subtitle::events(&s).iter().map(
                |e| TimedEvent { start: e.start.into(), end: e.end.into(), text: e.text.clone() },
            ).collect(),
        ),
        Err(e) => Err(e.to_string()),
    }
}

/// Calls `<aspasia::SsaSubtitle as FromStr>::from_str` and hands out
/// start, end and text of each event. The parser multiplies the numbers of
/// a timestamp `h:m:s.f` as `i64`, so none of them may be a run of digits
/// long enough to overflow.
#[verifier::external_body]
fn parse_ssa(text: &str) -> (r: Result<Vec<TimedEvent>, String>)
    requires
        numbers_bounded(text@, MAX_DIGIT_RUN as nat),
    ensures
        is_outcome(r, ssa_events(text@)),
{
    match text.parse::<aspasia::SsaSubtitle>() {
        Ok(s) => Ok(
            aspasia::Subtitle::events(&s).iter().map(
                |e| TimedEvent { start: e.start.into(), end: e.end.into(), text: e.text.clone() },
            ).collect(),
        ),
        Err(e) => Err(e.to_string()),
    }
}

/// Calls `<aspasia::TimedMicroDvdSubtitle as FromStr>::from_str`, which
/// times the frames at 24 per second, and hands out start, end and text of
/// each event. The parser multiplies a frame number, which stands between
/// `{` and `}`, as `i64`, so none may be a run of digits long enough to
/// overflow.
#[verifier::external_body]
fn parse_microdvd(text: &str) -> (r: Result<Vec<TimedEvent>, String>)
    requires
        numbers_bounded(text@, MAX_DIGIT_RUN as nat),
    ensures
        is_outcome(r, microdvd_events(text@)),
{
    match text.parse::<aspasia::TimedMicroDvdSubtitle>() {
        Ok(s) => Ok(
            aspasia::Subtitle::events(&s).iter().map(
                |e| TimedEvent { start: e.start.into(), end: e.end.into(), text: e.text.clone() },
            ).collect(),
        ),
        Err(e) => Err(e.to_string()),
    }
}

/// Calls `aspasia::detect_format_from_str`, which tries the start of each
/// format in turn on the text. The probe for SubRip reads a timestamp
/// `h:m:s,f`, so none of its numbers may be a run of digits long enough to
/// overflow.
#[verifier::external_body]
fn detect_from_text(text: &str) -> (r: Option<SubtitleFormat>)
    requires
        numbers_bounded(text@, MAX_DIGIT_RUN as nat),
    ensures
        r == detected_format(text@),
{
    match aspasia::detect_format_from_str(text) {
        Ok(aspasia::Format::Ass) => Some(SubtitleFormat::Ass),
        Ok(aspasia::Format::MicroDvd) => Some(SubtitleFormat::MicroDvd),
        Ok(aspasia::Format::Ssa) => Some(SubtitleFormat::Ssa),
        Ok(aspasia::Format::SubRip) => Some(SubtitleFormat::SubRip),
        Ok(aspasia::Format::WebVtt) => Some(SubtitleFormat::WebVtt),
        Err(_) => None,
    }
}

/// The events that the parser of a format makes of a text.
pub open spec fn events_in(format: SubtitleFormat, text: Seq<char>) -> Result<
    Seq<(i64, i64, Seq<char>)>,
    Seq<char>,
> {
    match format {
        SubtitleFormat::Ass => ass_events(text),
        SubtitleFormat::MicroDvd => microdvd_events(text),
        SubtitleFormat::Ssa => ssa_events(text),
        SubtitleFormat::SubRip => subrip_events(text),
        SubtitleFormat::WebVtt => webvtt_events(text),
    }
}

/// The format that the extension of a path names, if any. Only ASCII
/// capitals count as their small letters here, as in the parser's own
/// detection by extension.
pub open spec fn format_of_extension(path: Seq<char>) -> Option<SubtitleFormat> {
    let e = match extension(path) {
        Some(e) => ascii_lower(e),
        None => Seq::<char>::empty(),
    };
    if e == "ass"@ {
        Some(SubtitleFormat::Ass)
    } else if e == "ssa"@ {
        Some(SubtitleFormat::Ssa)
    } else if e == "srt"@ {
        Some(SubtitleFormat::SubRip)
    } else if e == "sub"@ {
        Some(SubtitleFormat::MicroDvd)
    } else if e == "vtt"@ {
        Some(SubtitleFormat::WebVtt)
    } else {
        None
    }
}

/// The format of a subtitle file: what its extension names, or else what
/// its text is detected as.
pub open spec fn format_of(path: Seq<char>, text: Seq<char>) -> Option<SubtitleFormat> {
    match format_of_extension(path) {
        Some(f) => Some(f),
        None => detected_format(text),
    }
}

/// Tells the format of a subtitle file from its extension.
pub fn detect_format_by_extension(path: &str) -> (r: Option<SubtitleFormat>)
    ensures
        r == format_of_extension(path@),
{
    let e = match path_extension(path) {
        Some(e) => crate::text::to_ascii_lower(&e),
        None => Vec::new(),
    };
    if is_text(&e, "ass") {
        Some(SubtitleFormat::Ass)
    } else if is_text(&e, "ssa") {
        Some(SubtitleFormat::Ssa)
    } else if is_text(&e, "srt") {
        Some(SubtitleFormat::SubRip)
    } else if is_text(&e, "sub") {
        Some(SubtitleFormat::MicroDvd)
    } else if is_text(&e, "vtt") {
        Some(SubtitleFormat::WebVtt)
    } else {
        None
    }
}

/// The error for a subtitle file that could not be read.
pub open spec fn is_parse_error(e: Error, path: Seq<char>, why: Seq<char>) -> bool {
    e matches Error::SubtitleSyncError { message, context } && message@
        == "Failed to parse subtitle file: "@ + why && context@ == "Parsing file: "@ + path
}

fn parse_error(path: &str, why: &str) -> (e: Error)
    ensures
        is_parse_error(e, path@, why@),
{
    let mut message = String::from_str("Failed to parse subtitle file: ");
    message.append(why);
    let mut context = String::from_str("Parsing file: ");
    context.append(path);
    Error::SubtitleSyncError { message, context }
}

/// What reading a subtitle file comes to, given what the parser made of its
/// text: the entries of its events, or an error that names the file.
pub fn entries_from_outcome(path: &str, outcome: Result<Vec<TimedEvent>, String>) -> (r: Result<
    Vec<SubtitleEntry>,
    Error,
>)
    ensures
        match (outcome, r) {
            (Ok(events), Ok(entries)) => entry_views(entries@) == entries_of(
                event_values(events@),
            ),
            (Err(why), Err(e)) => is_parse_error(e, path@, why@),
            _ => false,
        },
{
    match outcome {
        Ok(events) => Ok(entries_from_events(&events)),
        Err(why) => Err(parse_error(path, why.as_str())),
    }
}

/// Parses the text of a subtitle file in a given format.
///
/// The parsers compute times in 64 bits. A text is refused where a run of
/// more than twelve digits stands in the place of a number of a timestamp
/// or of a frame number, as `in_number_place` says. A long run elsewhere,
/// as in the text of a caption, is no obstacle.
pub fn parse_subtitle_text(format: SubtitleFormat, path: &str, text: &str) -> (r: Result<
    Vec<SubtitleEntry>,
    Error,
>)
    ensures
        match r {
            Ok(entries) => numbers_bounded(text@, MAX_DIGIT_RUN as nat) && (events_in(
                format,
                text@,
            ) matches Ok(events) && entry_views(entries@) == entries_of(events)),
            Err(e) => if !numbers_bounded(text@, MAX_DIGIT_RUN as nat) {
                is_parse_error(e, path@, "timestamp out of range"@)
            } else {
                events_in(format, text@) matches Err(why) && is_parse_error(e, path@, why)
            },
        },
{
    let v = chars_of(text);
    if !has_bounded_numbers(&v, MAX_DIGIT_RUN) {
        return Err(parse_error(path, "timestamp out of range"));
    }
    let outcome = match format {
        SubtitleFormat::Ass => parse_ass(text),
        SubtitleFormat::MicroDvd => parse_microdvd(text),
        SubtitleFormat::Ssa => parse_ssa(text),
        SubtitleFormat::SubRip => parse_subrip(text),
        SubtitleFormat::WebVtt => parse_webvtt(text),
    };
    entries_from_outcome(path, outcome)
}

/// Whether `outcome` is what reading a subtitle file with this path and
/// text comes to: the entries of the events that the parser of its format
/// makes of the text, or the error for the first thing that stands against
/// it: a run of digits too long in the place of a number, a format that
/// cannot be told, or what the parser says.
pub open spec fn is_file_outcome(
    path: Seq<char>,
    text: Seq<char>,
    outcome: Result<Seq<SubtitleEntryView>, Error>,
) -> bool {
    if !numbers_bounded(text, MAX_DIGIT_RUN as nat) {
        outcome matches Err(e) && is_parse_error(e, path, "timestamp out of range"@)
    } else {
        match format_of(path, text) {
            None => outcome matches Err(e) && is_parse_error(
                e,
                path,
                "could not detect subtitle format automatically"@,
            ),
            Some(format) => match events_in(format, text) {
                Ok(events) => outcome matches Ok(entries) && entries == entries_of(events),
                Err(why) => outcome matches Err(e) && is_parse_error(e, path, why),
            },
        }
    }
}

/// Parses a subtitle file, given its path and its text, and returns a list
/// of subtitle entries.
///
/// The format is told from the extension of the path, or else from the
/// text. A text is refused where a run of more than twelve digits stands in
/// the place of a number of a timestamp or of a frame number.
pub fn parse_subtitle_file(path: &str, text: &str) -> (r: Result<Vec<SubtitleEntry>, Error>)
    ensures
        is_file_outcome(
            path@,
            text@,
            match r {
                Ok(entries) => Ok(entry_views(entries@)),
                Err(e) => Err(e),
            },
        ),
{
    let v = chars_of(text);
    if !has_bounded_numbers(&v, MAX_DIGIT_RUN) {
        return Err(parse_error(path, "timestamp out of range"));
    }
    let format = match detect_format_by_extension(path) {
        Some(f) => Some(f),
        None => detect_from_text(text),
    };
    match format {
        Some(f) => parse_subtitle_text(f, path, text),
        None => Err(parse_error(path, "could not detect subtitle format automatically")),
    }
}

} // verus!
