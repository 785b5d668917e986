//! Subtitle synchronization: which text is shown at a playback position.

use crate::devices::types::PositionInfo;
use crate::error::Error;
use crate::media::subtitle_parse::{
    entry_views, is_file_outcome, parse_subtitle_file, SubtitleEntry, SubtitleEntryView,
};
use crate::utils::time::{time_ms, time_str_to_milliseconds};
use vstd::prelude::*;
use vstd::string::*;

verus! {

/// Whether a position lies within an entry, both ends included.
pub open spec fn covers(entry: SubtitleEntryView, position_ms: u64) -> bool {
    entry.start_time <= position_ms <= entry.end_time
}

/// The first entry that a position lies within, if any.
pub open spec fn active_entry(entries: Seq<SubtitleEntryView>, position_ms: u64) -> Option<
    SubtitleEntryView,
>
    decreases entries.len(),
{
    if entries.len() == 0 {
        None
    } else if covers(entries[0], position_ms) {
        Some(entries[0])
    } else {
        active_entry(entries.drop_first(), position_ms)
    }
}

/// The text shown at a position: that of the first entry the position lies
/// within, or nothing.
pub open spec fn active_text(entries: Seq<SubtitleEntryView>, position_ms: u64) -> Seq<char> {
    match active_entry(entries, position_ms) {
        Some(e) => e.text,
        None => Seq::<char>::empty(),
    }
}

/// The text shown at a position.
pub fn lookup(entries: &Vec<SubtitleEntry>, position_ms: u64) -> (r: Option<&String>)
    ensures
        match r {
            Some(t) => active_entry(entry_views(entries@), position_ms).is_some() && t@
                == active_entry(entry_views(entries@), position_ms).unwrap().text,
            None => active_entry(entry_views(entries@), position_ms).is_none(),
        },
{
    let ghost all = entry_views(entries@);
    let mut i: usize = 0;
    assert(all.skip(0) == all);
    while i < entries.len()
        invariant
            i <= entries.len(),
            all == entry_views(entries@),
            active_entry(all, position_ms) == active_entry(all.skip(i as int), position_ms),
        decreases entries.len() - i,
    {
        proof {
            assert(all.skip(i as int)[0] == entries[i as int]@);
            assert(all.skip(i as int).drop_first() == all.skip(i + 1));
        }
        let entry = &entries[i];
        if position_ms >= entry.start_time && position_ms <= entry.end_time {
            return Some(&entry.text);
        }
        i += 1;
    }
    proof {
        assert(all.skip(i as int).len() == 0);
    }
    None
}

/// Subtitle synchronizer: the entries of one subtitle file
#[derive(Debug, Clone)]
pub struct SubtitleSyncer {
    /// List of parsed subtitle entries
    entries: Vec<SubtitleEntry>,
}

impl View for SubtitleSyncer {
    type V = Seq<SubtitleEntryView>;

    closed spec fn view(&self) -> Seq<SubtitleEntryView> {
        entry_views(self.entries@)
    }
}

impl SubtitleSyncer {
    /// Creates a subtitle synchronizer from the path and the text of a
    /// subtitle file
    pub fn new(subtitle_path: &str, text: &str) -> (r: Result<Self, Error>)
        ensures
            is_file_outcome(
                subtitle_path@,
                text@,
                match r {
                    Ok(s) => Ok(s@),
                    Err(e) => Err(e),
                },
            ),
    {
        match parse_subtitle_file(subtitle_path, text) {
            Ok(entries) => Ok(SubtitleSyncer { entries }),
            Err(e) => Err(e),
        }
    }

    /// Creates a subtitle synchronizer from entries
    pub fn from_entries(entries: Vec<SubtitleEntry>) -> (s: Self)
        ensures
            s@ == entry_views(entries@),
    {
        SubtitleSyncer { entries }
    }

    /// Gets the current subtitle content based on playback time; empty
    /// where no entry covers the position
    pub fn get_current_subtitle(&self, position_ms: u64) -> (r: String)
        ensures
            r@ == active_text(self@, position_ms),
    {
        match lookup(&self.entries, position_ms) {
            Some(t) => t.clone(),
            None => String::new(),
        }
    }

    /// The text for the clipboard at a position that the renderer reported
    /// as a time string
    pub fn subtitle_at(&self, rel_time: &str) -> (r: String)
        ensures
            r@ == active_text(self@, time_ms(rel_time@)),
    {
        self.get_current_subtitle(time_str_to_milliseconds(rel_time))
    }

    /// Gets all entries
    pub fn entries(&self) -> (r: &Vec<SubtitleEntry>)
        ensures
            entry_views(r@) == self@,
    {
        &self.entries
    }

    /// Returns the number of entries
    pub fn len(&self) -> (n: usize)
        ensures
            n == self@.len(),
    {
        self.entries.len()
    }

    /// Returns true if there are no entries
    pub fn is_empty(&self) -> (r: bool)
        ensures
            r == (self@.len() == 0),
    {
        self.entries.len() == 0
    }
}

/// What one tick of the subtitle clock comes to, given the answer to the
/// position request: the text to put on the clipboard, or nothing where the
/// request failed. A tick never ends the session.
pub fn on_tick(syncer: &SubtitleSyncer, position: &Result<PositionInfo, Error>) -> (r: Option<
    String,
>)
    ensures
        match (position, r) {
            (Ok(p), Some(text)) => text@ == active_text(syncer@, time_ms(p.rel_time@)),
            (Err(_), None) => true,
            _ => false,
        },
{
    match position {
        Ok(p) => Some(syncer.subtitle_at(p.rel_time.as_str())),
        Err(_) => None,
    }
}

} // verus!
