//! Types shared across the crate.

use vstd::prelude::*;
use vstd::string::*;

verus! {

/// Supported subtitle types
#[derive(Debug, Clone, Copy, PartialEq, Eq, Structural)]
pub enum SubtitleType {
    /// SubRip subtitle format
    Srt,
    /// Advanced SubStation Alpha subtitle format
    Ass,
    /// SubStation Alpha subtitle format
    Ssa,
}

impl SubtitleType {
    /// The file extension of the subtitle type, as text.
    pub open spec fn extension_text(self) -> Seq<char> {
        match self {
            SubtitleType::Srt => "srt"@,
            SubtitleType::Ass => "ass"@,
            SubtitleType::Ssa => "ssa"@,
        }
    }

    /// The MIME type of the subtitle type, as text.
    pub open spec fn mime_text(self) -> Seq<char> {
        match self {
            SubtitleType::Srt => "text/srt"@,
            SubtitleType::Ass => "text/x-ass"@,
            SubtitleType::Ssa => "text/x-ssa"@,
        }
    }

    /// All subtitle types in order of preference.
    pub open spec fn ordered() -> Seq<SubtitleType> {
        seq![SubtitleType::Srt, SubtitleType::Ass, SubtitleType::Ssa]
    }

    /// Returns the file extension for the subtitle type
    pub fn extension(&self) -> (r: &'static str)
        ensures
            r@ == self.extension_text(),
    {
        match self {
            SubtitleType::Srt => "srt",
            SubtitleType::Ass => "ass",
            SubtitleType::Ssa => "ssa",
        }
    }

    /// Returns the MIME type for the subtitle type
    pub fn mime_type(&self) -> (r: &'static str)
        ensures
            r@ == self.mime_text(),
    {
        match self {
            SubtitleType::Srt => "text/srt",
            SubtitleType::Ass => "text/x-ass",
            SubtitleType::Ssa => "text/x-ssa",
        }
    }

    /// Returns all supported subtitle types in order of preference
    pub fn all() -> (v: Vec<SubtitleType>)
        ensures
            v@ == Self::ordered(),
    {
        let mut v: Vec<SubtitleType> = Vec::new();
        v.push(SubtitleType::Srt);
        v.push(SubtitleType::Ass);
        v.push(SubtitleType::Ssa);
        v
    }

    /// The subtitle type written out: its file extension.
    pub fn to_string(&self) -> (s: String)
        ensures
            s@ == self.extension_text(),
    {
        String::from_str(self.extension())
    }
}

/// The three extensions are three different texts.
pub proof fn lemma_extensions_differ()
    ensures
        forall|a: SubtitleType, b: SubtitleType|
            a.extension_text() == b.extension_text() ==> a == b,
{
    reveal_strlit("srt");
    reveal_strlit("ass");
    reveal_strlit("ssa");
    assert("srt"@[1] != "ass"@[1]);
    assert("srt"@[0] != "ass"@[0]);
    assert("ass"@[0] != "ssa"@[0]);
    assert("srt"@[1] != "ssa"@[1]);
}

} // verus!
