//! Playlists: an ordered list of media files and a cursor that steps
//! through it.
//!
//! A playlist made from a directory holds the supported media files that lie
//! directly in it, sorted by path; subdirectories are not entered.

use crate::error::Error;
use crate::text::chars_of;
use crate::utils::media::{is_media_path, is_supported_media_file};
use crate::utils::path::PathInfo;
use std::collections::VecDeque;
use vstd::prelude::*;
use vstd::string::*;

verus! {

/// Whether text `a` comes before text `b` or equals it, comparing
/// character by character; a text comes after each of its proper prefixes.
pub open spec fn text_le(a: Seq<char>, b: Seq<char>) -> bool
    decreases a.len(),
{
    if a.len() == 0 {
        true
    } else if b.len() == 0 {
        false
    } else if a[0] != b[0] {
        a[0] < b[0]
    } else {
        text_le(a.drop_first(), b.drop_first())
    }
}

/// Of two texts, one comes before the other or equals it.
pub proof fn lemma_text_le_total(a: Seq<char>, b: Seq<char>)
    ensures
        text_le(a, b) || text_le(b, a),
    decreases a.len(),
{
    if a.len() > 0 && b.len() > 0 && a[0] == b[0] {
        lemma_text_le_total(a.drop_first(), b.drop_first());
    }
}

/// Two texts that each come before or equal the other are the same text.
pub proof fn lemma_text_le_antisymmetric(a: Seq<char>, b: Seq<char>)
    requires
        text_le(a, b),
        text_le(b, a),
    ensures
        a == b,
    decreases a.len(),
{
    if a.len() > 0 && b.len() > 0 {
        lemma_text_le_antisymmetric(a.drop_first(), b.drop_first());
        assert(a =~= seq![a[0]] + a.drop_first());
        assert(b =~= seq![b[0]] + b.drop_first());
    } else {
        assert(a =~= b);
    }
}

/// Coming before or being equal carries over.
pub proof fn lemma_text_le_transitive(a: Seq<char>, b: Seq<char>, c: Seq<char>)
    requires
        text_le(a, b),
        text_le(b, c),
    ensures
        text_le(a, c),
    decreases a.len(),
{
    if a.len() > 0 && b.len() > 0 && c.len() > 0 && a[0] == b[0] && b[0] == c[0] {
        lemma_text_le_transitive(a.drop_first(), b.drop_first(), c.drop_first());
    }
}

/// Whether each text of a list comes before or equals the next.
pub open spec fn is_sorted(s: Seq<Seq<char>>) -> bool {
    forall|i: int| 0 <= i < s.len() - 1 ==> text_le(#[trigger] s[i], s[i + 1])
}

/// The texts of a list of strings.
pub open spec fn texts_of(v: Seq<String>) -> Seq<Seq<char>> {
    Seq::new(v.len(), |i: int| v[i]@)
}

fn chars_le(a: &Vec<char>, b: &Vec<char>) -> (r: bool)
    ensures
        r == text_le(a@, b@),
{
    let mut i: usize = 0;
    assert(a@.skip(0) == a@ && b@.skip(0) == b@);
    while i < a.len() && i < b.len()
        invariant
            i <= a.len(),
            i <= b.len(),
            text_le(a@, b@) == text_le(a@.skip(i as int), b@.skip(i as int)),
        decreases a.len() - i,
    {
        proof {
            assert(a@.skip(i as int)[0] == a@[i as int]);
            assert(b@.skip(i as int)[0] == b@[i as int]);
            assert(a@.skip(i as int).drop_first() == a@.skip(i + 1));
            assert(b@.skip(i as int).drop_first() == b@.skip(i + 1));
        }
        if a[i] != b[i] {
            return a[i] < b[i];
        }
        i += 1;
    }
    i == a.len()
}

/// Inserts a string into a sorted list, after the strings that come before
/// it or equal it.
fn insert_sorted(v: &mut Vec<String>, x: String)
    requires
        is_sorted(texts_of(old(v)@)),
    ensures
        is_sorted(texts_of(final(v)@)),
        texts_of(final(v)@).to_multiset() == texts_of(old(v)@).to_multiset().insert(x@),
{
    let xc = chars_of(x.as_str());
    let mut i: usize = 0;
    let mut placed = false;
    while i < v.len() && !placed
        invariant
            i <= v.len(),
            v@ == old(v)@,
            xc@ == x@,
            forall|k: int| 0 <= k < i ==> text_le(#[trigger] texts_of(v@)[k], x@),
            placed ==> i < v.len() && text_le(x@, texts_of(v@)[i as int]),
        decreases v.len() - i, (if placed { 0int } else { 1int }),
    {
        let e = chars_of(v[i].as_str());
        assert(texts_of(v@)[i as int] == e@);
        if chars_le(&e, &xc) {
            i += 1;
        } else {
            proof {
                lemma_text_le_total(e@, xc@);
            }
            placed = true;
        }
    }
    let ghost before = texts_of(v@);
    let ghost x_text = x@;
    v.insert(i, x);
    proof {
        let after = texts_of(v@);
        assert(after =~= before.insert(i as int, x_text));
        assert forall|k: int| 0 <= k < after.len() - 1 implies text_le(
            #[trigger] after[k],
            after[k + 1],
        ) by {
            if k + 1 < i {
                assert(after[k] == before[k] && after[k + 1] == before[k + 1]);
            } else if k + 1 == i {
                assert(after[k] == before[k]);
            } else if k == i {
                assert(after[k] == x_text);
                assert(after[k + 1] == before[k]);
            } else {
                assert(after[k] == before[k - 1] && after[k + 1] == before[k]);
            }
        }
        assert(after.remove(i as int) =~= before);
        broadcast use vstd::seq_lib::group_to_multiset_ensures;

        assert(after.remove(i as int).to_multiset() =~= after.to_multiset().remove(after[i as int]));
        assert(after.to_multiset().count(x_text) > 0) by {
            assert(after[i as int] == x_text);
            assert(after.contains(x_text));
        }
        assert(after.to_multiset() =~= before.to_multiset().insert(x_text));
    }
}

/// The paths of the entries that are files with a supported media
/// extension, in the order of the entries.
pub open spec fn media_files_of(entries: Seq<PathInfo>) -> Seq<Seq<char>>
    decreases entries.len(),
{
    if entries.len() == 0 {
        Seq::empty()
    } else {
        let rest = media_files_of(entries.drop_last());
        if entries.last().is_file && is_media_path(entries.last().path@) {
            rest.push(entries.last().path@)
        } else {
            rest
        }
    }
}

/// Represents a playlist of media files
#[derive(Debug, Clone)]
pub struct Playlist {
    /// List of media files in the playlist
    files: VecDeque<String>,
    /// Current playing index
    current_index: Option<usize>,
    /// Whether to loop the playlist
    loop_playlist: bool,
}

/// A playlist as a value: its files as texts, its cursor, its loop flag.
pub struct PlaylistView {
    pub files: Seq<Seq<char>>,
    pub current_index: Option<usize>,
    pub loop_playlist: bool,
}

impl PlaylistView {
    /// The cursor is unset or points at a file.
    pub open spec fn wf(self) -> bool {
        match self.current_index {
            Some(i) => i < self.files.len(),
            None => true,
        }
    }

    /// The file under the cursor.
    pub open spec fn current(self) -> Option<Seq<char>> {
        match self.current_index {
            Some(i) => if i < self.files.len() {
                Some(self.files[i as int])
            } else {
                None
            },
            None => None,
        }
    }

    /// Where the cursor stands after a step forward. From unset it goes to
    /// the first file; from the last file it goes to the first where the
    /// playlist loops and stays where it does not.
    pub open spec fn next_index(self) -> Option<usize> {
        if self.files.len() == 0 {
            self.current_index
        } else {
            match self.current_index {
                None => Some(0),
                Some(i) => if i + 1 >= self.files.len() {
                    if self.loop_playlist {
                        Some(0)
                    } else {
                        Some(i)
                    }
                } else {
                    Some((i + 1) as usize)
                },
            }
        }
    }

    /// Whether a step forward arrives at a file: the playlist is not empty
    /// and the cursor is not at the last file of a playlist that does not
    /// loop.
    pub open spec fn can_advance(self) -> bool {
        self.files.len() > 0 && match self.current_index {
            None => true,
            Some(i) => i + 1 < self.files.len() || self.loop_playlist,
        }
    }

    /// Where the cursor stands after a step backward. From unset it goes to
    /// the last file; from the first file it goes to the last where the
    /// playlist loops and stays where it does not.
    pub open spec fn previous_index(self) -> Option<usize> {
        if self.files.len() == 0 {
            self.current_index
        } else {
            match self.current_index {
                None => Some((self.files.len() - 1) as usize),
                Some(i) => if i == 0 {
                    if self.loop_playlist {
                        Some((self.files.len() - 1) as usize)
                    } else {
                        Some(i)
                    }
                } else {
                    Some((i - 1) as usize)
                },
            }
        }
    }

    /// Whether a step backward arrives at a file.
    pub open spec fn can_retreat(self) -> bool {
        self.files.len() > 0 && match self.current_index {
            None => true,
            Some(i) => i > 0 || self.loop_playlist,
        }
    }

    /// The playlist after a step forward.
    pub open spec fn advanced(self) -> PlaylistView {
        PlaylistView { current_index: self.next_index(), ..self }
    }

    /// What a step forward returns: the file arrived at, if any.
    pub open spec fn next_file(self) -> Option<Seq<char>> {
        if self.can_advance() {
            self.advanced().current()
        } else {
            None
        }
    }

    /// The playlist after a step backward.
    pub open spec fn retreated(self) -> PlaylistView {
        PlaylistView { current_index: self.previous_index(), ..self }
    }

    /// What a step backward returns: the file arrived at, if any.
    pub open spec fn previous_file(self) -> Option<Seq<char>> {
        if self.can_retreat() {
            self.retreated().current()
        } else {
            None
        }
    }
}

impl View for Playlist {
    type V = PlaylistView;

    closed spec fn view(&self) -> PlaylistView {
        PlaylistView {
            files: Seq::new(self.files@.len(), |i: int| self.files@[i]@),
            current_index: self.current_index,
            loop_playlist: self.loop_playlist,
        }
    }
}

impl Default for Playlist {
    fn default() -> (p: Self)
        ensures
            p@.files.len() == 0,
            p@.current_index.is_none(),
            !p@.loop_playlist,
            p.wf(),
    {
        Playlist::new()
    }
}

impl Playlist {
    /// The cursor is unset or points at a file.
    pub open spec fn wf(&self) -> bool {
        self@.wf()
    }

    /// Creates a new empty playlist
    pub fn new() -> (p: Self)
        ensures
            p@.files.len() == 0,
            p@.current_index.is_none(),
            !p@.loop_playlist,
            p.wf(),
    {
        Playlist { files: VecDeque::new(), current_index: None, loop_playlist: false }
    }

    /// Creates a playlist from a single file that was looked up on disk
    pub fn from_file(file: &PathInfo) -> (r: Result<Self, Error>)
        ensures
            match r {
                Ok(p) => file.exists && is_media_path(file.path@) && p@ == (PlaylistView {
                    files: seq![file.path@],
                    current_index: None,
                    loop_playlist: false,
                }) && p.wf(),
                Err(e) => !(file.exists && is_media_path(file.path@)) && (e matches Error::MediaFileNotFound {
                    path,
                    context,
                } && path@ == file.path@ && context@ == (if !file.exists {
                    "File does not exist"@
                } else {
                    "Unsupported media file format"@
                })),
            },
    {
        if !file.exists {
            return Err(
                Error::MediaFileNotFound {
                    path: file.path.clone(),
                    context: String::from_str("File does not exist"),
                },
            );
        }
        if !is_supported_media_file(file.path.as_str()) {
            return Err(
                Error::MediaFileNotFound {
                    path: file.path.clone(),
                    context: String::from_str("Unsupported media file format"),
                },
            );
        }
        let mut playlist = Playlist::new();
        playlist.add_file(file.path.clone());
        assert(playlist@.files =~= seq![file.path@]);
        Ok(playlist)
    }

    /// Creates a playlist from a directory and the entries read from it
    pub fn from_directory(dir: &PathInfo, entries: &Vec<PathInfo>) -> (r: Result<Self, Error>)
        ensures
            match r {
                Ok(p) => {
                    &&& dir.exists && dir.is_dir
                    &&& p@.files.len() > 0
                    &&& is_sorted(p@.files)
                    &&& p@.files.to_multiset() == media_files_of(entries@).to_multiset()
                    &&& p@.current_index.is_none()
                    &&& !p@.loop_playlist
                    &&& p.wf()
                },
                Err(e) => {
                    &&& !dir.exists || !dir.is_dir || media_files_of(entries@).len() == 0
                    &&& e matches Error::MediaFileNotFound { path, context }
                    &&& path@ == dir.path@
                    &&& context@ == (if !dir.exists {
                        "Directory does not exist"@
                    } else if !dir.is_dir {
                        "Path is not a directory"@
                    } else {
                        "No supported media files found in directory"@
                    })
                },
            },
    {
        if !dir.exists {
            return Err(
                Error::MediaFileNotFound {
                    path: dir.path.clone(),
                    context: String::from_str("Directory does not exist"),
                },
            );
        }
        if !dir.is_dir {
            return Err(
                Error::MediaFileNotFound {
                    path: dir.path.clone(),
                    context: String::from_str("Path is not a directory"),
                },
            );
        }
        let mut playlist = Playlist::new();
        playlist.scan_directory(entries);
        proof {
            broadcast use vstd::seq_lib::group_to_multiset_ensures;

            assert(playlist@.files.skip(0) == playlist@.files);
            assert(playlist@.files.len() == playlist@.files.to_multiset().len());
            assert(media_files_of(entries@).len() == media_files_of(entries@).to_multiset().len());
        }
        if playlist.is_empty() {
            return Err(
                Error::MediaFileNotFound {
                    path: dir.path.clone(),
                    context: String::from_str("No supported media files found in directory"),
                },
            );
        }
        Ok(playlist)
    }

    /// Adds the supported media files among the entries of a directory to
    /// the end of the playlist, sorted by path
    pub fn scan_directory(&mut self, entries: &Vec<PathInfo>)
        ensures
            final(self)@.files.take(old(self)@.files.len() as int) == old(self)@.files,
            is_sorted(final(self)@.files.skip(old(self)@.files.len() as int)),
            final(self)@.files.skip(old(self)@.files.len() as int).to_multiset()
                == media_files_of(entries@).to_multiset(),
            final(self)@.current_index == old(self)@.current_index,
            final(self)@.loop_playlist == old(self)@.loop_playlist,
            old(self).wf() ==> final(self).wf(),
    {
        let mut media_files: Vec<String> = Vec::new();
        let mut i: usize = 0;
        assert(texts_of(media_files@) =~= Seq::<Seq<char>>::empty());
        while i < entries.len()
            invariant
                i <= entries.len(),
                is_sorted(texts_of(media_files@)),
                texts_of(media_files@).to_multiset() == media_files_of(
                    entries@.take(i as int),
                ).to_multiset(),
            decreases entries.len() - i,
        {
            let entry = &entries[i];
            proof {
                broadcast use vstd::seq_lib::group_to_multiset_ensures;

                assert(entries@.take(i + 1).drop_last() == entries@.take(i as int));
                assert(entries@.take(i + 1).last() == entries@[i as int]);
            }
            if entry.is_file && is_supported_media_file(entry.path.as_str()) {
                insert_sorted(&mut media_files, entry.path.clone());
            }
            i += 1;
        }
        proof {
            assert(entries@.take(entries.len() as int) == entries@);
        }
        let ghost before = self@.files;
        let ghost added = texts_of(media_files@);
        let mut k: usize = 0;
        assert(before + added.take(0) =~= before);
        while k < media_files.len()
            invariant
                k <= media_files.len(),
                added == texts_of(media_files@),
                before == old(self)@.files,
                self@.files == before + added.take(k as int),
                self@.current_index == old(self)@.current_index,
                self@.loop_playlist == old(self)@.loop_playlist,
            decreases media_files.len() - k,
        {
            let file = media_files[k].clone();
            assert(file@ == added[k as int]);
            self.files.push_back(file);
            assert(self@.files =~= (before + added.take(k as int)).push(file@));
            assert(before + added.take(k + 1) =~= (before + added.take(k as int)).push(file@));
            k += 1;
        }
        proof {
            assert(added.take(media_files.len() as int) == added);
            assert((before + added).take(before.len() as int) =~= before);
            assert((before + added).skip(before.len() as int) =~= added);
        }
    }

    /// Adds a file to the playlist
    pub fn add_file(&mut self, file_path: String)
        ensures
            final(self)@ == (PlaylistView {
                files: old(self)@.files.push(file_path@),
                ..old(self)@
            }),
            old(self).wf() ==> final(self).wf(),
    {
        self.files.push_back(file_path);
        assert(self@.files =~= old(self)@.files.push(file_path@));
    }

    /// Gets the current file in the playlist
    pub fn current_file(&self) -> (r: Option<&String>)
        ensures
            match r {
                Some(f) => self@.current() == Some(f@),
                None => self@.current().is_none(),
            },
    {
        match self.current_index {
            Some(index) => {
                if index < self.files.len() {
                    Some(&self.files[index])
                } else {
                    None
                }
            },
            None => None,
        }
    }

    /// Moves to the next file in the playlist
    pub fn next_file(&mut self) -> (r: Option<&String>)
        ensures
            final(self)@ == old(self)@.advanced(),
            old(self).wf() ==> final(self).wf(),
            match r {
                Some(f) => old(self)@.next_file() == Some(f@),
                None => old(self)@.next_file().is_none(),
            },
    {
        if self.files.len() == 0 {
            return None;
        }
        match self.current_index {
            None => {
                self.current_index = Some(0);
            },
            Some(index) => {
                if index >= self.files.len() - 1 {
                    if self.loop_playlist {
                        self.current_index = Some(0);
                    } else {
                        return None;
                    }
                } else {
                    self.current_index = Some(index + 1);
                }
            },
        }
        self.current_file()
    }

    /// Moves to the previous file in the playlist
    pub fn previous_file(&mut self) -> (r: Option<&String>)
        ensures
            final(self)@ == old(self)@.retreated(),
            old(self).wf() ==> final(self).wf(),
            match r {
                Some(f) => old(self)@.previous_file() == Some(f@),
                None => old(self)@.previous_file().is_none(),
            },
    {
        if self.files.len() == 0 {
            return None;
        }
        match self.current_index {
            None => {
                self.current_index = Some(self.files.len() - 1);
            },
            Some(index) => {
                if index == 0 {
                    if self.loop_playlist {
                        self.current_index = Some(self.files.len() - 1);
                    } else {
                        return None;
                    }
                } else {
                    self.current_index = Some(index - 1);
                }
            },
        }
        self.current_file()
    }

    /// Moves to the next file in the playlist
    pub fn next(&mut self) -> (r: Option<&String>)
        ensures
            final(self)@ == old(self)@.advanced(),
            old(self).wf() ==> final(self).wf(),
            match r {
                Some(f) => old(self)@.next_file() == Some(f@),
                None => old(self)@.next_file().is_none(),
            },
    {
        self.next_file()
    }

    /// Moves to the previous file in the playlist
    pub fn previous(&mut self) -> (r: Option<&String>)
        ensures
            final(self)@ == old(self)@.retreated(),
            old(self).wf() ==> final(self).wf(),
            match r {
                Some(f) => old(self)@.previous_file() == Some(f@),
                None => old(self)@.previous_file().is_none(),
            },
    {
        self.previous_file()
    }

    /// Resets the playlist to the beginning
    pub fn reset(&mut self)
        ensures
            final(self)@ == (PlaylistView { current_index: None, ..old(self)@ }),
            final(self).wf(),
    {
        self.current_index = None;
    }

    /// Checks if the playlist is empty
    pub fn is_empty(&self) -> (r: bool)
        ensures
            r == (self@.files.len() == 0),
    {
        self.files.len() == 0
    }

    /// Gets the number of files in the playlist
    pub fn len(&self) -> (n: usize)
        ensures
            n == self@.files.len(),
    {
        self.files.len()
    }

    /// Sets whether to loop the playlist
    pub fn set_loop(&mut self, loop_playlist: bool)
        ensures
            final(self)@ == (PlaylistView { loop_playlist, ..old(self)@ }),
            old(self).wf() ==> final(self).wf(),
    {
        self.loop_playlist = loop_playlist;
    }

    /// Returns whether the playlist is set to loop
    pub fn is_looping(&self) -> (r: bool)
        ensures
            r == self@.loop_playlist,
    {
        self.loop_playlist
    }

    /// Gets all files in the playlist
    pub fn files(&self) -> (r: &VecDeque<String>)
        ensures
            r@.len() == self@.files.len(),
            forall|i: int| 0 <= i < r@.len() ==> (#[trigger] r@[i])@ == self@.files[i],
    {
        &self.files
    }

    /// Gets the current index
    pub fn current_index(&self) -> (r: Option<usize>)
        ensures
            r == self@.current_index,
    {
        self.current_index
    }

    /// Gets a file at the specified index
    pub fn get_file(&self, index: usize) -> (r: Option<&String>)
        ensures
            match r {
                Some(f) => index < self@.files.len() && f@ == self@.files[index as int],
                None => index >= self@.files.len(),
            },
    {
        if index < self.files.len() {
            Some(&self.files[index])
        } else {
            None
        }
    }
}

/// A playlist after `k` steps forward.
pub open spec fn after_steps(p: PlaylistView, k: nat) -> PlaylistView
    decreases k,
{
    if k == 0 {
        p
    } else {
        after_steps(p, (k - 1) as nat).advanced()
    }
}

/// What step forward number `k`, counted from 1, returns.
pub open spec fn nth_next(p: PlaylistView, k: nat) -> Option<Seq<char>> {
    after_steps(p, (k - 1) as nat).next_file()
}

proof fn lemma_mod_step(k: int, n: int)
    requires
        n > 0,
        k >= 1,
    ensures
        0 <= (k - 1) % n < n,
        k % n == (if (k - 1) % n == n - 1 {
            0
        } else {
            (k - 1) % n + 1
        }),
{
    vstd::arithmetic::div_mod::lemma_fundamental_div_mod(k - 1, n);
    vstd::arithmetic::div_mod::lemma_mod_pos_bound(k - 1, n);
    let q = (k - 1) / n;
    let r = (k - 1) % n;
    assert(k - 1 == n * q + r);
    if r == n - 1 {
        assert(k == (q + 1) * n + 0) by (nonlinear_arith)
            requires
                k - 1 == n * q + r,
                r == n - 1,
        ;
        vstd::arithmetic::div_mod::lemma_fundamental_div_mod_converse(k, n, q + 1, 0);
    } else {
        assert(k == q * n + (r + 1)) by (nonlinear_arith)
            requires
                k - 1 == n * q + r,
        ;
        vstd::arithmetic::div_mod::lemma_fundamental_div_mod_converse(k, n, q, r + 1);
    }
}

/// Where the cursor of a playlist that was not started stands after `k`
/// steps forward: on the file of that number, counted around where the
/// playlist loops, and not past the last file where it does not.
pub proof fn lemma_cursor_after_steps(p: PlaylistView, k: nat)
    requires
        p.current_index.is_none(),
        0 < p.files.len() <= usize::MAX,
        k >= 1,
    ensures
        after_steps(p, k).files == p.files,
        after_steps(p, k).loop_playlist == p.loop_playlist,
        after_steps(p, k).current_index == Some(
            (if p.loop_playlist {
                (k - 1) % (p.files.len() as int)
            } else if k <= p.files.len() {
                k - 1
            } else {
                p.files.len() - 1
            }) as usize,
        ),
    decreases k,
{
    let n = p.files.len() as int;
    if k == 1 {
        assert(after_steps(p, 0) == p);
        vstd::arithmetic::div_mod::lemma_small_mod(0, n as nat);
    } else {
        lemma_cursor_after_steps(p, (k - 1) as nat);
        lemma_mod_step(k - 1, n);
        lemma_mod_step(k as int, n);
    }
}

/// Stepping forward through a playlist of `n` files that was not started
/// returns its files in order. Where the playlist does not loop, the steps
/// after the `n`th return nothing; where it loops, they go round again.
/// Stepping through an empty playlist returns nothing.
pub proof fn lemma_next_sequence(p: PlaylistView, k: nat)
    requires
        p.current_index.is_none(),
        p.files.len() <= usize::MAX,
        k >= 1,
    ensures
        nth_next(p, k) == (if p.files.len() == 0 {
            None
        } else if p.loop_playlist {
            Some(p.files[(k - 1) % (p.files.len() as int)])
        } else if k <= p.files.len() {
            Some(p.files[k - 1])
        } else {
            None
        }),
    decreases k,
{
    let n = p.files.len() as int;
    if n == 0 {
        lemma_empty_steps(p, (k - 1) as nat);
    } else if k == 1 {
        assert(after_steps(p, 0) == p);
        vstd::arithmetic::div_mod::lemma_small_mod(0, n as nat);
    } else {
        lemma_cursor_after_steps(p, (k - 1) as nat);
        lemma_mod_step(k - 1, n);
        lemma_mod_step(k as int, n);
    }
}

proof fn lemma_empty_steps(p: PlaylistView, k: nat)
    requires
        p.files.len() == 0,
    ensures
        after_steps(p, k) == p,
    decreases k,
{
    if k > 0 {
        lemma_empty_steps(p, (k - 1) as nat);
    }
}

/// In a sorted list every text comes before or equals every later one.
pub proof fn lemma_sorted_pairs(s: Seq<Seq<char>>, i: int, j: int)
    requires
        is_sorted(s),
        0 <= i <= j < s.len(),
    ensures
        text_le(s[i], s[j]),
    decreases j - i,
{
    if i == j {
        lemma_text_le_total(s[i], s[i]);
    } else {
        lemma_sorted_pairs(s, i, j - 1);
        lemma_text_le_transitive(s[i], s[j - 1], s[j]);
    }
}

/// Two sorted lists that hold the same texts equally often are the same
/// list: what a directory holds decides the playlist made from it.
pub proof fn lemma_sorted_is_unique(a: Seq<Seq<char>>, b: Seq<Seq<char>>)
    requires
        is_sorted(a),
        is_sorted(b),
        a.to_multiset() == b.to_multiset(),
    ensures
        a == b,
{
    let leq = |x: Seq<char>, y: Seq<char>| text_le(x, y);
    assert(vstd::relations::total_ordering(leq)) by {
        assert forall|x: Seq<char>| #[trigger] leq(x, x) by {
            lemma_text_le_total(x, x);
        }
        assert forall|x: Seq<char>, y: Seq<char>| #[trigger] leq(x, y) && #[trigger] leq(y, x)
            implies x == y by {
            lemma_text_le_antisymmetric(x, y);
        }
        assert forall|x: Seq<char>, y: Seq<char>, z: Seq<char>| #[trigger] leq(x, y)
            && #[trigger] leq(y, z) implies leq(x, z) by {
            lemma_text_le_transitive(x, y, z);
        }
        assert forall|x: Seq<char>, y: Seq<char>| #[trigger] leq(x, y) || #[trigger] leq(y, x) by {
            lemma_text_le_total(x, y);
        }
    }
    assert(vstd::relations::sorted_by(a, leq)) by {
        assert forall|i: int, j: int| 0 <= i < j < a.len() implies #[trigger] leq(a[i], a[j]) by {
            lemma_sorted_pairs(a, i, j);
        }
    }
    assert(vstd::relations::sorted_by(b, leq)) by {
        assert forall|i: int, j: int| 0 <= i < j < b.len() implies #[trigger] leq(b[i], b[j]) by {
            lemma_sorted_pairs(b, i, j);
        }
    }
    vstd::seq_lib::lemma_sorted_unique(a, b, leq);
}

} // verus!
