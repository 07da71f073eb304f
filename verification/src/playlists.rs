//! Predefined playlists: which files count, how one is looked up by name, and what it may hold.

use vstd::prelude::*;
use vstd::string::*;

use crate::text;

verus! {

/// Maximum number of music entries a predefined playlist may contain.
pub const MAX_PREDEFINED_PLAYLIST_TRACKS: usize = 100;

/// Maximum size of one search query or URL in a playlist file.
pub const MAX_PLAYLIST_LINE_LENGTH: usize = 500;

/// Parsed entries from one predefined playlist file.
#[derive(Debug, PartialEq, Eq)]
pub struct Playlist {
    pub name: String,
    pub entries: Vec<PlaylistEntry>,
}

/// One song of a playlist, with the line of the file that it stands on.
#[derive(Debug, PartialEq, Eq)]
pub struct PlaylistEntry {
    pub line_number: usize,
    pub query: String,
}

/// Why a playlist could not be had.
#[derive(Debug)]
pub enum PlaylistError {
    Directory { path: String, source: String },
    Read { name: String, source: String },
    NotFound { name: String },
    Empty { name: String },
    TooManyTracks { name: String, maximum: usize },
    LineTooLong { name: String, line_number: usize, maximum: usize },
}

/// The text of a playlist.
#[verifier::ext_equal]
pub struct PlaylistView {
    pub name: Seq<char>,
    pub entries: Seq<EntryView>,
}

/// The text of a playlist entry.
#[verifier::ext_equal]
pub struct EntryView {
    pub line_number: nat,
    pub query: Seq<char>,
}

/// The text of a playlist error.
#[verifier::ext_equal]
pub enum ErrorView {
    Directory { path: Seq<char>, source: Seq<char> },
    Read { name: Seq<char>, source: Seq<char> },
    NotFound { name: Seq<char> },
    Empty { name: Seq<char> },
    TooManyTracks { name: Seq<char>, maximum: nat },
    LineTooLong { name: Seq<char>, line_number: nat, maximum: nat },
}

impl View for PlaylistEntry {
    type V = EntryView;

    open spec fn view(&self) -> EntryView {
        EntryView { line_number: self.line_number as nat, query: self.query@ }
    }
}

/// The text of a list of playlist entries.
pub open spec fn entry_views(entries: Seq<PlaylistEntry>) -> Seq<EntryView> {
    entries.map_values(|entry: PlaylistEntry| entry@)
}

impl View for Playlist {
    type V = PlaylistView;

    open spec fn view(&self) -> PlaylistView {
        PlaylistView { name: self.name@, entries: entry_views(self.entries@) }
    }
}

impl Clone for PlaylistEntry {
    fn clone(&self) -> (copy: Self)
        ensures
            copy == *self,
    {
        PlaylistEntry { line_number: self.line_number, query: self.query.clone() }
    }
}

impl Clone for Playlist {
    fn clone(&self) -> (copy: Self)
        ensures
            copy@ == self@,
            copy.name@ == self.name@,
            copy.entries@ == self.entries@,
    {
        let copy = Playlist { name: self.name.clone(), entries: self.entries.clone() };
        assert(copy.entries@ =~= self.entries@);
        copy
    }
}

impl View for PlaylistError {
    type V = ErrorView;

    open spec fn view(&self) -> ErrorView {
        match *self {
            PlaylistError::Directory { path, source } => ErrorView::Directory {
                path: path@,
                source: source@,
            },
            PlaylistError::Read { name, source } => ErrorView::Read {
                name: name@,
                source: source@,
            },
            PlaylistError::NotFound { name } => ErrorView::NotFound { name: name@ },
            PlaylistError::Empty { name } => ErrorView::Empty { name: name@ },
            PlaylistError::TooManyTracks { name, maximum } => ErrorView::TooManyTracks {
                name: name@,
                maximum: maximum as nat,
            },
            PlaylistError::LineTooLong { name, line_number, maximum } => ErrorView::LineTooLong {
                name: name@,
                line_number: line_number as nat,
                maximum: maximum as nat,
            },
        }
    }
}

/// The pieces of `s` between its line feeds. There is always a last piece, empty where `s` ends
/// in a line feed.
pub open spec fn pieces(s: Seq<char>) -> Seq<Seq<char>>
    decreases s.len(),
{
    if s.len() == 0 {
        seq![seq![]]
    } else {
        let before = pieces(s.drop_last());
        if s.last() == '\n' {
            before.push(seq![])
        } else {
            before.drop_last().push(before.last().push(s.last()))
        }
    }
}

/// The lines of `s`: its pieces, but for an empty last one. A carriage return in front of a line
/// feed stays; it is white space.
pub open spec fn lines(s: Seq<char>) -> Seq<Seq<char>> {
    let all = pieces(s);
    if all.last().len() == 0 {
        all.drop_last()
    } else {
        all
    }
}

/// The entries that lines of text hold: each line that is not blank, trimmed, with its number.
pub open spec fn entries_of(lines: Seq<Seq<char>>) -> Seq<EntryView>
    decreases lines.len(),
{
    if lines.len() == 0 {
        seq![]
    } else {
        let before = entries_of(lines.drop_last());
        let query = text::trimmed(lines.last());
        if query.len() == 0 {
            before
        } else {
            before.push(EntryView { line_number: lines.len(), query })
        }
    }
}

/// Whether an entry is longer than a line may be.
pub open spec fn too_long(entry: EntryView) -> bool {
    entry.query.len() > MAX_PLAYLIST_LINE_LENGTH
}

/// The place of the first entry that is too long, or the number of entries where none is.
pub open spec fn first_too_long(entries: Seq<EntryView>) -> nat
    decreases entries.len(),
{
    if entries.len() == 0 || too_long(entries[0]) {
        0
    } else {
        1 + first_too_long(entries.drop_first())
    }
}

/// What a file with these entries gives. The entries are read in order, up to the first that is
/// too long or one too many.
pub open spec fn playlist_of(name: Seq<char>, entries: Seq<EntryView>) -> Result<
    PlaylistView,
    ErrorView,
> {
    let k = first_too_long(entries);
    if k < entries.len() && k <= MAX_PREDEFINED_PLAYLIST_TRACKS {
        Err(
            ErrorView::LineTooLong {
                name,
                line_number: entries[k as int].line_number,
                maximum: MAX_PLAYLIST_LINE_LENGTH as nat,
            },
        )
    } else if entries.len() > MAX_PREDEFINED_PLAYLIST_TRACKS {
        Err(ErrorView::TooManyTracks { name, maximum: MAX_PREDEFINED_PLAYLIST_TRACKS as nat })
    } else if entries.len() == 0 {
        Err(ErrorView::Empty { name })
    } else {
        Ok(PlaylistView { name, entries })
    }
}

/// What a playlist file with this text gives.
pub open spec fn parsed_playlist(name: Seq<char>, contents: Seq<char>) -> Result<
    PlaylistView,
    ErrorView,
> {
    playlist_of(name, entries_of(lines(contents)))
}

/// The text of a playlist, or of why there is none.
pub open spec fn outcome(result: Result<Playlist, PlaylistError>) -> Result<
    PlaylistView,
    ErrorView,
> {
    match result {
        Ok(playlist) => Ok(playlist@),
        Err(error) => Err(error@),
    }
}

/// The text of a list of strings.
pub open spec fn texts(list: Seq<String>) -> Seq<Seq<char>> {
    list.map_values(|s: String| s@)
}

/// The lines of `contents`.
pub fn lines_of(contents: &str) -> (list: Vec<String>)
    ensures
        texts(list@) == lines(contents@),
        list@.len() == lines(contents@).len(),
        forall|i: int| 0 <= i < list@.len() ==> (#[trigger] list@[i])@ == lines(contents@)[i],
{
    let v = text::chars_of(contents);
    let mut done: Vec<String> = Vec::new();
    let mut current = String::new();
    let mut empty: bool = true;
    let mut i: usize = 0;
    assert(v@.take(0) =~= Seq::<char>::empty());
    assert(texts(done@).push(current@) =~= pieces(v@.take(0)));
    while i < v.len()
        invariant
            i <= v.len(),
            empty == (current@.len() == 0),
            texts(done@).push(current@) == pieces(v@.take(i as int)),
        decreases v.len() - i,
    {
        let ghost before = texts(done@).push(current@);
        assert(v@.take(i + 1).drop_last() =~= v@.take(i as int));
        let c = v[i];
        if c == '\n' {
            done.push(current);
            current = String::new();
            empty = true;
            assert(texts(done@) =~= before);
            assert(texts(done@).push(current@) =~= before.push(seq![]));
        } else {
            current.push(c);
            empty = false;
            assert(before.drop_last() =~= texts(done@));
        }
        i += 1;
    }
    assert(v@.take(v@.len() as int) =~= contents@);
    let ghost all = texts(done@).push(current@);
    assert(all.drop_last() =~= texts(done@));
    if !empty {
        done.push(current);
        assert(texts(done@) =~= all);
    }
    assert forall|k: int| 0 <= k < done@.len() implies (#[trigger] done@[k])@ == lines(
        contents@,
    )[k] by {
        assert(texts(done@)[k] == done@[k]@);
    }
    done
}

/// Text is read line by line: a line that ends in a line feed, and a last one that does not and is
/// not empty, each adds itself to the lines before it; no text has no lines.
pub proof fn lines_come_one_by_one(before: Seq<char>, line: Seq<char>)
    requires
        before.len() == 0 || before.last() == '\n',
        forall|i: int| 0 <= i < line.len() ==> #[trigger] line[i] != '\n',
    ensures
        lines(before + line.push('\n')) == lines(before).push(line),
        line.len() > 0 ==> lines(before + line) == lines(before).push(line),
        lines(seq![]) == Seq::<Seq<char>>::empty(),
{
    let open = pieces(before);
    assert(open.len() > 0 && open.last().len() == 0) by {
        if before.len() > 0 {
            assert(open == pieces(before.drop_last()).push(seq![]));
        }
    }
    line_fills_last_piece(before, line);
    let whole = before + line.push('\n');
    assert(whole.drop_last() =~= before + line);
    assert(lines(before) =~= open.drop_last());
    assert(lines(whole) =~= open.drop_last().push(line));
    if line.len() > 0 {
        assert(lines(before + line) =~= open.drop_last().push(line));
    }
    assert(lines(seq![]) =~= Seq::<Seq<char>>::empty());
}

proof fn line_fills_last_piece(before: Seq<char>, line: Seq<char>)
    requires
        pieces(before).len() > 0,
        pieces(before).last().len() == 0,
        forall|i: int| 0 <= i < line.len() ==> #[trigger] line[i] != '\n',
    ensures
        pieces(before + line) == pieces(before).drop_last().push(line),
    decreases line.len(),
{
    let open = pieces(before);
    if line.len() == 0 {
        assert(before + line =~= before);
        assert(open.last() =~= line);
        assert(open.drop_last().push(line) =~= open);
    } else {
        let shorter = line.drop_last();
        assert forall|i: int| 0 <= i < shorter.len() implies #[trigger] shorter[i] != '\n' by {
            assert(shorter[i] == line[i]);
        }
        line_fills_last_piece(before, shorter);
        assert((before + line).drop_last() =~= before + shorter);
        assert(line[line.len() - 1] != '\n');
        let filled = open.drop_last().push(shorter);
        assert(filled.drop_last() =~= open.drop_last());
        assert(shorter.push(line.last()) =~= line);
    }
}

proof fn entries_grow(lines: Seq<Seq<char>>, i: int)
    requires
        0 <= i <= lines.len(),
    ensures
        entries_of(lines.take(i)).is_prefix_of(entries_of(lines)),
    decreases lines.len(),
{
    if i < lines.len() {
        entries_grow(lines.drop_last(), i);
        assert(lines.drop_last().take(i) =~= lines.take(i));
    } else {
        assert(lines.take(i) =~= lines);
        assert(entries_of(lines).is_prefix_of(entries_of(lines)));
    }
}

proof fn first_too_long_is(entries: Seq<EntryView>, k: int)
    requires
        0 <= k <= entries.len(),
        forall|j: int| 0 <= j < k ==> !too_long(#[trigger] entries[j]),
        k < entries.len() ==> too_long(entries[k]),
    ensures
        first_too_long(entries) == k,
    decreases entries.len(),
{
    if k > 0 {
        assert(!too_long(entries[0]));
        let rest = entries.drop_first();
        assert forall|j: int| 0 <= j < k - 1 implies !too_long(#[trigger] rest[j]) by {
            assert(rest[j] == entries[j + 1]);
        }
        first_too_long_is(rest, k - 1);
    }
}

/// Reads the playlist `name` out of the text of its file.
pub fn parse_playlist(name: &str, contents: &str) -> (result: Result<Playlist, PlaylistError>)
    ensures
        outcome(result) == parsed_playlist(name@, contents@),
        result matches Ok(playlist) ==> {
            let entries = entries_of(lines(contents@));
            &&& playlist.name@ == name@
            &&& playlist.entries@.len() == entries.len()
            &&& forall|i: int|
                0 <= i < entries.len() ==> (#[trigger] playlist.entries@[i]).query@
                    == entries[i].query && playlist.entries@[i].line_number
                    == entries[i].line_number
        },
        result matches Err(error) ==> match error {
            PlaylistError::Empty { name: empty } => empty@ == name@,
            PlaylistError::TooManyTracks { name: large, maximum } => large@ == name@ && maximum
                == 100,
            PlaylistError::LineTooLong { name: long, line_number, maximum } => {
                &&& long@ == name@
                &&& maximum == 500
                &&& 1 <= line_number <= lines(contents@).len()
                &&& text::trimmed(lines(contents@)[line_number - 1]).len() > 500
            },
            _ => false,
        },
{
    let list = lines_of(contents);
    let mut entries: Vec<PlaylistEntry> = Vec::new();
    let mut i: usize = 0;
    let ghost all = lines(contents@);
    let ghost every = entries_of(all);
    assert(all.take(0) =~= Seq::<Seq<char>>::empty());
    assert(entry_views(entries@) =~= entries_of(all.take(0)));
    while i < list.len()
        invariant
            i <= list.len(),
            all == texts(list@),
            all == lines(contents@),
            every == entries_of(all),
            entry_views(entries@) == entries_of(all.take(i as int)),
            entries.len() <= MAX_PREDEFINED_PLAYLIST_TRACKS,
            forall|j: int| 0 <= j < entries.len() ==> !too_long((#[trigger] entries@[j])@),
        decreases list.len() - i,
    {
        assert(all[i as int] == list@[i as int]@);
        assert(all.take(i + 1).drop_last() =~= all.take(i as int));
        let ghost before = entry_views(entries@);
        let query = text::trim(list[i].as_str());
        if query.is_empty() {
            i += 1;
            continue;
        }
        let ghost entry = EntryView { line_number: (i + 1) as nat, query: query@ };
        assert(entries_of(all.take(i + 1)) == before.push(entry));
        proof {
            entries_grow(all, i + 1);
            let seen = before.push(entry);
            assert forall|j: int| 0 <= j <= before.len() implies #[trigger] every[j] == seen[j] by {
                assert(every.subrange(0, seen.len() as int)[j] == every[j]);
            }
            assert forall|j: int| 0 <= j < before.len() implies !too_long(#[trigger] every[j]) by {
                assert(before[j] == entries@[j]@);
            }
        }
        if query.unicode_len() > MAX_PLAYLIST_LINE_LENGTH {
            proof {
                first_too_long_is(every, before.len() as int);
            }
            return Err(
                PlaylistError::LineTooLong {
                    name: name.to_owned(),
                    line_number: i + 1,
                    maximum: MAX_PLAYLIST_LINE_LENGTH,
                },
            );
        }
        entries.push(PlaylistEntry { line_number: i + 1, query: query.to_owned() });
        assert(entry_views(entries@) =~= before.push(entry));
        if entries.len() > MAX_PREDEFINED_PLAYLIST_TRACKS {
            proof {
                first_too_long_bound(every, before.len() + 1int);
            }
            return Err(
                PlaylistError::TooManyTracks {
                    name: name.to_owned(),
                    maximum: MAX_PREDEFINED_PLAYLIST_TRACKS,
                },
            );
        }
        i += 1;
    }
    assert(all.take(all.len() as int) =~= all);
    proof {
        assert forall|j: int| 0 <= j < every.len() implies !too_long(#[trigger] every[j]) by {
            assert(every[j] == entries@[j]@);
        }
        first_too_long_is(every, every.len() as int);
    }
    if entries.len() == 0 {
        return Err(PlaylistError::Empty { name: name.to_owned() });
    }
    assert forall|j: int| 0 <= j < every.len() implies (#[trigger] entries@[j])@ == every[j] by {
        assert(entry_views(entries@)[j] == entries@[j]@);
    }
    Ok(Playlist { name: name.to_owned(), entries })
}

proof fn first_too_long_bound(entries: Seq<EntryView>, n: int)
    requires
        0 <= n <= entries.len(),
        forall|j: int| 0 <= j < n ==> !too_long(#[trigger] entries[j]),
    ensures
        first_too_long(entries) >= n,
    decreases entries.len(),
{
    if n > 0 {
        assert(!too_long(entries[0]));
        let rest = entries.drop_first();
        assert forall|j: int| 0 <= j < n - 1 implies !too_long(#[trigger] rest[j]) by {
            assert(rest[j] == entries[j + 1]);
        }
        first_too_long_bound(rest, n - 1);
    }
}

/// A file is read in order, and the first thing wrong with it is what is said: a line that is too
/// long among the first 101 entries, with its number, or else an entry too many, or that there are
/// none at all. A file with nothing wrong gives all its entries.
pub proof fn first_fault_is_reported(name: Seq<char>, contents: Seq<char>, k: int)
    ensures
        ({
            let entries = entries_of(lines(contents));
            let fine = |i: int| entries[i].query.len() <= 500;
            let result = parsed_playlist(name, contents);
            &&& 0 <= k <= 100 && k < entries.len() && entries[k].query.len() > 500 && (forall|i: int|
                0 <= i < k ==> #[trigger] fine(i)) ==> result == Err::<PlaylistView, ErrorView>(
                ErrorView::LineTooLong {
                    name,
                    line_number: entries[k].line_number,
                    maximum: 500,
                },
            )
            &&& entries.len() > 100 && (forall|i: int| 0 <= i <= 100 ==> #[trigger] fine(i))
                ==> result == Err::<PlaylistView, ErrorView>(
                ErrorView::TooManyTracks { name, maximum: 100 },
            )
            &&& entries.len() == 0 ==> result == Err::<PlaylistView, ErrorView>(
                ErrorView::Empty { name },
            )
            &&& 1 <= entries.len() <= 100 && (forall|i: int|
                0 <= i < entries.len() ==> #[trigger] fine(i)) ==> result == Ok::<
                PlaylistView,
                ErrorView,
            >(PlaylistView { name, entries })
        }),
{
    let entries = entries_of(lines(contents));
    let fine = |i: int| entries[i].query.len() <= 500;
    if 0 <= k < entries.len() && entries[k].query.len() > 500 && forall|i: int|
        0 <= i < k ==> #[trigger] fine(i) {
        assert forall|j: int| 0 <= j < k implies !too_long(#[trigger] entries[j]) by {
            assert(fine(j));
        }
        first_too_long_is(entries, k);
    }
    if entries.len() > 100 && forall|i: int| 0 <= i <= 100 ==> #[trigger] fine(i) {
        assert forall|j: int| 0 <= j < 101 implies !too_long(#[trigger] entries[j]) by {
            assert(fine(j));
        }
        first_too_long_bound(entries, 101);
    }
    if 1 <= entries.len() && forall|i: int| 0 <= i < entries.len() ==> #[trigger] fine(i) {
        assert forall|j: int| 0 <= j < entries.len() implies !too_long(#[trigger] entries[j]) by {
            assert(fine(j));
        }
        first_too_long_is(entries, entries.len() as int);
    }
}

/// Every line adds its entry behind those of the lines before it, trimmed and with its number, or
/// nothing where it is blank.
pub proof fn entries_come_one_by_one(before: Seq<Seq<char>>, line: Seq<char>)
    ensures
        text::trimmed(line).len() == 0 ==> entries_of(before.push(line)) == entries_of(before),
        text::trimmed(line).len() > 0 ==> {
            let entries = entries_of(before.push(line));
            &&& entries.drop_last() == entries_of(before)
            &&& entries.last().query == text::trimmed(line)
            &&& entries.last().line_number == before.len() + 1
        },
        entries_of(seq![]).len() == 0,
{
    assert(before.push(line).drop_last() =~= before);
    if text::trimmed(line).len() > 0 {
        assert(entries_of(before.push(line)).drop_last() =~= entries_of(before));
    }
}

/// A parsed playlist keeps the limits: at least one and at most 100 entries, none blank, none
/// with white space at its ends, none longer than 500 characters, and their lines in file order.
pub proof fn parsed_playlist_keeps_limits(name: Seq<char>, contents: Seq<char>)
    requires
        parsed_playlist(name, contents) is Ok,
    ensures
        ({
            let entries = parsed_playlist(name, contents)->Ok_0.entries;
            &&& parsed_playlist(name, contents)->Ok_0.name == name
            &&& 1 <= entries.len() <= 100
            &&& forall|i: int|
                0 <= i < entries.len() ==> {
                    &&& 1 <= (#[trigger] entries[i]).query.len() <= 500
                    &&& text::trimmed(entries[i].query) == entries[i].query
                    &&& 1 <= entries[i].line_number <= lines(contents).len()
                    &&& entries[i].query == text::trimmed(
                        lines(contents)[entries[i].line_number - 1],
                    )
                }
            &&& forall|i: int, j: int|
                0 <= i < j < entries.len() ==> (#[trigger] entries[i]).line_number < (
                #[trigger] entries[j]).line_number
        }),
{
    let all = lines(contents);
    let entries = entries_of(all);
    entries_come_from_lines(all);
    assert forall|i: int| 0 <= i < entries.len() implies !too_long(#[trigger] entries[i]) by {
        before_first_too_long(entries, i);
    }
}

/// Every line that is not blank is an entry.
pub proof fn no_line_is_lost(lines: Seq<Seq<char>>, n: int)
    requires
        0 <= n < lines.len(),
        text::trimmed(lines[n]).len() > 0,
    ensures
        entries_of(lines).contains(
            EntryView { line_number: (n + 1) as nat, query: text::trimmed(lines[n]) },
        ),
    decreases lines.len(),
{
    let entry = EntryView { line_number: (n + 1) as nat, query: text::trimmed(lines[n]) };
    let all = entries_of(lines);
    if n == lines.len() - 1 {
        assert(all.last() == entry);
    } else {
        no_line_is_lost(lines.drop_last(), n);
        let before = entries_of(lines.drop_last());
        let i = before.index_of(entry);
        assert(all[i] == entry);
    }
}

proof fn entries_come_from_lines(lines: Seq<Seq<char>>)
    ensures
        forall|i: int|
            0 <= i < entries_of(lines).len() ==> {
                let entry = #[trigger] entries_of(lines)[i];
                &&& 1 <= entry.query.len()
                &&& text::trimmed(entry.query) == entry.query
                &&& 1 <= entry.line_number <= lines.len()
                &&& entry.query == text::trimmed(lines[entry.line_number - 1])
            },
        forall|i: int, j: int|
            0 <= i < j < entries_of(lines).len() ==> (#[trigger] entries_of(lines)[i]).line_number
                < (#[trigger] entries_of(lines)[j]).line_number,
    decreases lines.len(),
{
    if lines.len() > 0 {
        entries_come_from_lines(lines.drop_last());
        text::trimming_twice(lines.last());
        let before = entries_of(lines.drop_last());
        let all = entries_of(lines);
        assert forall|i: int| 0 <= i < all.len() implies {
            let entry = #[trigger] all[i];
            &&& 1 <= entry.query.len()
            &&& text::trimmed(entry.query) == entry.query
            &&& 1 <= entry.line_number <= lines.len()
            &&& entry.query == text::trimmed(lines[entry.line_number - 1])
            &&& i < before.len() ==> entry == before[i] && entry.line_number < lines.len()
        } by {
            if i < before.len() {
                assert(all[i] == before[i]);
            }
        }
    }
}

proof fn before_first_too_long(entries: Seq<EntryView>, i: int)
    requires
        0 <= i < entries.len(),
        i < first_too_long(entries),
    ensures
        !too_long(entries[i]),
    decreases entries.len(),
{
    if i > 0 {
        before_first_too_long(entries.drop_first(), i - 1);
    }
}

/// A configured on-disk library of predefined playlists.
#[derive(Debug)]
pub struct PlaylistLibrary {
    root: String,
}

impl View for PlaylistLibrary {
    type V = Seq<char>;

    closed spec fn view(&self) -> Seq<char> {
        self.root@
    }
}

impl Clone for PlaylistLibrary {
    fn clone(&self) -> (copy: Self)
        ensures
            copy == *self,
    {
        PlaylistLibrary { root: self.root.clone() }
    }
}

/// What is known of one entry of the playlist directory. An extension or a stem that is absent,
/// or is no valid text, is `None`.
pub struct DirectoryEntry<P> {
    pub path: P,
    pub extension: Option<String>,
    pub stem: Option<String>,
    pub is_file: bool,
}

/// A playlist file: the playlist's name, and where the file is.
#[derive(Debug)]
pub struct PlaylistFile<P> {
    pub name: String,
    pub path: P,
}

/// The text of a playlist file's name, and where the file is.
#[verifier::ext_equal]
pub struct FileView<P> {
    pub name: Seq<char>,
    pub path: P,
}

impl<P> View for PlaylistFile<P> {
    type V = FileView<P>;

    open spec fn view(&self) -> FileView<P> {
        FileView { name: self.name@, path: self.path }
    }
}

/// The text of a list of playlist files.
pub open spec fn file_views<P>(files: Seq<PlaylistFile<P>>) -> Seq<FileView<P>> {
    files.map_values(|file: PlaylistFile<P>| file@)
}

/// Whether an extension is `txt`, in upper or lower case.
pub open spec fn txt_extension(extension: Seq<char>) -> bool {
    &&& extension.len() == 3
    &&& extension[0] == 't' || extension[0] == 'T'
    &&& extension[1] == 'x' || extension[1] == 'X'
    &&& extension[2] == 't' || extension[2] == 'T'
}

/// The playlist file that a directory entry is, if it is one: a file with the extension `txt`
/// whose stem, trimmed, is not empty and names the playlist.
pub open spec fn playlist_file<P>(entry: DirectoryEntry<P>) -> Option<FileView<P>> {
    match (entry.extension, entry.stem) {
        (Some(extension), Some(stem)) => if txt_extension(extension@) && entry.is_file
            && text::trimmed(stem@).len() > 0 {
            Some(FileView { name: text::trimmed(stem@), path: entry.path })
        } else {
            None
        },
        _ => None,
    }
}

/// Whether a directory entry is a playlist: a file with the extension `txt` and a stem that is not
/// blank.
pub open spec fn is_playlist<P>(entry: DirectoryEntry<P>) -> bool {
    &&& entry.is_file
    &&& entry.extension matches Some(extension) && txt_extension(extension@)
    &&& entry.stem matches Some(stem) && text::trimmed(stem@).len() > 0
}

/// Whether a file is that directory entry, under its trimmed stem.
pub open spec fn comes_from<P>(file: PlaylistFile<P>, entry: DirectoryEntry<P>) -> bool {
    &&& is_playlist(entry)
    &&& file.path == entry.path
    &&& file.name@ == text::trimmed(entry.stem->Some_0@)
}

/// Whether a file is one of the directory entries.
pub open spec fn is_among<P>(file: PlaylistFile<P>, entries: Seq<DirectoryEntry<P>>) -> bool {
    exists|k: int| 0 <= k < entries.len() && comes_from(file, #[trigger] entries[k])
}

/// Whether a directory entry is one of the files.
pub open spec fn is_listed<P>(entry: DirectoryEntry<P>, files: Seq<PlaylistFile<P>>) -> bool {
    exists|i: int| 0 <= i < files.len() && comes_from(#[trigger] files[i], entry)
}

/// The playlist files among directory entries, in the order of the entries.
pub open spec fn playlist_files<P>(entries: Seq<DirectoryEntry<P>>) -> Seq<FileView<P>>
    decreases entries.len(),
{
    if entries.len() == 0 {
        seq![]
    } else {
        match playlist_file(entries.last()) {
            Some(file) => playlist_files(entries.drop_last()).push(file),
            None => playlist_files(entries.drop_last()),
        }
    }
}

/// Whether files stand in the order of their names.
pub open spec fn in_name_order<P>(files: Seq<FileView<P>>) -> bool {
    forall|i: int, j: int|
        0 <= i < j < files.len() ==> text::text_le(
            (#[trigger] files[i]).name,
            (#[trigger] files[j]).name,
        )
}

/// The files with this name, in order.
pub open spec fn named<P>(files: Seq<FileView<P>>, name: Seq<char>) -> Seq<FileView<P>> {
    files.filter(|file: FileView<P>| file.name == name)
}

/// Whether `listing` holds the files of `found`, put in the order of their names; files with the
/// same name keep their order.
pub open spec fn lists<P>(listing: Seq<FileView<P>>, found: Seq<FileView<P>>) -> bool {
    &&& in_name_order(listing)
    &&& listing.len() == found.len()
    &&& forall|name: Seq<char>| #[trigger] named(listing, name) == named(found, name)
}

/// The names of files, in their order.
pub open spec fn file_names<P>(files: Seq<FileView<P>>) -> Seq<Seq<char>> {
    files.map_values(|file: FileView<P>| file.name)
}

/// Whether a file with this extension may be a playlist.
pub fn is_playlist_extension(extension: &Option<String>) -> (r: bool)
    ensures
        r == (extension matches Some(extension) && txt_extension(extension@)),
        r == (extension matches Some(extension) && (extension@ =~= seq!['t', 'x', 't'] || extension@
            =~= seq!['T', 'x', 't'] || extension@ =~= seq!['t', 'X', 't'] || extension@
            =~= seq!['t', 'x', 'T'] || extension@ =~= seq!['T', 'X', 't'] || extension@
            =~= seq!['T', 'x', 'T'] || extension@ =~= seq!['t', 'X', 'T'] || extension@
            =~= seq!['T', 'X', 'T'])),
{
    match extension {
        Some(extension) => {
            let v = text::chars_of(extension.as_str());
            v.len() == 3 && (v[0] == 't' || v[0] == 'T') && (v[1] == 'x' || v[1] == 'X') && (v[2]
                == 't' || v[2] == 'T')
        },
        None => false,
    }
}

/// What is known of one entry of the playlist directory, with what reading its metadata gave:
/// whether it is a file, or why that is not known. An entry that cannot be a playlist is taken for
/// no file, and its metadata does not matter; of one that can, unread metadata is an error.
pub fn directory_entry<P, E>(
    path: P,
    extension: Option<String>,
    stem: Option<String>,
    metadata: Result<bool, E>,
) -> (entry: Result<DirectoryEntry<P>, E>)
    ensures
        if extension matches Some(extension) && txt_extension(extension@) {
            match metadata {
                Ok(is_file) => entry == Ok::<DirectoryEntry<P>, E>(
                    DirectoryEntry { path, extension, stem, is_file },
                ),
                Err(error) => entry == Err::<DirectoryEntry<P>, E>(error),
            }
        } else {
            entry == Ok::<DirectoryEntry<P>, E>(
                DirectoryEntry { path, extension, stem, is_file: false },
            )
        },
{
    if !is_playlist_extension(&extension) {
        return Ok(DirectoryEntry { path, extension, stem, is_file: false });
    }
    match metadata {
        Ok(is_file) => Ok(DirectoryEntry { path, extension, stem, is_file }),
        Err(error) => Err(error),
    }
}

/// Puts a file where its name belongs, behind the files with the same name.
fn file_by_name<P>(files: &mut Vec<PlaylistFile<P>>, file: PlaylistFile<P>)
    requires
        in_name_order(file_views(old(files)@)),
    ensures
        in_name_order(file_views(final(files)@)),
        final(files)@.len() == old(files)@.len() + 1,
        forall|name: Seq<char>| #[trigger]
            named(file_views(final(files)@), name) == named(
                file_views(old(files)@).push(file@),
                name,
            ),
{
    let ghost before = file_views(files@);
    let ghost view = file@;
    let mut k: usize = files.len();
    while k > 0 && !text::precedes(files[k - 1].name.as_str(), file.name.as_str())
        invariant
            *files == *old(files),
            before == file_views(files@),
            view == file@,
            k <= files.len(),
            forall|i: int|
                k <= i < before.len() ==> !text::text_le((#[trigger] before[i]).name, view.name),
        decreases k,
    {
        assert(before[k - 1] == files@[k - 1]@);
        k -= 1;
    }
    files.insert(k, file);
    let ghost after = file_views(files@);
    assert(after =~= before.insert(k as int, view));
    proof {
        if k > 0 {
            assert(before[k - 1] == old(files)@[k - 1]@);
        }
        assert forall|i: int, j: int| 0 <= i < j < after.len() implies text::text_le(
            (#[trigger] after[i]).name,
            (#[trigger] after[j]).name,
        ) by {
            if j == k {
                if i < k - 1 {
                    text::text_le_transitive(before[i].name, before[k - 1].name, view.name);
                }
            } else if i == k {
                assert(after[j] == before[j - 1]);
                text::text_le_total(before[j - 1].name, view.name);
            } else {
                let a = if i < k { i } else { i - 1 };
                let b = if j < k { j } else { j - 1 };
                assert(after[i] == before[a] && after[j] == before[b]);
            }
        }
        assert forall|name: Seq<char>| #[trigger] named(after, name) == named(
            before.push(view),
            name,
        ) by {
            let p = |f: FileView<P>| f.name == name;
            let front = before.take(k as int);
            let back = before.skip(k as int);
            let one = seq![view];
            assert(before =~= front + back);
            assert(after =~= (front + one) + back);
            assert(before.push(view) =~= (front + back) + one);
            Seq::filter_distributes_over_add(front + one, back, p);
            Seq::filter_distributes_over_add(front, one, p);
            Seq::filter_distributes_over_add(front + back, one, p);
            Seq::filter_distributes_over_add(front, back, p);
            if name == view.name {
                assert forall|i: int| 0 <= i < back.len() implies !p(#[trigger] back[i]) by {
                    assert(back[i] == before[k + i]);
                    if before[k + i].name == view.name {
                        text::text_le_total(view.name, view.name);
                    }
                }
                filter_of_none(back, p);
            } else {
                assert forall|i: int| 0 <= i < one.len() implies !p(#[trigger] one[i]) by {}
                filter_of_none(one, p);
            }
            assert((front.filter(p) + one.filter(p)) + back.filter(p) =~= (front.filter(p)
                + back.filter(p)) + one.filter(p));
        }
    }
}

proof fn filter_of_none<T>(s: Seq<T>, p: spec_fn(T) -> bool)
    requires
        forall|i: int| 0 <= i < s.len() ==> !p(#[trigger] s[i]),
    ensures
        s.filter(p) == Seq::<T>::empty(),
    decreases s.len(),
{
    reveal(Seq::filter);
    if s.len() > 0 {
        assert forall|i: int| 0 <= i < s.drop_last().len() implies !p(
            #[trigger] s.drop_last()[i],
        ) by {
            assert(s.drop_last()[i] == s[i]);
        }
        filter_of_none(s.drop_last(), p);
    }
}

impl PlaylistLibrary {
    /// The library in the directory that `PLAYLISTS_DIR` names, where it is set, and otherwise in
    /// `playlists`.
    pub fn from_env(playlists_dir: Option<String>) -> (library: Self)
        ensures
            library@ == match playlists_dir {
                Some(dir) => dir@,
                None => "playlists"@,
            },
    {
        PlaylistLibrary {
            root: match playlists_dir {
                Some(dir) => dir,
                None => "playlists".to_owned(),
            },
        }
    }

    /// The library's directory.
    pub fn root(&self) -> (root: &str)
        ensures
            root@ == self@,
    {
        self.root.as_str()
    }

    /// The playlist files among the entries of the library's directory, in the order of their
    /// names, or the error that reading the directory gave.
    pub fn files<P>(&self, entries: Result<Vec<DirectoryEntry<P>>, String>) -> (files: Result<
        Vec<PlaylistFile<P>>,
        PlaylistError,
    >)
        ensures
            match entries {
                Ok(entries) => files matches Ok(files) && lists(
                    file_views(files@),
                    playlist_files(entries@),
                ),
                Err(source) => files matches Err(error) && error@ == (ErrorView::Directory {
                    path: self@,
                    source: source@,
                }),
            },
            entries matches Err(source) ==> (files matches Err(PlaylistError::Directory {
                path,
                source: told,
            }) && path@ == self@ && told@ == source@),
            (entries matches Ok(entries) && files matches Ok(files)) ==> {
                let entries = entries->Ok_0@;
                let files = files->Ok_0@;
                &&& forall|i: int, j: int|
                    0 <= i < j < files.len() ==> text::text_le(
                        (#[trigger] files[i]).name@,
                        (#[trigger] files[j]).name@,
                    )
                &&& forall|i: int| 0 <= i < files.len() ==> is_among(#[trigger] files[i], entries)
                &&& forall|k: int|
                    0 <= k < entries.len() && is_playlist(#[trigger] entries[k]) ==> is_listed(
                        entries[k],
                        files,
                    )
            },
    {
        let entries = match entries {
            Ok(entries) => entries,
            Err(source) => return Err(
                PlaylistError::Directory { path: self.root.clone(), source },
            ),
        };
        let mut files: Vec<PlaylistFile<P>> = Vec::new();
        let ghost all = entries@;
        assert(all.take(0) =~= Seq::empty());
        assert(file_views(files@) =~= Seq::empty());
        for entry in it: entries
            invariant
                it.seq() == all,
                lists(file_views(files@), playlist_files(all.take(it.index() as int))),
        {
            let ghost found = playlist_files(all.take(it.index() as int));
            assert(all.take(it.index() + 1).drop_last() =~= all.take(it.index() as int));
            assert(all.take(it.index() + 1).last() == entry);
            if is_playlist_extension(&entry.extension) && entry.is_file {
                if let Some(stem) = &entry.stem {
                    let name = text::trim(stem.as_str());
                    if !name.is_empty() {
                        let file = PlaylistFile { name: name.to_owned(), path: entry.path };
                        let ghost before = file_views(files@);
                        let ghost view = file@;
                        file_by_name(&mut files, file);
                        proof {
                            assert forall|n: Seq<char>| #[trigger]
                                named(file_views(files@), n) == named(found.push(view), n) by {
                                let p = |f: FileView<P>| f.name == n;
                                assert(before.push(view) =~= before + seq![view]);
                                assert(found.push(view) =~= found + seq![view]);
                                Seq::filter_distributes_over_add(before, seq![view], p);
                                Seq::filter_distributes_over_add(found, seq![view], p);
                                assert(named(before, n) == named(found, n));
                            }
                        }
                    }
                }
            }
        }
        assert(all.take(all.len() as int) =~= all);
        proof {
            listing_follows_entries(files@, all);
        }
        Ok(files)
    }

    /// Return the available direct-child `.txt` playlists in filename order: the names of the
    /// files, or the error in their place.
    pub fn list<P>(&self, files: Result<Vec<PlaylistFile<P>>, PlaylistError>) -> (names: Result<
        Vec<String>,
        PlaylistError,
    >)
        ensures
            match files {
                Ok(files) => names matches Ok(names) && texts(names@) == file_names(
                    file_views(files@),
                ),
                Err(error) => names == Err::<Vec<String>, PlaylistError>(error),
            },
            files matches Ok(files) ==> (names matches Ok(names) && {
                &&& names@.len() == files@.len()
                &&& forall|i: int|
                    0 <= i < names@.len() ==> (#[trigger] names@[i])@ == files@[i].name@
            }),
    {
        let files = match files {
            Ok(files) => files,
            Err(error) => return Err(error),
        };
        let ghost all = files@;
        let mut names: Vec<String> = Vec::new();
        for file in it: files
            invariant
                it.seq() == all,
                names.len() == it.index(),
                forall|j: int| 0 <= j < names.len() ==> (#[trigger] names@[j])@ == all[j].name@,
        {
            names.push(file.name);
        }
        assert(texts(names@) =~= file_names(file_views(all)));
        Ok(names)
    }

    /// Begins to load one named playlist: the name to look for, without white space around it.
    pub fn load(&self, requested_name: &str) -> (name: Result<String, PlaylistError>)
        ensures
            if text::trimmed(requested_name@).len() == 0 {
                name matches Err(error) && error@ == (ErrorView::NotFound { name: requested_name@ })
            } else {
                name matches Ok(name) && name@ == text::trimmed(requested_name@)
            },
            name matches Err(error) ==> (error matches PlaylistError::NotFound { name: told }
                && told@ == requested_name@),
    {
        let name = text::trim(requested_name);
        if name.is_empty() {
            return Err(PlaylistError::NotFound { name: requested_name.to_owned() });
        }
        Ok(name.to_owned())
    }

    /// Finds the first listed file of that name. Only a listed file is ever found, whatever the
    /// name says.
    pub fn find<P>(&self, files: Vec<PlaylistFile<P>>, name: &str) -> (file: Result<
        PlaylistFile<P>,
        PlaylistError,
    >)
        ensures
            match file {
                Ok(file) => exists|i: int|
                    0 <= i < files@.len() && file == #[trigger] files@[i] && files@[i].name@
                        == name@ && forall|j: int|
                        0 <= j < i ==> (#[trigger] files@[j]).name@ != name@,
                Err(error) => error@ == (ErrorView::NotFound { name: name@ }) && forall|j: int|
                    0 <= j < files@.len() ==> (#[trigger] files@[j]).name@ != name@,
            },
            file matches Err(error) ==> (error matches PlaylistError::NotFound { name: told }
                && told@ == name@),
    {
        let ghost all = files@;
        for file in it: files
            invariant
                it.seq() == all,
                all == files@,
                forall|j: int| 0 <= j < it.index() ==> (#[trigger] all[j]).name@ != name@,
        {
            if text::same(file.name.as_str(), name) {
                assert(file == all[it.index() as int]);
                return Ok(file);
            }
        }
        Err(PlaylistError::NotFound { name: name.to_owned() })
    }

    /// Finishes loading a playlist: reads the text of its file, or reports why that failed.
    pub fn read(&self, name: &str, contents: Result<String, String>) -> (result: Result<
        Playlist,
        PlaylistError,
    >)
        ensures
            outcome(result) == match contents {
                Ok(contents) => parsed_playlist(name@, contents@),
                Err(source) => Err(ErrorView::Read { name: name@, source: source@ }),
            },
            contents matches Err(source) ==> (result matches Err(PlaylistError::Read {
                name: told,
                source: why,
            }) && told@ == name@ && why@ == source@),
            result matches Ok(playlist) ==> (contents matches Ok(contents) && {
                let entries = entries_of(lines(contents@));
                &&& playlist.name@ == name@
                &&& playlist.entries@.len() == entries.len()
                &&& forall|i: int|
                    0 <= i < entries.len() ==> (#[trigger] playlist.entries@[i]).query@
                        == entries[i].query && playlist.entries@[i].line_number
                        == entries[i].line_number
            }),
    {
        match contents {
            Ok(contents) => parse_playlist(name, contents.as_str()),
            Err(source) => Err(PlaylistError::Read { name: name.to_owned(), source }),
        }
    }
}

/// A name finds a playlist exactly if a directory entry has it, and then the first such entry in
/// the order of the directory; nothing outside the directory is ever reached.
pub proof fn name_finds_first_entry<P>(
    listing: Seq<FileView<P>>,
    found: Seq<FileView<P>>,
    name: Seq<char>,
    i: int,
)
    requires
        lists(listing, found),
        0 <= i <= listing.len(),
        forall|j: int| 0 <= j < i ==> (#[trigger] listing[j]).name != name,
        i < listing.len() ==> listing[i].name == name,
    ensures
        i < listing.len() ==> named(found, name).len() > 0 && listing[i] == named(found, name)[0],
        i == listing.len() ==> named(found, name).len() == 0,
{
    let p = |f: FileView<P>| f.name == name;
    let front = listing.take(i);
    let back = listing.skip(i);
    assert(listing =~= front + back);
    Seq::filter_distributes_over_add(front, back, p);
    filter_of_none(front, p);
    assert(named(listing, name) =~= back.filter(p));
    if i < listing.len() {
        let one = seq![listing[i]];
        assert(back =~= one + listing.skip(i + 1));
        Seq::filter_distributes_over_add(one, listing.skip(i + 1), p);
        reveal(Seq::filter);
        assert(one.drop_last() =~= Seq::empty());
        assert(one.filter(p) =~= one);
    } else {
        filter_of_none(back, p);
    }
}

/// A listing holds every playlist file of the directory and nothing else, and its names come in
/// order.
pub proof fn listing_is_complete<P>(
    listing: Seq<FileView<P>>,
    entries: Seq<DirectoryEntry<P>>,
    file: FileView<P>,
)
    requires
        lists(listing, playlist_files(entries)),
    ensures
        listing.contains(file) == exists|i: int|
            0 <= i < entries.len() && playlist_file(#[trigger] entries[i]) == Some(file),
        forall|i: int, j: int|
            0 <= i < j < listing.len() ==> text::text_le(
                #[trigger] file_names(listing)[i],
                #[trigger] file_names(listing)[j],
            ),
{
    let found = playlist_files(entries);
    let p = |f: FileView<P>| f.name == file.name;
    assert(named(listing, file.name) == named(found, file.name));
    filter_contains_matching(listing, p, file);
    filter_contains_matching(found, p, file);
    found_come_from_entries(entries, file);
    assert forall|i: int, j: int| 0 <= i < j < listing.len() implies text::text_le(
        #[trigger] file_names(listing)[i],
        #[trigger] file_names(listing)[j],
    ) by {
        assert(text::text_le(listing[i].name, listing[j].name));
    }
}

/// Every listed name can be loaded as it stands: it is not empty, has no white space around it,
/// and finds the first file of that name.
pub proof fn listed_names_can_be_loaded<P>(
    listing: Seq<FileView<P>>,
    entries: Seq<DirectoryEntry<P>>,
    i: int,
)
    requires
        lists(listing, playlist_files(entries)),
        0 <= i < listing.len(),
    ensures
        text::trimmed(listing[i].name) == listing[i].name,
        listing[i].name.len() > 0,
        named(listing, listing[i].name).len() > 0,
        named(listing, listing[i].name) == named(playlist_files(entries), listing[i].name),
{
    let file = listing[i];
    let p = |f: FileView<P>| f.name == file.name;
    listing_is_complete(listing, entries, file);
    assert(listing.contains(file));
    let k = choose|k: int|
        0 <= k < entries.len() && playlist_file(#[trigger] entries[k]) == Some(file);
    text::trimming_twice(entries[k].stem->Some_0@);
    filter_contains_matching(listing, p, file);
}

proof fn listing_follows_entries<P>(files: Seq<PlaylistFile<P>>, entries: Seq<DirectoryEntry<P>>)
    requires
        lists(file_views(files), playlist_files(entries)),
    ensures
        forall|i: int, j: int|
            0 <= i < j < files.len() ==> text::text_le(
                (#[trigger] files[i]).name@,
                (#[trigger] files[j]).name@,
            ),
        forall|i: int| 0 <= i < files.len() ==> is_among(#[trigger] files[i], entries),
        forall|k: int|
            0 <= k < entries.len() && is_playlist(#[trigger] entries[k]) ==> is_listed(
                entries[k],
                files,
            ),
{
    let listing = file_views(files);
    assert forall|i: int, j: int| 0 <= i < j < files.len() implies text::text_le(
        (#[trigger] files[i]).name@,
        (#[trigger] files[j]).name@,
    ) by {
        assert(text::text_le(listing[i].name, listing[j].name));
    }
    assert forall|i: int| 0 <= i < files.len() implies is_among(#[trigger] files[i], entries) by {
        let file = listing[i];
        listing_is_complete(listing, entries, file);
        assert(listing.contains(file));
        let k = choose|k: int|
            0 <= k < entries.len() && playlist_file(#[trigger] entries[k]) == Some(file);
        assert(comes_from(files[i], entries[k]));
    }
    assert forall|k: int|
        0 <= k < entries.len() && is_playlist(#[trigger] entries[k]) implies is_listed(
        entries[k],
        files,
    ) by {
        let file = playlist_file(entries[k])->Some_0;
        assert(playlist_file(entries[k]) == Some(file));
        listing_is_complete(listing, entries, file);
        let i = listing.index_of(file);
        assert(comes_from(files[i], entries[k]));
    }
}

proof fn filter_contains_matching<T>(s: Seq<T>, p: spec_fn(T) -> bool, x: T)
    requires
        p(x),
    ensures
        s.filter(p).contains(x) == s.contains(x),
    decreases s.len(),
{
    reveal(Seq::filter);
    if s.len() > 0 {
        let rest = s.drop_last();
        filter_contains_matching(rest, p, x);
        assert(s =~= rest.push(s.last()));
        if s.last() == x {
            assert(s[s.len() - 1] == x);
            assert(s.filter(p)[s.filter(p).len() - 1] == x);
        } else {
            if rest.contains(x) {
                let i = rest.index_of(x);
                assert(s[i] == x);
                let k = rest.filter(p).index_of(x);
                assert(s.filter(p)[k] == x);
            }
            if s.contains(x) {
                let i = s.index_of(x);
                assert(rest[i] == x);
            }
        }
    }
}

proof fn found_come_from_entries<P>(entries: Seq<DirectoryEntry<P>>, file: FileView<P>)
    ensures
        playlist_files(entries).contains(file) == exists|i: int|
            0 <= i < entries.len() && playlist_file(#[trigger] entries[i]) == Some(file),
    decreases entries.len(),
{
    if entries.len() > 0 {
        let rest = entries.drop_last();
        let found = playlist_files(rest);
        let all = playlist_files(entries);
        found_come_from_entries(rest, file);
        if playlist_file(entries.last()) == Some(file) {
            assert(all[all.len() - 1] == file);
            assert(playlist_file(entries[entries.len() - 1]) == Some(file));
        } else {
            if found.contains(file) {
                let k = found.index_of(file);
                assert(all[k] == file);
                let i = choose|i: int|
                    0 <= i < rest.len() && playlist_file(#[trigger] rest[i]) == Some(file);
                assert(entries[i] == rest[i]);
            }
            if all.contains(file) {
                let k = all.index_of(file);
                assert(found[k] == file);
            }
            if exists|i: int|
                0 <= i < entries.len() && playlist_file(#[trigger] entries[i]) == Some(file) {
                let i = choose|i: int|
                    0 <= i < entries.len() && playlist_file(#[trigger] entries[i]) == Some(file);
                assert(rest[i] == entries[i]);
            }
        }
    }
}

/// What an error says.
pub open spec fn error_text(error: ErrorView) -> Seq<char> {
    match error {
        ErrorView::Directory { path, source } => "could not read playlist directory "@ + path
            + ": "@ + source,
        ErrorView::Read { name, source } => "could not read playlist '"@ + name + "': "@ + source,
        ErrorView::NotFound { name } => "playlist '"@ + name + "' was not found"@,
        ErrorView::Empty { name } => "playlist '"@ + name + "' has no tracks"@,
        ErrorView::TooManyTracks { name, maximum } => "playlist '"@ + name
            + "' contains more than "@ + text::decimal(maximum) + " tracks"@,
        ErrorView::LineTooLong { name, line_number, maximum } => "playlist '"@ + name + "' line "@
            + text::decimal(line_number) + " is longer than "@ + text::decimal(maximum)
            + " characters"@,
    }
}

impl PlaylistError {
    /// What the error says.
    pub fn message(&self) -> (message: String)
        ensures
            message@ == error_text(self@),
            match *self {
                PlaylistError::Directory { path, source } => message@
                    == "could not read playlist directory "@ + path@ + ": "@ + source@,
                PlaylistError::Read { name, source } => message@ == "could not read playlist '"@
                    + name@ + "': "@ + source@,
                PlaylistError::NotFound { name } => message@ == "playlist '"@ + name@
                    + "' was not found"@,
                PlaylistError::Empty { name } => message@ == "playlist '"@ + name@
                    + "' has no tracks"@,
                PlaylistError::TooManyTracks { name, maximum } => message@ == "playlist '"@ + name@
                    + "' contains more than "@ + text::decimal(maximum as nat) + " tracks"@,
                PlaylistError::LineTooLong { name, line_number, maximum } => message@
                    == "playlist '"@ + name@ + "' line "@ + text::decimal(line_number as nat)
                    + " is longer than "@ + text::decimal(maximum as nat) + " characters"@,
            },
    {
        match self {
            PlaylistError::Directory { path, source } => {
                let mut message = text::concat3(
                    "could not read playlist directory ",
                    path.as_str(),
                    ": ",
                );
                message.append(source.as_str());
                message
            },
            PlaylistError::Read { name, source } => {
                let mut message = text::concat3("could not read playlist '", name.as_str(), "': ");
                message.append(source.as_str());
                message
            },
            PlaylistError::NotFound { name } => text::concat3(
                "playlist '",
                name.as_str(),
                "' was not found",
            ),
            PlaylistError::Empty { name } => text::concat3(
                "playlist '",
                name.as_str(),
                "' has no tracks",
            ),
            PlaylistError::TooManyTracks { name, maximum } => text::concat5(
                "playlist '",
                name.as_str(),
                "' contains more than ",
                text::decimal_text(*maximum as u64).as_str(),
                " tracks",
            ),
            PlaylistError::LineTooLong { name, line_number, maximum } => {
                let mut message = text::concat5(
                    "playlist '",
                    name.as_str(),
                    "' line ",
                    text::decimal_text(*line_number as u64).as_str(),
                    " is longer than ",
                );
                message.append(text::decimal_text(*maximum as u64).as_str());
                message.append(" characters");
                message
            },
        }
    }
}

}
