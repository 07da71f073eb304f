//! Explicit YouTube playlist URLs.

use vstd::prelude::*;
use vstd::string::*;

use crate::playlists;
use crate::text;

verus! {

/// One resolvable video of a YouTube playlist.
#[derive(Debug)]
pub struct PlaylistVideo {
    pub title: String,
    pub url: String,
}

/// A YouTube playlist: its title, and its resolvable videos in playlist order.
#[derive(Debug)]
pub struct YoutubePlaylist {
    pub title: String,
    pub tracks: Vec<PlaylistVideo>,
}

/// The text of a video.
#[verifier::ext_equal]
pub struct VideoView {
    pub title: Seq<char>,
    pub url: Seq<char>,
}

/// The text of a YouTube playlist.
#[verifier::ext_equal]
pub struct YoutubeView {
    pub title: Seq<char>,
    pub tracks: Seq<VideoView>,
}

impl View for PlaylistVideo {
    type V = VideoView;

    open spec fn view(&self) -> VideoView {
        VideoView { title: self.title@, url: self.url@ }
    }
}

/// The text of a list of videos.
pub open spec fn video_views(tracks: Seq<PlaylistVideo>) -> Seq<VideoView> {
    tracks.map_values(|video: PlaylistVideo| video@)
}

impl View for YoutubePlaylist {
    type V = YoutubeView;

    open spec fn view(&self) -> YoutubeView {
        YoutubeView {
            title: self.title@,
            tracks: video_views(self.tracks@),
        }
    }
}

/// The place of the first tab in `s`, or the length of `s` where there is none.
pub open spec fn first_tab(s: Seq<char>) -> nat
    decreases s.len(),
{
    if s.len() == 0 || s[0] == '\t' {
        0
    } else {
        1 + first_tab(s.drop_first())
    }
}

/// What stands before the first tab in `s` and what behind it, where there is a tab.
pub open spec fn cut_at_tab(s: Seq<char>) -> Option<(Seq<char>, Seq<char>)> {
    let i = first_tab(s) as int;
    if i < s.len() {
        Some((s.take(i), s.skip(i + 1)))
    } else {
        None
    }
}

/// The three fields of a line: its first two tabs part them.
pub open spec fn fields(line: Seq<char>) -> Option<(Seq<char>, Seq<char>, Seq<char>)> {
    match cut_at_tab(line) {
        Some((first, rest)) => match cut_at_tab(rest) {
            Some((second, third)) => Some((first, second, third)),
            None => None,
        },
        None => None,
    }
}

/// The fields of the lines that have three, in order.
pub open spec fn listed(lines: Seq<Seq<char>>) -> Seq<(Seq<char>, Seq<char>, Seq<char>)>
    decreases lines.len(),
{
    if lines.len() == 0 {
        seq![]
    } else {
        match fields(lines.last()) {
            Some(video) => listed(lines.drop_last()).push(video),
            None => listed(lines.drop_last()),
        }
    }
}

/// The videos of a listing: the URL is the first field and the title the third.
pub open spec fn videos_of(
    listing: Seq<(Seq<char>, Seq<char>, Seq<char>)>,
) -> Seq<VideoView> {
    listing.map_values(
        |video: (Seq<char>, Seq<char>, Seq<char>)| VideoView { title: video.2, url: video.0 },
    )
}

/// The playlist that yt-dlp printed: one video on each line of three fields, in order, under the
/// title that stands in the second field of the first video. A listing without videos is none.
pub open spec fn printed_playlist(output: Seq<char>) -> Option<YoutubeView> {
    let listing = listed(playlists::lines(output));
    if listing.len() == 0 {
        None
    } else {
        Some(YoutubeView { title: listing[0].1, tracks: videos_of(listing) })
    }
}

/// Cuts `s` at its first tab.
fn split_at_tab(s: &str) -> (parts: Option<(&str, &str)>)
    ensures
        match parts {
            Some((before, behind)) => cut_at_tab(s@) == Some((before@, behind@)),
            None => cut_at_tab(s@) is None,
        },
{
    let v = text::chars_of(s);
    let mut i: usize = 0;
    assert(s@.skip(0) =~= s@);
    while i < v.len()
        invariant
            v@ == s@,
            i <= v.len(),
            first_tab(s@) == i + first_tab(s@.skip(i as int)),
        decreases v.len() - i,
    {
        if v[i] == '\t' {
            let before = s.substring_char(0, i);
            let behind = s.substring_char(i + 1, v.len());
            assert(before@ =~= s@.take(i as int));
            assert(behind@ =~= s@.skip(i + 1));
            return Some((before, behind));
        }
        assert(s@.skip(i as int).drop_first() =~= s@.skip(i + 1));
        i += 1;
    }
    None
}

/// Reads a playlist out of what yt-dlp printed: for each video a line with its URL, the
/// playlist's title and its own title, and a tab between them.
pub fn resolve(output: &str) -> (playlist: Option<YoutubePlaylist>)
    ensures
        match playlist {
            Some(playlist) => printed_playlist(output@) == Some(playlist@),
            None => printed_playlist(output@) is None,
        },
        playlist matches Some(playlist) ==> (printed_playlist(output@) matches Some(printed) && {
            &&& playlist.title@ == printed.title
            &&& playlist.tracks@.len() == printed.tracks.len()
            &&& forall|i: int|
                0 <= i < playlist.tracks@.len() ==> (#[trigger] playlist.tracks@[i]).title@
                    == printed.tracks[i].title && playlist.tracks@[i].url@ == printed.tracks[i].url
        }),
{
    let list = playlists::lines_of(output);
    let ghost all = playlists::lines(output@);
    let mut title: Option<String> = None;
    let mut tracks: Vec<PlaylistVideo> = Vec::new();
    let mut i: usize = 0;
    assert(all.take(0) =~= seq![]);
    while i < list.len()
        invariant
            i <= list.len(),
            all == playlists::texts(list@),
            all == playlists::lines(output@),
            video_views(tracks@) == videos_of(listed(all.take(i as int))),
            match title {
                Some(title) => tracks@.len() > 0 && title@ == listed(all.take(i as int))[0].1,
                None => tracks@.len() == 0,
            },
        decreases list.len() - i,
    {
        let ghost before = listed(all.take(i as int));
        let ghost videos = video_views(tracks@);
        assert(all.take(i + 1).drop_last() =~= all.take(i as int));
        assert(all.take(i + 1).last() == list@[i as int]@);
        assert(videos.len() == before.len());
        if let Some((url, rest)) = split_at_tab(list[i].as_str()) {
            if let Some((playlist_title, video_title)) = split_at_tab(rest) {
                let ghost line = (url@, playlist_title@, video_title@);
                assert(listed(all.take(i + 1)) == before.push(line));
                if title.is_none() {
                    title = Some(playlist_title.to_owned());
                }
                tracks.push(
                    PlaylistVideo { title: video_title.to_owned(), url: url.to_owned() },
                );
                let ghost video = VideoView { title: line.2, url: line.0 };
                assert(video_views(tracks@) =~= videos.push(video));
                assert(videos_of(before.push(line)) =~= videos_of(before).push(video));
            }
        }
        i += 1;
    }
    assert(all.take(all.len() as int) =~= all);
    match title {
        Some(title) => {
            let playlist = YoutubePlaylist { title, tracks };
            assert forall|k: int| 0 <= k < playlist.tracks@.len() implies (
            #[trigger] playlist.tracks@[k]).title@ == playlist@.tracks[k].title
                && playlist.tracks@[k].url@ == playlist@.tracks[k].url by {
                assert(video_views(playlist.tracks@)[k] == playlist.tracks@[k]@);
            }
            Some(playlist)
        },
        None => None,
    }
}

/// What follows the scheme of a web address.
pub open spec fn after_scheme(url: Seq<char>) -> Option<Seq<char>> {
    match text::stripped(url, "https://"@) {
        Some(rest) => Some(rest),
        None => text::stripped(url, "http://"@),
    }
}

/// A host name without the prefix of one of YouTube's sites.
pub open spec fn without_site(host: Seq<char>) -> Seq<char> {
    match text::stripped(host, "www."@) {
        Some(rest) => rest,
        None => match text::stripped(host, "m."@) {
            Some(rest) => rest,
            None => match text::stripped(host, "music."@) {
                Some(rest) => rest,
                None => host,
            },
        },
    }
}

/// Whether the parameter at `i` of a URL query is a `list` that is not empty.
pub open spec fn list_at(query: Seq<char>, i: int) -> bool {
    &&& 0 <= i < query.len()
    &&& i == 0 || query[i - 1] == '&'
    &&& forall|j: int| 0 <= j < i ==> query[j] != '#'
    &&& text::stripped(query.skip(i), "list="@) matches Some(value) && value.len() > 0 && value[0]
        != '&' && value[0] != '#'
}

/// Whether a URL query has a `list` parameter that is not empty.
pub open spec fn lists_videos(query: Seq<char>) -> bool {
    exists|i: int| list_at(query, i)
}

/// Whether a URL is an explicit YouTube `/playlist?list=...` address.
pub open spec fn playlist_url(url: Seq<char>) -> bool {
    after_scheme(url) matches Some(rest) && (text::stripped(
        without_site(rest),
        "youtube.com/playlist?"@,
    ) matches Some(query) && lists_videos(query))
}

/// Whether `url` is an explicit YouTube playlist address.
pub fn is_youtube_playlist_url(url: &str) -> (r: bool)
    ensures
        r == playlist_url(url@),
{
    let rest = match text::strip_prefix(url, "https://") {
        Some(rest) => rest,
        None => match text::strip_prefix(url, "http://") {
            Some(rest) => rest,
            None => return false,
        },
    };
    let host = match text::strip_prefix(rest, "www.") {
        Some(host) => host,
        None => match text::strip_prefix(rest, "m.") {
            Some(host) => host,
            None => match text::strip_prefix(rest, "music.") {
                Some(host) => host,
                None => rest,
            },
        },
    };
    match text::strip_prefix(host, "youtube.com/playlist?") {
        Some(query) => has_list(query),
        None => false,
    }
}

/// Whether a URL query has a `list` parameter that is not empty.
fn has_list(query: &str) -> (r: bool)
    ensures
        r == lists_videos(query@),
{
    let v = text::chars_of(query);
    let mut i: usize = 0;
    while i < v.len()
        invariant
            v@ == query@,
            i <= v.len(),
            forall|j: int| 0 <= j < i ==> query@[j] != '#',
            forall|j: int| 0 <= j < i ==> !list_at(query@, j),
        decreases v.len() - i,
    {
        if i == 0 || v[i - 1] == '&' {
            let rest = query.substring_char(i, v.len());
            assert(rest@ =~= query@.skip(i as int));
            if let Some(value) = text::strip_prefix(rest, "list=") {
                if !value.is_empty() && value.get_char(0) != '&' && value.get_char(0) != '#' {
                    assert(list_at(query@, i as int));
                    return true;
                }
            }
        }
        assert(!list_at(query@, i as int));
        if v[i] == '#' {
            return false;
        }
        i += 1;
    }
    false
}

/// Every `/playlist?list=...` address of YouTube is an explicit playlist URL: under both schemes and
/// on each of the sites, whatever the id, and with other parameters before and behind it.
pub proof fn playlist_addresses_count(
    scheme: Seq<char>,
    site: Seq<char>,
    before: Seq<char>,
    id: Seq<char>,
    behind: Seq<char>,
)
    requires
        scheme == "https://"@ || scheme == "http://"@,
        site == ""@ || site == "www."@ || site == "m."@ || site == "music."@,
        before.len() == 0 || before.last() == '&',
        forall|i: int| 0 <= i < before.len() ==> #[trigger] before[i] != '#',
        id.len() > 0,
        id[0] != '&' && id[0] != '#',
    ensures
        playlist_url(
            scheme + site + "youtube.com/playlist?"@ + before + "list="@ + id + behind,
        ),
{
    let page = "youtube.com/playlist?"@;
    let query = before + "list="@ + id + behind;
    let url = scheme + site + page + before + "list="@ + id + behind;
    same_concatenation(scheme, site, page, before, "list="@, id, behind);
    assert(url == scheme + (site + (page + query)));
    scheme_is_stripped(scheme, site + (page + query));
    assert((page + query)[0] == 'y') by {
        reveal_strlit("youtube.com/playlist?");
    }
    assert((page + query).len() > 0) by {
        reveal_strlit("youtube.com/playlist?");
    }
    site_is_stripped(site, page + query);
    text::stripping_undoes_prefixing(query, page);
    list_is_found(before, id, behind);
}

proof fn same_concatenation(
    a: Seq<char>,
    b: Seq<char>,
    c: Seq<char>,
    d: Seq<char>,
    e: Seq<char>,
    f: Seq<char>,
    g: Seq<char>,
)
    ensures
        a + b + c + d + e + f + g == a + (b + (c + (d + e + f + g))),
{
    assert(a + b + c + d + e + f + g =~= a + (b + (c + (d + e + f + g))));
}

proof fn list_is_found(before: Seq<char>, id: Seq<char>, behind: Seq<char>)
    requires
        before.len() == 0 || before.last() == '&',
        forall|i: int| 0 <= i < before.len() ==> #[trigger] before[i] != '#',
        id.len() > 0,
        id[0] != '&' && id[0] != '#',
    ensures
        lists_videos(before + "list="@ + id + behind),
{
    let query = before + "list="@ + id + behind;
    let i = before.len() as int;
    assert(query.skip(i) =~= "list="@ + (id + behind));
    text::stripping_undoes_prefixing(id + behind, "list="@);
    assert((id + behind)[0] == id[0]);
    if i > 0 {
        assert(query[i - 1] == before[i - 1]);
    }
    assert forall|j: int| 0 <= j < i implies query[j] != '#' by {
        assert(query[j] == before[j]);
    }
    assert(list_at(query, i));
}

proof fn scheme_is_stripped(scheme: Seq<char>, rest: Seq<char>)
    requires
        scheme == "https://"@ || scheme == "http://"@,
    ensures
        after_scheme(scheme + rest) == Some(rest),
{
    reveal_strlit("https://");
    reveal_strlit("http://");
    text::stripping_undoes_prefixing(rest, scheme);
    if scheme == "http://"@ {
        let url = scheme + rest;
        assert(url[4] == ':');
        assert("https://"@[4] == 's');
        if "https://"@.is_prefix_of(url) {
            assert(url.subrange(0, 8)[4] == url[4]);
        }
    }
}

proof fn site_is_stripped(site: Seq<char>, rest: Seq<char>)
    requires
        site == ""@ || site == "www."@ || site == "m."@ || site == "music."@,
        rest.len() > 0,
        rest[0] == 'y',
    ensures
        without_site(site + rest) == rest,
{
    reveal_strlit("");
    reveal_strlit("www.");
    reveal_strlit("m.");
    reveal_strlit("music.");
    let host = site + rest;
    text::stripping_undoes_prefixing(rest, site);
    if site == ""@ {
        assert(host =~= rest);
    }
    if site != "www."@ {
        if "www."@.is_prefix_of(host) {
            assert(host.subrange(0, 4)[0] == host[0]);
        }
        if site != "m."@ {
            if "m."@.is_prefix_of(host) {
                assert(host.subrange(0, 2)[0] == host[0]);
                assert(host.subrange(0, 2)[1] == host[1]);
            }
            if site != "music."@ {
                if "music."@.is_prefix_of(host) {
                    assert(host.subrange(0, 6)[0] == host[0]);
                }
            }
        }
    }
}

/// Nothing else is: an explicit playlist URL begins with a scheme, names one of the sites and the
/// playlist page, and has a `list` that is not empty among its parameters.
pub proof fn only_playlist_addresses_count(url: Seq<char>)
    requires
        playlist_url(url),
    ensures
        exists|scheme: Seq<char>, site: Seq<char>, before: Seq<char>, value: Seq<char>|
            {
                &&& url == #[trigger] (scheme + site + "youtube.com/playlist?"@ + before + "list="@
                    + value)
                &&& scheme == "https://"@ || scheme == "http://"@
                &&& site.len() == 0 || site == "www."@ || site == "m."@ || site == "music."@
                &&& before.len() > 0 ==> before.last() == '&'
                &&& forall|i: int| 0 <= i < before.len() ==> #[trigger] before[i] != '#'
                &&& value.len() > 0 && value[0] != '&' && value[0] != '#'
            },
{
    let (scheme, site, query) = address_parts(url);
    let page = "youtube.com/playlist?"@;
    let (before, value) = list_and_value(query);
    same_tail(scheme + site + page, before, "list="@, value);
    assert(url == scheme + site + page + before + "list="@ + value);
}

proof fn same_tail(a: Seq<char>, b: Seq<char>, c: Seq<char>, d: Seq<char>)
    ensures
        a + (b + c + d) == a + b + c + d,
{
    assert(a + (b + c + d) =~= a + b + c + d);
}

proof fn list_and_value(query: Seq<char>) -> (r: (Seq<char>, Seq<char>))
    requires
        lists_videos(query),
    ensures
        query == r.0 + "list="@ + r.1,
        r.0.len() > 0 ==> r.0.last() == '&',
        forall|i: int| 0 <= i < r.0.len() ==> #[trigger] r.0[i] != '#',
        r.1.len() > 0,
        r.1[0] != '&' && r.1[0] != '#',
{
    let i = choose|i: int| list_at(query, i);
    let value = text::stripped(query.skip(i), "list="@)->Some_0;
    text::stripping_undoes_prefixing(query.skip(i), "list="@);
    assert(query =~= query.take(i) + query.skip(i));
    assert(query =~= query.take(i) + "list="@ + value);
    (query.take(i), value)
}

proof fn address_parts(url: Seq<char>) -> (r: (Seq<char>, Seq<char>, Seq<char>))
    requires
        playlist_url(url),
    ensures
        "https://"@.is_prefix_of(url) || "http://"@.is_prefix_of(url),
        url == r.0 + r.1 + "youtube.com/playlist?"@ + r.2,
        lists_videos(r.2),
        r.0 == "https://"@ || r.0 == "http://"@,
        r.1.len() == 0 || r.1 == "www."@ || r.1 == "m."@ || r.1 == "music."@,
{
    let page = "youtube.com/playlist?"@;
    let scheme = if "https://"@.is_prefix_of(url) {
        "https://"@
    } else {
        "http://"@
    };
    text::stripping_undoes_prefixing(url, "https://"@);
    text::stripping_undoes_prefixing(url, "http://"@);
    let rest = after_scheme(url)->Some_0;
    let (site, tail) = site_and_tail(rest);
    text::stripping_undoes_prefixing(tail, page);
    let query = text::stripped(tail, page)->Some_0;
    same_concatenation_of_four(scheme, site, page, query);
    (scheme, site, query)
}

proof fn same_concatenation_of_four(a: Seq<char>, b: Seq<char>, c: Seq<char>, d: Seq<char>)
    ensures
        a + (b + (c + d)) == a + b + c + d,
{
    assert(a + (b + (c + d)) =~= a + b + c + d);
}

proof fn site_and_tail(rest: Seq<char>) -> (r: (Seq<char>, Seq<char>))
    ensures
        rest == r.0 + r.1,
        r.1 == without_site(rest),
        r.0.len() == 0 || r.0 == "www."@ || r.0 == "m."@ || r.0 == "music."@,
{
    text::stripping_undoes_prefixing(rest, "www."@);
    text::stripping_undoes_prefixing(rest, "m."@);
    text::stripping_undoes_prefixing(rest, "music."@);
    let site = if "www."@.is_prefix_of(rest) {
        "www."@
    } else if "m."@.is_prefix_of(rest) {
        "m."@
    } else if "music."@.is_prefix_of(rest) {
        "music."@
    } else {
        Seq::<char>::empty()
    };
    assert(Seq::<char>::empty() + rest =~= rest);
    (site, without_site(rest))
}

/// What yt-dlp prints is read line by line: each line of a URL, a playlist title and a title adds
/// that video behind the others, and the first one gives the playlist its title.
#[verifier::rlimit(40)]
pub proof fn videos_come_one_by_one(
    output: Seq<char>,
    url: Seq<char>,
    playlist_title: Seq<char>,
    title: Seq<char>,
)
    requires
        output.len() == 0 || output.last() == '\n',
        forall|i: int| 0 <= i < url.len() ==> #[trigger] url[i] != '\n' && url[i] != '\t',
        forall|i: int|
            0 <= i < playlist_title.len() ==> #[trigger] playlist_title[i] != '\n'
                && playlist_title[i] != '\t',
        forall|i: int| 0 <= i < title.len() ==> #[trigger] title[i] != '\n',
    ensures
        ({
            let line = url + seq!['\t'] + playlist_title + seq!['\t'] + title;
            let video = VideoView { title, url };
            printed_playlist(output + line.push('\n')) == Some(
                match printed_playlist(output) {
                    Some(playlist) => YoutubeView {
                        title: playlist.title,
                        tracks: playlist.tracks.push(video),
                    },
                    None => YoutubeView { title: playlist_title, tracks: seq![video] },
                },
            )
        }),
        printed_playlist(seq![]) is None,
{
    let line = url + seq!['\t'] + playlist_title + seq!['\t'] + title;
    assert forall|i: int| 0 <= i < line.len() implies #[trigger] line[i] != '\n' by {}
    playlists::lines_come_one_by_one(output, line);
    let rest = playlist_title + seq!['\t'] + title;
    assert(line =~= url + (seq!['\t'] + rest));
    tab_ends_field(url, rest);
    assert(rest =~= playlist_title + (seq!['\t'] + title));
    tab_ends_field(playlist_title, title);
    let all = playlists::lines(output);
    assert(all.push(line).drop_last() =~= all);
    let before = listed(all);
    let added = before.push((url, playlist_title, title));
    assert(listed(all.push(line)) == added);
    assert(videos_of(added) =~= videos_of(before).push(VideoView { title, url }));
    if before.len() == 0 {
        assert(videos_of(added) =~= seq![VideoView { title, url }]);
    }
}

proof fn tab_ends_field(field: Seq<char>, rest: Seq<char>)
    requires
        forall|i: int| 0 <= i < field.len() ==> #[trigger] field[i] != '\t',
    ensures
        cut_at_tab(field + (seq!['\t'] + rest)) == Some((field, rest)),
{
    let s = field + (seq!['\t'] + rest);
    first_tab_is(s, field.len() as int);
    assert(s.take(field.len() as int) =~= field);
    assert(s.skip(field.len() + 1int) =~= rest);
}

proof fn first_tab_is(s: Seq<char>, k: int)
    requires
        0 <= k <= s.len(),
        forall|i: int| 0 <= i < k ==> #[trigger] s[i] != '\t',
        k < s.len() ==> s[k] == '\t',
    ensures
        first_tab(s) == k,
    decreases s.len(),
{
    if k > 0 {
        let rest = s.drop_first();
        assert(s[0] != '\t');
        assert forall|i: int| 0 <= i < k - 1 implies #[trigger] rest[i] != '\t' by {
            assert(rest[i] == s[i + 1]);
        }
        first_tab_is(rest, k - 1);
    }
}

/// A line without two tabs is no video, and a last line counts with its line feed or without.
pub proof fn other_lines_are_no_videos(output: Seq<char>, line: Seq<char>, k: int)
    requires
        output.len() == 0 || output.last() == '\n',
        forall|i: int| 0 <= i < line.len() ==> #[trigger] line[i] != '\n',
    ensures
        (forall|i: int| 0 <= i < line.len() && i != k ==> #[trigger] line[i] != '\t')
            ==> printed_playlist(output + line.push('\n')) == printed_playlist(output),
        line.len() > 0 ==> printed_playlist(output + line) == printed_playlist(
            output + line.push('\n'),
        ),
{
    playlists::lines_come_one_by_one(output, line);
    let all = playlists::lines(output);
    assert(all.push(line).drop_last() =~= all);
    if forall|i: int| 0 <= i < line.len() && i != k ==> #[trigger] line[i] != '\t' {
        if 0 <= k < line.len() && line[k] == '\t' {
            first_tab_is(line, k);
            let rest = line.skip(k + 1);
            assert forall|i: int| 0 <= i < rest.len() implies #[trigger] rest[i] != '\t' by {
                assert(rest[i] == line[i + k + 1]);
            }
            first_tab_is(rest, rest.len() as int);
        } else {
            assert forall|i: int| 0 <= i < line.len() implies #[trigger] line[i] != '\t' by {}
            first_tab_is(line, line.len() as int);
        }
        assert(fields(line) is None);
    }
}

/// A playlist that yt-dlp printed holds at least one video.
pub proof fn printed_playlist_has_videos(output: Seq<char>)
    ensures
        printed_playlist(output) matches Some(playlist) ==> playlist.tracks.len() > 0,
{
}

}
