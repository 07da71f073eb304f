use std::path::Path;

use little_bobby_tabots::playlists::{
    directory_entry, is_playlist_extension, parse_playlist, DirectoryEntry, PlaylistError,
    PlaylistFile, PlaylistLibrary, MAX_PLAYLIST_LINE_LENGTH, MAX_PREDEFINED_PLAYLIST_TRACKS,
};

#[test]
fn parses_trimmed_entries_in_file_order() {
    let playlist = parse_playlist("focus", "\n  First song  \r\n\r\nhttps://example.com/two\n")
        .expect("playlist should parse");

    assert_eq!(playlist.name, "focus");
    assert_eq!(playlist.entries.len(), 2);
    assert_eq!(playlist.entries[0].line_number, 2);
    assert_eq!(playlist.entries[0].query, "First song");
    assert_eq!(playlist.entries[1].line_number, 4);
    assert_eq!(playlist.entries[1].query, "https://example.com/two");
}

#[test]
fn rejects_empty_playlist() {
    let error = parse_playlist("empty", " \n\r\n").expect_err("playlist should be empty");

    assert!(matches!(error, PlaylistError::Empty { .. }));
}

#[test]
fn rejects_a_line_that_is_too_long() {
    let long_line = "x".repeat(MAX_PLAYLIST_LINE_LENGTH + 1);
    let error = parse_playlist("long", &long_line).expect_err("line should be rejected");

    assert!(matches!(
        error,
        PlaylistError::LineTooLong { line_number: 1, .. }
    ));
}

#[test]
fn rejects_too_many_tracks() {
    let contents = std::iter::repeat_n("song", MAX_PREDEFINED_PLAYLIST_TRACKS + 1)
        .collect::<Vec<_>>()
        .join("\n");
    let error = parse_playlist("large", &contents).expect_err("playlist should be capped");

    assert!(matches!(error, PlaylistError::TooManyTracks { .. }));
}

fn entry(file_name: &str) -> DirectoryEntry<String> {
    let path = Path::new(file_name);
    DirectoryEntry {
        path: file_name.to_string(),
        extension: path.extension().and_then(|value| value.to_str()).map(str::to_string),
        stem: path.file_stem().and_then(|value| value.to_str()).map(str::to_string),
        is_file: true,
    }
}

#[test]
fn lists_text_files_case_insensitively() {
    let library = PlaylistLibrary::from_env(Some("somewhere".to_string()));
    let files = library
        .files(Ok(vec![entry("Focus.TXT"), entry("notes.md")]))
        .expect("playlists should list");
    assert_eq!(library.list(Ok(files)).expect("playlists should list"), vec!["Focus"]);
}

#[test]
fn lists_in_name_order_and_keeps_equal_names_apart() {
    let library = PlaylistLibrary::from_env(None);
    assert_eq!(library.root(), "playlists");
    let mut folder = entry("folder.txt");
    folder.is_file = false;
    let files = library
        .files(Ok(vec![
            entry("b.txt"),
            entry("a.TXT"),
            folder,
            entry("  .txt"),
            entry("Zed.txt"),
            entry("ab.txt"),
            entry("a.txt"),
            entry(".txt"),
            entry("é.txt"),
        ]))
        .expect("playlists should list");
    let names: Vec<&str> = files.iter().map(|file| file.name.as_str()).collect();
    assert_eq!(names, vec!["Zed", "a", "a", "ab", "b", "é"]);
    assert_eq!(files[1].path, "a.TXT");
    assert_eq!(files[2].path, "a.txt");

    let found = library.find(files, "a").expect("playlist should be found");
    assert_eq!(found.path, "a.TXT");
}

#[test]
fn unreadable_directory_is_reported() {
    let library = PlaylistLibrary::from_env(Some("private".to_string()));
    let error = library
        .list(library.files::<String>(Err("denied".to_string())))
        .expect_err("directory should be unreadable");
    assert_eq!(error.message(), "could not read playlist directory private: denied");
}

#[test]
fn load_trims_the_name_and_refuses_an_empty_one() {
    let library = PlaylistLibrary::from_env(None);
    assert_eq!(library.load("  focus\t").expect("name"), "focus");
    let error = library.load(" \n ").expect_err("no name");
    assert!(matches!(&error, PlaylistError::NotFound { name } if name == " \n "));
    assert_eq!(error.message(), "playlist ' \n ' was not found");
}

#[test]
fn a_path_finds_no_playlist() {
    let library = PlaylistLibrary::from_env(None);
    let files = vec![PlaylistFile { name: "focus".to_string(), path: 1 }];
    let error = library.find(files, "../focus").expect_err("not listed");
    assert!(matches!(error, PlaylistError::NotFound { name } if name == "../focus"));
}

#[test]
fn reading_gives_the_playlist_or_the_error() {
    let library = PlaylistLibrary::from_env(None);
    let playlist = library.read("one", Ok("song".to_string())).expect("playlist");
    assert_eq!(playlist.entries[0].query, "song");
    assert_eq!(playlist.clone(), playlist);
    let error = library.read("one", Err("gone".to_string())).expect_err("unreadable");
    assert_eq!(error.message(), "could not read playlist 'one': gone");
}

#[test]
fn limits_are_inclusive() {
    let longest = "x".repeat(MAX_PLAYLIST_LINE_LENGTH);
    let contents = vec![longest.as_str(); MAX_PREDEFINED_PLAYLIST_TRACKS].join("\n");
    let playlist = parse_playlist("full", &contents).expect("playlist should parse");
    assert_eq!(playlist.entries.len(), 100);
    assert_eq!(playlist.entries[99].line_number, 100);
}

#[test]
fn a_long_line_counts_before_one_too_many() {
    let mut lines = vec!["song".to_string(); 100];
    lines.push("x".repeat(501));
    let error = parse_playlist("both", &lines.join("\n")).expect_err("line should be rejected");
    assert!(matches!(error, PlaylistError::LineTooLong { line_number: 101, .. }));
    assert_eq!(error.message(), "playlist 'both' line 101 is longer than 500 characters");

    lines.insert(0, "song".to_string());
    let error = parse_playlist("both", &lines.join("\n")).expect_err("playlist should be capped");
    assert_eq!(error.message(), "playlist 'both' contains more than 100 tracks");
}

#[test]
fn characters_count_and_not_bytes() {
    let accents = "é".repeat(500);
    assert!(parse_playlist("accents", &accents).is_ok());
    let error = parse_playlist("blank", "\u{a0}\n\u{3000}").expect_err("playlist should be empty");
    assert_eq!(error.message(), "playlist 'blank' has no tracks");
}

#[test]
fn only_the_txt_extension_counts() {
    assert!(is_playlist_extension(&Some("tXt".to_string())));
    assert!(!is_playlist_extension(&Some("text".to_string())));
    assert!(!is_playlist_extension(&None));
}

#[test]
fn a_listed_name_loads_as_it_stands() {
    let library = PlaylistLibrary::from_env(None);
    let entry = |path: u8, stem: &str| DirectoryEntry {
        path,
        extension: Some("txt".to_string()),
        stem: Some(stem.to_string()),
        is_file: true,
    };
    let entries = || Ok(vec![entry(1, " road trip "), entry(2, "focus"), entry(3, "focus ")]);

    let names = library.list(library.files(entries())).expect("playlists should list");
    assert_eq!(names, vec!["focus", "focus", "road trip"]);

    for (name, path) in [("focus", 2), ("road trip", 1)] {
        assert_eq!(library.load(name).expect("name should be accepted"), name);
        let files = library.files(entries()).expect("files should list");
        assert_eq!(library.find(files, name).expect("file should be found").path, path);
    }
}

#[test]
fn only_a_playlist_needs_its_metadata() {
    let entry = |extension: &str, metadata: Result<bool, &'static str>| {
        directory_entry(
            1,
            Some(extension.to_string()),
            Some("focus".to_string()),
            metadata,
        )
        .map(|entry| entry.is_file)
    };

    assert_eq!(entry("TXT", Ok(true)), Ok(true));
    assert_eq!(entry("txt", Ok(false)), Ok(false));
    assert_eq!(entry("txt", Err("denied")), Err("denied"));
    assert_eq!(entry("md", Err("denied")), Ok(false));
    assert_eq!(entry("md", Ok(true)), Ok(false));
    assert_eq!(
        directory_entry(1, None, None, Err::<bool, &str>("denied")).map(|entry| entry.is_file),
        Ok(false)
    );
}
