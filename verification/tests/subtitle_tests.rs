use crab_dlna::devices::PositionInfo;
use crab_dlna::error::Error;
use crab_dlna::media::subtitle_parse::{
    detect_format_by_extension, entries_from_events, has_bounded_numbers, parse_subtitle_file,
    parse_subtitle_text, SubtitleEntry, SubtitleFormat, TimedEvent,
};
use crab_dlna::media::subtitle_sync::{lookup, on_tick, SubtitleSyncer};
use crab_dlna::media::subtitle_text::{clean_subtitle_text, remove_all, trim_chars};

const SRT: &str = "1\n00:00:01,000 --> 00:00:03,000\nHello, world!\n\n2\n00:00:04,000 --> 00:00:06,000\nThis is a test.\n";

#[test]
fn test_aspasia_direct() {
    // a more complete SRT text, with an empty line at its end
    let text = "1\n00:00:01,000 --> 00:00:03,000\nHello, world!\n\n2\n00:00:04,000 --> 00:00:06,000\nThis is a test.\n\n";
    let subtitle: aspasia::SubRipSubtitle = text.parse().unwrap();
    let events = aspasia::Subtitle::events(&subtitle);
    assert_eq!(events.len(), 2);
    assert_eq!(Into::<i64>::into(events[0].start), 1000);
    assert_eq!(Into::<i64>::into(events[0].end), 3000);
    assert_eq!(events[0].text, "Hello, world!");
}

#[test]
fn test_parse_srt_subtitle() {
    let entries = parse_subtitle_file("test.srt", SRT).unwrap();

    assert_eq!(entries.len(), 2);
    assert_eq!(entries[0].start_time, 1000);
    assert_eq!(entries[0].end_time, 3000);
    assert_eq!(entries[0].text, "Hello, world!");
    assert_eq!(entries[1].start_time, 4000);
    assert_eq!(entries[1].end_time, 6000);
    assert_eq!(entries[1].text, "This is a test.");
}

#[test]
fn test_get_current_subtitle() {
    let entries = vec![
        SubtitleEntry {
            start_time: 1000,
            end_time: 3000,
            text: "Hello, world!".to_string(),
        },
        SubtitleEntry {
            start_time: 4000,
            end_time: 6000,
            text: "This is a test.".to_string(),
        },
    ];

    let syncer = SubtitleSyncer::from_entries(entries);

    // within an entry
    assert_eq!(syncer.get_current_subtitle(2000), "Hello, world!");
    assert_eq!(syncer.get_current_subtitle(5000), "This is a test.");

    // outside every entry
    assert_eq!(syncer.get_current_subtitle(0), "");
    assert_eq!(syncer.get_current_subtitle(3500), "");
    assert_eq!(syncer.get_current_subtitle(7000), "");
}

fn two_entries() -> Vec<SubtitleEntry> {
    vec![
        SubtitleEntry { start_time: 1000, end_time: 3000, text: "A".to_string() },
        SubtitleEntry { start_time: 4000, end_time: 6000, text: "B".to_string() },
    ]
}

#[test]
fn lookup_over_two_entries() {
    let syncer = SubtitleSyncer::from_entries(two_entries());
    assert_eq!(syncer.get_current_subtitle(2000), "A");
    assert_eq!(syncer.get_current_subtitle(5000), "B");
    assert_eq!(syncer.get_current_subtitle(0), "");
    assert_eq!(syncer.get_current_subtitle(3500), "");
    assert_eq!(syncer.get_current_subtitle(7000), "");
}

#[test]
fn lookup_includes_both_ends() {
    let entries = two_entries();
    assert_eq!(lookup(&entries, 1000).map(String::as_str), Some("A"));
    assert_eq!(lookup(&entries, 3000).map(String::as_str), Some("A"));
    assert_eq!(lookup(&entries, 999), None);
    assert_eq!(lookup(&entries, 3001), None);
    assert_eq!(lookup(&entries, 4000).map(String::as_str), Some("B"));
    assert_eq!(lookup(&entries, 6000).map(String::as_str), Some("B"));
    assert_eq!(lookup(&entries, u64::MAX), None);
    assert_eq!(lookup(&Vec::new(), 0), None);
}

#[test]
fn lookup_returns_the_first_of_overlapping_entries() {
    let entries = vec![
        SubtitleEntry { start_time: 0, end_time: 10, text: "first".to_string() },
        SubtitleEntry { start_time: 5, end_time: 15, text: "second".to_string() },
        SubtitleEntry { start_time: 20, end_time: 10, text: "never".to_string() },
    ];
    assert_eq!(lookup(&entries, 7).map(String::as_str), Some("first"));
    assert_eq!(lookup(&entries, 12).map(String::as_str), Some("second"));
    assert_eq!(lookup(&entries, 16), None);
}

#[test]
fn syncer_reports_its_entries() {
    let syncer = SubtitleSyncer::from_entries(two_entries());
    assert_eq!(syncer.len(), 2);
    assert!(!syncer.is_empty());
    assert_eq!(syncer.entries()[1].text, "B");
    assert!(SubtitleSyncer::from_entries(Vec::new()).is_empty());
}

#[test]
fn syncer_reads_positions_as_time_strings() {
    let syncer = SubtitleSyncer::from_entries(two_entries());
    assert_eq!(syncer.subtitle_at("00:00:02"), "A");
    assert_eq!(syncer.subtitle_at("00:00:05.5"), "B");
    assert_eq!(syncer.subtitle_at("00:00:03,500"), "");
    assert_eq!(syncer.subtitle_at("NOT_IMPLEMENTED"), "");
}

#[test]
fn a_tick_never_fails() {
    let syncer = SubtitleSyncer::from_entries(two_entries());
    let mut position = PositionInfo::default();
    position.rel_time = "00:00:01".to_string();
    assert_eq!(on_tick(&syncer, &Ok(position)), Some("A".to_string()));
    let failure = Error::DlnaActionFailed {
        action: "GetPositionInfo".to_string(),
        source: "timeout".to_string(),
    };
    assert_eq!(on_tick(&syncer, &Err(failure)), None);
}

#[test]
fn syncer_is_made_from_path_and_text() {
    let syncer = SubtitleSyncer::new("movie.srt", SRT).unwrap();
    assert_eq!(syncer.len(), 2);
    assert_eq!(syncer.get_current_subtitle(4500), "This is a test.");
}

#[test]
fn clean_text_drops_italics_and_trims() {
    assert_eq!(clean_subtitle_text("<i>Hello</i>"), "Hello");
    assert_eq!(clean_subtitle_text("  padded \n"), "padded");
    assert_eq!(clean_subtitle_text(" <i> a <i>b</i> </i>\t"), "a b");
    assert_eq!(clean_subtitle_text("<<i>/i>x"), "x");
    assert_eq!(clean_subtitle_text("<b>bold</b>"), "<b>bold</b>");
    assert_eq!(clean_subtitle_text(""), "");
    assert_eq!(clean_subtitle_text(" \u{a0}\u{3000} "), "");
    assert_eq!(clean_subtitle_text("<i"), "<i");
    assert_eq!(clean_subtitle_text("\u{2003}wide\u{2028}"), "wide");
}

#[test]
fn clean_text_agrees_with_replace_and_trim() {
    let samples = [
        "<i>a</i>", "a<i>", "</i>b", "<i><i>", "<</i>i>", " x ", "\tx\r\n", "<i> </i>",
        "<i></i><i>", "é<i>ü</i>", "<I>x</I>", "<<i>i>", "<i</i>>",
    ];
    for text in samples {
        let expected = text.replace("<i>", "").replace("</i>", "").trim().to_string();
        assert_eq!(clean_subtitle_text(text), expected);
    }
}

#[test]
fn remove_all_and_trim_work_on_characters() {
    let text: Vec<char> = "xaaax".chars().collect();
    let tag: Vec<char> = "aa".chars().collect();
    assert_eq!(remove_all(&text, &tag), vec!['x', 'a', 'x']);
    assert_eq!(remove_all(&text, &Vec::new()), text);
    assert_eq!(remove_all(&Vec::new(), &tag), Vec::<char>::new());
    let padded: Vec<char> = "  a b  ".chars().collect();
    assert_eq!(trim_chars(&padded), vec!['a', ' ', 'b']);
}

#[test]
fn events_become_entries() {
    let events = vec![
        TimedEvent { start: -500, end: 1500, text: " <i>early</i> ".to_string() },
        TimedEvent { start: 2000, end: -1, text: "odd".to_string() },
        TimedEvent { start: i64::MAX, end: i64::MIN, text: String::new() },
    ];
    let entries = entries_from_events(&events);
    assert_eq!(entries.len(), 3);
    assert_eq!(entries[0].start_time, 0);
    assert_eq!(entries[0].end_time, 1500);
    assert_eq!(entries[0].text, "early");
    assert_eq!(entries[1].start_time, 2000);
    assert_eq!(entries[1].end_time, 0);
    assert_eq!(entries[2].start_time, i64::MAX as u64);
    assert_eq!(entries[2].end_time, 0);
    assert_eq!(entries[2].text, "");
}

#[test]
fn formats_are_told_from_the_extension() {
    assert_eq!(detect_format_by_extension("a.srt"), Some(SubtitleFormat::SubRip));
    assert_eq!(detect_format_by_extension("a.SRT"), Some(SubtitleFormat::SubRip));
    assert_eq!(detect_format_by_extension("dir/a.ass"), Some(SubtitleFormat::Ass));
    assert_eq!(detect_format_by_extension("a.ssa"), Some(SubtitleFormat::Ssa));
    assert_eq!(detect_format_by_extension("a.sub"), Some(SubtitleFormat::MicroDvd));
    assert_eq!(detect_format_by_extension("a.vtt"), Some(SubtitleFormat::WebVtt));
    assert_eq!(detect_format_by_extension("a.txt"), None);
    assert_eq!(detect_format_by_extension("a.SU\u{212a}"), None);
    assert_eq!(detect_format_by_extension("srt"), None);
}

#[test]
fn a_file_without_known_extension_is_told_from_its_text() {
    let entries = parse_subtitle_file("captions.txt", SRT).unwrap();
    assert_eq!(entries.len(), 2);
    let vtt = "WEBVTT\n\n00:00:01.000 --> 00:00:02.500\nHi there\n";
    let entries = parse_subtitle_file("captions", vtt).unwrap();
    assert_eq!(entries.len(), 1);
    assert_eq!(entries[0].start_time, 1000);
    assert_eq!(entries[0].end_time, 2500);
    assert_eq!(entries[0].text, "Hi there");
}

#[test]
fn a_file_of_unknown_format_is_refused_by_name() {
    let error = parse_subtitle_file("notes.txt", "just some words\n").unwrap_err();
    match error {
        Error::SubtitleSyncError { message, context } => {
            assert_eq!(
                message,
                "Failed to parse subtitle file: could not detect subtitle format automatically"
            );
            assert_eq!(context, "Parsing file: notes.txt");
        }
        other => panic!("unexpected error: {:?}", other),
    }
}

#[test]
fn overlong_numbers_are_refused() {
    let text = "1\n9999999999999:00:01,000 --> 00:00:03,000\nHello\n";
    let error = parse_subtitle_file("big.srt", text).unwrap_err();
    assert_eq!(
        error.to_string(),
        "Subtitle synchronization error: Failed to parse subtitle file: timestamp out of range (Parsing file: big.srt)"
    );
    let frames = "{1234567890123}{48}Hello\n";
    assert!(parse_subtitle_text(SubtitleFormat::MicroDvd, "a.sub", frames).is_err());
    let signed = "1\n00:-1234567890123:01,000 --> 00:00:03,000\nHello\n";
    assert!(parse_subtitle_file("signed.srt", signed).is_err());
}

#[test]
fn long_numbers_in_captions_are_no_obstacle() {
    let text = "1\n00:00:01,000 --> 00:00:03,000\nCall 1234567890123\n";
    let entries = parse_subtitle_file("a.srt", text).unwrap();
    assert_eq!(entries.len(), 1);
    assert_eq!(entries[0].start_time, 1000);
    assert_eq!(entries[0].end_time, 3000);
    assert_eq!(entries[0].text, "Call 1234567890123");

    let two = "1\n00:00:01,000 --> 00:00:02,000\n12345678901234567890, 3.14159265358979323846 and 98765432109876543210.\n\n2\n00:00:03,000 --> 00:00:04,000\nid 00000000000000000001\n";
    let entries = parse_subtitle_file("b.srt", two).unwrap();
    assert_eq!(entries.len(), 2);
    assert_eq!(
        entries[0].text,
        "12345678901234567890, 3.14159265358979323846 and 98765432109876543210."
    );
    assert_eq!(entries[1].text, "id 00000000000000000001");
    assert_eq!(entries[1].start_time, 3000);
}

fn bounded(text: &str, limit: usize) -> bool {
    has_bounded_numbers(&text.chars().collect(), limit)
}

#[test]
fn only_runs_in_the_place_of_a_number_count() {
    // nowhere near a timestamp
    assert!(bounded("a1234567890123b", 12));
    assert!(bounded("1234567890123", 12));
    assert!(bounded("Call 1234567890123 now", 12));
    assert!(bounded("Call 1234567890123.", 12));
    assert!(bounded("1234567890123, then", 12));
    assert!(bounded("pi is 3.1415926535897932", 12));
    assert!(bounded("{1234567890123", 12));
    assert!(bounded("1234567890123}", 12));
    assert!(bounded("", 0));
    assert!(bounded("7", 0));
    // hours or minutes: directly before a colon
    assert!(!bounded("1234567890123:00", 12));
    assert!(!bounded("x1234567890123:", 12));
    // minutes or seconds: behind a colon, with or without a sign
    assert!(!bounded("00:1234567890123", 12));
    assert!(!bounded(":-1234567890123", 12));
    assert!(!bounded(":+1234567890123 ", 12));
    // the fraction: behind the mark that follows the seconds
    assert!(!bounded("0:1,1234567890123", 12));
    assert!(!bounded("00:00:01.1234567890123", 12));
    assert!(!bounded(":-5,+1234567890123", 12));
    assert!(bounded("1,1234567890123", 12));
    assert!(bounded(": 1,1234567890123", 12));
    assert!(bounded(":,1234567890123", 12));
    // a frame number: between braces
    assert!(!bounded("{1234567890123}", 12));
    assert!(!bounded("{-1234567890123}{2}", 12));
    assert!(bounded("{ 1234567890123}", 12));
    // twelve digits are fine anywhere; a sign alone opens nothing
    assert!(bounded("123456789012:123456789012,123456789012", 12));
    assert!(bounded("{123456789012}", 12));
    assert!(bounded("-1234567890123", 12));
    assert!(bounded(": 1234567890123", 12));
    assert!(bounded("1234567890123 :", 12));
    assert!(!bounded("1:", 0));
    assert!(bounded("1 :", 0));
}

#[test]
fn each_format_is_parsed() {
    let ass = "[Script Info]\nScriptType: v4.00+\n\n[V4+ Styles]\nFormat: Name, Fontname, Fontsize\nStyle: Default,Arial,20\n\n[Events]\nFormat: Layer, Start, End, Style, Name, MarginL, MarginR, MarginV, Effect, Text\nDialogue: 0,0:00:01.00,0:00:02.50,Default,,0,0,0,,Hello ass\n";
    let entries = parse_subtitle_text(SubtitleFormat::Ass, "a.ass", ass).unwrap();
    assert_eq!(entries.len(), 1);
    assert_eq!(entries[0].start_time, 1000);
    assert_eq!(entries[0].end_time, 2500);
    assert_eq!(entries[0].text, "Hello ass");

    let vtt = "WEBVTT\n\n00:01.000 --> 00:02.000\n<i>Hello vtt</i>\n";
    let entries = parse_subtitle_text(SubtitleFormat::WebVtt, "a.vtt", vtt).unwrap();
    assert_eq!(entries.len(), 1);
    assert_eq!(entries[0].start_time, 1000);
    assert_eq!(entries[0].text, "Hello vtt");

    let sub = "{24}{48}Hello sub\n";
    let entries = parse_subtitle_text(SubtitleFormat::MicroDvd, "a.sub", sub).unwrap();
    assert_eq!(entries.len(), 1);
    assert_eq!(entries[0].start_time, 1000);
    assert_eq!(entries[0].end_time, 2000);
    assert_eq!(entries[0].text, "Hello sub");

    let srt = parse_subtitle_text(SubtitleFormat::SubRip, "a.srt", SRT).unwrap();
    assert_eq!(srt.len(), 2);

    let ssa = "[Script Info]\nScriptType: v4.00\n\n[V4 Styles]\nFormat: Name, Fontname, Fontsize\nStyle: Default,Arial,20\n\n[Events]\nFormat: Marked, Start, End, Style, Name, MarginL, MarginR, MarginV, Effect, Text\nDialogue: Marked=0,0:00:03.00,0:00:04.50,Default,,0,0,0,,Hello ssa\n";
    let entries = parse_subtitle_text(SubtitleFormat::Ssa, "a.ssa", ssa).unwrap();
    assert_eq!(entries.len(), 1);
    assert_eq!(entries[0].start_time, 3000);
    assert_eq!(entries[0].end_time, 4500);
    assert_eq!(entries[0].text, "Hello ssa");

    assert!(parse_subtitle_text(SubtitleFormat::Ssa, "a.ssa", "").unwrap().is_empty());
}
