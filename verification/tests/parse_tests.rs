use wizscribe::parse::parse_transcript_to_segments;

#[test]
fn parse_two_well_formed_lines() {
    let transcript = "[00:01.500] - [00:03.250] Hello there\n[00:03.500] - [01:05.000] Reply text";
    let segments = parse_transcript_to_segments(transcript);
    assert_eq!(segments.len(), 2);
    assert_eq!(segments[0].start_ms, 1500);
    assert_eq!(segments[0].end_ms, 3250);
    assert_eq!(segments[0].text, "Hello there");
    assert_eq!(segments[1].start_ms, 3500);
    assert_eq!(segments[1].end_ms, 65000);
    assert_eq!(segments[1].text, "Reply text");
}

#[test]
fn parse_skips_malformed_lines() {
    let transcript = "noise\n[00:00.100] - [00:00.200] ok\nbroken [stamp\n[00:00.300] - [00:00.400] also ok";
    let segments = parse_transcript_to_segments(transcript);
    assert_eq!(segments.len(), 2);
    assert_eq!(segments[0].text, "ok");
    assert_eq!(segments[1].text, "also ok");
}

#[test]
fn parse_requires_whitespace_around_dash() {
    let segments = parse_transcript_to_segments("[00:01.000]-[00:02.000] text");
    assert!(segments.is_empty());
    let segments = parse_transcript_to_segments("[00:01.000] -[00:02.000] text");
    assert!(segments.is_empty());
    let segments = parse_transcript_to_segments("[00:01.000]- [00:02.000] text");
    assert!(segments.is_empty());
}

#[test]
fn parse_requires_nonempty_text() {
    let segments = parse_transcript_to_segments("[00:01.000] - [00:02.000]");
    assert!(segments.is_empty());
    let segments = parse_transcript_to_segments("[00:01.000] - [00:02.000] ");
    assert!(segments.is_empty());
}

#[test]
fn parse_empty_transcript() {
    let segments = parse_transcript_to_segments("");
    assert!(segments.is_empty());
}

#[test]
fn parse_allows_wide_whitespace_runs() {
    let segments = parse_transcript_to_segments("[00:02.000]   -\t [00:04.000]  spaced  text");
    assert_eq!(segments.len(), 1);
    assert_eq!(segments[0].start_ms, 2000);
    assert_eq!(segments[0].end_ms, 4000);
    // the text capture starts at the first non-whitespace character
    assert_eq!(segments[0].text, "spaced  text");
}

#[test]
fn parse_timestamp_arithmetic() {
    // [MM:SS.mmm] = (MM * 60 + SS) * 1000 + mmm
    let segments = parse_transcript_to_segments("[12:34.567] - [99:99.999] x");
    assert_eq!(segments.len(), 1);
    assert_eq!(segments[0].start_ms, (12 * 60 + 34) * 1000 + 567);
    assert_eq!(segments[0].end_ms, (99 * 60 + 99) * 1000 + 999);
}

#[test]
fn parse_rejects_wrong_digit_counts() {
    let segments = parse_transcript_to_segments("[0:01.000] - [00:02.000] x");
    assert!(segments.is_empty());
    let segments = parse_transcript_to_segments("[00:01.00] - [00:02.000] x");
    assert!(segments.is_empty());
}

#[test]
fn parse_line_must_start_with_timestamp() {
    let segments = parse_transcript_to_segments("xx [00:01.000] - [00:02.000] text");
    assert!(segments.is_empty());
}

#[test]
fn parse_non_ascii_text() {
    let segments = parse_transcript_to_segments("[00:01.000] - [00:02.000] caf\u{e9} \u{1f600}");
    assert_eq!(segments.len(), 1);
    assert_eq!(segments[0].text, "caf\u{e9} \u{1f600}");
}
