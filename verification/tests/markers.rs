use dashboard::marker::{find_bytes, signals_ready};

fn lossy_has_marker(line: &[u8]) -> bool {
    let text = String::from_utf8_lossy(line);
    text.contains("Uvicorn running") || text.contains("Application startup complete")
}

#[test]
fn find_bytes_at_start_middle_and_end() {
    assert!(find_bytes(b"needle in hay", b"needle"));
    assert!(find_bytes(b"a needle in hay", b"needle"));
    assert!(find_bytes(b"hay with needle", b"needle"));
    assert!(find_bytes(b"needle", b"needle"));
}

#[test]
fn find_bytes_misses() {
    assert!(!find_bytes(b"needl", b"needle"));
    assert!(!find_bytes(b"", b"needle"));
    assert!(!find_bytes(b"need le", b"needle"));
    assert!(!find_bytes(b"NEEDLE", b"needle"));
}

#[test]
fn find_bytes_empty_needle_is_always_found() {
    assert!(find_bytes(b"", b""));
    assert!(find_bytes(b"anything", b""));
}

#[test]
fn find_bytes_restarts_after_partial_match() {
    assert!(find_bytes(b"aaab", b"aab"));
    assert!(find_bytes(b"abababc", b"ababc"));
    assert!(!find_bytes(b"ababab", b"ababc"));
}

#[test]
fn uvicorn_running_line_signals_ready() {
    assert!(signals_ready(
        b"INFO:     Uvicorn running on http://0.0.0.0:8765 (Press CTRL+C to quit)"
    ));
    assert!(signals_ready(b"Uvicorn running"));
}

#[test]
fn startup_complete_line_signals_ready() {
    assert!(signals_ready(b"INFO:     Application startup complete."));
    assert!(signals_ready(b"Application startup complete"));
}

#[test]
fn other_lines_do_not_signal_ready() {
    assert!(!signals_ready(b""));
    assert!(!signals_ready(b"INFO:     Started server process [4242]"));
    assert!(!signals_ready(b"INFO:     Waiting for application startup."));
    assert!(!signals_ready(b"uvicorn running"));
    assert!(!signals_ready(b"Uvicorn  running"));
    assert!(!signals_ready(b"Application startup complet"));
    assert!(!signals_ready(b"Uvicorn runnin"));
}

#[test]
fn marker_between_invalid_bytes_is_found() {
    let mut line: Vec<u8> = vec![0xff, 0xe0];
    line.extend_from_slice(b"Uvicorn running");
    line.extend_from_slice(&[0xc3, 0x28, 0x80]);
    assert!(signals_ready(&line));
    assert!(lossy_has_marker(&line));
}

#[test]
fn marker_broken_by_invalid_byte_is_not_found() {
    let mut line: Vec<u8> = b"Uvicorn".to_vec();
    line.push(0xff);
    line.extend_from_slice(b" running");
    assert!(!signals_ready(&line));
    assert!(!lossy_has_marker(&line));
}

#[test]
fn raw_search_agrees_with_lossy_decoding() {
    let lines: Vec<Vec<u8>> = vec![
        b"Uvicorn running".to_vec(),
        b"\xf0\x9f\x9a\x80 Application startup complete".to_vec(),
        b"\xe2\x82Uvicorn running".to_vec(),
        b"Uvicorn\xc2\xa0running".to_vec(),
        b"Application startup \xefcomplete".to_vec(),
        b"plain line".to_vec(),
        Vec::new(),
    ];
    for line in lines.iter() {
        assert_eq!(signals_ready(line), lossy_has_marker(line));
    }
}
