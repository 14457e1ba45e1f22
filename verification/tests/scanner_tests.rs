use trebuchet::scanner::Scanner;
use trebuchet::scanner::scan_bytes;

#[test]
fn scan_completes_in_exactly_target_len_reads() {
    let target = b"ACK(0)\n".to_vec();
    let mut input = target.clone();
    input.extend_from_slice(b"trailing noise");
    // The match completes at the last target byte and consumes nothing more.
    assert_eq!(scan_bytes(&target, &input), Some(target.len()));
}

#[test]
fn scan_succeeds_after_garbage() {
    let target = b"OK(1)\n".to_vec();
    // No garbage byte equals the target's first byte.
    let mut input = b"xyzzy!!".to_vec();
    input.extend_from_slice(&target);
    assert_eq!(scan_bytes(&target, &input), Some(7 + target.len()));
}

#[test]
fn scan_reports_no_match_when_input_runs_out() {
    let target = b"RDY(256)\n".to_vec();
    assert_eq!(scan_bytes(&target, b"RDY(255)\nRDY(25"), None);
}

#[test]
fn scan_restart_is_naive() {
    // After a mismatch the cursor resets to 0 and the mismatching byte is
    // not re-tested against the target's start, so an overlapping
    // occurrence is missed.
    let target = b"ab".to_vec();
    assert_eq!(scan_bytes(&target, b"aab"), None);
    // With a byte in between, the same occurrence is found.
    assert_eq!(scan_bytes(&target, b"a-ab"), Some(4));
}

#[test]
fn scanner_advances_and_resets() {
    let mut s = Scanner::new(b"OK(".to_vec());
    assert!(!s.push_byte(b'O'));
    assert!(!s.push_byte(b'X'));
    assert!(!s.push_byte(b'O'));
    assert!(!s.push_byte(b'K'));
    assert!(s.push_byte(b'('));
}

#[test]
fn empty_target_matches_immediately() {
    let target: Vec<u8> = Vec::new();
    assert_eq!(scan_bytes(&target, b"anything"), Some(0));
}
