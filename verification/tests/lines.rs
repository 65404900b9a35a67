use codex_usage_proxy::lines::{read_new_lines, split_lines};

#[test]
fn only_complete_lines_are_read() {
    let (lines, offset) = read_new_lines(&b"one\ntwo\nthr".to_vec(), 100);
    assert_eq!(lines, vec!["one".to_string(), "two".to_string()]);
    assert_eq!(offset, 108);
}

#[test]
fn without_a_newline_nothing_is_read() {
    assert_eq!(read_new_lines(&Vec::new(), 7), (Vec::new(), 7));
    assert_eq!(read_new_lines(&b"abc".to_vec(), 7), (Vec::new(), 7));
}

#[test]
fn blank_lines_and_carriage_returns_stay() {
    let (lines, offset) = read_new_lines(&b"\n\r\n\na\r\n".to_vec(), 0);
    assert_eq!(lines, vec!["", "\r", "", "a\r"]);
    assert_eq!(offset, 7);
}

#[test]
fn bytes_that_are_not_utf8_are_replaced() {
    let (lines, _) = read_new_lines(&b"a\xffb\n\xe2\x82\nc\xc3\xa9\n".to_vec(), 0);
    assert_eq!(lines, vec!["a\u{fffd}b", "\u{fffd}", "cé"]);
}

#[test]
fn lines_are_split_as_bytes() {
    let (lines, taken) = split_lines(&b"x\n\nyz".to_vec());
    assert_eq!(lines, vec![b"x".to_vec(), Vec::new()]);
    assert_eq!(taken, 3);
}

/// The lines of a log, decoded all at once and then split.
fn decoded_at_once(bytes: &[u8]) -> Vec<String> {
    match bytes.iter().rposition(|b| *b == b'\n') {
        Some(last) => String::from_utf8_lossy(&bytes[..=last])
            .split_terminator('\n')
            .map(|line| line.to_string())
            .collect(),
        None => Vec::new(),
    }
}

#[test]
fn lines_can_be_decoded_one_by_one() {
    let alphabet: [u8; 13] =
        [b'a', b'\n', 0x80, 0xbf, 0xc0, 0xc3, 0xe0, 0xe2, 0xed, 0xf0, 0xf4, 0xff, 0xa0];
    for a in alphabet {
        for b in alphabet {
            for c in alphabet {
                for d in alphabet {
                    let bytes = vec![a, b, c, d, b'\n', 0x82, b'x', b'\n', b'y'];
                    assert_eq!(read_new_lines(&bytes, 0).0, decoded_at_once(&bytes));
                }
            }
        }
    }
}

#[test]
fn a_log_can_be_read_in_parts() {
    let whole = b"first\n\xc3\xa9 second\n\nlast line\nrest".to_vec();
    let (all, end) = read_new_lines(&whole, 0);
    for cut in 0..whole.len() {
        let (mut lines, offset) = read_new_lines(&whole[..cut].to_vec(), 0);
        let (more, new_end) = read_new_lines(&whole[offset as usize..].to_vec(), offset);
        lines.extend(more);
        assert_eq!(lines, all);
        assert_eq!(new_end, end);
    }
}

#[test]
fn complete_lines_lose_no_byte() {
    let bytes = b"a\n\nbc\nd".to_vec();
    let (lines, taken) = split_lines(&bytes);
    let mut again: Vec<u8> = Vec::new();
    for line in lines {
        again.extend(line);
        again.push(b'\n');
    }
    assert_eq!(again, bytes[..taken].to_vec());
}
