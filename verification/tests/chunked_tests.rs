use icap_reqmod::chunked::{chunked_decode, chunked_frame, u64_to_hex_bytes};

#[test]
fn empty_body_frames_to_bare_terminator() {
    assert_eq!(chunked_frame(&Vec::new()), b"0\r\n\r\n".to_vec());
}

#[test]
fn body_frames_to_one_chunk_and_terminator() {
    let body = b"hello".to_vec();
    assert_eq!(chunked_frame(&body), b"5\r\nhello\r\n0\r\n\r\n".to_vec());
}

#[test]
fn sizes_are_rendered_in_lowercase_hex() {
    assert_eq!(u64_to_hex_bytes(150), b"96".to_vec());
    assert_eq!(u64_to_hex_bytes(255), b"ff".to_vec());
    assert_eq!(u64_to_hex_bytes(0), b"0".to_vec());
    assert_eq!(u64_to_hex_bytes(16), b"10".to_vec());
}

#[test]
fn echo_round_trip_is_identity() {
    // An ICAP server that echoes the framed client body yields an
    // upstream body byte-for-byte equal to the client body.
    for body in [
        Vec::new(),
        b"x".to_vec(),
        b"the quick brown fox".to_vec(),
        vec![0u8; 150],
        (0..=255u8).collect::<Vec<u8>>(),
    ] {
        let framed = chunked_frame(&body);
        let decoded = chunked_decode(&framed, 0);
        assert_eq!(decoded, Some((body.clone(), framed.len())));
    }
}

#[test]
fn decoding_leaves_position_at_next_response() {
    // Two consecutive adaptations on one connection: decoding the first
    // response's body leaves the reader at the start of the second.
    let first = b"first adapted body".to_vec();
    let second = b"second adapted body, longer than the first".to_vec();
    let mut stream = chunked_frame(&first);
    let first_len = stream.len();
    stream.extend_from_slice(&chunked_frame(&second));

    let (got_first, after_first) = chunked_decode(&stream, 0).unwrap();
    assert_eq!(got_first, first);
    assert_eq!(after_first, first_len);

    let (got_second, after_second) = chunked_decode(&stream, after_first).unwrap();
    assert_eq!(got_second, second);
    assert_eq!(after_second, stream.len());
}

#[test]
fn multiple_chunks_concatenate() {
    let data = b"3\r\nabc\r\n2\r\nde\r\n0\r\n\r\n".to_vec();
    assert_eq!(
        chunked_decode(&data, 0),
        Some((b"abcde".to_vec(), data.len()))
    );
}

#[test]
fn uppercase_sizes_are_accepted() {
    let data = b"A\r\n0123456789\r\n0\r\n\r\n".to_vec();
    assert_eq!(
        chunked_decode(&data, 0),
        Some((b"0123456789".to_vec(), data.len()))
    );
}

#[test]
fn malformed_framing_is_rejected() {
    // No size digit at all.
    assert_eq!(chunked_decode(&b"\r\n".to_vec(), 0), None);
    // Size line not followed by CR LF.
    assert_eq!(chunked_decode(&b"5xhello\r\n0\r\n\r\n".to_vec(), 0), None);
    // Chunk data shorter than its declared size.
    assert_eq!(chunked_decode(&b"5\r\nhi\r\n0\r\n\r\n".to_vec(), 0), None);
    // Missing trailer terminator.
    assert_eq!(chunked_decode(&b"5\r\nhello\r\n0\r\n".to_vec(), 0), None);
    // Truncated before any terminator.
    assert_eq!(chunked_decode(&b"5\r\nhello\r\n".to_vec(), 0), None);
    // Declared size far beyond the stream.
    assert_eq!(
        chunked_decode(&b"ffffffffffffffffffff\r\nhi\r\n0\r\n\r\n".to_vec(), 0),
        None
    );
    // Start past the end of the stream.
    assert_eq!(chunked_decode(&b"0\r\n\r\n".to_vec(), 9), None);
}
