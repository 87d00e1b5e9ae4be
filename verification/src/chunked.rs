//! Chunked framing of the body streams, as the two transfers apply and
//! undo it: the client body is re-framed into one chunk with a
//! terminator, and the adapted body is decoded from consecutive chunks
//! until the terminator of an empty trailer.
//!
//! The round-trip laws in this module back the reuse story of the ICAP
//! connection: decoding a frame yields the framed bytes exactly and
//! consumes exactly the frame, so an echoing adaptation is the identity
//! and consecutive responses on one connection decode in sequence.

use vstd::prelude::*;

verus! {

/// Carriage return.
pub const CR: u8 = 13;

/// Line feed.
pub const LF: u8 = 10;

/// The byte of one lowercase hexadecimal digit.
pub open spec fn hex_digit_u8(d: int) -> u8
    recommends
        0 <= d < 16,
{
    if d < 10 {
        (48 + d) as u8
    } else {
        (87 + d) as u8
    }
}

/// The usual lowercase hexadecimal rendering of `n`, most significant
/// digit first, without leading zeros.
pub open spec fn spec_hex_bytes(n: nat) -> Seq<u8>
    decreases n,
{
    if n < 16 {
        seq![hex_digit_u8(n as int)]
    } else {
        spec_hex_bytes(n / 16) + seq![hex_digit_u8((n % 16) as int)]
    }
}

/// Whether `b` is a hexadecimal digit byte.
pub open spec fn is_hex_digit(b: u8) -> bool {
    ||| (48 <= b && b <= 57)
    ||| (97 <= b && b <= 102)
    ||| (65 <= b && b <= 70)
}

/// The value of a hexadecimal digit byte.
pub open spec fn hex_val(b: u8) -> int {
    if 48 <= b && b <= 57 {
        b - 48
    } else if 97 <= b && b <= 102 {
        b - 87
    } else {
        b - 55
    }
}

/// The last chunk: a zero size line followed by an empty trailer.
pub open spec fn spec_terminator() -> Seq<u8> {
    seq![48u8, CR, LF, CR, LF]
}

/// One body framed as a single chunk followed by the terminator; an empty
/// body is only the terminator.
pub open spec fn spec_chunked_frame(body: Seq<u8>) -> Seq<u8> {
    if body.len() == 0 {
        spec_terminator()
    } else {
        spec_hex_bytes(body.len()) + seq![CR, LF] + body + seq![CR, LF] + spec_terminator()
    }
}

/// Scans hexadecimal digit bytes from `pos` on, folding them into `acc`;
/// yields the folded value and the position of the first non-digit.
pub open spec fn spec_scan_hex(data: Seq<u8>, pos: int, acc: nat) -> (nat, int)
    decreases data.len() - pos,
{
    if pos < data.len() && is_hex_digit(data[pos]) {
        spec_scan_hex(data, pos + 1, acc * 16 + hex_val(data[pos]) as nat)
    } else {
        (acc, pos)
    }
}

/// Parses a chunk-size number at `pos`: at least one digit, folded in
/// base sixteen.
pub open spec fn spec_parse_chunk_size(data: Seq<u8>, pos: int) -> Option<(nat, int)> {
    if 0 <= pos < data.len() && is_hex_digit(data[pos]) {
        Some(spec_scan_hex(data, pos, 0))
    } else {
        None
    }
}

/// Whether `data` carries a CR LF pair at `pos`.
pub open spec fn spec_crlf_at(data: Seq<u8>, pos: int) -> bool {
    &&& pos + 2 <= data.len()
    &&& data[pos] == CR
    &&& data[pos + 1] == LF
}

/// Parses consecutive chunks at `pos` up to and including a zero-size
/// chunk with an empty trailer; yields the concatenated chunk payloads
/// and the position just past the terminator.
pub open spec fn spec_parse_chunks(data: Seq<u8>, pos: int) -> Option<(Seq<u8>, int)>
    decreases data.len() - pos,
{
    match spec_parse_chunk_size(data, pos) {
        None => None,
        Some((n, p)) => {
            if !spec_crlf_at(data, p) {
                None
            } else {
                let q = p + 2;
                if n == 0 {
                    if spec_crlf_at(data, q) {
                        Some((Seq::empty(), q + 2))
                    } else {
                        None
                    }
                } else {
                    // The size line always moves `p` past `pos`; the last
                    // conjunct records that for the recursion to wind down.
                    if q + n + 2 <= data.len() && spec_crlf_at(data, q + n as int) && p
                        > pos {
                        match spec_parse_chunks(data, q + n + 2) {
                            None => None,
                            Some((rest, end)) => Some(
                                (data.subrange(q, q + n as int) + rest, end),
                            ),
                        }
                    } else {
                        None
                    }
                }
            }
        },
    }
}

/// Sixteen to the power `k`.
pub open spec fn pow16(k: nat) -> nat
    decreases k,
{
    if k == 0 {
        1
    } else {
        16 * pow16((k - 1) as nat)
    }
}

/// A hexadecimal rendering is never empty and holds digit bytes only.
pub proof fn lemma_hex_bytes_digits(n: nat)
    ensures
        spec_hex_bytes(n).len() >= 1,
        forall|i: int|
            0 <= i < spec_hex_bytes(n).len() ==> is_hex_digit(#[trigger] spec_hex_bytes(n)[i]),
    decreases n,
{
    if n < 16 {
    } else {
        lemma_hex_bytes_digits(n / 16);
    }
}

/// Scanning over the rendering of `m` folds `m` into the accumulator and
/// moves past it.
pub proof fn lemma_scan_decompose(data: Seq<u8>, pos: int, acc: nat, m: nat)
    requires
        0 <= pos,
        pos + spec_hex_bytes(m).len() <= data.len(),
        data.subrange(pos, pos + spec_hex_bytes(m).len()) == spec_hex_bytes(m),
    ensures
        spec_scan_hex(data, pos, acc) == spec_scan_hex(
            data,
            pos + spec_hex_bytes(m).len(),
            acc * pow16(spec_hex_bytes(m).len()) + m,
        ),
    decreases m,
{
    let k = spec_hex_bytes(m).len();
    if m < 16 {
        assert(data[pos] == spec_hex_bytes(m)[0]);
        assert(is_hex_digit(data[pos]));
        assert(hex_val(data[pos]) == m);
        assert(pow16(1) == 16 * pow16(0));
        assert(pow16(0) == 1);
    } else {
        let kp = spec_hex_bytes(m / 16).len();
        assert(spec_hex_bytes(m) == spec_hex_bytes(m / 16) + seq![
            hex_digit_u8((m % 16) as int),
        ]);
        assert(k == kp + 1);
        assert(data.subrange(pos, pos + kp) =~= spec_hex_bytes(m / 16)) by {
            assert(forall|j: int|
                0 <= j < kp ==> data.subrange(pos, pos + k)[j] == #[trigger] data[pos + j]);
        }
        lemma_scan_decompose(data, pos, acc, m / 16);
        let mid = acc * pow16(kp) + m / 16;
        assert(data[pos + kp] == spec_hex_bytes(m)[kp as int]);
        assert(data[pos + kp] == hex_digit_u8((m % 16) as int));
        assert(is_hex_digit(data[pos + kp]));
        assert(hex_val(data[pos + kp]) == m % 16);
        assert(spec_scan_hex(data, pos + kp, mid) == spec_scan_hex(
            data,
            pos + kp + 1,
            mid * 16 + (m % 16),
        ));
        assert(m == 16 * (m / 16) + m % 16);
        assert(pow16(k) == 16 * pow16(kp));
        assert(mid * 16 + (m % 16) == acc * pow16(k) + m) by (nonlinear_arith)
            requires
                mid == acc * pow16(kp) + m / 16,
                m == 16 * (m / 16) + m % 16,
                pow16(k) == 16 * pow16(kp),
        ;
    }
}

/// A terminator at `pos` parses as an empty payload ending just past it.
pub proof fn lemma_parse_terminator(data: Seq<u8>, pos: int)
    requires
        0 <= pos,
        pos + 5 <= data.len(),
        data.subrange(pos, pos + 5) == spec_terminator(),
    ensures
        spec_parse_chunks(data, pos) == Some((Seq::<u8>::empty(), pos + 5)),
{
    assert(data[pos] == 48u8);
    assert(data[pos + 1] == CR);
    assert(data[pos + 2] == LF);
    assert(data[pos + 3] == CR);
    assert(data[pos + 4] == LF);
    assert(is_hex_digit(data[pos]));
    assert(hex_val(data[pos]) == 0);
    assert(spec_scan_hex(data, pos, 0) == spec_scan_hex(data, pos + 1, 0));
    assert(!is_hex_digit(data[pos + 1]));
    assert(spec_scan_hex(data, pos + 1, 0) == (0nat, pos + 1));
    assert(spec_crlf_at(data, pos + 1));
    assert(spec_crlf_at(data, pos + 3));
}

proof fn lemma_index_in_frame(data: Seq<u8>, pos: int, body: Seq<u8>, j: int)
    requires
        0 <= pos,
        pos + spec_chunked_frame(body).len() <= data.len(),
        data.subrange(pos, pos + spec_chunked_frame(body).len()) == spec_chunked_frame(body),
        0 <= j < spec_chunked_frame(body).len(),
    ensures
        data[pos + j] == spec_chunked_frame(body)[j],
{
    assert(data.subrange(pos, pos + spec_chunked_frame(body).len())[j] == data[pos + j]);
}

/// A frame found at `pos` parses as exactly its framed body, ending just
/// past the frame: decoding undoes the framing and consumes nothing of
/// what follows.
pub proof fn lemma_parse_frame_at(data: Seq<u8>, pos: int, body: Seq<u8>)
    requires
        0 <= pos,
        pos + spec_chunked_frame(body).len() <= data.len(),
        data.subrange(pos, pos + spec_chunked_frame(body).len()) == spec_chunked_frame(body),
    ensures
        spec_parse_chunks(data, pos) == Some((body, pos + spec_chunked_frame(body).len())),
{
    let f = spec_chunked_frame(body);
    let l = body.len() as int;
    if body.len() == 0 {
        lemma_parse_terminator(data, pos);
        assert(body =~= Seq::<u8>::empty());
    } else {
        let k = spec_hex_bytes(body.len()).len() as int;
        assert(f.len() == k + l + 9);
        lemma_hex_bytes_digits(body.len());
        assert(data.subrange(pos, pos + k) =~= spec_hex_bytes(body.len())) by {
            assert forall|j: int| 0 <= j < k implies data.subrange(pos, pos + k)[j]
                == spec_hex_bytes(body.len())[j] by {
                lemma_index_in_frame(data, pos, body, j);
                assert(f[j] == spec_hex_bytes(body.len())[j]);
            }
        }
        assert(data[pos] == f[0]) by { lemma_index_in_frame(data, pos, body, 0) }
        assert(is_hex_digit(data[pos]));
        assert(spec_parse_chunk_size(data, pos) == Some(spec_scan_hex(data, pos, 0)));
        lemma_scan_decompose(data, pos, 0, body.len());
        assert(0nat * pow16(k as nat) + body.len() == body.len());
        assert(data[pos + k] == f[k]) by { lemma_index_in_frame(data, pos, body, k) }
        assert(data[pos + k] == CR);
        assert(!is_hex_digit(data[pos + k]));
        assert(spec_scan_hex(data, pos, 0) == (body.len(), pos + k));
        assert(data[pos + k + 1] == f[k + 1]) by { lemma_index_in_frame(data, pos, body, k + 1) }
        assert(spec_crlf_at(data, pos + k));
        let q = pos + k + 2;
        assert(data[q + l] == f[k + 2 + l]) by { lemma_index_in_frame(data, pos, body, k + 2 + l) }
        assert(data[q + l + 1] == f[k + 3 + l]) by {
            lemma_index_in_frame(data, pos, body, k + 3 + l)
        }
        assert(data[q + l] == CR);
        assert(data[q + l + 1] == LF);
        assert(spec_crlf_at(data, q + l));
        assert(data.subrange(q + l + 2, q + l + 7) =~= spec_terminator()) by {
            assert forall|j: int| 0 <= j < 5 implies data.subrange(q + l + 2, q + l + 7)[j]
                == spec_terminator()[j] by {
                lemma_index_in_frame(data, pos, body, k + 4 + l + j);
                assert(data.subrange(q + l + 2, q + l + 7)[j] == data[q + l + 2 + j]);
                assert(f[k + 4 + l + j] == spec_terminator()[j]);
            }
        }
        lemma_parse_terminator(data, q + l + 2);
        assert(data.subrange(q, q + l) =~= body) by {
            assert forall|j: int| 0 <= j < l implies data.subrange(q, q + l)[j] == body[j] by {
                lemma_index_in_frame(data, pos, body, k + 2 + j);
                assert(data.subrange(q, q + l)[j] == data[q + j]);
                assert(f[k + 2 + j] == body[j]);
            }
        }
        assert(data.subrange(q, q + l) + Seq::<u8>::empty() =~= body);
    }
}

/// Echo round trip: a body framed for the ICAP server and echoed back
/// decodes to the same bytes, whatever follows on the connection.
pub proof fn lemma_frame_round_trip(body: Seq<u8>, tail: Seq<u8>)
    ensures
        spec_parse_chunks(spec_chunked_frame(body) + tail, 0) == Some(
            (body, spec_chunked_frame(body).len() as int),
        ),
{
    let data = spec_chunked_frame(body) + tail;
    assert(data.subrange(0, spec_chunked_frame(body).len() as int) =~= spec_chunked_frame(body));
    lemma_parse_frame_at(data, 0, body);
}

/// Consecutive responses on one connection decode in sequence: after the
/// first frame is decoded the reader stands at the start of the second,
/// and decoding there yields the second body.
pub proof fn lemma_consecutive_frames(body1: Seq<u8>, body2: Seq<u8>)
    ensures
        spec_parse_chunks(spec_chunked_frame(body1) + spec_chunked_frame(body2), 0) == Some(
            (body1, spec_chunked_frame(body1).len() as int),
        ),
        spec_parse_chunks(
            spec_chunked_frame(body1) + spec_chunked_frame(body2),
            spec_chunked_frame(body1).len() as int,
        ) == Some(
            (
                body2,
                (spec_chunked_frame(body1).len() + spec_chunked_frame(body2).len()) as int,
            ),
        ),
{
    let f1 = spec_chunked_frame(body1);
    let f2 = spec_chunked_frame(body2);
    let data = f1 + f2;
    lemma_frame_round_trip(body1, f2);
    assert(data.subrange(f1.len() as int, (f1.len() + f2.len()) as int) =~= f2);
    lemma_parse_frame_at(data, f1.len() as int, body2);
}

/// `r` with `prefix` prepended to its payload.
pub open spec fn spec_prepend(prefix: Seq<u8>, r: Option<(Seq<u8>, int)>) -> Option<
    (Seq<u8>, int),
> {
    match r {
        None => None,
        Some((payload, end)) => Some((prefix + payload, end)),
    }
}

proof fn lemma_prepend_empty(r: Option<(Seq<u8>, int)>)
    ensures
        spec_prepend(Seq::empty(), r) == r,
{
    match r {
        None => {},
        Some((payload, end)) => {
            assert(Seq::<u8>::empty() + payload =~= payload);
        },
    }
}

proof fn lemma_prepend_join(a: Seq<u8>, b: Seq<u8>, r: Option<(Seq<u8>, int)>)
    ensures
        spec_prepend(a, spec_prepend(b, r)) == spec_prepend(a + b, r),
{
    match r {
        None => {},
        Some((payload, end)) => {
            assert(a + (b + payload) =~= (a + b) + payload);
        },
    }
}

fn is_hex_digit_byte(b: u8) -> (r: bool)
    ensures
        r == is_hex_digit(b),
{
    (48 <= b && b <= 57) || (97 <= b && b <= 102) || (65 <= b && b <= 70)
}

fn hex_val_byte(b: u8) -> (r: u8)
    requires
        is_hex_digit(b),
    ensures
        r == hex_val(b),
{
    if 48 <= b && b <= 57 {
        b - 48
    } else if 97 <= b && b <= 102 {
        b - 87
    } else {
        b - 55
    }
}

/// Decodes consecutive chunks from `start` up to and including the
/// terminator, as the upstream-side transfer undoes the framing: yields
/// the concatenated chunk payloads and the position just past the
/// terminator, or nothing on malformed or truncated framing.
pub fn chunked_decode(data: &Vec<u8>, start: usize) -> (r: Option<(Vec<u8>, usize)>)
    ensures
        match spec_parse_chunks(data@, start as int) {
            None => r is None,
            Some((payload, end)) => {
                &&& r matches Some(p)
                &&& p.0@ == payload
                &&& p.1 == end
            },
        },
{
    let len = data.len();
    if start > len {
        return None;
    }
    let mut pos = start;
    let mut out: Vec<u8> = Vec::new();
    proof {
        lemma_prepend_empty(spec_parse_chunks(data@, start as int));
        assert(out@ =~= Seq::<u8>::empty());
    }
    loop
        invariant
            len == data@.len(),
            pos <= len,
            spec_parse_chunks(data@, start as int) == spec_prepend(
                out@,
                spec_parse_chunks(data@, pos as int),
            ),
        decreases len - pos,
    {
        if pos >= len || !is_hex_digit_byte(data[pos]) {
            return None;
        }

        // Chunk-size line: fold the digits, keeping only a ghost of the
        // exact value once it can no longer denote a chunk that fits.
        let mut p = pos;
        let mut acc: u128 = 0;
        let mut big = false;
        let ghost mut g: nat = 0;
        while p < len && is_hex_digit_byte(data[p])
            invariant
                len == data@.len(),
                pos <= p <= len,
                spec_scan_hex(data@, pos as int, 0) == spec_scan_hex(data@, p as int, g),
                !big ==> acc == g && g <= len,
                big ==> g > len,
            decreases len - p,
        {
            let v = hex_val_byte(data[p]);
            proof {
                assert(spec_scan_hex(data@, p as int, g) == spec_scan_hex(
                    data@,
                    p as int + 1,
                    g * 16 + hex_val(data@[p as int]) as nat,
                ));
                g = g * 16 + hex_val(data@[p as int]) as nat;
            }
            if !big {
                let next = acc * 16 + (v as u128);
                if next > (len as u128) {
                    big = true;
                } else {
                    acc = next;
                }
            }
            p = p + 1;
        }
        proof {
            assert(spec_scan_hex(data@, p as int, g) == (g, p as int));
            assert(spec_parse_chunk_size(data@, pos as int) == Some((g, p as int)));
        }
        if big {
            // The size exceeds what is left of the stream, so the chunk
            // cannot fit whatever follows the size line.
            return None;
        }
        let n = acc as usize;

        if len - p < 2 || data[p] != CR || data[p + 1] != LF {
            return None;
        }
        let q = p + 2;

        if n == 0 {
            return if len - q >= 2 && data[q] == CR && data[q + 1] == LF {
                proof {
                    assert(out@ + Seq::<u8>::empty() =~= out@);
                }
                Some((out, q + 2))
            } else {
                None
            };
        }

        let room = len - q;
        if room < 2 || n > room - 2 {
            return None;
        }
        if data[q + n] != CR || data[q + n + 1] != LF {
            return None;
        }

        let ghost out_before = out@;
        let mut i: usize = 0;
        while i < n
            invariant
                len == data@.len(),
                i <= n,
                q + n <= len,
                out@ == out_before + data@.subrange(q as int, q + i as int),
            decreases n - i,
        {
            out.push(data[q + i]);
            i = i + 1;
            proof {
                assert(out@ =~= out_before + data@.subrange(q as int, q + i as int));
            }
        }

        proof {
            assert(spec_parse_chunks(data@, pos as int) == spec_prepend(
                data@.subrange(q as int, q + n as int),
                spec_parse_chunks(data@, (q + n + 2) as int),
            ));
            lemma_prepend_join(
                out_before,
                data@.subrange(q as int, q + n as int),
                spec_parse_chunks(data@, (q + n + 2) as int),
            );
        }
        pos = q + n + 2;
    }
}

fn hex_digit_byte(d: u64) -> (r: u8)
    requires
        d < 16,
    ensures
        r == hex_digit_u8(d as int),
{
    if d < 10 {
        48 + (d as u8)
    } else {
        87 + (d as u8)
    }
}

/// Renders `n` in lowercase hexadecimal.
pub fn u64_to_hex_bytes(n: u64) -> (r: Vec<u8>)
    ensures
        r@ == spec_hex_bytes(n as nat),
    decreases n,
{
    if n < 16 {
        let mut v: Vec<u8> = Vec::new();
        v.push(hex_digit_byte(n));
        proof {
            assert(v@ =~= spec_hex_bytes(n as nat));
        }
        v
    } else {
        let mut v = u64_to_hex_bytes(n / 16);
        v.push(hex_digit_byte(n % 16));
        proof {
            assert(v@ =~= spec_hex_bytes(n as nat));
        }
        v
    }
}

/// Frames one body as a single chunk with the terminator, as the
/// client-side transfer re-frames each buffered read.
pub fn chunked_frame(body: &Vec<u8>) -> (r: Vec<u8>)
    ensures
        r@ == spec_chunked_frame(body@),
{
    let mut out: Vec<u8> = Vec::new();
    if body.len() > 0 {
        let mut size = u64_to_hex_bytes(body.len() as u64);
        out.append(&mut size);
        out.push(CR);
        out.push(LF);
        let mut i: usize = 0;
        while i < body.len()
            invariant
                i <= body.len(),
                out@ == spec_hex_bytes(body@.len()) + seq![CR, LF] + body@.subrange(0, i as int),
            decreases body.len() - i,
        {
            out.push(body[i]);
            i = i + 1;
            proof {
                assert(out@ =~= spec_hex_bytes(body@.len()) + seq![CR, LF] + body@.subrange(
                    0,
                    i as int,
                ));
            }
        }
        out.push(CR);
        out.push(LF);
        proof {
            assert(body@.subrange(0, body@.len() as int) =~= body@);
        }
    }
    out.push(48);
    out.push(CR);
    out.push(LF);
    out.push(CR);
    out.push(LF);
    proof {
        assert(out@ =~= spec_chunked_frame(body@));
    }
    out
}

} // verus!
