//! The byte-stuffed framing that carries messages over the hub's GATT
//! characteristics.
//!
//! A message is cut into groups. Each group starts with a code byte and is
//! followed by up to `MAX_BLOCK_SIZE` literal bytes, none of which is a
//! delimiter (a byte `<= DELIMITER`). The code byte says how many literals
//! follow and which delimiter byte they stand in front of, or (`NO_DELIMITER`)
//! that a full block of literals follows with no delimiter after it. Every
//! byte of the stuffed message is then masked with `0x03`, and the frame is
//! closed by `FRAME_END`, which can occur nowhere else in a frame.
use vstd::prelude::*;

verus! {

/// Code byte of a group that holds a full block and no delimiter.
pub const NO_DELIMITER: u8 = 0xff;

/// The largest byte value that is escaped.
pub const DELIMITER: u8 = 0x02;

/// The most literal bytes a group can hold.
pub const MAX_BLOCK_SIZE: u8 = 84;

/// Offset added to every code byte that announces a delimiter.
pub const COBS_CODE_OFFSET: u8 = 0x02;

/// The mask applied to every stuffed byte.
pub const FRAME_MASK: u8 = 0x03;

/// The byte that ends a frame.
pub const FRAME_END: u8 = 0x02;

/// Number of leading bytes of `s` that are not delimiters.
pub open spec fn delimiter_index(s: Seq<u8>) -> nat
    decreases s.len(),
{
    if s.len() == 0 {
        0
    } else if s[0] <= DELIMITER {
        0
    } else {
        1 + delimiter_index(s.drop_first())
    }
}

pub proof fn lemma_delimiter_index_bound(s: Seq<u8>)
    ensures
        delimiter_index(s) <= s.len(),
        forall|k: int| 0 <= k < delimiter_index(s) ==> s[k] > DELIMITER,
        delimiter_index(s) < s.len() ==> s[delimiter_index(s) as int] <= DELIMITER,
    decreases s.len(),
{
    if s.len() > 0 && s[0] > DELIMITER {
        lemma_delimiter_index_bound(s.drop_first());
        assert forall|k: int| 0 <= k < delimiter_index(s) implies s[k] > DELIMITER by {
            if k > 0 {
                assert(s[k] == s.drop_first()[k - 1]);
            }
        }
    }
}

/// The delimiter index is `m` when the first `m` bytes are literals and the
/// next one is a delimiter, and at least `m` when the first `m` are literals.
pub proof fn lemma_delimiter_index_at(s: Seq<u8>, m: int)
    requires
        0 <= m <= s.len(),
        forall|k: int| 0 <= k < m ==> s[k] > DELIMITER,
    ensures
        delimiter_index(s) >= m,
        m < s.len() && s[m] <= DELIMITER ==> delimiter_index(s) == m,
    decreases m,
{
    if m > 0 {
        lemma_delimiter_index_at(s.drop_first(), m - 1);
    }
}

/// The stuffed groups of `s`, before masking.
pub open spec fn cobs_groups(s: Seq<u8>) -> Seq<u8>
    decreases s.len(),
{
    if s.len() == 0 {
        seq![]
    } else {
        let i = delimiter_index(s);
        proof {
            lemma_delimiter_index_bound(s);
        }
        if i >= MAX_BLOCK_SIZE {
            seq![NO_DELIMITER] + s.take(MAX_BLOCK_SIZE as int) + cobs_groups(
                s.skip(MAX_BLOCK_SIZE as int),
            )
        } else if i < s.len() {
            seq![(s[i as int] * MAX_BLOCK_SIZE + i + 1 + COBS_CODE_OFFSET) as u8] + s.take(
                i as int,
            ) + cobs_groups(s.skip(i + 1 as int))
        } else {
            seq![(i + 1 + COBS_CODE_OFFSET) as u8] + s
        }
    }
}

/// Every byte masked with `FRAME_MASK`.
pub open spec fn mask(s: Seq<u8>) -> Seq<u8> {
    s.map_values(|b: u8| b ^ FRAME_MASK)
}

/// The frame that carries `data`: the groups of `data` followed by a zero
/// byte, masked, then closed by `FRAME_END`.
pub open spec fn spec_encode(data: Seq<u8>) -> Seq<u8> {
    mask(cobs_groups(data.push(0))).push(FRAME_END)
}

/// Encodes `data` as one frame.
pub fn encode_message(data: Vec<u8>) -> (frame: Vec<u8>)
    ensures
        frame@ == spec_encode(data@),
{
    let ghost s = data@.push(0);
    let mut buf: Vec<u8> = Vec::new();
    buf.push(NO_DELIMITER);
    let mut code_index: usize = 0;
    let mut block: u8 = 1;
    let ghost mut closed: Seq<u8> = seq![];
    let ghost mut j: int = 0;
    let mut idx: usize = 0;
    assert(s.skip(0) == s);
    assert(closed + cobs_groups(s.skip(0)) == cobs_groups(s));
    while idx < data.len()
        invariant
            s == data@.push(0),
            0 <= j <= idx <= data.len(),
            block == idx - j + 1,
            block <= MAX_BLOCK_SIZE,
            code_index == closed.len(),
            buf@ == closed + seq![NO_DELIMITER] + data@.subrange(j, idx as int),
            forall|k: int| j <= k < idx ==> data@[k] > DELIMITER,
            cobs_groups(s) == closed + cobs_groups(s.skip(j)),
        decreases data.len() - idx,
    {
        let byte = data[idx];
        let ghost t = s.skip(j);
        let ghost m = idx - j;
        assert forall|k: int| 0 <= k < m implies t[k] > DELIMITER by {
            assert(t[k] == data@[j + k]);
        }
        assert(t[m] == byte);
        if byte > DELIMITER {
            buf.push(byte);
            block = block + 1;
        }
        if byte <= DELIMITER || block > MAX_BLOCK_SIZE {
            if byte <= DELIMITER {
                assert(byte * MAX_BLOCK_SIZE <= 168) by (nonlinear_arith)
                    requires
                        byte <= 2,
                ;
                let delimiter_base = byte * MAX_BLOCK_SIZE;
                let block_offset = block + COBS_CODE_OFFSET;
                buf.set(code_index, delimiter_base + block_offset);
                proof {
                    lemma_delimiter_index_at(t, m);
                    lemma_delimiter_index_bound(t);
                    assert(t.take(m) == data@.subrange(j, idx as int));
                    assert(t.skip(m + 1) == s.skip(idx + 1));
                    assert(buf@ == closed + seq![(byte * MAX_BLOCK_SIZE + block + COBS_CODE_OFFSET) as u8]
                        + data@.subrange(j, idx as int));
                    closed = buf@;
                    j = idx + 1;
                }
            } else {
                proof {
                    assert forall|k: int| 0 <= k < MAX_BLOCK_SIZE implies t[k] > DELIMITER by {
                        assert(t[k] == data@[j + k]);
                    }
                    lemma_delimiter_index_at(t, MAX_BLOCK_SIZE as int);
                    lemma_delimiter_index_bound(t);
                    assert(t.take(MAX_BLOCK_SIZE as int) == data@.subrange(j, idx + 1));
                    assert(t.skip(MAX_BLOCK_SIZE as int) == s.skip(idx + 1));
                    assert(buf@ == closed + seq![NO_DELIMITER] + data@.subrange(j, idx + 1));
                    closed = buf@;
                    j = idx + 1;
                }
            }
            code_index = buf.len();
            buf.push(NO_DELIMITER);
            block = 1;
        }
        idx = idx + 1;
    }
    proof {
        let t = s.skip(j);
        let m = idx - j;
        assert forall|k: int| 0 <= k < m implies t[k] > DELIMITER by {
            assert(t[k] == data@[j + k]);
        }
        assert(t[m] == 0);
        lemma_delimiter_index_at(t, m);
        lemma_delimiter_index_bound(t);
        assert(t.take(m) == data@.subrange(j, idx as int));
        assert(t.skip(m + 1).len() == 0);
        assert(cobs_groups(t.skip(m + 1)) == Seq::<u8>::empty());
    }
    buf.set(code_index, block + COBS_CODE_OFFSET);
    let ghost groups = buf@;
    assert(groups == cobs_groups(s));
    let mut i: usize = 0;
    while i < buf.len()
        invariant
            buf@.len() == groups.len(),
            i <= buf@.len(),
            forall|k: int| 0 <= k < i ==> buf@[k] == groups[k] ^ FRAME_MASK,
            forall|k: int| i <= k < buf@.len() ==> buf@[k] == groups[k],
        decreases buf.len() - i,
    {
        let masked = buf[i] ^ FRAME_MASK;
        buf.set(i, masked);
        i = i + 1;
    }
    assert(buf@ == mask(groups));
    buf.push(FRAME_END);
    buf
}


/// Whether `code` can start a group: every byte but `0x00` and `0x01`.
pub open spec fn can_unescape(code: u8) -> bool {
    code == NO_DELIMITER || code >= COBS_CODE_OFFSET
}

/// The delimiter a code byte announces (if any) and the block length it
/// announces: one more than the number of literal bytes that follow it.
pub open spec fn spec_unescape(code: u8) -> (Option<u8>, u8) {
    if code == NO_DELIMITER {
        (None, (MAX_BLOCK_SIZE + 1) as u8)
    } else {
        let value = (code - COBS_CODE_OFFSET) / (MAX_BLOCK_SIZE as int);
        let block = (code - COBS_CODE_OFFSET) % (MAX_BLOCK_SIZE as int);
        if block == 0 {
            (Some(if value == 0 { 255u8 } else { (value - 1) as u8 }), MAX_BLOCK_SIZE)
        } else {
            (Some(value as u8), block as u8)
        }
    }
}

/// Reads a code byte.
pub fn unescape(code: u8) -> (r: (Option<u8>, u8))
    requires
        can_unescape(code),
    ensures
        r == spec_unescape(code),
{
    if code == NO_DELIMITER {
        return (None, MAX_BLOCK_SIZE + 1);
    }
    let mut value = (code - COBS_CODE_OFFSET) / MAX_BLOCK_SIZE;
    let mut block = (code - COBS_CODE_OFFSET) % MAX_BLOCK_SIZE;
    if block == 0 {
        block = MAX_BLOCK_SIZE;
        value = value.wrapping_sub(1);
    }
    (Some(value), block)
}

pub open spec fn option_bytes(value: Option<u8>) -> Seq<u8> {
    match value {
        Some(v) => seq![v],
        None => seq![],
    }
}

pub open spec fn prepend(prefix: Seq<u8>, out: Option<Seq<u8>>) -> Option<Seq<u8>> {
    match out {
        Some(o) => Some(prefix + o),
        None => None,
    }
}

/// What unstuffing `bytes` yields when the current group still announces
/// `block` and `value`; `None` where a byte that must be read as a code
/// byte cannot be one.
pub open spec fn decode_run(bytes: Seq<u8>, value: Option<u8>, block: u8) -> Option<Seq<u8>>
    decreases bytes.len(),
{
    if bytes.len() == 0 {
        Some(seq![])
    } else if block > 1 {
        prepend(seq![bytes[0]], decode_run(bytes.drop_first(), value, (block - 1) as u8))
    } else if !can_unescape(bytes[0]) {
        None
    } else {
        prepend(
            option_bytes(value),
            decode_run(bytes.drop_first(), spec_unescape(bytes[0]).0, spec_unescape(bytes[0]).1),
        )
    }
}

/// A frame with its mask removed: every byte but the closing one is
/// unmasked.
pub open spec fn unmask(frame: Seq<u8>) -> Seq<u8> {
    mask(frame.drop_last()).push(frame.last())
}

/// The message that a frame carries, or `None` for a frame that cannot be
/// decoded.
pub open spec fn spec_decode(frame: Seq<u8>) -> Option<Seq<u8>> {
    if frame.len() == 0 || frame[0] == 1 {
        None
    } else {
        let x = unmask(frame);
        if !can_unescape(x[0]) {
            None
        } else {
            match decode_run(x.drop_first(), spec_unescape(x[0]).0, spec_unescape(x[0]).1) {
                Some(out) => if out.len() > 0 && out.last() == 0 {
                    Some(out.drop_last())
                } else {
                    None
                },
                None => None,
            }
        }
    }
}

pub proof fn lemma_prepend_assoc(a: Seq<u8>, b: Seq<u8>, out: Option<Seq<u8>>)
    ensures
        prepend(a, prepend(b, out)) == prepend(a + b, out),
{
    if let Some(o) = out {
        assert(a + (b + o) =~= (a + b) + o);
    }
}

/// Decodes a frame, or returns `None` where the frame cannot be decoded.
#[verifier::loop_isolation(false)]
pub fn try_decode_message(data: Vec<u8>) -> (r: Option<Vec<u8>>)
    ensures
        match r {
            Some(v) => spec_decode(data@) == Some(v@),
            None => spec_decode(data@) is None,
        },
{
    let mut data = data;
    let ghost original = data@;
    if data.len() == 0 {
        return None;
    }
    let mut start: usize = 0;
    if data[0] == 1 {
        start = start + 1;
    }
    let neg_one = data.len() - 1;
    if start > neg_one {
        return None;
    }
    let mut i: usize = start;
    while i < neg_one
        invariant
            data@.len() == original.len(),
            neg_one == original.len() - 1,
            start <= i <= neg_one,
            forall|k: int| start <= k < i ==> data@[k] == original[k] ^ FRAME_MASK,
            forall|k: int| 0 <= k < start ==> data@[k] == original[k],
            forall|k: int| i <= k < data@.len() ==> data@[k] == original[k],
        decreases neg_one - i,
    {
        let masked = data[i] ^ FRAME_MASK;
        data.set(i, masked);
        i = i + 1;
    }
    if !(data[0] == NO_DELIMITER || data[0] >= COBS_CODE_OFFSET) {
        return None;
    }
    let ghost x = unmask(original);
    assert(start == 0 ==> data@ =~= x);
    let ghost total = decode_run(x.drop_first(), spec_unescape(x[0]).0, spec_unescape(x[0]).1);
    let (mut value, mut block) = unescape(data[0]);
    let mut buf: Vec<u8> = Vec::new();
    let mut i: usize = 1;
    assert(x.drop_first().skip(0) == x.drop_first());
    while i < data.len()
        invariant
            start == 0,
            data@ == x,
            1 <= i <= data@.len(),
            1 <= block <= MAX_BLOCK_SIZE + 1,
            total == prepend(buf@, decode_run(x.skip(i as int), value, block)),
        decreases data.len() - i,
    {
        let byte = data[i];
        let ghost rest = x.skip(i as int);
        let ghost old_buf = buf@;
        let ghost old_value = value;
        let ghost old_block = block;
        assert(rest[0] == byte);
        assert(rest.drop_first() == x.skip(i + 1));
        block = block - 1;
        if block > 0 {
            buf.push(byte);
            proof {
                lemma_prepend_assoc(old_buf, seq![byte], decode_run(x.skip(i + 1), value, block));
            }
        } else {
            if let Some(v) = value {
                buf.push(v);
            }
            assert(buf@ == old_buf + option_bytes(old_value));
            if !(byte == NO_DELIMITER || byte >= COBS_CODE_OFFSET) {
                assert(decode_run(rest, old_value, old_block) is None);
                assert(total is None);
                return None;
            }
            let next = unescape(byte);
            value = next.0;
            block = next.1;
            proof {
                lemma_prepend_assoc(
                    old_buf,
                    option_bytes(old_value),
                    decode_run(x.skip(i + 1), value, block),
                );
            }
        }
        i = i + 1;
    }
    assert(x.skip(i as int).len() == 0);
    match buf.pop() {
        Some(last) => {
            if last == 0 {
                Some(buf)
            } else {
                None
            }
        },
        None => None,
    }
}


/// Decodes a frame that can be decoded.
pub fn decode_message(data: Vec<u8>) -> (message: Vec<u8>)
    requires
        spec_decode(data@) is Some,
    ensures
        spec_decode(data@) == Some(message@),
{
    match try_decode_message(data) {
        Some(message) => message,
        None => {
            proof {
                assert(false);
            }
            Vec::new()
        },
    }
}

proof fn lemma_mask_byte(b: u8)
    ensures
        (b ^ FRAME_MASK) ^ FRAME_MASK == b,
        b >= 3 ==> (b ^ FRAME_MASK) != FRAME_END,
        b >= 3 ==> (b ^ FRAME_MASK) != 1,
{
    assert((b ^ 3u8) ^ 3u8 == b) by (bit_vector);
    assert(b >= 3 ==> (b ^ 3u8) != 2u8) by (bit_vector);
    assert(b >= 3 ==> (b ^ 3u8) != 1u8) by (bit_vector);
}

proof fn lemma_mask_involution(s: Seq<u8>)
    ensures
        mask(mask(s)) == s,
{
    assert forall|k: int| 0 <= k < s.len() implies mask(mask(s))[k] == s[k] by {
        lemma_mask_byte(s[k]);
    }
    assert(mask(mask(s)) =~= s);
}

/// Every stuffed byte, code or literal, is at least 3.
proof fn lemma_groups_bytes(s: Seq<u8>)
    ensures
        forall|k: int| 0 <= k < cobs_groups(s).len() ==> cobs_groups(s)[k] >= 3,
    decreases s.len(),
{
    if s.len() > 0 {
        let i = delimiter_index(s);
        lemma_delimiter_index_bound(s);
        let g = cobs_groups(s);
        if i >= MAX_BLOCK_SIZE {
            let rest = s.skip(MAX_BLOCK_SIZE as int);
            lemma_groups_bytes(rest);
            assert forall|k: int| 0 <= k < g.len() implies g[k] >= 3 by {
                if k >= 1 + MAX_BLOCK_SIZE {
                    assert(g[k] == cobs_groups(rest)[k - 1 - MAX_BLOCK_SIZE]);
                } else if k >= 1 {
                    assert(g[k] == s[k - 1]);
                }
            }
        } else if i < s.len() {
            let rest = s.skip(i + 1 as int);
            lemma_groups_bytes(rest);
            assert(s[i as int] * MAX_BLOCK_SIZE <= 168) by (nonlinear_arith)
                requires
                    s[i as int] <= 2,
            ;
            assert forall|k: int| 0 <= k < g.len() implies g[k] >= 3 by {
                if k >= 1 + i {
                    assert(g[k] == cobs_groups(rest)[k - 1 - i]);
                } else if k >= 1 {
                    assert(g[k] == s[k - 1]);
                }
            }
        } else {
            assert forall|k: int| 0 <= k < g.len() implies g[k] >= 3 by {
                if k >= 1 {
                    assert(g[k] == s[k - 1]);
                }
            }
        }
    }
}

proof fn lemma_unescape_code(v: u8, i: int)
    requires
        v <= 2,
        0 <= i < MAX_BLOCK_SIZE,
    ensures
        ({
            let c = (v * MAX_BLOCK_SIZE + i + 1 + COBS_CODE_OFFSET) as u8;
            &&& v * MAX_BLOCK_SIZE + i + 1 + COBS_CODE_OFFSET <= 254
            &&& can_unescape(c)
            &&& spec_unescape(c) == (Some(v), (i + 1) as u8)
        }),
{
    let c = (v * MAX_BLOCK_SIZE + i + 1 + COBS_CODE_OFFSET) as u8;
    if v == 0 {
        assert(c == i + 3);
    } else if v == 1 {
        assert(c == 84 + i + 3);
    } else {
        assert(c == 168 + i + 3);
    }
    assert(c - 2 == v * 84 + i + 1);
    if i + 1 < 84 {
        assert((c - 2) / 84 == v && (c - 2) % 84 == i + 1) by (nonlinear_arith)
            requires
                c - 2 == v * 84 + i + 1,
                0 <= i + 1 < 84,
                0 <= v <= 2,
        ;
    } else {
        assert((c - 2) / 84 == v + 1 && (c - 2) % 84 == 0) by (nonlinear_arith)
            requires
                c - 2 == v * 84 + 84,
                0 <= v <= 2,
        ;
    }
}

proof fn lemma_run_literals(lits: Seq<u8>, rest: Seq<u8>, value: Option<u8>, block: u8)
    requires
        lits.len() < block,
    ensures
        decode_run(lits + rest, value, block) == prepend(
            lits,
            decode_run(rest, value, (block - lits.len()) as u8),
        ),
    decreases lits.len(),
{
    if lits.len() == 0 {
        assert(lits + rest =~= rest);
        if let Some(o) = decode_run(rest, value, block) {
            assert(lits + o =~= o);
        }
    } else {
        let whole = lits + rest;
        assert(whole[0] == lits[0]);
        assert(whole.drop_first() =~= lits.drop_first() + rest);
        lemma_run_literals(lits.drop_first(), rest, value, (block - 1) as u8);
        lemma_prepend_assoc(
            seq![lits[0]],
            lits.drop_first(),
            decode_run(rest, value, (block - lits.len()) as u8),
        );
        assert(seq![lits[0]] + lits.drop_first() =~= lits);
    }
}

/// Unstuffing the groups of `s`, followed by `tail` whose first byte is a
/// code byte, gives back `s` and then what `tail` gives.
proof fn lemma_groups_decode(s: Seq<u8>, tail: Seq<u8>)
    requires
        s.len() > 0,
        s.last() == 0,
        tail.len() > 0,
        can_unescape(tail[0]),
    ensures
        cobs_groups(s).len() > 0,
        can_unescape(cobs_groups(s)[0]),
        decode_run(
            cobs_groups(s).drop_first() + tail,
            spec_unescape(cobs_groups(s)[0]).0,
            spec_unescape(cobs_groups(s)[0]).1,
        ) == prepend(
            s,
            decode_run(tail.drop_first(), spec_unescape(tail[0]).0, spec_unescape(tail[0]).1),
        ),
    decreases s.len(),
{
    let r = decode_run(tail.drop_first(), spec_unescape(tail[0]).0, spec_unescape(tail[0]).1);
    let i = delimiter_index(s);
    lemma_delimiter_index_bound(s);
    let g = cobs_groups(s);
    if i >= MAX_BLOCK_SIZE {
        let lits = s.take(MAX_BLOCK_SIZE as int);
        let s2 = s.skip(MAX_BLOCK_SIZE as int);
        let g2 = cobs_groups(s2);
        assert(s2.last() == s.last());
        lemma_groups_decode(s2, tail);
        assert(g.drop_first() + tail =~= lits + (g2 + tail));
        lemma_run_literals(lits, g2 + tail, None, (MAX_BLOCK_SIZE + 1) as u8);
        assert((g2 + tail)[0] == g2[0]);
        assert((g2 + tail).drop_first() =~= g2.drop_first() + tail);
        assert(option_bytes(None) + s2 =~= s2);
        lemma_prepend_assoc(option_bytes(None), s2, r);
        lemma_prepend_assoc(lits, s2, r);
        assert(lits + s2 =~= s);
    } else {
        let v = s[i as int];
        lemma_unescape_code(v, i as int);
        let lits = s.take(i as int);
        let s3 = s.skip(i + 1 as int);
        let g2 = cobs_groups(s3);
        assert(g.drop_first() + tail =~= lits + (g2 + tail));
        lemma_run_literals(lits, g2 + tail, Some(v), (i + 1) as u8);
        if s3.len() == 0 {
            assert(g2 + tail =~= tail);
            lemma_prepend_assoc(lits, seq![v], r);
            assert(lits + seq![v] =~= s);
        } else {
            assert(s3.last() == s.last());
            lemma_groups_decode(s3, tail);
            assert((g2 + tail)[0] == g2[0]);
            assert((g2 + tail).drop_first() =~= g2.drop_first() + tail);
            lemma_prepend_assoc(seq![v], s3, r);
            lemma_prepend_assoc(lits, seq![v] + s3, r);
            assert(lits + (seq![v] + s3) =~= s);
        }
    }
}

/// Decoding the frame of a message gives the message back.
pub proof fn lemma_decode_encode(data: Seq<u8>)
    ensures
        spec_decode(spec_encode(data)) == Some(data),
{
    let s = data.push(0);
    let g = cobs_groups(s);
    let frame = spec_encode(data);
    let tail = seq![FRAME_END];
    lemma_groups_decode(s, tail);
    lemma_groups_bytes(s);
    lemma_mask_byte(g[0]);
    assert(frame.drop_last() =~= mask(g));
    lemma_mask_involution(g);
    let x = unmask(frame);
    assert(x =~= g.push(FRAME_END));
    assert(x.drop_first() =~= g.drop_first() + tail);
    assert(tail.drop_first().len() == 0);
    assert(s.drop_last() =~= data);
}

/// A frame ends with `FRAME_END`, holds it nowhere else, and does not
/// start with `0x01`.
pub proof fn lemma_frame_end_only_at_end(data: Seq<u8>)
    ensures
        spec_encode(data).len() >= 2,
        spec_encode(data).last() == FRAME_END,
        spec_encode(data)[0] != 1,
        forall|k: int|
            0 <= k < spec_encode(data).len() - 1 ==> #[trigger] spec_encode(data)[k] != FRAME_END,
{
    let s = data.push(0);
    let g = cobs_groups(s);
    lemma_groups_bytes(s);
    lemma_groups_decode(s, seq![FRAME_END]);
    assert forall|k: int| 0 <= k < spec_encode(data).len() - 1 implies #[trigger] spec_encode(
        data,
    )[k] != FRAME_END by {
        lemma_mask_byte(g[k]);
    }
    lemma_mask_byte(g[0]);
}

} // verus!
