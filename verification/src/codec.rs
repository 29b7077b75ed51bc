//! The local binary format for a single log record, written and read by
//! the single-slot store. The format is length-framed: one severity byte,
//! the timestamp in little-endian, then the context, the message
//! identifier and the message body, each as a little-endian byte length
//! followed by that many UTF-8 bytes. Encoding is injective and decoding
//! accepts exactly the encodings, so a record round-trips field for field.

use vstd::bytes::{lemma_auto_spec_u64_to_from_le_bytes, spec_u64_from_le_bytes, spec_u64_to_le_bytes, u64_from_le_bytes, u64_to_le_bytes};
use vstd::prelude::*;
use vstd::slice::{slice_subrange, slice_to_vec};
use vstd::string::StrSliceExecFns;
use vstd::utf8::{decode_utf8_encode_utf8, encode_utf8, encode_utf8_decode_utf8, encode_utf8_valid_utf8};

use crate::log::{Context, Level, Log, LogView, Message};
use crate::text::string_from_utf8;

verus! {

/// The tag byte that stands for each severity in the binary format.
pub open spec fn spec_level_byte(level: Level) -> u8 {
    match level {
        Level::Debug => 0,
        Level::Trace => 1,
        Level::Normal => 2,
        Level::Error => 3,
        Level::Critical => 4,
    }
}

/// The severity a tag byte stands for, if any.
pub open spec fn spec_level_of_byte(b: u8) -> Option<Level> {
    if b == 0 {
        Some(Level::Debug)
    } else if b == 1 {
        Some(Level::Trace)
    } else if b == 2 {
        Some(Level::Normal)
    } else if b == 3 {
        Some(Level::Error)
    } else if b == 4 {
        Some(Level::Critical)
    } else {
        None
    }
}

/// A string whose UTF-8 byte length fits the format's length field. Every
/// string held in memory satisfies this.
pub open spec fn wf_chars(s: Seq<char>) -> bool {
    encode_utf8(s).len() <= u64::MAX
}

/// A log value whose strings all fit the format's length fields.
pub open spec fn wf_log(l: LogView) -> bool {
    wf_chars(l.context) && wf_chars(l.message.id) && wf_chars(l.message.message)
}

/// One length-framed string: the UTF-8 byte length in little-endian,
/// followed by the UTF-8 bytes themselves.
pub open spec fn spec_encode_str(s: Seq<char>) -> Seq<u8> {
    spec_u64_to_le_bytes(encode_utf8(s).len() as u64) + encode_utf8(s)
}

/// The binary encoding of a whole log record.
pub open spec fn spec_encode_log(l: LogView) -> Seq<u8> {
    seq![spec_level_byte(l.level)] + spec_u64_to_le_bytes(l.timestamp) + spec_encode_str(l.context)
        + spec_encode_str(l.message.id) + spec_encode_str(l.message.message)
}

/// The log value a byte sequence encodes, if it is an encoding at all.
/// By [`lemma_encode_log_injective`] there is at most one such value.
pub open spec fn spec_decode_log(b: Seq<u8>) -> Option<LogView> {
    if exists|l: LogView| wf_log(l) && spec_encode_log(l) == b {
        Some(choose|l: LogView| wf_log(l) && spec_encode_log(l) == b)
    } else {
        None
    }
}

proof fn lemma_concat_split<A>(a: Seq<A>, b: Seq<A>, c: Seq<A>, d: Seq<A>)
    requires
        a.len() == c.len(),
        a + b == c + d,
    ensures
        a == c,
        b == d,
{
    assert((a + b).len() == a.len() + b.len());
    assert((c + d).len() == c.len() + d.len());
    assert(b.len() == d.len());
    assert(a =~= c) by {
        assert forall|i: int| 0 <= i < a.len() implies a[i] == c[i] by {
            assert((a + b)[i] == a[i]);
            assert((c + d)[i] == c[i]);
        }
    }
    assert(b =~= d) by {
        assert forall|i: int| 0 <= i < b.len() implies b[i] == d[i] by {
            assert((a + b)[a.len() + i] == b[i]);
            assert((c + d)[c.len() + i] == d[i]);
        }
    }
}

/// A byte sequence splits into its two subranges around any index.
proof fn lemma_split_at(b: Seq<u8>, mid: int)
    requires
        0 <= mid <= b.len(),
    ensures
        b == b.subrange(0, mid) + b.subrange(mid, b.len() as int),
{
    assert(b =~= b.subrange(0, mid) + b.subrange(mid, b.len() as int));
}

/// A subrange splits into its two subranges around any inner index.
proof fn lemma_subrange_split(b: Seq<u8>, lo: int, mid: int, hi: int)
    requires
        0 <= lo <= mid <= hi <= b.len(),
    ensures
        b.subrange(lo, hi) == b.subrange(lo, mid) + b.subrange(mid, hi),
{
    assert(b.subrange(lo, hi) =~= b.subrange(lo, mid) + b.subrange(mid, hi));
}

/// Two length-framed strings that open the same byte sequence are the
/// same string, and what follows them is the same as well.
proof fn lemma_encode_str_prefix_injective(s1: Seq<char>, s2: Seq<char>, r1: Seq<u8>, r2: Seq<u8>)
    requires
        wf_chars(s1),
        wf_chars(s2),
        spec_encode_str(s1) + r1 == spec_encode_str(s2) + r2,
    ensures
        s1 == s2,
        r1 == r2,
{
    lemma_auto_spec_u64_to_from_le_bytes();
    let n1 = encode_utf8(s1).len() as u64;
    let n2 = encode_utf8(s2).len() as u64;
    assert(spec_u64_to_le_bytes(n1) + (encode_utf8(s1) + r1) =~= spec_encode_str(s1) + r1);
    assert(spec_u64_to_le_bytes(n2) + (encode_utf8(s2) + r2) =~= spec_encode_str(s2) + r2);
    lemma_concat_split(
        spec_u64_to_le_bytes(n1),
        encode_utf8(s1) + r1,
        spec_u64_to_le_bytes(n2),
        encode_utf8(s2) + r2,
    );
    assert(n1 == n2);
    lemma_concat_split(encode_utf8(s1), r1, encode_utf8(s2), r2);
    encode_utf8_decode_utf8(s1);
    encode_utf8_decode_utf8(s2);
}

/// The binary encoding is injective: equal encodings come from equal log
/// values, every field included.
pub proof fn lemma_encode_log_injective(l1: LogView, l2: LogView)
    requires
        wf_log(l1),
        wf_log(l2),
        spec_encode_log(l1) == spec_encode_log(l2),
    ensures
        l1 == l2,
{
    lemma_auto_spec_u64_to_from_le_bytes();
    let tail1 = spec_u64_to_le_bytes(l1.timestamp) + (spec_encode_str(l1.context)
        + (spec_encode_str(l1.message.id) + spec_encode_str(l1.message.message)));
    let tail2 = spec_u64_to_le_bytes(l2.timestamp) + (spec_encode_str(l2.context)
        + (spec_encode_str(l2.message.id) + spec_encode_str(l2.message.message)));
    assert(seq![spec_level_byte(l1.level)] + tail1 =~= spec_encode_log(l1));
    assert(seq![spec_level_byte(l2.level)] + tail2 =~= spec_encode_log(l2));
    lemma_concat_split(
        seq![spec_level_byte(l1.level)],
        tail1,
        seq![spec_level_byte(l2.level)],
        tail2,
    );
    assert(seq![spec_level_byte(l1.level)][0] == seq![spec_level_byte(l2.level)][0]);
    assert(spec_level_byte(l1.level) == spec_level_byte(l2.level));
    assert(l1.level == l2.level);
    lemma_concat_split(
        spec_u64_to_le_bytes(l1.timestamp),
        spec_encode_str(l1.context) + (spec_encode_str(l1.message.id) + spec_encode_str(
            l1.message.message,
        )),
        spec_u64_to_le_bytes(l2.timestamp),
        spec_encode_str(l2.context) + (spec_encode_str(l2.message.id) + spec_encode_str(
            l2.message.message,
        )),
    );
    assert(l1.timestamp == l2.timestamp);
    lemma_encode_str_prefix_injective(
        l1.context,
        l2.context,
        spec_encode_str(l1.message.id) + spec_encode_str(l1.message.message),
        spec_encode_str(l2.message.id) + spec_encode_str(l2.message.message),
    );
    lemma_encode_str_prefix_injective(
        l1.message.id,
        l2.message.id,
        spec_encode_str(l1.message.message),
        spec_encode_str(l2.message.message),
    );
    assert(spec_encode_str(l1.message.message) + Seq::<u8>::empty() =~= spec_encode_str(
        l1.message.message,
    ));
    assert(spec_encode_str(l2.message.message) + Seq::<u8>::empty() =~= spec_encode_str(
        l2.message.message,
    ));
    lemma_encode_str_prefix_injective(
        l1.message.message,
        l2.message.message,
        Seq::<u8>::empty(),
        Seq::<u8>::empty(),
    );
}

/// Round-trip law: the encoding of a log value decodes to exactly that
/// value, every field (timestamp included) equal to the original.
pub proof fn lemma_codec_round_trip(l: LogView)
    requires
        wf_log(l),
    ensures
        spec_decode_log(spec_encode_log(l)) == Some(l),
{
    assert(wf_log(l) && spec_encode_log(l) == spec_encode_log(l));
    let picked = choose|l2: LogView| wf_log(l2) && spec_encode_log(l2) == spec_encode_log(l);
    lemma_encode_log_injective(picked, l);
}

fn level_to_byte(level: &Level) -> (r: u8)
    ensures
        r == spec_level_byte(*level),
{
    match level {
        Level::Debug => 0,
        Level::Trace => 1,
        Level::Normal => 2,
        Level::Error => 3,
        Level::Critical => 4,
    }
}

fn level_of_byte(b: u8) -> (r: Option<Level>)
    ensures
        r == spec_level_of_byte(b),
{
    if b == 0 {
        Some(Level::Debug)
    } else if b == 1 {
        Some(Level::Trace)
    } else if b == 2 {
        Some(Level::Normal)
    } else if b == 3 {
        Some(Level::Error)
    } else if b == 4 {
        Some(Level::Critical)
    } else {
        None
    }
}

fn encode_str_into(out: &mut Vec<u8>, s: &str)
    ensures
        final(out)@ == old(out)@ + spec_encode_str(s@),
        wf_chars(s@),
{
    let bytes = s.as_bytes_vec();
    let len: u64 = bytes.len() as u64;
    let mut len_bytes = u64_to_le_bytes(len);
    out.append(&mut len_bytes);
    let mut body = bytes;
    out.append(&mut body);
    proof {
        assert(out@ =~= old(out)@ + spec_encode_str(s@));
    }
}

/// Encodes a log record in the local binary format.
pub fn encode_log(log: &Log) -> (r: Vec<u8>)
    ensures
        r@ == spec_encode_log(log@),
        wf_log(log@),
{
    let mut out: Vec<u8> = Vec::new();
    out.push(level_to_byte(&log.level));
    proof {
        assert(out@ =~= seq![spec_level_byte(log@.level)]);
    }
    let mut ts_bytes = u64_to_le_bytes(log.timestamp);
    out.append(&mut ts_bytes);
    proof {
        assert(out@ == seq![spec_level_byte(log@.level)] + spec_u64_to_le_bytes(log@.timestamp));
    }
    proof {
        crate::log::lemma_message_view(&log.message);
    }
    encode_str_into(&mut out, log.context.ctx.as_str());
    encode_str_into(&mut out, log.message.id.as_str());
    encode_str_into(&mut out, log.message.message.as_str());
    proof {
        assert(out@ == spec_encode_log(log@));
    }
    out
}

fn read_u64(bytes: &Vec<u8>, pos: usize) -> (r: Option<(u64, usize)>)
    requires
        pos <= bytes@.len(),
    ensures
        match r {
            Some(p) => {
                &&& pos + 8 <= bytes@.len()
                &&& p.1 == pos + 8
                &&& bytes@.subrange(pos as int, p.1 as int) == spec_u64_to_le_bytes(p.0)
            },
            None => pos + 8 > bytes@.len(),
        },
{
    if bytes.len() - pos >= 8 {
        let sl = slice_subrange(bytes.as_slice(), pos, pos + 8);
        let v = u64_from_le_bytes(sl);
        proof {
            lemma_auto_spec_u64_to_from_le_bytes();
            assert(spec_u64_to_le_bytes(v) == bytes@.subrange(pos as int, pos + 8));
        }
        Some((v, pos + 8))
    } else {
        None
    }
}

fn decode_str(bytes: &Vec<u8>, pos: usize) -> (r: Option<(String, usize)>)
    requires
        pos <= bytes@.len(),
    ensures
        match r {
            Some(p) => {
                &&& pos <= p.1 <= bytes@.len()
                &&& wf_chars(p.0@)
                &&& bytes@.subrange(pos as int, p.1 as int) == spec_encode_str(p.0@)
            },
            None => forall|s: Seq<char>, q: int|
                pos <= q <= bytes@.len() && wf_chars(s) ==> bytes@.subrange(pos as int, q)
                    != spec_encode_str(s),
        },
{
    proof {
        lemma_auto_spec_u64_to_from_le_bytes();
    }
    let (len64, p1) = match read_u64(bytes, pos) {
        Some(x) => x,
        None => {
            proof {
                assert forall|s: Seq<char>, q: int|
                    pos <= q <= bytes@.len() && wf_chars(s) implies bytes@.subrange(pos as int, q)
                    != spec_encode_str(s) by {
                    assert(spec_encode_str(s).len() >= 8);
                    assert(bytes@.subrange(pos as int, q).len() == q - pos < 8);
                }
            }
            return None;
        },
    };
    let remaining = bytes.len() - p1;
    if len64 > remaining as u64 {
        proof {
            assert forall|s: Seq<char>, q: int|
                pos <= q <= bytes@.len() && wf_chars(s) implies bytes@.subrange(pos as int, q)
                != spec_encode_str(s) by {
                if bytes@.subrange(pos as int, q) == spec_encode_str(s) {
                    let n = encode_utf8(s).len() as u64;
                    assert(spec_u64_to_le_bytes(n).len() == 8);
                    assert(spec_encode_str(s).len() == 8 + encode_utf8(s).len());
                    assert(q - pos == 8 + encode_utf8(s).len());
                    assert(bytes@.subrange(pos as int, pos + 8) =~= bytes@.subrange(
                        pos as int,
                        q,
                    ).subrange(0, 8));
                    assert(spec_encode_str(s).subrange(0, 8) =~= spec_u64_to_le_bytes(n));
                    assert(spec_u64_to_le_bytes(len64) == spec_u64_to_le_bytes(n));
                    assert(spec_u64_from_le_bytes(spec_u64_to_le_bytes(len64))
                        == spec_u64_from_le_bytes(spec_u64_to_le_bytes(n)));
                    assert(len64 == n);
                    assert(q == p1 + len64);
                }
            }
        }
        return None;
    }
    let len = len64 as usize;
    let p2 = p1 + len;
    let sl = slice_subrange(bytes.as_slice(), p1, p2);
    let seg = slice_to_vec(sl);
    let ghost segment = bytes@.subrange(p1 as int, p2 as int);
    match string_from_utf8(seg) {
        Some(s) => {
            proof {
                decode_utf8_encode_utf8(segment);
                assert(encode_utf8(s@) == segment);
                assert(encode_utf8(s@).len() == len);
                assert(encode_utf8(s@).len() as u64 == len64);
                lemma_subrange_split(bytes@, pos as int, p1 as int, p2 as int);
                assert(bytes@.subrange(pos as int, p2 as int) == spec_u64_to_le_bytes(len64)
                    + segment);
                assert(bytes@.subrange(pos as int, p2 as int) == spec_encode_str(s@));
            }
            Some((s, p2))
        },
        None => {
            proof {
                assert forall|s: Seq<char>, q: int|
                    pos <= q <= bytes@.len() && wf_chars(s) implies bytes@.subrange(pos as int, q)
                    != spec_encode_str(s) by {
                    if bytes@.subrange(pos as int, q) == spec_encode_str(s) {
                        let n = encode_utf8(s).len() as u64;
                        assert(spec_u64_to_le_bytes(n).len() == 8);
                        assert(spec_encode_str(s).len() == 8 + encode_utf8(s).len());
                        assert(q - pos == 8 + encode_utf8(s).len());
                        assert(bytes@.subrange(pos as int, pos + 8) =~= bytes@.subrange(
                            pos as int,
                            q,
                        ).subrange(0, 8));
                        assert(spec_encode_str(s).subrange(0, 8) =~= spec_u64_to_le_bytes(n));
                        assert(spec_u64_from_le_bytes(spec_u64_to_le_bytes(len64))
                            == spec_u64_from_le_bytes(spec_u64_to_le_bytes(n)));
                        assert(len64 == n);
                        assert(q == p2);
                        assert(encode_utf8(s) =~= bytes@.subrange(pos as int, q).subrange(
                            8,
                            q - pos,
                        ));
                        assert(encode_utf8(s) =~= segment);
                        encode_utf8_valid_utf8(s);
                    }
                }
            }
            None
        },
    }
}

/// Decodes a log record from the local binary format. Returns the record
/// exactly when the bytes are the encoding of one; any corrupt or
/// truncated input is rejected.
#[verifier::rlimit(60)]
pub fn decode_log(bytes: &Vec<u8>) -> (r: Option<Log>)
    ensures
        match r {
            Some(log) => {
                &&& wf_log(log@)
                &&& spec_encode_log(log@) == bytes@
                &&& spec_decode_log(bytes@) == Some(log@)
            },
            None => spec_decode_log(bytes@) is None,
        },
{
    proof {
        lemma_auto_spec_u64_to_from_le_bytes();
    }
    if bytes.len() == 0 {
        proof {
            assert forall|l: LogView| wf_log(l) implies spec_encode_log(l) != bytes@ by {
                assert(spec_encode_log(l).len() >= 1);
            }
        }
        return None;
    }
    let level = match level_of_byte(bytes[0]) {
        Some(level) => level,
        None => {
            proof {
                assert forall|l: LogView| wf_log(l) implies spec_encode_log(l) != bytes@ by {
                    if spec_encode_log(l) == bytes@ {
                        assert(bytes@[0] == spec_level_byte(l.level));
                        assert(spec_level_of_byte(spec_level_byte(l.level)) == Some(l.level));
                    }
                }
            }
            return None;
        },
    };
    let (ts, p1) = match read_u64(bytes, 1) {
        Some(x) => x,
        None => {
            proof {
                assert forall|l: LogView| wf_log(l) implies spec_encode_log(l) != bytes@ by {
                    assert(spec_encode_log(l).len() >= 25);
                }
            }
            return None;
        },
    };
    let (ctx, p2) = match decode_str(bytes, p1) {
        Some(x) => x,
        None => {
            proof {
                assert forall|l: LogView| wf_log(l) implies spec_encode_log(l) != bytes@ by {
                    if spec_encode_log(l) == bytes@ {
                        let c = spec_encode_str(l.context);
                        let q: int = 9 + c.len() as int;
                        assert(bytes@.subrange(9, q) =~= c);
                    }
                }
            }
            return None;
        },
    };
    let (id, p3) = match decode_str(bytes, p2) {
        Some(x) => x,
        None => {
            proof {
                assert forall|l: LogView| wf_log(l) implies spec_encode_log(l) != bytes@ by {
                    if spec_encode_log(l) == bytes@ {
                        lemma_decode_alignment(bytes@, l, ctx@, p2 as int);
                        let c = spec_encode_str(l.message.id);
                        assert(bytes@.subrange(p2 as int, p2 + c.len()) =~= c);
                    }
                }
            }
            return None;
        },
    };
    let (msg, p4) = match decode_str(bytes, p3) {
        Some(x) => x,
        None => {
            proof {
                assert forall|l: LogView| wf_log(l) implies spec_encode_log(l) != bytes@ by {
                    if spec_encode_log(l) == bytes@ {
                        lemma_decode_alignment(bytes@, l, ctx@, p2 as int);
                        lemma_decode_alignment2(bytes@, l, ctx@, id@, p2 as int, p3 as int);
                        let c = spec_encode_str(l.message.message);
                        assert(bytes@.subrange(p3 as int, p3 + c.len()) =~= c);
                    }
                }
            }
            return None;
        },
    };
    if p4 != bytes.len() {
        proof {
            assert forall|l: LogView| wf_log(l) implies spec_encode_log(l) != bytes@ by {
                if spec_encode_log(l) == bytes@ {
                    lemma_decode_alignment(bytes@, l, ctx@, p2 as int);
                    lemma_decode_alignment2(bytes@, l, ctx@, id@, p2 as int, p3 as int);
                    lemma_decode_alignment3(
                        bytes@,
                        l,
                        ctx@,
                        id@,
                        msg@,
                        p2 as int,
                        p3 as int,
                        p4 as int,
                    );
                }
            }
        }
        return None;
    }
    let log = Log {
        context: Context::new(ctx),
        message: Message::from_parts(id, msg),
        level,
        timestamp: ts,
    };
    proof {
        assert(bytes@ =~= seq![bytes@[0]] + bytes@.subrange(1, 9) + bytes@.subrange(
            9,
            p2 as int,
        ) + bytes@.subrange(p2 as int, p3 as int) + bytes@.subrange(p3 as int, p4 as int));
        assert(seq![bytes@[0]] =~= seq![spec_level_byte(log@.level)]);
        assert(bytes@.subrange(1, 9) == spec_u64_to_le_bytes(log@.timestamp));
        assert(bytes@.subrange(9, p2 as int) == spec_encode_str(log@.context));
        assert(bytes@.subrange(p2 as int, p3 as int) == spec_encode_str(log@.message.id));
        assert(bytes@.subrange(p3 as int, p4 as int) == spec_encode_str(log@.message.message));
        assert(spec_encode_log(log@) == bytes@);
        assert(wf_log(log@) && spec_encode_log(log@) == bytes@);
        let picked = choose|l2: LogView| wf_log(l2) && spec_encode_log(l2) == bytes@;
        lemma_encode_log_injective(picked, log@);
    }
    Some(log)
}

/// When `b` encodes `l` and a length-framed string `s1` has been read at
/// offset 9 ending at `q1`, that string is `l`'s context and `q1` sits at
/// the start of `l`'s message identifier frame.
proof fn lemma_decode_alignment(b: Seq<u8>, l: LogView, s1: Seq<char>, q1: int)
    requires
        wf_log(l),
        spec_encode_log(l) == b,
        wf_chars(s1),
        9 <= q1 <= b.len(),
        b.subrange(9, q1) == spec_encode_str(s1),
    ensures
        s1 == l.context,
        q1 == 9 + spec_encode_str(l.context).len(),
{
    lemma_auto_spec_u64_to_from_le_bytes();
    let head = seq![spec_level_byte(l.level)] + spec_u64_to_le_bytes(l.timestamp);
    let rest = spec_encode_str(l.context) + (spec_encode_str(l.message.id) + spec_encode_str(
        l.message.message,
    ));
    assert(b =~= head + rest);
    assert(head.len() == 9);
    lemma_split_at(b, 9);
    lemma_concat_split(b.subrange(0, 9), b.subrange(9, b.len() as int), head, rest);
    let tail = b.subrange(9, b.len() as int);
    lemma_subrange_split(b, 9, q1, b.len() as int);
    assert(tail == spec_encode_str(s1) + b.subrange(q1, b.len() as int));
    lemma_encode_str_prefix_injective(
        s1,
        l.context,
        b.subrange(q1, b.len() as int),
        spec_encode_str(l.message.id) + spec_encode_str(l.message.message),
    );
}

/// Continues [`lemma_decode_alignment`]: the second framed string is the
/// message identifier and `q2` sits at the start of the body frame.
proof fn lemma_decode_alignment2(
    b: Seq<u8>,
    l: LogView,
    s1: Seq<char>,
    s2: Seq<char>,
    q1: int,
    q2: int,
)
    requires
        wf_log(l),
        spec_encode_log(l) == b,
        wf_chars(s1),
        wf_chars(s2),
        9 <= q1 <= q2 <= b.len(),
        b.subrange(9, q1) == spec_encode_str(s1),
        b.subrange(q1, q2) == spec_encode_str(s2),
    ensures
        s2 == l.message.id,
        q2 == q1 + spec_encode_str(l.message.id).len(),
{
    lemma_auto_spec_u64_to_from_le_bytes();
    lemma_decode_alignment(b, l, s1, q1);
    let head = seq![spec_level_byte(l.level)] + spec_u64_to_le_bytes(l.timestamp)
        + spec_encode_str(l.context);
    let rest = spec_encode_str(l.message.id) + spec_encode_str(l.message.message);
    assert(b =~= head + rest);
    assert(head.len() == q1);
    lemma_split_at(b, q1);
    lemma_concat_split(b.subrange(0, q1), b.subrange(q1, b.len() as int), head, rest);
    let tail = b.subrange(q1, b.len() as int);
    lemma_subrange_split(b, q1, q2, b.len() as int);
    assert(tail == spec_encode_str(s2) + b.subrange(q2, b.len() as int));
    lemma_encode_str_prefix_injective(
        s2,
        l.message.id,
        b.subrange(q2, b.len() as int),
        spec_encode_str(l.message.message),
    );
}

/// Continues [`lemma_decode_alignment2`]: the third framed string is the
/// message body and its frame ends exactly at the end of the encoding.
proof fn lemma_decode_alignment3(
    b: Seq<u8>,
    l: LogView,
    s1: Seq<char>,
    s2: Seq<char>,
    s3: Seq<char>,
    q1: int,
    q2: int,
    q3: int,
)
    requires
        wf_log(l),
        spec_encode_log(l) == b,
        wf_chars(s1),
        wf_chars(s2),
        wf_chars(s3),
        9 <= q1 <= q2 <= q3 <= b.len(),
        b.subrange(9, q1) == spec_encode_str(s1),
        b.subrange(q1, q2) == spec_encode_str(s2),
        b.subrange(q2, q3) == spec_encode_str(s3),
    ensures
        s3 == l.message.message,
        q3 == b.len(),
{
    lemma_auto_spec_u64_to_from_le_bytes();
    lemma_decode_alignment(b, l, s1, q1);
    lemma_decode_alignment2(b, l, s1, s2, q1, q2);
    let head = seq![spec_level_byte(l.level)] + spec_u64_to_le_bytes(l.timestamp)
        + spec_encode_str(l.context) + spec_encode_str(l.message.id);
    let rest = spec_encode_str(l.message.message);
    assert(b =~= head + rest);
    assert(head.len() == q2);
    lemma_split_at(b, q2);
    lemma_concat_split(b.subrange(0, q2), b.subrange(q2, b.len() as int), head, rest);
    let tail = b.subrange(q2, b.len() as int);
    lemma_subrange_split(b, q2, q3, b.len() as int);
    assert(tail == spec_encode_str(s3) + b.subrange(q3, b.len() as int));
    assert(spec_encode_str(l.message.message) + Seq::<u8>::empty() =~= spec_encode_str(
        l.message.message,
    ));
    lemma_encode_str_prefix_injective(
        s3,
        l.message.message,
        b.subrange(q3, b.len() as int),
        Seq::<u8>::empty(),
    );
    assert(b.subrange(q3, b.len() as int).len() == 0);
}

} // verus!
