//! Incremental UTF-8 decoding of a byte stream delivered in arbitrary fragments.
use vstd::prelude::*;
use vstd::utf8::*;

verus! {

/// Number of bytes announced by a leading byte (0 for a byte that leads nothing).
pub open spec fn lead_width(b: u8) -> int {
    if is_leading_byte_width_1(b) {
        1
    } else if is_leading_byte_width_2(b) {
        2
    } else if is_leading_byte_width_3(b) {
        3
    } else if is_leading_byte_width_4(b) {
        4
    } else {
        0
    }
}

/// The bytes are the start of a multi-byte scalar whose remaining bytes have not arrived.
pub open spec fn awaits_more(s: Seq<u8>) -> bool {
    &&& s.len() > 0
    &&& s.len() < lead_width(s[0])
    &&& forall|k: int| 1 <= k < s.len() ==> is_continuation_byte(#[trigger] s[k])
}

/// Decodes a byte sequence from the front: the text it yields, and the trailing
/// bytes held back because they begin a scalar that is not complete yet.
/// A byte that neither completes a scalar nor awaits more is skipped: it yields
/// nothing, so the text holds only characters whose bytes all arrived.
pub open spec fn decode_stream(s: Seq<u8>) -> (Seq<char>, Seq<u8>)
    decreases s.len(),
{
    if s.len() == 0 {
        (seq![], seq![])
    } else if valid_first_scalar(s) {
        let rest = decode_stream(pop_first_scalar(s));
        (seq![decode_first_scalar(s) as char] + rest.0, rest.1)
    } else if awaits_more(s) {
        (seq![], s)
    } else {
        decode_stream(s.drop_first())
    }
}

/// Bytes of a sequence of fragments laid end to end.
pub open spec fn joined(chunks: Seq<Seq<u8>>) -> Seq<u8>
    decreases chunks.len(),
{
    if chunks.len() == 0 {
        seq![]
    } else {
        joined(chunks.drop_last()) + chunks.last()
    }
}

/// What a fresh decoder has emitted after each fragment in turn, and what it holds back.
pub open spec fn feed_all(chunks: Seq<Seq<u8>>) -> (Seq<char>, Seq<u8>)
    decreases chunks.len(),
{
    if chunks.len() == 0 {
        (seq![], seq![])
    } else {
        let before = feed_all(chunks.drop_last());
        let step = decode_stream(before.1 + chunks.last());
        (before.0 + step.0, step.1)
    }
}


/// Whether a scalar starts validly depends only on the bytes it spans.
proof fn lemma_first_scalar_extends(s: Seq<u8>, t: Seq<u8>)
    requires
        s.len() > 0,
    ensures
        valid_first_scalar(s) ==> {
            &&& valid_first_scalar(s + t)
            &&& decode_first_scalar(s + t) == decode_first_scalar(s)
            &&& pop_first_scalar(s + t) == pop_first_scalar(s) + t
        },
        !valid_first_scalar(s) && !awaits_more(s) ==> !valid_first_scalar(s + t) && !awaits_more(
            s + t,
        ),
{
    let u = s + t;
    assert(u[0] == s[0]);
    if s.len() > 1 {
        assert(u[1] == s[1]);
    }
    if s.len() > 2 {
        assert(u[2] == s[2]);
    }
    if s.len() > 3 {
        assert(u[3] == s[3]);
    }
    if valid_first_scalar(s) {
        assert(pop_first_scalar(u) =~= pop_first_scalar(s) + t);
    }
    if !valid_first_scalar(s) && !awaits_more(s) {
        if s.len() < lead_width(s[0]) {
            let k = choose|k: int| 1 <= k < s.len() && !is_continuation_byte(#[trigger] s[k]);
            assert(u[k] == s[k]);
        }
    }
}

/// What decoding holds back is nothing, or the start of one scalar, shorter than four bytes.
pub proof fn lemma_held_back_is_one_partial_scalar(s: Seq<u8>)
    ensures
        decode_stream(s).1.len() == 0 || awaits_more(decode_stream(s).1),
        decode_stream(s).1.len() < 4,
    decreases s.len(),
{
    if s.len() > 0 {
        if valid_first_scalar(s) {
            lemma_held_back_is_one_partial_scalar(pop_first_scalar(s));
        } else if !awaits_more(s) {
            lemma_held_back_is_one_partial_scalar(s.drop_first());
        }
    }
}

/// Decoding a stream in two pieces, resuming from what the first held back,
/// gives what decoding it whole gives.
pub proof fn lemma_decode_split(s: Seq<u8>, t: Seq<u8>)
    ensures
        decode_stream(s + t) == (
            decode_stream(s).0 + decode_stream(decode_stream(s).1 + t).0,
            decode_stream(decode_stream(s).1 + t).1,
        ),
    decreases s.len(),
{
    if s.len() == 0 {
        assert(s + t =~= t);
        assert(seq![] + t =~= t);
        assert(Seq::<char>::empty() + decode_stream(t).0 =~= decode_stream(t).0);
    } else {
        lemma_first_scalar_extends(s, t);
        if valid_first_scalar(s) {
            lemma_decode_split(pop_first_scalar(s), t);
            let c = seq![decode_first_scalar(s) as char];
            let a = decode_stream(pop_first_scalar(s)).0;
            let b = decode_stream(decode_stream(s).1 + t).0;
            assert(c + (a + b) =~= (c + a) + b);
        } else if awaits_more(s) {
            assert(Seq::<char>::empty() + decode_stream(s + t).0 =~= decode_stream(s + t).0);
        } else {
            assert((s + t).drop_first() =~= s.drop_first() + t);
            lemma_decode_split(s.drop_first(), t);
        }
    }
}

/// However a stream is split into fragments, a decoder fed the fragments one by
/// one emits exactly the text that decoding the whole stream at once yields, and
/// holds back the same incomplete trailing bytes, which are dropped at the end.
pub proof fn lemma_fragmentation_invariant(chunks: Seq<Seq<u8>>)
    ensures
        feed_all(chunks) == decode_stream(joined(chunks)),
    decreases chunks.len(),
{
    if chunks.len() > 0 {
        lemma_fragmentation_invariant(chunks.drop_last());
        lemma_decode_split(joined(chunks.drop_last()), chunks.last());
    } else {
        assert(feed_all(chunks) == decode_stream(joined(chunks)));
    }
}


/// Relies on `String::from_utf8`: a vector of well-formed UTF-8 becomes the
/// string of the characters it encodes.
#[verifier::external_body]
fn utf8_text(bytes: Vec<u8>) -> (r: String)
    requires
        valid_utf8(bytes@),
    ensures
        r@ == decode_utf8(bytes@),
{
    match String::from_utf8(bytes) {
        Ok(s) => s,
        Err(_) => String::new(),
    }
}

/// Length of the well-formed scalar that starts at `i`, or 0 if none does.
fn scalar_len_at(buf: &Vec<u8>, i: usize) -> (n: usize)
    requires
        i < buf@.len(),
    ensures
        n > 0 <==> valid_first_scalar(buf@.subrange(i as int, buf@.len() as int)),
        n > 0 ==> n == length_of_first_scalar(buf@.subrange(i as int, buf@.len() as int)),
{
    let ghost s = buf@.subrange(i as int, buf@.len() as int);
    let avail = buf.len() - i;
    let b0 = buf[i];
    assert(s[0] == b0);
    if b0 <= 0x7f {
        return 1;
    }
    if 0xc0 <= b0 && b0 <= 0xdf {
        if avail < 2 {
            return 0;
        }
        let b1 = buf[i + 1];
        assert(s[1] == b1);
        if !(0x80 <= b1 && b1 <= 0xbf) {
            return 0;
        }
        let cp: u32 = (((b0 & 0x1F) as u32) << 6) | ((b1 & 0x3f) as u32);
        assert(cp == decode_first_codepoint(s));
        if 0x80 <= cp && !(0xD800 <= cp && cp <= 0xDFFF) {
            return 2;
        }
        return 0;
    }
    if 0xe0 <= b0 && b0 <= 0xef {
        if avail < 3 {
            return 0;
        }
        let b1 = buf[i + 1];
        let b2 = buf[i + 2];
        assert(s[1] == b1 && s[2] == b2);
        if !(0x80 <= b1 && b1 <= 0xbf && 0x80 <= b2 && b2 <= 0xbf) {
            return 0;
        }
        let cp: u32 = (((b0 & 0x0F) as u32) << 12) | (((b1 & 0x3f) as u32) << 6) | ((b2
            & 0x3f) as u32);
        assert(cp == decode_first_codepoint(s));
        if 0x800 <= cp && !(0xD800 <= cp && cp <= 0xDFFF) {
            return 3;
        }
        return 0;
    }
    if 0xf0 <= b0 && b0 <= 0xf7 {
        if avail < 4 {
            return 0;
        }
        let b1 = buf[i + 1];
        let b2 = buf[i + 2];
        let b3 = buf[i + 3];
        assert(s[1] == b1 && s[2] == b2 && s[3] == b3);
        if !(0x80 <= b1 && b1 <= 0xbf && 0x80 <= b2 && b2 <= 0xbf && 0x80 <= b3 && b3 <= 0xbf) {
            return 0;
        }
        let cp: u32 = (((b0 & 0x07) as u32) << 18) | (((b1 & 0x3f) as u32) << 12) | (((b2
            & 0x3f) as u32) << 6) | ((b3 & 0x3f) as u32);
        assert(cp == decode_first_codepoint(s));
        if 0x10000 <= cp && cp <= 0x10ffff && !(0xD800 <= cp && cp <= 0xDFFF) {
            return 4;
        }
        return 0;
    }
    0
}

/// Whether the bytes from `i` to the end begin a scalar that is still incomplete.
fn awaits_at(buf: &Vec<u8>, i: usize) -> (r: bool)
    requires
        i < buf@.len(),
    ensures
        r == awaits_more(buf@.subrange(i as int, buf@.len() as int)),
{
    let ghost s = buf@.subrange(i as int, buf@.len() as int);
    let b0 = buf[i];
    let width: usize = if b0 <= 0x7f {
        1
    } else if 0xc0 <= b0 && b0 <= 0xdf {
        2
    } else if 0xe0 <= b0 && b0 <= 0xef {
        3
    } else if 0xf0 <= b0 && b0 <= 0xf7 {
        4
    } else {
        0
    };
    assert(width == lead_width(s[0]));
    if buf.len() - i >= width {
        return false;
    }
    let mut k: usize = i + 1;
    while k < buf.len()
        invariant
            i < k <= buf@.len(),
            s == buf@.subrange(i as int, buf@.len() as int),
            forall|j: int| 1 <= j < k - i ==> is_continuation_byte(#[trigger] s[j]),
        decreases buf.len() - k,
    {
        let b = buf[k];
        assert(s[k - i] == b);
        if !(0x80 <= b && b <= 0xbf) {
            return false;
        }
        k = k + 1;
    }
    true
}

/// The bytes of `buf` from `i` to the end.
fn tail(buf: &Vec<u8>, i: usize) -> (r: Vec<u8>)
    requires
        i <= buf@.len(),
    ensures
        r@ == buf@.subrange(i as int, buf@.len() as int),
{
    let mut r: Vec<u8> = Vec::new();
    let mut k: usize = i;
    while k < buf.len()
        invariant
            i <= k <= buf@.len(),
            r@ == buf@.subrange(i as int, k as int),
        decreases buf.len() - k,
    {
        r.push(buf[k]);
        k = k + 1;
        assert(r@ =~= buf@.subrange(i as int, k as int));
    }
    r
}

/// A decoder of a byte stream into text: it emits every complete scalar as
/// soon as its last byte arrives and holds back the bytes of one that is not.
pub struct ChunkDecoder {
    pending: Vec<u8>,
}

impl ChunkDecoder {
    /// The bytes held back, waiting for the rest of their scalar.
    pub closed spec fn held(&self) -> Seq<u8> {
        self.pending@
    }

    pub fn new() -> (d: ChunkDecoder)
        ensures
            d.held() == Seq::<u8>::empty(),
    {
        ChunkDecoder { pending: Vec::new() }
    }

    /// Takes the next fragment of the stream and returns the text it completes.
    pub fn feed(&mut self, chunk: &[u8]) -> (out: String)
        ensures
            out@ == decode_stream(old(self).held() + chunk@).0,
            final(self).held() == decode_stream(old(self).held() + chunk@).1,
            final(self).held().len() == 0 || awaits_more(final(self).held()),
    {
        proof {
            lemma_held_back_is_one_partial_scalar(old(self).held() + chunk@);
        }
        let mut buf: Vec<u8> = Vec::new();
        std::mem::swap(&mut buf, &mut self.pending);
        let ghost all = old(self).held() + chunk@;
        let mut j: usize = 0;
        while j < chunk.len()
            invariant
                j <= chunk@.len(),
                buf@ == old(self).held() + chunk@.subrange(0, j as int),
            decreases chunk.len() - j,
        {
            buf.push(chunk[j]);
            j = j + 1;
            assert(buf@ =~= old(self).held() + chunk@.subrange(0, j as int));
        }
        assert(buf@ =~= all);
        let mut out = String::new();
        let mut i: usize = 0;
        assert(all.subrange(0, all.len() as int) =~= all);
        while i < buf.len()
            invariant
                i <= buf@.len(),
                buf@ == all,
                all == old(self).held() + chunk@,
                self.pending@ == Seq::<u8>::empty(),
                decode_stream(all) == (
                    out@ + decode_stream(all.subrange(i as int, all.len() as int)).0,
                    decode_stream(all.subrange(i as int, all.len() as int)).1,
                ),
            decreases buf.len() - i,
        {
            let ghost rest = all.subrange(i as int, all.len() as int);
            let n = scalar_len_at(&buf, i);
            if n > 0 {
                let mut unit: Vec<u8> = Vec::new();
                let end = i + n;
                let mut p: usize = i;
                while p < end
                    invariant
                        i <= p <= end,
                        end == i + length_of_first_scalar(rest),
                        end <= buf@.len(),
                        buf@ == all,
                        rest == all.subrange(i as int, all.len() as int),
                        unit@ == rest.subrange(0, p - i),
                    decreases end - p,
                {
                    unit.push(buf[p]);
                    p = p + 1;
                    assert(unit@ =~= rest.subrange(0, p - i));
                }
                let ghost after = all.subrange(i + n, all.len() as int);
                proof {
                    assert(rest =~= unit@ + after);
                    lemma_first_scalar_extends(unit@, after);
                    assert(valid_first_scalar(unit@));
                    assert(pop_first_scalar(unit@) =~= Seq::<u8>::empty());
                    reveal_with_fuel(valid_utf8, 2);
                    reveal_with_fuel(decode_utf8, 2);
                    assert(valid_utf8(unit@));
                    assert(decode_utf8(unit@) =~= seq![decode_first_scalar(unit@) as char]);
                    assert(pop_first_scalar(rest) =~= after);
                }
                let ghost out0 = out@;
                let text = utf8_text(unit);
                out.append(text.as_str());
                i = i + n;
                proof {
                    let c = seq![decode_first_scalar(rest) as char];
                    assert(out0 + (c + decode_stream(after).0) =~= out@ + decode_stream(after).0);
                }
            } else if awaits_at(&buf, i) {
                self.pending = tail(&buf, i);
                proof {
                    let rest = all.subrange(i as int, all.len() as int);
                    assert(decode_stream(rest) == (Seq::<char>::empty(), rest));
                    assert(out@ + Seq::<char>::empty() =~= out@);
                }
                return out;
            } else {
                i = i + 1;
                proof {
                    assert(rest.drop_first() =~= all.subrange(i as int, all.len() as int));
                }
            }
        }
        out
    }

    /// Ends the stream; bytes still held back are dropped. Returns how many.
    pub fn finish(self) -> (dropped: usize)
        ensures
            dropped == self.held().len(),
    {
        self.pending.len()
    }
}

} // verus!
