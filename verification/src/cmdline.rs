//! The single wide command-line buffer that the native launch hands to
//! process creation: the target path and each argument encoded as
//! UTF-16, each segment closed by one nul unit, and one more nul unit
//! closing the whole buffer. The exact double-termination shape is part
//! of the platform contract and is reproduced bit for bit.

use vstd::prelude::*;

verus! {

/// The UTF-16 code units that the wide-string encoder produces for a
/// string.
pub uninterp spec fn wide_of(s: Seq<char>) -> Seq<u16>;

/// Holds when no character of the string is the nul character.
pub open spec fn nul_free_str(s: Seq<char>) -> bool {
    forall|i: int| 0 <= i < s.len() ==> s[i] != '\0'
}

/// Holds when no code unit of a wide segment is the nul unit.
pub open spec fn nul_free(seg: Seq<u16>) -> bool {
    forall|i: int| 0 <= i < seg.len() ==> seg[i] != 0
}

/// Relies on widestring::U16CString: `from_str` encodes a string as
/// UTF-16 and fails only on an interior nul character; `into_vec` hands
/// the encoded units back with no terminator and no interior nul.
#[verifier::external_body]
pub(crate) fn encode_wide(s: &str) -> (r: Vec<u16>)
    requires
        nul_free_str(s@),
    ensures
        r@ == wide_of(s@),
        nul_free(r@),
        s@.len() == 0 <==> r@.len() == 0,
{
    widestring::U16CString::from_str(s).unwrap().into_vec()
}

/// The concatenation of the segments, each closed by one nul unit.
pub open spec fn joined(segments: Seq<Seq<u16>>) -> Seq<u16>
    decreases segments.len(),
{
    if segments.len() == 0 {
        Seq::empty()
    } else {
        segments.first() + seq![0u16] + joined(segments.drop_first())
    }
}

/// The native command buffer for the given wide segments: every segment
/// closed by a nul unit, then one more nul unit closing the buffer.
pub open spec fn command_buffer(segments: Seq<Seq<u16>>) -> Seq<u16> {
    joined(segments) + seq![0u16]
}

/// Holds when every segment can stand in a command buffer: none is
/// empty and none holds a nul unit.
pub open spec fn valid_segments(segments: Seq<Seq<u16>>) -> bool {
    forall|i: int|
        0 <= i < segments.len() ==> (#[trigger] segments[i]).len() > 0 && nul_free(segments[i])
}

/// Appending one more segment appends its units and one nul unit.
proof fn lemma_joined_push(segments: Seq<Seq<u16>>, seg: Seq<u16>)
    ensures
        joined(segments.push(seg)) == joined(segments) + seg + seq![0u16],
    decreases segments.len(),
{
    let pushed = segments.push(seg);
    if segments.len() == 0 {
        assert(pushed.first() == seg);
        assert(pushed.drop_first() =~= Seq::<Seq<u16>>::empty());
        assert(joined(Seq::<Seq<u16>>::empty()) == Seq::<u16>::empty());
        assert(joined(pushed) == pushed.first() + seq![0u16] + joined(pushed.drop_first()));
        assert(joined(pushed) =~= joined(segments) + seg + seq![0u16]);
    } else {
        assert(pushed.first() == segments.first());
        assert(pushed.drop_first() =~= segments.drop_first().push(seg));
        lemma_joined_push(segments.drop_first(), seg);
        assert(joined(pushed) =~= joined(segments) + seg + seq![0u16]);
    }
}

/// The longest nul-free prefix of a wide buffer.
pub open spec fn leading_segment(b: Seq<u16>) -> Seq<u16>
    decreases b.len(),
{
    if b.len() == 0 || b[0] == 0 {
        Seq::empty()
    } else {
        seq![b[0]] + leading_segment(b.drop_first())
    }
}

/// The segments a well-formed command buffer decodes back to: one per
/// nul-closed stretch, up to the extra nul unit that closes the buffer.
/// `None` when the buffer is not of that shape.
pub open spec fn decoded_segments(b: Seq<u16>) -> Option<Seq<Seq<u16>>>
    decreases b.len(),
{
    if b.len() == 0 {
        None
    } else if b[0] == 0 {
        if b.len() == 1 {
            Some(Seq::empty())
        } else {
            None
        }
    } else {
        let seg = leading_segment(b);
        if seg.len() >= b.len() {
            None
        } else {
            match decoded_segments(b.skip(seg.len() as int + 1)) {
                Some(rest) => Some(seq![seg] + rest),
                None => None,
            }
        }
    }
}

/// A nul-free stretch followed by anything that opens with a nul unit
/// is its own leading segment.
proof fn lemma_leading_segment_of(seg: Seq<u16>, rest: Seq<u16>)
    requires
        nul_free(seg),
        rest.len() > 0,
        rest[0] == 0,
    ensures
        leading_segment(seg + rest) == seg,
    decreases seg.len(),
{
    if seg.len() == 0 {
        assert(seg + rest =~= rest);
    } else {
        assert((seg + rest)[0] == seg[0]);
        assert((seg + rest).drop_first() =~= seg.drop_first() + rest);
        assert(nul_free(seg.drop_first()));
        lemma_leading_segment_of(seg.drop_first(), rest);
        assert(leading_segment(seg + rest) =~= seg);
    }
}

/// Round trip: the command buffer built from valid segments decodes
/// back to exactly those segments.
pub proof fn lemma_command_buffer_round_trip(segments: Seq<Seq<u16>>)
    requires
        valid_segments(segments),
    ensures
        decoded_segments(command_buffer(segments)) == Some(segments),
    decreases segments.len(),
{
    let b = command_buffer(segments);
    if segments.len() == 0 {
        assert(b =~= seq![0u16]);
    } else {
        let seg = segments.first();
        assert(seg.len() > 0 && nul_free(seg));
        let tail = segments.drop_first();
        assert forall|i: int| 0 <= i < tail.len() implies (#[trigger] tail[i]).len() > 0
            && nul_free(tail[i]) by {
            assert(tail[i] == segments[i + 1]);
        }
        let rest_buf = command_buffer(tail);
        let after = seq![0u16] + rest_buf;
        assert(b =~= seg + after);
        assert(b[0] == seg[0]);
        lemma_leading_segment_of(seg, after);
        assert(b.skip(seg.len() as int + 1) =~= rest_buf);
        lemma_command_buffer_round_trip(tail);
        assert(seq![seg] + tail =~= segments);
    }
}

/// The views of a list of wide segments, in order.
pub open spec fn views_of(args: Seq<Vec<u16>>) -> Seq<Seq<u16>> {
    args.map_values(|v: Vec<u16>| v@)
}

/// Appends every unit of `src` to `dst`.
fn push_all(dst: &mut Vec<u16>, src: &Vec<u16>)
    ensures
        final(dst)@ == old(dst)@ + src@,
{
    let n = src.len();
    let mut i: usize = 0;
    while i < n
        invariant
            i <= n,
            n == src@.len(),
            dst@ == old(dst)@ + src@.take(i as int),
        decreases n - i,
    {
        dst.push(src[i]);
        proof {
            assert(src@.take(i + 1) =~= src@.take(i as int).push(src@[i as int]));
        }
        i = i + 1;
    }
    proof {
        assert(src@.take(n as int) =~= src@);
    }
}

/// Builds the native command buffer from the target path and arguments,
/// already encoded as wide segments.
pub fn build_command_buffer(path: &Vec<u16>, args: &Vec<Vec<u16>>) -> (r: Vec<u16>)
    ensures
        r@ == command_buffer(seq![path@] + views_of(args@)),
{
    let ghost segs: Seq<Seq<u16>> = seq![path@] + views_of(args@);
    let mut buf: Vec<u16> = Vec::new();
    push_all(&mut buf, path);
    buf.push(0);
    proof {
        assert(segs.take(1) =~= Seq::<Seq<u16>>::empty().push(path@));
        lemma_joined_push(Seq::empty(), path@);
        assert(joined(Seq::<Seq<u16>>::empty()) + path@ + seq![0u16] =~= buf@);
    }
    let n = args.len();
    let mut k: usize = 0;
    while k < n
        invariant
            k <= n,
            n == args@.len(),
            segs == seq![path@] + views_of(args@),
            segs.len() == n + 1,
            buf@ == joined(segs.take(k + 1)),
        decreases n - k,
    {
        push_all(&mut buf, &args[k]);
        buf.push(0);
        proof {
            assert(segs[k + 1] == views_of(args@)[k as int]);
            assert(segs.take(k + 2) =~= segs.take(k + 1).push(args@[k as int]@));
            lemma_joined_push(segs.take(k + 1), args@[k as int]@);
            assert(buf@ =~= joined(segs.take(k + 2)));
        }
        k = k + 1;
    }
    buf.push(0);
    proof {
        assert(segs.take(n + 1) =~= segs);
        assert(buf@ =~= command_buffer(segs));
    }
    buf
}

} // verus!
