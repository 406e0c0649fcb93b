use vstd::prelude::*;

verus! {

/// A sequence of strings as the sequence of their character sequences.
pub open spec fn lines_view(v: Seq<String>) -> Seq<Seq<char>> {
    v.map_values(|s: String| s@)
}

/// A byte stream split on newline boundaries, as a line reader splits it: a
/// line ends at `\n`; a `\r\n` pair ends the line without the `\r`; the bytes
/// after the last newline form a final line if they are not empty. An interior
/// `\r`, or one not followed by `\n`, is an ordinary byte of its line.
pub open spec fn split_lines(s: Seq<u8>) -> Seq<Seq<u8>>
    decreases s.len(),
{
    if s.len() == 0 {
        Seq::empty()
    } else if s[0] == 10u8 {
        seq![Seq::<u8>::empty()] + split_lines(s.skip(1))
    } else if s[0] == 13u8 && s.len() >= 2 && s[1] == 10u8 {
        seq![Seq::<u8>::empty()] + split_lines(s.skip(2))
    } else {
        let rest = split_lines(s.skip(1));
        if rest.len() == 0 {
            seq![seq![s[0]]]
        } else {
            seq![seq![s[0]] + rest[0]] + rest.skip(1)
        }
    }
}

/// What `String::from_utf8` recovers from the given bytes: the decoded
/// characters, or `None` where the bytes are not valid UTF-8.
pub uninterp spec fn utf8_chars(bytes: Seq<u8>) -> Option<Seq<char>>;

/// Relies on `String::from_utf8`: decodes the bytes as UTF-8, failing exactly
/// on invalid byte sequences; the result depends on the bytes alone.
#[verifier::external_body]
fn utf8_decode(bytes: &Vec<u8>) -> (r: Option<String>)
    ensures
        r is Some <==> utf8_chars(bytes@) is Some,
        r matches Some(s) ==> utf8_chars(bytes@) == Some(s@),
{
    String::from_utf8(bytes.clone()).ok()
}

/// The line segments that decode as UTF-8, decoded, in their original order.
/// Segments of invalid bytes are dropped: one corrupt line must not lose the
/// rest of the file.
pub open spec fn kept_lines(segs: Seq<Seq<u8>>) -> Seq<Seq<char>> {
    segs.filter_map(|seg: Seq<u8>| utf8_chars(seg))
}

/// The text lines a reader keeps from a raw byte stream.
pub open spec fn log_lines(bytes: Seq<u8>) -> Seq<Seq<char>> {
    kept_lines(split_lines(bytes))
}

/// The lines still to come when a scan of the stream has consumed a prefix:
/// `cur` holds the bytes of the line in progress and `rest` the split of the
/// unscanned suffix.
spec fn glue(cur: Seq<u8>, rest: Seq<Seq<u8>>) -> Seq<Seq<u8>> {
    if rest.len() == 0 {
        if cur.len() == 0 {
            Seq::empty()
        } else {
            seq![cur]
        }
    } else {
        seq![cur + rest[0]] + rest.skip(1)
    }
}

proof fn lemma_split_step_nl(s: Seq<u8>, i: int)
    requires
        0 <= i < s.len(),
        s[i] == 10u8,
    ensures
        split_lines(s.skip(i)) == seq![Seq::<u8>::empty()] + split_lines(s.skip(i + 1)),
{
    let t = s.skip(i);
    assert(t[0] == s[i]);
    assert(t.skip(1) =~= s.skip(i + 1));
}

proof fn lemma_split_step_crlf(s: Seq<u8>, i: int)
    requires
        0 <= i,
        i + 1 < s.len(),
        s[i] == 13u8,
        s[i + 1] == 10u8,
    ensures
        split_lines(s.skip(i)) == seq![Seq::<u8>::empty()] + split_lines(s.skip(i + 2)),
{
    let t = s.skip(i);
    assert(t[0] == s[i]);
    assert(t[1] == s[i + 1]);
    assert(t.skip(2) =~= s.skip(i + 2));
}

proof fn lemma_split_step_byte(s: Seq<u8>, i: int)
    requires
        0 <= i < s.len(),
        s[i] != 10u8,
        !(s[i] == 13u8 && i + 1 < s.len() && s[i + 1] == 10u8),
    ensures
        split_lines(s.skip(i)) == (if split_lines(s.skip(i + 1)).len() == 0 {
            seq![seq![s[i]]]
        } else {
            seq![seq![s[i]] + split_lines(s.skip(i + 1))[0]] + split_lines(s.skip(i + 1)).skip(1)
        }),
{
    let t = s.skip(i);
    assert(t[0] == s[i]);
    assert(t.len() >= 2 ==> t[1] == s[i + 1]);
    assert(t.skip(1) =~= s.skip(i + 1));
}

proof fn lemma_glue_nl(cur: Seq<u8>, r: Seq<Seq<u8>>)
    ensures
        glue(cur, seq![Seq::<u8>::empty()] + r) == seq![cur] + r,
{
    let rest = seq![Seq::<u8>::empty()] + r;
    assert(cur + rest[0] =~= cur);
    assert(rest.skip(1) =~= r);
    assert(seq![cur + rest[0]] + rest.skip(1) =~= seq![cur] + r);
}

proof fn lemma_glue_empty(r: Seq<Seq<u8>>)
    ensures
        glue(Seq::<u8>::empty(), r) == r,
{
    if r.len() == 0 {
        assert(glue(Seq::<u8>::empty(), r) =~= r);
    } else {
        assert(Seq::<u8>::empty() + r[0] =~= r[0]);
        assert(seq![Seq::<u8>::empty() + r[0]] + r.skip(1) =~= r);
    }
}

proof fn lemma_glue_byte(cur: Seq<u8>, b: u8, r: Seq<Seq<u8>>)
    ensures
        glue(
            cur,
            if r.len() == 0 {
                seq![seq![b]]
            } else {
                seq![seq![b] + r[0]] + r.skip(1)
            },
        ) == glue(cur.push(b), r),
{
    if r.len() == 0 {
        let x = seq![seq![b]];
        assert(cur + x[0] =~= cur.push(b));
        assert(x.skip(1) =~= Seq::<Seq<u8>>::empty());
        assert(seq![cur + x[0]] + x.skip(1) =~= seq![cur.push(b)]);
    } else {
        let x = seq![seq![b] + r[0]] + r.skip(1);
        assert(cur + x[0] =~= cur.push(b) + r[0]);
        assert(x.skip(1) =~= r.skip(1));
        assert(seq![cur + x[0]] + x.skip(1) =~= seq![cur.push(b) + r[0]] + r.skip(1));
    }
}

proof fn lemma_kept_push(segs: Seq<Seq<u8>>, x: Seq<u8>)
    ensures
        kept_lines(segs.push(x)) == kept_lines(segs) + (match utf8_chars(x) {
            Some(c) => seq![c],
            None => Seq::<Seq<char>>::empty(),
        }),
{
    let p = segs.push(x);
    assert(p.drop_last() =~= segs);
    assert(p.last() == x);
    match utf8_chars(x) {
        Some(c) => {
            assert(kept_lines(p) =~= kept_lines(segs) + seq![c]);
        }
        None => {
            assert(kept_lines(p) =~= kept_lines(segs) + Seq::<Seq<char>>::empty());
        }
    }
}

/// Appends the line held in `cur` to `out` if it decodes as UTF-8, and drops
/// it otherwise.
fn flush_line(out: &mut Vec<String>, cur: &Vec<u8>)
    ensures
        lines_view(final(out)@) == lines_view(old(out)@) + (match utf8_chars(cur@) {
            Some(c) => seq![c],
            None => Seq::<Seq<char>>::empty(),
        }),
{
    let ghost prev = out@;
    match utf8_decode(cur) {
        Some(s) => {
            out.push(s);
            proof {
                assert(lines_view(prev.push(s)) =~= lines_view(prev) + seq![s@]);
            }
        }
        None => {
            proof {
                assert(lines_view(prev) + Seq::<Seq<char>>::empty() =~= lines_view(prev));
            }
        }
    }
}

/// The line reader's core: splits a byte stream on newline boundaries and
/// returns the lines that decode as UTF-8, in their original order. A segment
/// of invalid bytes is dropped silently; an empty stream yields no lines.
pub fn decode_lines(input: &Vec<u8>) -> (r: Vec<String>)
    ensures
        lines_view(r@) == log_lines(input@),
{
    let mut out: Vec<String> = Vec::new();
    let mut cur: Vec<u8> = Vec::new();
    let ghost mut segs: Seq<Seq<u8>> = Seq::empty();
    let mut i: usize = 0;
    proof {
        assert(input@.skip(0) =~= input@);
        lemma_glue_empty(split_lines(input@));
    }
    while i < input.len()
        invariant
            i <= input@.len(),
            segs + glue(cur@, split_lines(input@.skip(i as int))) == split_lines(input@),
            lines_view(out@) == kept_lines(segs),
        decreases input@.len() - i,
    {
        let b = input[i];
        if b == 10 {
            flush_line(&mut out, &cur);
            proof {
                lemma_split_step_nl(input@, i as int);
                let r = split_lines(input@.skip(i as int + 1));
                lemma_glue_nl(cur@, r);
                lemma_kept_push(segs, cur@);
                assert(segs + (seq![cur@] + r) =~= segs.push(cur@) + r);
                segs = segs.push(cur@);
                lemma_glue_empty(r);
            }
            cur.clear();
            i = i + 1;
        } else if b == 13 && i + 1 < input.len() && input[i + 1] == 10 {
            flush_line(&mut out, &cur);
            proof {
                lemma_split_step_crlf(input@, i as int);
                let r = split_lines(input@.skip(i as int + 2));
                lemma_glue_nl(cur@, r);
                lemma_kept_push(segs, cur@);
                assert(segs + (seq![cur@] + r) =~= segs.push(cur@) + r);
                segs = segs.push(cur@);
                lemma_glue_empty(r);
            }
            cur.clear();
            i = i + 2;
        } else {
            proof {
                lemma_split_step_byte(input@, i as int);
                lemma_glue_byte(cur@, b, split_lines(input@.skip(i as int + 1)));
            }
            cur.push(b);
            i = i + 1;
        }
    }
    proof {
        assert(input@.skip(i as int) =~= Seq::<u8>::empty());
    }
    if cur.len() > 0 {
        flush_line(&mut out, &cur);
        proof {
            lemma_kept_push(segs, cur@);
            assert(segs + seq![cur@] =~= segs.push(cur@));
            segs = segs.push(cur@);
        }
    } else {
        proof {
            assert(segs + glue(cur@, split_lines(Seq::<u8>::empty())) =~= segs);
        }
    }
    out
}

} // verus!
