//! Splitting a byte stream into lines.
//!
//! A line ends at a newline byte; a carriage return directly before the
//! newline belongs to the terminator and is stripped with it. A final
//! unterminated piece is still a line when it is non-empty, and an empty
//! stream yields no lines at all.

use vstd::prelude::*;

verus! {

/// The newline byte.
pub const NEWLINE: u8 = 10;

/// The carriage-return byte.
pub const CARRIAGE_RETURN: u8 = 13;

/// A terminated line with its carriage return, if any, removed.
pub open spec fn strip_cr(l: Seq<u8>) -> Seq<u8> {
    if l.len() > 0 && l.last() == CARRIAGE_RETURN {
        l.drop_last()
    } else {
        l
    }
}

/// The lines of the stream `s`, with `cur` the partial line read so far.
pub open spec fn split_lines_from(s: Seq<u8>, cur: Seq<u8>) -> Seq<Seq<u8>>
    decreases s.len(),
{
    if s.len() == 0 {
        if cur.len() == 0 {
            Seq::<Seq<u8>>::empty()
        } else {
            seq![cur]
        }
    } else if s[0] == NEWLINE {
        seq![strip_cr(cur)] + split_lines_from(s.skip(1), Seq::<u8>::empty())
    } else {
        split_lines_from(s.skip(1), cur.push(s[0]))
    }
}

/// The lines of the byte stream `s`, in order, terminators stripped.
pub open spec fn split_lines(s: Seq<u8>) -> Seq<Seq<u8>> {
    split_lines_from(s, Seq::<u8>::empty())
}

/// The views of a sequence of byte lines.
pub open spec fn byte_line_views(ls: Seq<Vec<u8>>) -> Seq<Seq<u8>> {
    Seq::new(ls.len(), |i: int| ls[i]@)
}

/// Splits a byte stream into its lines: one entry per newline-terminated
/// line, terminators (`\n` or `\r\n`) stripped, plus the final unterminated
/// piece when there is one.
pub fn split_into_lines(bytes: &[u8]) -> (r: Vec<Vec<u8>>)
    ensures
        byte_line_views(r@) == split_lines(bytes@),
{
    let mut out: Vec<Vec<u8>> = Vec::new();
    let mut cur: Vec<u8> = Vec::new();
    let mut i: usize = 0;
    proof {
        assert(bytes@.skip(0) =~= bytes@);
        assert(byte_line_views(out@) + split_lines_from(bytes@, cur@) =~= split_lines(bytes@));
    }
    while i < bytes.len()
        invariant
            i <= bytes.len(),
            split_lines(bytes@) =~= byte_line_views(out@) + split_lines_from(
                bytes@.skip(i as int),
                cur@,
            ),
        decreases bytes.len() - i,
    {
        proof {
            assert(bytes@.skip(i as int)[0] == bytes@[i as int]);
            assert(bytes@.skip(i as int).skip(1) =~= bytes@.skip(i as int + 1));
        }
        let b = bytes[i];
        if b == NEWLINE {
            let ghost pending = cur@;
            let mut line = cur;
            cur = Vec::new();
            if line.len() > 0 && line[line.len() - 1] == CARRIAGE_RETURN {
                line.pop();
                proof {
                    assert(line@ =~= strip_cr(pending));
                }
            }
            out.push(line);
            proof {
                assert(byte_line_views(out@) =~= byte_line_views(out@.drop_last()).push(
                    strip_cr(pending),
                ));
                assert(byte_line_views(out@) + split_lines_from(
                    bytes@.skip(i as int + 1),
                    cur@,
                ) =~= split_lines(bytes@));
            }
        } else {
            cur.push(b);
        }
        i = i + 1;
    }
    proof {
        assert(bytes@.skip(i as int) =~= Seq::<u8>::empty());
    }
    if cur.len() > 0 {
        out.push(cur);
    }
    proof {
        assert(byte_line_views(out@) =~= split_lines(bytes@));
    }
    out
}

/// Holds of a line that contains no newline byte, so that joining it with a
/// terminator and splitting again gives it back unchanged.
pub open spec fn no_newline(l: Seq<u8>) -> bool {
    forall|i: int| 0 <= i < l.len() ==> l[i] != NEWLINE
}

/// The terminator for one line: `\r\n` or `\n`.
pub open spec fn line_terminator(crlf: bool) -> Seq<u8> {
    if crlf {
        seq![CARRIAGE_RETURN, NEWLINE]
    } else {
        seq![NEWLINE]
    }
}

/// The byte stream that carries each line of `ls`, terminated by `\r\n`
/// where `crlf` says so and by `\n` elsewhere.
pub open spec fn join_terminated(ls: Seq<Seq<u8>>, crlf: Seq<bool>) -> Seq<u8>
    recommends
        ls.len() == crlf.len(),
    decreases ls.len(),
{
    if ls.len() == 0 {
        Seq::<u8>::empty()
    } else {
        ls[0] + line_terminator(crlf[0]) + join_terminated(ls.skip(1), crlf.skip(1))
    }
}

/// Lines that round-trip through a byte stream: no embedded newline, and no
/// trailing carriage return unless the terminator is `\r\n` (a bare `\n`
/// after a carriage return would make the carriage return part of the
/// terminator).
pub open spec fn lines_round_trip(ls: Seq<Seq<u8>>, crlf: Seq<bool>) -> bool {
    &&& ls.len() == crlf.len()
    &&& forall|i: int| 0 <= i < ls.len() ==> no_newline(#[trigger] ls[i])
    &&& forall|i: int|
        0 <= i < ls.len() ==> (crlf[i] || #[trigger] ls[i].len() == 0 || ls[i].last()
            != CARRIAGE_RETURN)
}

/// Reading one full line: a newline-free prefix followed by a newline is
/// consumed as one line, and splitting continues after it.
proof fn lemma_split_consumes_line(l: Seq<u8>, rest: Seq<u8>, cur: Seq<u8>)
    requires
        no_newline(l),
    ensures
        split_lines_from(l + seq![NEWLINE] + rest, cur) == seq![strip_cr(cur + l)]
            + split_lines_from(rest, Seq::<u8>::empty()),
    decreases l.len(),
{
    let s = l + seq![NEWLINE] + rest;
    if l.len() == 0 {
        assert(s[0] == NEWLINE);
        assert(s.skip(1) =~= rest);
        assert(cur + l =~= cur);
    } else {
        assert(s[0] == l[0]);
        assert(s.skip(1) =~= l.skip(1) + seq![NEWLINE] + rest);
        lemma_split_consumes_line(l.skip(1), rest, cur.push(l[0]));
        assert(cur.push(l[0]) + l.skip(1) =~= cur + l);
    }
}

/// A stream with no newline at all is one line (or none, when empty).
proof fn lemma_split_no_newline(l: Seq<u8>, cur: Seq<u8>)
    requires
        no_newline(l),
    ensures
        split_lines_from(l, cur) == (if cur.len() + l.len() == 0 {
            Seq::<Seq<u8>>::empty()
        } else {
            seq![cur + l]
        }),
    decreases l.len(),
{
    if l.len() == 0 {
        assert(cur + l =~= cur);
    } else {
        lemma_split_no_newline(l.skip(1), cur.push(l[0]));
        assert(cur.push(l[0]) + l.skip(1) =~= cur + l);
    }
}

/// Splitting is the inverse of joining: a stream assembled from lines
/// `L1..Ln`, each terminated by `\n` or `\r\n`, splits into exactly
/// `L1..Ln`, in order; the empty stream (no lines) splits into nothing.
pub proof fn lemma_split_of_terminated_lines(ls: Seq<Seq<u8>>, crlf: Seq<bool>)
    requires
        lines_round_trip(ls, crlf),
    ensures
        split_lines(join_terminated(ls, crlf)) == ls,
    decreases ls.len(),
{
    if ls.len() == 0 {
        assert(split_lines(join_terminated(ls, crlf)) =~= ls);
    } else {
        let rest = join_terminated(ls.skip(1), crlf.skip(1));
        let first = ls[0];
        if crlf[0] {
            let with_cr = first + seq![CARRIAGE_RETURN];
            assert(join_terminated(ls, crlf) =~= with_cr + seq![NEWLINE] + rest);
            assert(no_newline(with_cr));
            lemma_split_consumes_line(with_cr, rest, Seq::<u8>::empty());
            assert(strip_cr(Seq::<u8>::empty() + with_cr) =~= first);
        } else {
            assert(join_terminated(ls, crlf) =~= first + seq![NEWLINE] + rest);
            lemma_split_consumes_line(first, rest, Seq::<u8>::empty());
            assert(strip_cr(Seq::<u8>::empty() + first) =~= first);
        }
        lemma_split_of_terminated_lines(ls.skip(1), crlf.skip(1));
        assert(split_lines(join_terminated(ls, crlf)) =~= seq![first] + ls.skip(1));
        assert(seq![first] + ls.skip(1) =~= ls);
    }
}

/// A stream that ends without a terminator still yields its final piece as
/// a line, after the terminated lines before it.
pub proof fn lemma_split_with_unterminated_tail(ls: Seq<Seq<u8>>, crlf: Seq<bool>, tail: Seq<u8>)
    requires
        lines_round_trip(ls, crlf),
        no_newline(tail),
        tail.len() > 0,
    ensures
        split_lines(join_terminated(ls, crlf) + tail) == ls.push(tail),
    decreases ls.len(),
{
    if ls.len() == 0 {
        assert(join_terminated(ls, crlf) + tail =~= tail);
        lemma_split_no_newline(tail, Seq::<u8>::empty());
        assert(Seq::<u8>::empty() + tail =~= tail);
        assert(seq![tail] =~= ls.push(tail));
    } else {
        let rest = join_terminated(ls.skip(1), crlf.skip(1)) + tail;
        let first = ls[0];
        if crlf[0] {
            let with_cr = first + seq![CARRIAGE_RETURN];
            assert(join_terminated(ls, crlf) + tail =~= with_cr + seq![NEWLINE] + rest);
            assert(no_newline(with_cr));
            lemma_split_consumes_line(with_cr, rest, Seq::<u8>::empty());
            assert(strip_cr(Seq::<u8>::empty() + with_cr) =~= first);
        } else {
            assert(join_terminated(ls, crlf) + tail =~= first + seq![NEWLINE] + rest);
            lemma_split_consumes_line(first, rest, Seq::<u8>::empty());
            assert(strip_cr(Seq::<u8>::empty() + first) =~= first);
        }
        lemma_split_with_unterminated_tail(ls.skip(1), crlf.skip(1), tail);
        assert(split_lines(join_terminated(ls, crlf) + tail) =~= seq![first] + ls.skip(1).push(
            tail,
        ));
        assert(seq![first] + ls.skip(1).push(tail) =~= ls.push(tail));
    }
}

} // verus!
