//! Text values inside quoted SQL literals: the escaping applied to every
//! value a query carries, and the reading of a quoted literal that it undoes.

use vstd::prelude::*;
use vstd::string::StrSliceExecFns;

verus! {

/// Whether `c` must be preceded by a backslash inside a quoted literal.
pub open spec fn needs_escape(c: char) -> bool {
    c == '\\' || c == '"' || c == '\''
}

/// One character as it is written inside a quoted literal.
pub open spec fn escape_char(c: char) -> Seq<char> {
    if needs_escape(c) {
        seq!['\\', c]
    } else {
        seq![c]
    }
}

/// A text as it is written inside a quoted literal: each backslash and each
/// quote character preceded by a backslash.
pub open spec fn escaped(s: Seq<char>) -> Seq<char>
    decreases s.len(),
{
    if s.len() == 0 {
        Seq::empty()
    } else {
        escaped(s.drop_last()) + escape_char(s.last())
    }
}

/// How a literal opened by the quote `q` is read: up to the first `q` not
/// preceded by a backslash, a backslash taking the next character as it is.
/// The result is the value read and the text after the closing quote, or
/// `None` when the literal is not closed.
pub open spec fn read_literal(t: Seq<char>, q: char) -> Option<(Seq<char>, Seq<char>)>
    decreases t.len(),
{
    if t.len() == 0 {
        None
    } else if t[0] == q {
        Some((Seq::empty(), t.skip(1)))
    } else if t[0] == '\\' {
        if t.len() < 2 {
            None
        } else {
            match read_literal(t.skip(2), q) {
                Some((v, rest)) => Some((seq![t[1]] + v, rest)),
                None => None,
            }
        }
    } else {
        match read_literal(t.skip(1), q) {
            Some((v, rest)) => Some((seq![t[0]] + v, rest)),
            None => None,
        }
    }
}

/// Escaping distributes over concatenation.
pub proof fn lemma_escaped_add(a: Seq<char>, b: Seq<char>)
    ensures
        escaped(a + b) == escaped(a) + escaped(b),
    decreases b.len(),
{
    if b.len() == 0 {
        assert(a + b =~= a);
        assert(escaped(a) + escaped(b) =~= escaped(a));
    } else {
        lemma_escaped_add(a, b.drop_last());
        assert((a + b).drop_last() =~= a + b.drop_last());
        assert((a + b).last() == b.last());
        assert(escaped(a + b) =~= escaped(a) + escaped(b.drop_last()) + escape_char(b.last()));
    }
}

/// An escaped text placed between quotes reads back as the text itself, and
/// the literal ends at the closing quote: no value can close it early.
pub proof fn escaped_literal_reads_back(s: Seq<char>, q: char, tail: Seq<char>)
    requires
        q == '"' || q == '\'',
    ensures
        read_literal(escaped(s) + seq![q] + tail, q) == Some((s, tail)),
    decreases s.len(),
{
    let t = escaped(s) + seq![q] + tail;
    if s.len() == 0 {
        assert(escaped(s) =~= Seq::<char>::empty());
        assert(t =~= seq![q] + tail);
        assert(t.skip(1) =~= tail);
    } else {
        let c = s[0];
        let rest = s.skip(1);
        assert(s =~= seq![c] + rest);
        lemma_escaped_add(seq![c], rest);
        assert(seq![c].drop_last() =~= Seq::<char>::empty());
        assert(escaped(Seq::<char>::empty()) =~= Seq::<char>::empty());
        assert(seq![c].last() == c);
        assert(escaped(seq![c]) =~= escaped(Seq::<char>::empty()) + escape_char(c));
        assert(escaped(seq![c]) =~= escape_char(c));
        escaped_literal_reads_back(rest, q, tail);
        let inner = escaped(rest) + seq![q] + tail;
        if needs_escape(c) {
            assert(t =~= seq!['\\', c] + inner);
            assert(t.skip(2) =~= inner);
        } else {
            assert(t =~= seq![c] + inner);
            assert(t.skip(1) =~= inner);
        }
        assert(seq![c] + rest =~= s);
    }
}

/// Appends `value`, escaped, to a query text.
pub fn append_literal(q: &mut String, value: &str)
    ensures
        final(q)@ == old(q)@ + escaped(value@),
{
    let n = value.unicode_len();
    let mut i: usize = 0;
    proof {
        assert(value@.take(0) =~= Seq::<char>::empty());
        assert(old(q)@ + escaped(Seq::<char>::empty()) =~= old(q)@);
    }
    while i < n
        invariant
            n == value@.len(),
            i <= n,
            q@ == old(q)@ + escaped(value@.take(i as int)),
        decreases n - i,
    {
        let c = value.get_char(i);
        let ghost before = q@;
        if c == '\\' {
            proof { reveal_strlit("\\\\"); }
            q.append("\\\\");
        } else if c == '"' {
            proof { reveal_strlit("\\\""); }
            q.append("\\\"");
        } else if c == '\'' {
            proof { reveal_strlit("\\'"); }
            q.append("\\'");
        } else {
            q.append(value.substring_char(i, i + 1));
        }
        proof {
            assert(value@.take(i + 1).drop_last() =~= value@.take(i as int));
            assert(value@.take(i + 1).last() == c);
            if !needs_escape(c) {
                assert(value@.subrange(i as int, i + 1) =~= seq![c]);
            }
            assert(q@ =~= before + escape_char(c));
        }
        i = i + 1;
    }
    proof {
        assert(value@.take(n as int) =~= value@);
    }
}

} // verus!
