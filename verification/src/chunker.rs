//! Reply chunking: a rendered reply is split into consecutive pieces of
//! at most a fixed number of characters, counted by logical character,
//! never by encoded byte.
//!
//! The split is content-complete: the pieces concatenate back to the
//! whole text, and nothing is truncated. No attempt is made to keep a
//! decoration control sequence inside one piece; the relay protocol's
//! line ceiling is independent of content. An empty text yields no
//! pieces, matching a fixed-size grouping of an empty sequence.

use vstd::prelude::*;
use vstd::string::StrSliceExecFns;

verus! {

/// The number of characters an outbound channel message may carry.
pub const CHUNK_LIMIT: usize = 400;

/// Consecutive pieces of `s`: each holds `limit` characters, except the
/// last, which holds the remainder.
pub open spec fn spec_chunks(s: Seq<char>, limit: nat) -> Seq<Seq<char>>
    decreases s.len(),
{
    if limit == 0 {
        Seq::empty()
    } else if s.len() == 0 {
        Seq::empty()
    } else if s.len() <= limit {
        seq![s]
    } else {
        seq![s.subrange(0, limit as int)] + spec_chunks(
            s.subrange(limit as int, s.len() as int),
            limit,
        )
    }
}

/// Chunking loses nothing and respects the limit: the pieces of `s`
/// concatenate back to `s` exactly; every piece holds at least one and
/// at most `limit` characters; and every piece but the last holds
/// exactly `limit`.
pub proof fn lemma_chunks_exact(s: Seq<char>, limit: nat)
    requires
        limit >= 1,
    ensures
        spec_chunks(s, limit).flatten() == s,
        forall|i: int|
            0 <= i < spec_chunks(s, limit).len() ==> 1 <= (#[trigger] spec_chunks(s, limit)[i]).len()
                <= limit,
        forall|i: int|
            0 <= i < spec_chunks(s, limit).len() - 1 ==> (#[trigger] spec_chunks(s, limit)[i]).len()
                == limit,
    decreases s.len(),
{
    let cs = spec_chunks(s, limit);
    if s.len() == 0 {
        assert(cs.flatten() =~= s);
    } else if s.len() <= limit {
        cs.lemma_flatten_one_element();
        assert(cs.flatten() =~= s);
    } else {
        let head = s.subrange(0, limit as int);
        let tail = s.subrange(limit as int, s.len() as int);
        lemma_chunks_exact(tail, limit);
        let rest = spec_chunks(tail, limit);
        assert(cs.drop_first() =~= rest);
        assert(cs.flatten() == head + rest.flatten());
        assert(head + tail =~= s);
        assert forall|i: int| 0 <= i < cs.len() implies 1 <= (#[trigger] cs[i]).len() <= limit by {
            if i > 0 {
                assert(cs[i] == rest[i - 1]);
            }
        }
        assert forall|i: int| 0 <= i < cs.len() - 1 implies (#[trigger] cs[i]).len() == limit by {
            if i > 0 {
                assert(cs[i] == rest[i - 1]);
            }
        }
    }
}

/// Splits `text` into consecutive pieces of at most `limit` characters.
pub fn chunk_message(text: &str, limit: usize) -> (r: Vec<String>)
    requires
        limit >= 1,
    ensures
        r@.map_values(|c: String| c@) == spec_chunks(text@, limit as nat),
{
    let n = text.unicode_len();
    let mut r: Vec<String> = Vec::new();
    let mut p: usize = 0;
    proof {
        assert(text@.subrange(0, n as int) =~= text@);
        assert(r@.map_values(|c: String| c@) + spec_chunks(text@, limit as nat) =~= spec_chunks(
            text@,
            limit as nat,
        ));
    }
    while p < n
        invariant
            limit >= 1,
            p <= n,
            n == text@.len(),
            spec_chunks(text@, limit as nat) == r@.map_values(|c: String| c@) + spec_chunks(
                text@.subrange(p as int, n as int),
                limit as nat,
            ),
        decreases n - p,
    {
        let end = if n - p > limit {
            p + limit
        } else {
            n
        };
        let piece = text.substring_char(p, end).to_owned();
        let ghost suffix = text@.subrange(p as int, n as int);
        let ghost done = r@.map_values(|c: String| c@);
        r.push(piece);
        proof {
            assert(piece@ =~= suffix.subrange(0, end as int - p as int));
            if suffix.len() > limit {
                assert(suffix.subrange(limit as int, suffix.len() as int) =~= text@.subrange(
                    end as int,
                    n as int,
                ));
            } else {
                assert(text@.subrange(end as int, n as int) =~= Seq::<char>::empty());
            }
            assert(piece@ =~= if suffix.len() <= limit {
                suffix
            } else {
                suffix.subrange(0, limit as int)
            });
            assert(r@.map_values(|c: String| c@) =~= done.push(piece@));
            assert(seq![piece@] + spec_chunks(text@.subrange(end as int, n as int), limit as nat)
                =~= spec_chunks(suffix, limit as nat));
            assert(r@.map_values(|c: String| c@) + spec_chunks(
                text@.subrange(end as int, n as int),
                limit as nat,
            ) =~= (done + spec_chunks(suffix, limit as nat)));
        }
        p = end;
    }
    proof {
        assert(text@.subrange(p as int, n as int) =~= Seq::<char>::empty());
        assert(r@.map_values(|c: String| c@) + spec_chunks(Seq::<char>::empty(), limit as nat) =~= r@.map_values(
            |c: String| c@,
        ));
    }
    r
}

} // verus!
