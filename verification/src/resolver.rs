//! Query resolution: turns a command line plus per-user memory into a
//! canonical weather query.
//!
//! The grammar is scanned directly over the characters of the line. A
//! command argument begins after the leftmost occurrence of the trigger
//! `!w ` that is followed by at least one character of the wanted class,
//! and extends over the longest run of such characters. Four forms are
//! tried in order, first match wins:
//!
//! 1. the bare trigger `!w`: repeat the requester's stored query;
//! 2. a place name (letters, commas, whitespace): normalize and store it;
//! 3. a postal code (digits): append `,+USA`, store it;
//! 4. a nickname token (no digits, no whitespace): look up that user.
//!
//! Form 2 accepts any single alphabetic word, so it shadows form 4 for
//! such arguments; form 4 is reachable only for tokens that carry a
//! character outside form 2's class. This precedence is inherited
//! behaviour and is kept deliberately.

use vstd::prelude::*;
use crate::chars::is_place_char;
use crate::chars::is_digit_char;
use crate::chars::is_token_char;
use crate::chars::spec_place_char;
use crate::chars::spec_digit_char;
use crate::chars::spec_token_char;
use crate::memory::UserLocationMemory;
use crate::strutil::str_eq;
use crate::strutil::str_to_chars;
use crate::strutil::chars_to_string;

verus! {

/// The character class an argument is scanned with.
#[derive(Clone, Copy, PartialEq, Eq, Structural)]
pub enum ArgClass {
    /// Letters, commas and whitespace: a place name.
    Place,
    /// Decimal digits: a postal code.
    Digits,
    /// Anything but digits and whitespace: a nickname.
    Token,
}

pub open spec fn spec_class_holds(cls: ArgClass, c: char) -> bool {
    match cls {
        ArgClass::Place => spec_place_char(c),
        ArgClass::Digits => spec_digit_char(c),
        ArgClass::Token => spec_token_char(c),
    }
}

pub fn class_holds(cls: ArgClass, c: char) -> (r: bool)
    ensures
        r == spec_class_holds(cls, c),
{
    match cls {
        ArgClass::Place => is_place_char(c),
        ArgClass::Digits => is_digit_char(c),
        ArgClass::Token => is_token_char(c),
    }
}

/// The trigger `!w ` stands at `i` and is followed by a character of the
/// class.
pub open spec fn spec_trigger_at(s: Seq<char>, cls: ArgClass, i: int) -> bool {
    &&& 0 <= i
    &&& i + 4 <= s.len()
    &&& s[i] == '!'
    &&& s[i + 1] == 'w'
    &&& s[i + 2] == ' '
    &&& spec_class_holds(cls, s[i + 3])
}

/// The start of the leftmost trigger match at or after `k`, if any.
pub open spec fn spec_find(s: Seq<char>, cls: ArgClass, k: int) -> Option<int>
    decreases s.len() - k,
{
    if k < 0 || k + 4 > s.len() {
        None
    } else if spec_trigger_at(s, cls, k) {
        Some(k)
    } else {
        spec_find(s, cls, k + 1)
    }
}

/// The end of the run of class characters that starts at `k`.
pub open spec fn spec_run_end(s: Seq<char>, cls: ArgClass, k: int) -> int
    decreases s.len() - k,
{
    if 0 <= k < s.len() && spec_class_holds(cls, s[k]) {
        spec_run_end(s, cls, k + 1)
    } else {
        k
    }
}

/// The captured argument of the leftmost match; meaningful only when
/// `spec_find` yields a start.
pub open spec fn spec_capture(s: Seq<char>, cls: ArgClass) -> Seq<char> {
    let i = spec_find(s, cls, 0)->0;
    s.subrange(i + 3, spec_run_end(s, cls, i + 3))
}

/// Finds the leftmost trigger match and its captured range: `r` is
/// `Some((i, e))` when the trigger stands at `i` and the argument is
/// `s[i+3 .. e]`.
pub fn find_capture(s: &Vec<char>, cls: ArgClass) -> (r: Option<(usize, usize)>)
    ensures
        match r {
            Some(p) => {
                &&& spec_find(s@, cls, 0) == Some(p.0 as int)
                &&& p.1 as int == spec_run_end(s@, cls, p.0 + 3)
                &&& p.0 + 4 <= p.1 <= s@.len()
            },
            None => spec_find(s@, cls, 0) is None,
        },
{
    let n = s.len();
    if n < 4 {
        return None;
    }
    let mut k: usize = 0;
    while k <= n - 4
        invariant
            n == s@.len(),
            4 <= n,
            k <= n - 3,
            spec_find(s@, cls, 0) == spec_find(s@, cls, k as int),
        decreases n - k,
    {
        if s[k] == '!' && s[k + 1] == 'w' && s[k + 2] == ' ' && class_holds(cls, s[k + 3]) {
            assert(spec_trigger_at(s@, cls, k as int));
            let mut e = k + 3;
            while e < n && class_holds(cls, s[e])
                invariant
                    n == s@.len(),
                    k + 3 <= e <= n,
                    spec_run_end(s@, cls, k + 3) == spec_run_end(s@, cls, e as int),
                decreases n - e,
            {
                e += 1;
            }
            assert(spec_run_end(s@, cls, e as int) == e);
            return Some((k, e));
        }
        assert(!spec_trigger_at(s@, cls, k as int));
        k += 1;
    }
    assert(spec_find(s@, cls, k as int) is None);
    None
}

/// Spaces and commas become `+`; every other character stays.
pub open spec fn spec_plusify(s: Seq<char>) -> Seq<char> {
    s.map_values(|c: char| if c == ' ' || c == ',' { '+' } else { c })
}

/// A postal-code query: the digits, then `,+USA`.
pub open spec fn spec_zip_query(digits: Seq<char>) -> Seq<char> {
    digits + seq![',', '+', 'U', 'S', 'A']
}

/// The bare trigger, with no argument at all.
pub open spec fn spec_bare_trigger() -> Seq<char> {
    seq!['!', 'w']
}

/// The query `resolve` answers, over the memory as it stood before the
/// call.
pub open spec fn spec_resolve_query(
    content: Seq<char>,
    nick: Seq<char>,
    mem: Map<Seq<char>, Seq<char>>,
) -> Option<Seq<char>> {
    if content == spec_bare_trigger() {
        if mem.contains_key(nick) {
            Some(mem[nick])
        } else {
            None
        }
    } else if spec_find(content, ArgClass::Place, 0) is Some {
        Some(spec_plusify(spec_capture(content, ArgClass::Place)))
    } else if spec_find(content, ArgClass::Digits, 0) is Some {
        Some(spec_zip_query(spec_capture(content, ArgClass::Digits)))
    } else if spec_find(content, ArgClass::Token, 0) is Some {
        let t = spec_capture(content, ArgClass::Token);
        if mem.contains_key(t) {
            Some(mem[t])
        } else {
            None
        }
    } else {
        None
    }
}

/// The memory after `resolve`: place and postal forms store the produced
/// query under the requester; the other forms leave the memory alone.
pub open spec fn spec_resolve_memory(
    content: Seq<char>,
    nick: Seq<char>,
    mem: Map<Seq<char>, Seq<char>>,
) -> Map<Seq<char>, Seq<char>> {
    if content == spec_bare_trigger() {
        mem
    } else if spec_find(content, ArgClass::Place, 0) is Some {
        mem.insert(nick, spec_plusify(spec_capture(content, ArgClass::Place)))
    } else if spec_find(content, ArgClass::Digits, 0) is Some {
        mem.insert(nick, spec_zip_query(spec_capture(content, ArgClass::Digits)))
    } else {
        mem
    }
}

proof fn lemma_find_complete(s: Seq<char>, cls: ArgClass, k: int, i: int)
    requires
        0 <= k <= i,
        spec_trigger_at(s, cls, i),
    ensures
        spec_find(s, cls, k) is Some,
    decreases i - k,
{
    if k < i && !spec_trigger_at(s, cls, k) {
        lemma_find_complete(s, cls, k + 1, i);
    }
}

/// The place form shadows the nickname form: wherever the trigger is
/// followed by a place-class character — as it is for any bare
/// alphabetic word — the command resolves as a place query, and a
/// nickname lookup is never tried.
pub proof fn lemma_place_shadows_nickname(
    content: Seq<char>,
    nick: Seq<char>,
    mem: Map<Seq<char>, Seq<char>>,
    i: int,
)
    requires
        content != spec_bare_trigger(),
        spec_trigger_at(content, ArgClass::Place, i),
    ensures
        spec_resolve_query(content, nick, mem) == Some(
            spec_plusify(spec_capture(content, ArgClass::Place)),
        ),
        spec_resolve_memory(content, nick, mem) == mem.insert(
            nick,
            spec_plusify(spec_capture(content, ArgClass::Place)),
        ),
{
    lemma_find_complete(content, ArgClass::Place, 0, i);
}

/// A user with nothing stored gets nothing from the bare trigger, and
/// the memory stays as it was.
pub proof fn lemma_bare_trigger_without_memory(nick: Seq<char>, mem: Map<Seq<char>, Seq<char>>)
    requires
        !mem.contains_key(nick),
    ensures
        spec_resolve_query(spec_bare_trigger(), nick, mem) is None,
        spec_resolve_memory(spec_bare_trigger(), nick, mem) == mem,
{
}

/// Once a place or postal command resolves, the bare trigger repeats it:
/// against the memory the command leaves behind, `!w` yields exactly the
/// query the command produced.
pub proof fn lemma_repeat_after_store(
    content: Seq<char>,
    nick: Seq<char>,
    mem: Map<Seq<char>, Seq<char>>,
)
    requires
        content != spec_bare_trigger(),
        spec_find(content, ArgClass::Place, 0) is Some || spec_find(
            content,
            ArgClass::Digits,
            0,
        ) is Some,
    ensures
        spec_resolve_query(
            spec_bare_trigger(),
            nick,
            spec_resolve_memory(content, nick, mem),
        ) == spec_resolve_query(content, nick, mem),
{
}

fn copy_range(s: &Vec<char>, b: usize, e: usize) -> (r: Vec<char>)
    requires
        b <= e <= s@.len(),
    ensures
        r@ == s@.subrange(b as int, e as int),
{
    let mut r: Vec<char> = Vec::new();
    let mut j = b;
    while j < e
        invariant
            b <= j <= e <= s@.len(),
            r@ == s@.subrange(b as int, j as int),
        decreases e - j,
    {
        r.push(s[j]);
        proof {
            assert(r@ =~= s@.subrange(b as int, j + 1 as int));
        }
        j += 1;
    }
    r
}

fn plusify_range(s: &Vec<char>, b: usize, e: usize) -> (r: Vec<char>)
    requires
        b <= e <= s@.len(),
    ensures
        r@ == spec_plusify(s@.subrange(b as int, e as int)),
{
    let mut r: Vec<char> = Vec::new();
    let mut j = b;
    while j < e
        invariant
            b <= j <= e <= s@.len(),
            r@ == spec_plusify(s@.subrange(b as int, j as int)),
        decreases e - j,
    {
        let c = s[j];
        if c == ' ' || c == ',' {
            r.push('+');
        } else {
            r.push(c);
        }
        proof {
            assert(r@ =~= spec_plusify(s@.subrange(b as int, j + 1 as int)));
        }
        j += 1;
    }
    r
}

/// Resolves one command line for `nick` against the memory, with the
/// precedence the module header states. Returns the canonical query, or
/// `None` when the line is no resolvable command; stores the query under
/// `nick` exactly for the place and postal forms.
pub fn resolve(content: &str, nick: &str, mem: &mut UserLocationMemory) -> (r: Option<String>)
    requires
        old(mem).inv(),
    ensures
        final(mem).inv(),
        final(mem)@ == spec_resolve_memory(content@, nick@, old(mem)@),
        match r {
            Some(q) => spec_resolve_query(content@, nick@, old(mem)@) == Some(q@),
            None => spec_resolve_query(content@, nick@, old(mem)@) is None,
        },
{
    proof {
        reveal_strlit("!w");
    }
    if str_eq(content, "!w") {
        proof {
            assert(content@ =~= spec_bare_trigger());
        }
        return mem.lookup(nick);
    }
    proof {
        assert(content@ != spec_bare_trigger()) by {
            if content@ == spec_bare_trigger() {
                assert(content@ =~= "!w"@);
            }
        }
    }
    let cs = str_to_chars(content);
    if let Some((i, e)) = find_capture(&cs, ArgClass::Place) {
        let q = plusify_range(&cs, i + 3, e);
        let query = chars_to_string(&q);
        let stored = query.clone();
        mem.store(nick, stored);
        return Some(query);
    }
    if let Some((i, e)) = find_capture(&cs, ArgClass::Digits) {
        let mut q = copy_range(&cs, i + 3, e);
        q.push(',');
        q.push('+');
        q.push('U');
        q.push('S');
        q.push('A');
        proof {
            assert(q@ =~= spec_zip_query(spec_capture(content@, ArgClass::Digits)));
        }
        let query = chars_to_string(&q);
        let stored = query.clone();
        mem.store(nick, stored);
        return Some(query);
    }
    if let Some((i, e)) = find_capture(&cs, ArgClass::Token) {
        let t = copy_range(&cs, i + 3, e);
        let target = chars_to_string(&t);
        return mem.lookup(target.as_str());
    }
    None
}

} // verus!
