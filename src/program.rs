//! Program text and bracket matching.
//!
//! Brackets are matched by a live scan over the program text, as the engine
//! reaches them, rather than through a table built in advance.

use vstd::prelude::*;

verus! {

/// Whether `c` is one of the eight symbols that the engine acts on.
pub open spec fn spec_is_instruction(c: char) -> bool {
    c == '>' || c == '<' || c == '+' || c == '-' || c == '.' || c == ',' || c == '['
        || c == ']'
}

/// Whether `c` is one of the eight symbols that the engine acts on; every
/// other character is a no-op.
pub fn is_instruction(c: char) -> (r: bool)
    ensures
        r == spec_is_instruction(c),
{
    c == '>' || c == '<' || c == '+' || c == '-' || c == '.' || c == ',' || c == '[' || c == ']'
}

/// How a symbol moves the bracket nesting: `[` opens, `]` closes.
pub open spec fn bracket_delta(c: char) -> int {
    if c == '[' {
        1
    } else if c == ']' {
        -1
    } else {
        0
    }
}

/// The number of `[` minus the number of `]` among `p[from..to]`.
pub open spec fn balance(p: Seq<char>, from: int, to: int) -> int
    decreases to - from,
{
    if to <= from {
        0
    } else {
        balance(p, from, to - 1) + bracket_delta(p[to - 1])
    }
}

/// The `[` at `ip` is closed by the `]` just before `j`: the brackets of
/// `p[ip..j]` balance, and those of no shorter prefix do.
pub open spec fn closes_at(p: Seq<char>, ip: int, j: int) -> bool {
    &&& ip < j <= p.len()
    &&& balance(p, ip, j) == 0
    &&& forall|k: int| ip < k < j ==> balance(p, ip, k) > 0
}

/// Where execution goes when the `[` at `ip` skips its loop: just after the
/// matching `]`, or to the end of the program when there is none.
pub open spec fn forward_target(p: Seq<char>, ip: int) -> int {
    if exists|j: int| closes_at(p, ip, j) {
        choose|j: int| closes_at(p, ip, j)
    } else {
        p.len() as int
    }
}

/// The `]` at `ip` is opened by the `[` at `m`: the brackets of `p[m..=ip]`
/// balance, and those of no shorter suffix do.
pub open spec fn opens_at(p: Seq<char>, ip: int, m: int) -> bool {
    &&& 0 <= m < ip
    &&& balance(p, m, ip + 1) == 0
    &&& forall|k: int| m < k <= ip ==> #[trigger] balance(p, k, ip + 1) < 0
}

/// Where execution goes when the `]` at `ip` (not the first symbol) repeats
/// its loop: just after the matching `[`. When no `[` matches, the scan stops
/// at the start of the program and execution goes on after its first symbol.
pub open spec fn backward_target(p: Seq<char>, ip: int) -> int {
    if exists|m: int| opens_at(p, ip, m) {
        (choose|m: int| opens_at(p, ip, m)) + 1
    } else {
        1
    }
}

/// Taking one more symbol at the front of a range adds its bracket delta.
pub proof fn lemma_balance_front(p: Seq<char>, from: int, to: int)
    requires
        from < to,
    ensures
        balance(p, from, to) == bracket_delta(p[from]) + balance(p, from + 1, to),
    decreases to - from,
{
    if from + 1 < to {
        lemma_balance_front(p, from, to - 1);
    } else {
        assert(balance(p, from, from) == 0);
        assert(balance(p, from + 1, to) == 0);
    }
}

/// A `[` has at most one matching `]`.
pub proof fn lemma_closes_at_unique(p: Seq<char>, ip: int, j1: int, j2: int)
    requires
        closes_at(p, ip, j1),
        closes_at(p, ip, j2),
    ensures
        j1 == j2,
{
    if j1 < j2 {
        assert(balance(p, ip, j1) > 0);
    } else if j2 < j1 {
        assert(balance(p, ip, j2) > 0);
    }
}

/// A `]` has at most one matching `[`.
pub proof fn lemma_opens_at_unique(p: Seq<char>, ip: int, m1: int, m2: int)
    requires
        opens_at(p, ip, m1),
        opens_at(p, ip, m2),
    ensures
        m1 == m2,
{
    if m1 < m2 {
        assert(balance(p, m2, ip + 1) < 0);
    } else if m2 < m1 {
        assert(balance(p, m1, ip + 1) < 0);
    }
}

/// Scans forward from the `[` at `ip`, counting nested brackets, and returns
/// the position just after its matching `]`, or the program's length when the
/// program ends first.
pub fn forward_jump(p: &Vec<char>, ip: usize) -> (r: usize)
    requires
        ip < p@.len(),
        p@[ip as int] == '[',
    ensures
        r as int == forward_target(p@, ip as int),
        ip < r <= p@.len(),
{
    let len = p.len();
    let mut pos: usize = ip + 1;
    let mut depth: usize = 1;
    assert(balance(p@, ip as int, ip + 1) == 1) by {
        assert(balance(p@, ip as int, ip as int) == 0);
    }
    while pos < len && depth > 0
        invariant
            len == p@.len(),
            ip < pos <= len,
            depth as int == balance(p@, ip as int, pos as int),
            depth <= pos - ip,
            forall|k: int| ip < k < pos ==> balance(p@, ip as int, k) > 0,
        decreases len - pos,
    {
        let c = p[pos];
        if c == '[' {
            depth = depth + 1;
        } else if c == ']' {
            depth = depth - 1;
        }
        pos = pos + 1;
    }
    proof {
        if depth == 0 {
            assert(closes_at(p@, ip as int, pos as int));
            let j = choose|j: int| closes_at(p@, ip as int, j);
            lemma_closes_at_unique(p@, ip as int, j, pos as int);
        } else {
            assert forall|j: int| !closes_at(p@, ip as int, j) by {
                if closes_at(p@, ip as int, j) {
                    assert(balance(p@, ip as int, j) > 0);
                }
            }
        }
    }
    pos
}

/// Scans backward from the `]` at `ip` (not the first symbol), counting
/// nested brackets, and returns the position just after its matching `[`, or
/// 1 when the scan reaches the start of the program without a match.
pub fn backward_jump(p: &Vec<char>, ip: usize) -> (r: usize)
    requires
        0 < ip < p@.len(),
        p@[ip as int] == ']',
    ensures
        r as int == backward_target(p@, ip as int),
        0 < r <= ip,
{
    let len = p.len();
    let mut pos: usize = ip;
    let mut depth: usize = 1;
    assert(balance(p@, ip as int, ip + 1) == -1) by {
        assert(balance(p@, ip as int, ip as int) == 0);
    }
    while pos > 0 && depth > 0
        invariant
            len == p@.len(),
            pos <= ip < len,
            depth as int == -balance(p@, pos as int, ip + 1),
            depth <= ip + 1 - pos,
            forall|k: int| pos < k <= ip ==> #[trigger] balance(p@, k, ip + 1) < 0,
            depth > 0 ==> balance(p@, pos as int, ip + 1) < 0,
        decreases pos,
    {
        pos = pos - 1;
        let c = p[pos];
        proof {
            lemma_balance_front(p@, pos as int, ip + 1);
        }
        if c == ']' {
            depth = depth + 1;
        } else if c == '[' {
            depth = depth - 1;
        }
    }
    proof {
        if depth == 0 {
            assert(opens_at(p@, ip as int, pos as int));
            let m = choose|m: int| opens_at(p@, ip as int, m);
            lemma_opens_at_unique(p@, ip as int, m, pos as int);
        } else {
            assert forall|m: int| !opens_at(p@, ip as int, m) by {
                if opens_at(p@, ip as int, m) {
                    assert(balance(p@, m, ip + 1) < 0);
                }
            }
        }
    }
    if depth == 0 {
        pos + 1
    } else {
        1
    }
}

/// The characters of `text`, in order.
pub fn chars_of(text: &str) -> (r: Vec<char>)
    ensures
        r@ == text@,
{
    broadcast use vstd::string::axiom_spec_iter;
    let mut r: Vec<char> = Vec::new();
    for c in it: text.chars()
        invariant
            r@ == it.seq().subrange(0, it.index() as int),
    {
        r.push(c);
    }
    r
}

/// Relies on `String::push`: appends one character.
#[verifier::external_body]
pub(crate) fn push_char(s: &mut String, c: char)
    ensures
        final(s)@ == old(s)@.push(c),
{
    s.push(c);
}

/// The characters of `text` that are instructions, in order: every other
/// character is dropped.
pub fn filter_instructions(text: &str) -> (r: String)
    ensures
        r@ == text@.filter(|c: char| spec_is_instruction(c)),
{
    let chars = chars_of(text);
    let mut r = String::new();
    let mut i: usize = 0;
    while i < chars.len()
        invariant
            chars@ == text@,
            i <= chars@.len(),
            r@ == chars@.subrange(0, i as int).filter(|c: char| spec_is_instruction(c)),
        decreases chars@.len() - i,
    {
        let c = chars[i];
        proof {
            assert(chars@.subrange(0, i + 1).drop_last() =~= chars@.subrange(0, i as int));
            reveal_with_fuel(Seq::<char>::filter, 1);
        }
        if is_instruction(c) {
            push_char(&mut r, c);
        }
        i = i + 1;
    }
    assert(chars@.subrange(0, chars@.len() as int) =~= chars@);
    r
}

} // verus!
