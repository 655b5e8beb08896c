//! Small pieces of text that suggestions are built from.
use vstd::prelude::*;
use vstd::string::*;

verus! {

/// How many more `(` than `)` stand among the first `n` characters of `s`.
pub open spec fn paren_balance(s: Seq<char>, n: int) -> int
    decreases n,
{
    if n <= 0 || n > s.len() {
        0
    } else {
        paren_balance(s, n - 1) + if s[n - 1] == '(' {
            1int
        } else if s[n - 1] == ')' {
            -1int
        } else {
            0int
        }
    }
}

/// Whether `s` opens with a `(` that nothing closes before the last
/// character: either its partner is the last character, or it has none.
pub open spec fn spec_has_enclosing_paren(s: Seq<char>) -> bool {
    &&& s.len() > 0
    &&& s[0] == '('
    &&& forall|n: int| 1 <= n < s.len() ==> paren_balance(s, n) > 0
}

/// Whether the text is enclosed in one pair of parentheses.
pub fn has_enclosing_paren(s: &str) -> (r: bool)
    ensures
        r == spec_has_enclosing_paren(s@),
{
    broadcast use group_string_axioms;

    let total = s.unicode_len();
    let mut depth: usize = 0;
    let mut closed_early = false;
    let mut opens = false;
    let mut seen: usize = 0;
    for c in it: s.chars()
        invariant
            it.seq() == s@,
            total == s@.len(),
            seen == it.index(),
            seen == 0 ==> !opens && !closed_early,
            seen > 0 ==> opens == (s@[0] == '('),
            (opens && !closed_early) ==> depth == paren_balance(s@, seen as int),
            opens ==> (closed_early <==> exists|n: int|
                1 <= n < seen && #[trigger] paren_balance(s@, n) <= 0),
            depth <= seen,
    {
        if seen == 0 {
            opens = c == '(';
            depth = if opens {
                1
            } else {
                0
            };
            proof {
                reveal_with_fuel(paren_balance, 2);
            }
        } else if opens && !closed_early {
            if depth == 0 {
                closed_early = true;
            } else {
                if c == '(' {
                    depth += 1;
                } else if c == ')' {
                    depth -= 1;
                }
            }
        }
        seen += 1;
    }
    opens && !closed_early
}

/// `n` times the character `*`.
pub open spec fn stars(n: nat) -> Seq<char> {
    Seq::new(n, |i: int| '*')
}

/// The text `*` repeated `n` times.
pub fn repeat_star(n: usize) -> (r: String)
    ensures
        r@ == stars(n as nat),
{
    let mut r = String::new();
    let mut i: usize = 0;
    while i < n
        invariant
            i <= n,
            r@ == stars(i as nat),
        decreases n - i,
    {
        proof {
            reveal_strlit("*");
        }
        r.append("*");
        i += 1;
    }
    r
}

/// `s` between a pair of parentheses.
pub open spec fn spec_parenthesized(s: Seq<char>) -> Seq<char> {
    seq!['('] + s + seq![')']
}

/// The text between a pair of parentheses.
pub fn parenthesized(s: &str) -> (r: String)
    ensures
        r@ == spec_parenthesized(s@),
{
    proof {
        reveal_strlit("(");
        reveal_strlit(")");
    }
    let mut r = String::from_str("(");
    r.append(s);
    r.append(")");
    r
}

/// The two texts one after the other.
pub fn joined(a: &str, b: &str) -> (r: String)
    ensures
        r@ == a@ + b@,
{
    let mut r = String::from_str(a);
    r.append(b);
    r
}

} // verus!
