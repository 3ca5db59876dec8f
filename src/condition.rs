use crate::hook::HookContext;
use crate::text::{chars_of, range_eq, trim, trim_bounds};
use vstd::prelude::*;

verus! {

/// The comparison operator `==` starts at position `i` of `s`.
pub open spec fn op_at(s: Seq<char>, i: int) -> bool {
    0 <= i && i + 1 < s.len() && s[i] == '=' && s[i + 1] == '='
}

/// First position at or after `k` where `==` starts, or `s.len()` if none.
pub open spec fn first_op_from(s: Seq<char>, k: int) -> int
    decreases s.len() - k,
{
    if k + 1 >= s.len() {
        s.len() as int
    } else if op_at(s, k) {
        k
    } else {
        first_op_from(s, k + 1)
    }
}

/// The recognized key `event`.
pub open spec fn event_key() -> Seq<char> {
    seq!['e', 'v', 'e', 'n', 't']
}

/// The recognized key `session_id`.
pub open spec fn session_key() -> Seq<char> {
    seq!['s', 'e', 's', 's', 'i', 'o', 'n', '_', 'i', 'd']
}

/// Whether a condition admits a hook, for a context with the given event
/// and session id.
///
/// A condition without `==` admits (the permissive default). One that
/// splits on `==` into other than two parts does not. Otherwise the
/// trimmed left side names the context field, and the right side,
/// trimmed and stripped of surrounding quotes, must equal it; an
/// unrecognized key does not admit.
pub open spec fn condition_holds(cond: Seq<char>, event: Seq<char>, session: Seq<char>) -> bool {
    let i = first_op_from(cond, 0);
    if i >= cond.len() {
        true
    } else if first_op_from(cond, i + 2) < cond.len() {
        false
    } else {
        let key = trim(cond.subrange(0, i), false);
        let value = trim(trim(cond.subrange(i + 2, cond.len() as int), false), true);
        if key == event_key() {
            event == value
        } else if key == session_key() {
            session == value
        } else {
            false
        }
    }
}

proof fn lemma_first_op_from(s: Seq<char>, k: int)
    requires
        0 <= k,
    ensures
        k <= first_op_from(s, k) <= s.len() || (k >= s.len() && first_op_from(s, k) == s.len()),
        first_op_from(s, k) < s.len() ==> op_at(s, first_op_from(s, k)),
        forall|j: int| k <= j < first_op_from(s, k) ==> !op_at(s, j),
        first_op_from(s, k) == s.len() ==> forall|j: int| k <= j ==> !op_at(s, j),
    decreases s.len() - k,
{
    if k + 1 < s.len() && !op_at(s, k) {
        lemma_first_op_from(s, k + 1);
    }
}

/// A condition in which `==` occurs nowhere admits every context.
pub proof fn lemma_no_operator_admits(cond: Seq<char>, event: Seq<char>, session: Seq<char>)
    requires
        forall|i: int| !op_at(cond, i),
    ensures
        condition_holds(cond, event, session),
{
    lemma_first_op_from(cond, 0);
}

/// A condition `event == v` with a single operator at `i` admits exactly
/// the contexts whose event equals `v` trimmed and stripped of quotes.
pub proof fn lemma_event_condition(
    cond: Seq<char>,
    i: int,
    event: Seq<char>,
    session: Seq<char>,
)
    requires
        op_at(cond, i),
        forall|j: int| 0 <= j < i ==> !op_at(cond, j),
        forall|j: int| i + 2 <= j ==> !op_at(cond, j),
        trim(cond.subrange(0, i), false) == event_key(),
    ensures
        condition_holds(cond, event, session) <==> event == trim(
            trim(cond.subrange(i + 2, cond.len() as int), false),
            true,
        ),
{
    lemma_first_op_from(cond, 0);
    lemma_first_op_from(cond, i + 2);
}

/// A condition with a single operator whose key is neither `event` nor
/// `session_id` admits no context.
pub proof fn lemma_unknown_key_rejects(
    cond: Seq<char>,
    i: int,
    event: Seq<char>,
    session: Seq<char>,
)
    requires
        op_at(cond, i),
        forall|j: int| 0 <= j < i ==> !op_at(cond, j),
        trim(cond.subrange(0, i), false) != event_key(),
        trim(cond.subrange(0, i), false) != session_key(),
    ensures
        !condition_holds(cond, event, session),
{
    lemma_first_op_from(cond, 0);
}

/// A condition with two or more operators, non-overlapping, admits no
/// context.
pub proof fn lemma_two_operators_reject(
    cond: Seq<char>,
    i: int,
    j: int,
    event: Seq<char>,
    session: Seq<char>,
)
    requires
        op_at(cond, i),
        op_at(cond, j),
        i + 2 <= j,
    ensures
        !condition_holds(cond, event, session),
{
    lemma_first_op_from(cond, 0);
    let f = first_op_from(cond, 0);
    lemma_first_op_from(cond, f + 2);
    if f + 2 > j {
        // the first operator overlaps the one at j, so the one at i comes first
        assert(f <= i);
        assert(false);
    }
}

fn find_op(s: &Vec<char>, from: usize) -> (r: usize)
    requires
        from <= s@.len(),
    ensures
        r == first_op_from(s@, from as int),
{
    let mut k: usize = from;
    while k < s.len() && k + 1 < s.len()
        invariant
            from <= k <= s@.len(),
            first_op_from(s@, from as int) == first_op_from(s@, k as int),
        decreases s@.len() - k,
    {
        if s[k] == '=' && s[k + 1] == '=' {
            return k;
        }
        k = k + 1;
    }
    s.len()
}

/// Evaluates a hook condition against a context.
pub fn evaluate_condition(condition: &str, context: &HookContext) -> (r: bool)
    ensures
        r == condition_holds(condition@, context.event@, context.session_id@),
{
    let s = chars_of(condition);
    let n = s.len();
    let i = find_op(&s, 0);
    if i >= n {
        return true;
    }
    proof {
        lemma_first_op_from(s@, 0);
    }
    if find_op(&s, i + 2) < n {
        return false;
    }
    let (ka, kb) = trim_bounds(&s, 0, i, false);
    let (a, b) = trim_bounds(&s, i + 2, n, false);
    let (va, vb) = trim_bounds(&s, a, b, true);
    proof {
        assert(s@.subrange(a as int, b as int).subrange(va - a, vb - a) =~= s@.subrange(
            va as int,
            vb as int,
        ));
    }
    let event_key_chars = chars_of("event");
    let session_key_chars = chars_of("session_id");
    proof {
        reveal_strlit("event");
        reveal_strlit("session_id");
        assert(event_key_chars@ =~= event_key());
        assert(session_key_chars@ =~= session_key());
    }
    if range_eq(&s, ka, kb, &event_key_chars) {
        let event = chars_of(&context.event);
        range_eq(&s, va, vb, &event)
    } else if range_eq(&s, ka, kb, &session_key_chars) {
        let session = chars_of(&context.session_id);
        range_eq(&s, va, vb, &session)
    } else {
        false
    }
}

/// Evaluates a condition for interactive testing; never fails.
pub fn test_hook_condition(condition: &str, context: &HookContext) -> (r: Result<bool, String>)
    ensures
        r == Ok::<bool, String>(condition_holds(condition@, context.event@, context.session_id@)),
{
    Ok(evaluate_condition(condition, context))
}

} // verus!
