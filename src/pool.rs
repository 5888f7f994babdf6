//! Consumer identities of a pool and the supervisor's restart decision.
use crate::constants::RETRY_BACKOFF_MS;
use crate::text::{digit_char, nat_text, push_nat_text};
use vstd::prelude::*;

verus! {

/// The identity of the consumer with ordinal `ordinal` in a pool whose
/// prefix is `prefix`: `<prefix>_<ordinal>`.
pub open spec fn consumer_identity(prefix: Seq<char>, ordinal: nat) -> Seq<char> {
    prefix + seq!['_'] + nat_text(ordinal)
}

/// The identity `<prefix>_<ordinal>`.
pub fn consumer_name(prefix: &str, ordinal: usize) -> (r: String)
    ensures
        r@ == consumer_identity(prefix@, ordinal as nat),
{
    proof {
        reveal_strlit("_");
    }
    let mut out = String::from_str(prefix);
    out.append("_");
    push_nat_text(&mut out, ordinal as u64);
    proof {
        assert(out@ =~= consumer_identity(prefix@, ordinal as nat));
    }
    out
}

/// The identities of a pool of `count` consumers, by ordinal. A pool of
/// size zero has none.
pub fn pool_consumer_names(prefix: &str, count: usize) -> (r: Vec<String>)
    ensures
        r@.len() == count,
        forall|i: int| 0 <= i < count ==> (#[trigger] r@[i])@ == consumer_identity(prefix@, i as nat),
{
    let mut out: Vec<String> = Vec::new();
    let mut i: usize = 0;
    while i < count
        invariant
            i <= count,
            out@.len() == i,
            forall|j: int| 0 <= j < i ==> (#[trigger] out@[j])@ == consumer_identity(prefix@, j as nat),
        decreases count - i,
    {
        out.push(consumer_name(prefix, i));
        i += 1;
    }
    out
}

proof fn lemma_nat_text_shape(n: nat)
    ensures
        nat_text(n).len() >= 1,
        n >= 10 ==> nat_text(n).len() >= 2,
    decreases n,
{
    if n >= 10 {
        lemma_nat_text_shape(n / 10);
    }
}

/// Different numbers have different decimal texts.
pub proof fn lemma_nat_text_injective(a: nat, b: nat)
    requires
        nat_text(a) == nat_text(b),
    ensures
        a == b,
    decreases a,
{
    lemma_nat_text_shape(a);
    lemma_nat_text_shape(b);
    let digits = seq!['0', '1', '2', '3', '4', '5', '6', '7', '8', '9'];
    if a < 10 && b < 10 {
        assert(nat_text(a)[0] == digit_char(a));
        assert(nat_text(b)[0] == digit_char(b));
        assert(digits[a as int] == digits[b as int]);
    } else if a >= 10 && b >= 10 {
        let ta = nat_text(a);
        let tb = nat_text(b);
        assert(ta.drop_last() =~= nat_text(a / 10));
        assert(tb.drop_last() =~= nat_text(b / 10));
        lemma_nat_text_injective(a / 10, b / 10);
        assert(ta.last() == digit_char(a % 10));
        assert(tb.last() == digit_char(b % 10));
        assert(digits[(a % 10) as int] == digits[(b % 10) as int]);
    } else {
        assert(nat_text(a).len() != nat_text(b).len());
    }
}

/// Two consumers of one pool never share an identity.
pub proof fn lemma_pool_identities_distinct(prefix: Seq<char>, i: nat, j: nat)
    requires
        i != j,
    ensures
        consumer_identity(prefix, i) != consumer_identity(prefix, j),
{
    if consumer_identity(prefix, i) == consumer_identity(prefix, j) {
        let k: int = prefix.len() as int + 1;
        assert(consumer_identity(prefix, i).subrange(k, consumer_identity(prefix, i).len() as int)
            =~= nat_text(i));
        assert(consumer_identity(prefix, j).subrange(k, consumer_identity(prefix, j).len() as int)
            =~= nat_text(j));
        lemma_nat_text_injective(i, j);
    }
}

/// What the supervisor of a pool does once the pool has returned.
#[derive(Debug, Clone, Copy, PartialEq, Eq, Structural)]
pub enum SupervisorAction {
    /// Stop supervising.
    Exit,
    /// Wait `delay_ms` milliseconds, then create the group and start the
    /// whole pool again, under the same identities.
    RestartAfter { delay_ms: u64 },
}

/// Decides what follows the end of a pool run: a pool that returned without
/// error has drained (its workers return only on shutdown) and the
/// supervisor stops; a failed pool is restarted after the backoff. After a
/// shutdown the restarted workers return at once, and the supervisor stops.
pub fn supervisor_next(pool_ok: bool) -> (r: SupervisorAction)
    ensures
        pool_ok ==> r is Exit,
        !pool_ok ==> r == (SupervisorAction::RestartAfter { delay_ms: RETRY_BACKOFF_MS }),
{
    if pool_ok {
        SupervisorAction::Exit
    } else {
        SupervisorAction::RestartAfter { delay_ms: RETRY_BACKOFF_MS }
    }
}

} // verus!
