use vstd::prelude::*;
use crate::address::{at_derived, counter_address_of};
use crate::key::Key;
use crate::instructions::{
    decrement_outcome, increment_outcome, initialize_outcome, reset_outcome, signed_by,
};
use crate::state::{Counter, CounterAccount, CounterError, Decrement, Increment, Initialize, Reset};

verus! {

/// The sum of +1 for each `true` (an increment) and -1 for each `false`
/// (a decrement).
pub open spec fn net_change(ups: Seq<bool>) -> int
    decreases ups.len(),
{
    if ups.len() == 0 {
        0
    } else {
        (if ups[0] { 1int } else { -1int }) + net_change(ups.drop_first())
    }
}

/// The counter account after one `increment` (`up`) or `decrement`, or the error.
pub open spec fn step_outcome(c: CounterAccount, derived: Option<Seq<u8>>, up: bool) -> Result<CounterAccount, CounterError> {
    if up {
        match increment_outcome(Increment { counter: c }, derived) {
            Ok(a) => Ok(a.counter),
            Err(e) => Err(e),
        }
    } else {
        match decrement_outcome(Decrement { counter: c }, derived) {
            Ok(a) => Ok(a.counter),
            Err(e) => Err(e),
        }
    }
}

/// The counter account after the run of increments and decrements `ups`, or
/// the first error.
pub open spec fn replay(c: CounterAccount, derived: Option<Seq<u8>>, ups: Seq<bool>) -> Result<CounterAccount, CounterError>
    decreases ups.len(),
{
    if ups.len() == 0 {
        Ok(c)
    } else {
        match step_outcome(c, derived, ups[0]) {
            Ok(next) => replay(next, derived, ups.drop_first()),
            Err(e) => Err(e),
        }
    }
}

proof fn lemma_replay_moves_count(c: CounterAccount, derived: Option<Seq<u8>>, ups: Seq<bool>)
    requires
        c.record is Some,
        replay(c, derived, ups) is Ok,
    ensures
        replay(c, derived, ups)->Ok_0.record == Some(Counter {
            count: (c.record->Some_0.count + net_change(ups)) as i64,
            authority: c.record->Some_0.authority,
        }),
        c.record->Some_0.count + net_change(ups) == replay(c, derived, ups)->Ok_0.record->Some_0.count,
    decreases ups.len(),
{
    if ups.len() > 0 {
        let next = step_outcome(c, derived, ups[0])->Ok_0;
        lemma_replay_moves_count(next, derived, ups.drop_first());
    }
}

/// Starting from a freshly initialized counter, a run of `increment` and
/// `decrement` calls that all succeed leaves the count equal to the number of
/// increments minus the number of decrements, and the authority unchanged.
pub proof fn lemma_count_is_net_change(a: Initialize, derived: Option<Seq<u8>>, ups: Seq<bool>)
    requires
        initialize_outcome(a, derived) is Ok,
        replay(initialize_outcome(a, derived)->Ok_0.counter, derived, ups) is Ok,
    ensures
        replay(initialize_outcome(a, derived)->Ok_0.counter, derived, ups)->Ok_0.record
            == Some(Counter { count: net_change(ups) as i64, authority: a.user.key }),
        replay(initialize_outcome(a, derived)->Ok_0.counter, derived, ups)->Ok_0.record->Some_0.count
            == net_change(ups),
{
    lemma_replay_moves_count(initialize_outcome(a, derived)->Ok_0.counter, derived, ups);
}

/// `initialize` is not idempotent: once it has succeeded, initializing the
/// account it created again, by any payer that signed, is refused with
/// `AlreadyInitialized`.
pub proof fn lemma_initialize_once(a: Initialize, b: Initialize, derived: Option<Seq<u8>>)
    requires
        initialize_outcome(a, derived) is Ok,
        b.counter == initialize_outcome(a, derived)->Ok_0.counter,
        b.user.is_signer,
    ensures
        initialize_outcome(b, derived) == Err::<Initialize, CounterError>(CounterError::AlreadyInitialized),
{
}

/// On a record at the derived address, `reset` succeeds exactly when the
/// stored authority signed, and then sets the count to zero and keeps the
/// authority; any other signer is refused with `Unauthorized`.
pub proof fn lemma_reset_needs_authority(a: Reset, derived: Option<Seq<u8>>)
    requires
        at_derived(derived, a.counter.address),
        a.counter.record is Some,
    ensures
        reset_outcome(a, derived) is Ok <==> signed_by(a.authority, a.counter.record->Some_0.authority),
        reset_outcome(a, derived) is Ok ==> reset_outcome(a, derived)->Ok_0.counter.record
            == Some(Counter { count: 0, authority: a.counter.record->Some_0.authority }),
        !signed_by(a.authority, a.counter.record->Some_0.authority) ==> reset_outcome(a, derived)
            == Err::<Reset, CounterError>(CounterError::Unauthorized),
{
}

/// Deriving the counter's address is deterministic: the same program
/// identifier always gives the same address.
pub proof fn lemma_address_deterministic(p: Key, q: Key)
    requires
        p@ == q@,
    ensures
        counter_address_of(p@) == counter_address_of(q@),
{
}

/// Every instruction handed a counter account that is not at the derived
/// address is refused with `AddressMismatch`.
pub proof fn lemma_mismatch_refused(
    derived: Option<Seq<u8>>,
    i: Initialize,
    inc: Increment,
    dec: Decrement,
    rs: Reset,
)
    ensures
        !at_derived(derived, i.counter.address) ==> initialize_outcome(i, derived)
            == Err::<Initialize, CounterError>(CounterError::AddressMismatch),
        !at_derived(derived, inc.counter.address) ==> increment_outcome(inc, derived)
            == Err::<Increment, CounterError>(CounterError::AddressMismatch),
        !at_derived(derived, dec.counter.address) ==> decrement_outcome(dec, derived)
            == Err::<Decrement, CounterError>(CounterError::AddressMismatch),
        !at_derived(derived, rs.counter.address) ==> reset_outcome(rs, derived)
            == Err::<Reset, CounterError>(CounterError::AddressMismatch),
{
}

} // verus!
