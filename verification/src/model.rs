//! The contract's state as mathematics, and what each handler does to it.
//!
//! The executable handlers are specified against the functions of this
//! module. Balances and the counter are unbounded integers here; the
//! handlers say in their preconditions which results a machine can hold.

use vstd::prelude::*;

verus! {

/// The state of a contract instance: the counter, its mirrored optional
/// copy, and the balance of every account that has an entry.
pub struct IncrementerView {
    pub value: int,
    pub optional_value: Option<int>,
    pub accounts: Map<Seq<u8>, int>,
}

/// An optional machine integer as an optional mathematical one.
pub open spec fn widen(optional: Option<i32>) -> Option<int> {
    match optional {
        Some(value) => Some(value as int),
        None => None,
    }
}

/// The quotient of three by `divisor`, rounded toward zero.
pub open spec fn three_divided_by(divisor: int) -> int
    recommends
        divisor != 0,
{
    if divisor > 0 {
        3int / divisor
    } else {
        -(3int / (-divisor))
    }
}

impl IncrementerView {
    /// The state right after construction with `init_value`.
    pub open spec fn init(init_value: int) -> IncrementerView {
        IncrementerView {
            value: init_value,
            optional_value: Some(init_value),
            accounts: Map::empty(),
        }
    }

    /// The mirror invariant: the optional copy holds the counter's value.
    pub open spec fn mirrored(self) -> bool {
        self.optional_value == Some(self.value)
    }

    /// The state after `by` was added to the counter and to its mirror.
    pub open spec fn inc(self, by: int) -> IncrementerView
        recommends
            self.optional_value is Some,
    {
        IncrementerView {
            value: self.value + by,
            optional_value: Some(self.optional_value->0 + by),
            accounts: self.accounts,
        }
    }

    /// The state after the increments of `bys` were applied in order.
    pub open spec fn inc_all(self, bys: Seq<int>) -> IncrementerView
        decreases bys.len(),
    {
        if bys.len() == 0 {
            self
        } else {
            self.inc_all(bys.drop_last()).inc(bys.last())
        }
    }

    /// The balance of `caller`: its entry, or zero without one.
    pub open spec fn my_value_or_zero(self, caller: Seq<u8>) -> int {
        if self.accounts.contains_key(caller) {
            self.accounts[caller]
        } else {
            0
        }
    }

    /// The state after `by` was added to the balance of `caller`.
    pub open spec fn incr_my_value(self, caller: Seq<u8>, by: int) -> IncrementerView {
        IncrementerView {
            value: self.value,
            optional_value: self.optional_value,
            accounts: self.accounts.insert(caller, self.my_value_or_zero(caller) + by),
        }
    }
}

/// A fresh instance reads back the value it was made with, from the counter
/// and from the mirror, and no account has an entry in it.
pub proof fn lemma_init_reads_back(init_value: int)
    ensures
        IncrementerView::init(init_value).value == init_value,
        IncrementerView::init(init_value).optional_value == Some(init_value),
        IncrementerView::init(init_value).mirrored(),
        forall|caller: Seq<u8>|
            #[trigger] IncrementerView::init(init_value).my_value_or_zero(caller) == 0,
{
}

/// One increment keeps the mirror invariant and adds `by` to the counter.
pub proof fn lemma_inc_keeps_mirror(state: IncrementerView, by: int)
    requires
        state.mirrored(),
    ensures
        state.inc(by).mirrored(),
        state.inc(by).value == state.value + by,
        state.inc(by).accounts == state.accounts,
{
}

/// Whatever increments are applied in whatever number, the mirror invariant
/// holds after each of them, not only after the last.
pub proof fn lemma_mirror_holds_after_every_inc(state: IncrementerView, bys: Seq<int>)
    requires
        state.mirrored(),
    ensures
        forall|n: int| 0 <= n <= bys.len() ==> (#[trigger] state.inc_all(bys.take(n))).mirrored(),
{
    assert forall|n: int| 0 <= n <= bys.len() implies (#[trigger] state.inc_all(
        bys.take(n),
    )).mirrored() by {
        lemma_inc_all_mirrored(state, bys.take(n));
    }
}

/// A run of increments that starts with the mirror invariant ends with it.
proof fn lemma_inc_all_mirrored(state: IncrementerView, bys: Seq<int>)
    requires
        state.mirrored(),
    ensures
        state.inc_all(bys).mirrored(),
    decreases bys.len(),
{
    if bys.len() > 0 {
        lemma_inc_all_mirrored(state, bys.drop_last());
    }
}

/// A caller without an entry reads zero.
pub proof fn lemma_unseen_caller_reads_zero(state: IncrementerView, caller: Seq<u8>)
    requires
        !state.accounts.contains_key(caller),
    ensures
        state.my_value_or_zero(caller) == 0,
{
}

/// Two increments by the same caller add up: the caller then reads its old
/// balance plus both amounts.
pub proof fn lemma_my_value_accumulates(
    state: IncrementerView,
    caller: Seq<u8>,
    first: int,
    second: int,
)
    ensures
        state.incr_my_value(caller, first).my_value_or_zero(caller) == state.my_value_or_zero(
            caller,
        ) + first,
        state.incr_my_value(caller, first).incr_my_value(caller, second).my_value_or_zero(caller)
            == state.my_value_or_zero(caller) + first + second,
{
}

/// An increment by one caller leaves every other caller's balance, the
/// counter and the mirror as they were, and removes no entry.
pub proof fn lemma_incr_my_value_is_local(
    state: IncrementerView,
    caller: Seq<u8>,
    by: int,
    other: Seq<u8>,
)
    requires
        other != caller,
    ensures
        state.incr_my_value(caller, by).my_value_or_zero(other) == state.my_value_or_zero(other),
        state.incr_my_value(caller, by).accounts.contains_key(other)
            == state.accounts.contains_key(other),
        state.incr_my_value(caller, by).accounts.contains_key(caller),
        state.incr_my_value(caller, by).value == state.value,
        state.incr_my_value(caller, by).optional_value == state.optional_value,
{
}

} // verus!
