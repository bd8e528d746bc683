//! The contract: its storage and its message handlers.

use vstd::prelude::*;
use crate::account::AccountId;
use crate::events::{EventEmitter, IncResult, IncResultView};
use crate::ledger::AccountLedger;
use crate::model::{three_divided_by, widen, IncrementerView};

verus! {

/// The text of the error that `inc_and_emit_event_and_fail` returns.
pub open spec fn handmade_error() -> Seq<char> {
    "Handmade error"@
}

/// The storage of a contract instance: the counter, its mirrored optional
/// copy, and the ledger of per-caller balances.
pub struct Incrementer {
    value: i32,
    optional_value: Option<i32>,
    account_value_map: AccountLedger,
}

impl View for Incrementer {
    type V = IncrementerView;

    /// The stored values as the mathematical state they stand for.
    closed spec fn view(&self) -> IncrementerView {
        IncrementerView {
            value: self.value as int,
            optional_value: widen(self.optional_value),
            accounts: self.account_value_map@,
        }
    }
}

impl Incrementer {
    /// What holds of every instance between two calls: the mirror holds the
    /// counter's value, and the ledger is finite and within what its storage
    /// map can count.
    pub open spec fn wf(&self) -> bool {
        &&& self@.mirrored()
        &&& self@.accounts.dom().finite()
        &&& self@.accounts.len() <= u32::MAX
    }

    /// Whether the counter can take `by`: the sum fits in an `i32`.
    pub open spec fn inc_fits(&self, by: int) -> bool {
        i32::MIN <= self@.value + by <= i32::MAX
    }

    /// Whether the balance of `caller` can take `by`: the sum fits in an
    /// `i32`, and the ledger has room for an entry if `caller` has none.
    pub open spec fn my_value_fits(&self, caller: Seq<u8>, by: int) -> bool {
        &&& i32::MIN <= self@.my_value_or_zero(caller) + by <= i32::MAX
        &&& self@.accounts.contains_key(caller) || self@.accounts.len() < u32::MAX
    }

    /// A new instance whose counter and mirror hold `init_value`, with an
    /// empty ledger.
    pub fn new(init_value: i32) -> (contract: Incrementer)
        ensures
            contract.wf(),
            contract@ == IncrementerView::init(init_value as int),
    {
        Incrementer {
            value: init_value,
            optional_value: Some(init_value),
            account_value_map: AccountLedger::new(),
        }
    }

    /// A new instance that starts at zero.
    pub fn default() -> (contract: Incrementer)
        ensures
            contract.wf(),
            contract@ == IncrementerView::init(0),
    {
        Incrementer::new(0)
    }

    /// The counter.
    pub fn get(&self) -> (value: i32)
        ensures
            value == self@.value,
    {
        self.value
    }

    /// The mirrored optional copy of the counter.
    pub fn get_optional(&self) -> (mirror: Option<i32>)
        ensures
            widen(mirror) == self@.optional_value,
    {
        self.optional_value
    }

    /// Whether [`Incrementer::inc`] may be called with `by`.
    pub fn can_inc(&self, by: i32) -> (ok: bool)
        ensures
            ok == self.inc_fits(by as int),
    {
        self.value.checked_add(by).is_some()
    }

    /// Adds `by` to the counter and to its mirror.
    pub fn inc(&mut self, by: i32)
        requires
            old(self).wf(),
            old(self).inc_fits(by as int),
        ensures
            final(self).wf(),
            final(self)@ == old(self)@.inc(by as int),
    {
        self.value += by;
        self.optional_value = Some(self.optional_value.unwrap() + by);
    }

    /// Adds `by` to the counter and returns the counter's new value.
    pub fn inc_and_return_value(&mut self, by: i32) -> (value: i32)
        requires
            old(self).wf(),
            old(self).inc_fits(by as int),
        ensures
            final(self).wf(),
            final(self)@ == old(self)@.inc(by as int),
            value == final(self)@.value,
    {
        self.inc(by);
        self.get()
    }

    /// Adds `by` to the counter and reports the counter's new value: one
    /// event for `caller`, after all events emitted before it.
    pub fn inc_and_emit_event(&mut self, caller: AccountId, by: i32, emitter: &mut EventEmitter)
        requires
            old(self).wf(),
            old(self).inc_fits(by as int),
        ensures
            final(self).wf(),
            final(self)@ == old(self)@.inc(by as int),
            final(emitter)@ == old(emitter)@.push(
                (IncResultView { caller: caller@, current_value: Ok(final(self)@.value) }),
            ),
    {
        self.inc(by);
        emitter.emit(IncResult { caller, current_value: Ok(self.get()) });
    }

    /// Adds `by` to the counter, reports an error and returns it. The
    /// counter keeps the increment and the event is emitted before the error
    /// comes back; what becomes of either afterwards is the caller's to decide.
    pub fn inc_and_emit_event_and_fail(
        &mut self,
        caller: AccountId,
        by: i32,
        emitter: &mut EventEmitter,
    ) -> (outcome: Result<i32, String>)
        requires
            old(self).wf(),
            old(self).inc_fits(by as int),
        ensures
            final(self).wf(),
            final(self)@ == old(self)@.inc(by as int),
            final(emitter)@ == old(emitter)@.push(
                (IncResultView { caller: caller@, current_value: Err(handmade_error()) }),
            ),
            outcome matches Err(message) && message@ == handmade_error(),
    {
        self.inc(by);
        let err_msg: String = "Handmade error".to_owned();
        emitter.emit(IncResult { caller, current_value: Err(err_msg.clone()) });
        Err(err_msg)
    }

    /// Divides three by `manual_zero`, rounding toward zero. The state stays
    /// as it is. There is no quotient for zero, so zero is not accepted.
    pub fn divided_by_zero_and_fail(&mut self, manual_zero: i32) -> (quotient: i32)
        requires
            manual_zero != 0,
        ensures
            quotient == three_divided_by(manual_zero as int),
            *final(self) == *old(self),
    {
        if manual_zero > 0 {
            3 / manual_zero
        } else if manual_zero == i32::MIN {
            0
        } else {
            -(3 / (-manual_zero))
        }
    }

    /// The balance of `caller`, or zero if `caller` has none yet.
    pub fn get_my_value_or_zero(&self, caller: AccountId) -> (balance: i32)
        ensures
            balance == self@.my_value_or_zero(caller@),
    {
        self.get_account_value_or_zero(caller)
    }

    /// Whether [`Incrementer::incr_my_value`] may be called with `caller`
    /// and `by`.
    pub fn can_incr_my_value(&self, caller: AccountId, by: i32) -> (ok: bool)
        requires
            self.wf(),
        ensures
            ok == self.my_value_fits(caller@, by as int),
    {
        self.account_value_map.accepts_increment(&caller, by)
    }

    /// Adds `by` to the balance of `caller`, whose first increment creates
    /// its entry. The counter, the mirror and all other balances stay as
    /// they are.
    pub fn incr_my_value(&mut self, caller: AccountId, by: i32)
        requires
            old(self).wf(),
            old(self).my_value_fits(caller@, by as int),
        ensures
            final(self).wf(),
            final(self)@ == old(self)@.incr_my_value(caller@, by as int),
    {
        self.account_value_map.increment(&caller, by);
    }

    /// The balance that the ledger holds for `account_id`, or zero.
    fn get_account_value_or_zero(&self, account_id: AccountId) -> (balance: i32)
        ensures
            balance == self@.my_value_or_zero(account_id@),
    {
        self.account_value_map.get_or_zero(&account_id)
    }
}

} // verus!
