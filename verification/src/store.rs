//! The record store: intent records kept by address, one per address, for
//! one deployment. Each lifecycle operation reads the slot that the call
//! names, decides as the operation's own function does, and writes the
//! outcome back; a refused operation leaves the store as it was.

use crate::accounts::{CancelIntent, FulfillIntent, IntentAccount, Settlement, SubmitIntent};
use crate::address::Address;
use crate::cancel::{cancel_intent, cancellation, rederived_cancel_address};
use crate::error::ProtocolError;
use crate::fulfill::{fulfill_intent, fulfillment, rederived_intent_address};
use crate::intent::{Intent, IntentCancelledEvent, IntentSubmittedEvent};
use crate::pda::{authority_address, intent_address};
use crate::submit::{submission, submit_intent};
use vstd::prelude::*;

verus! {

struct Slot {
    key: Address,
    record: Intent,
}

/// Intent records by address.
pub struct IntentStore {
    program_id: Address,
    slots: Vec<Slot>,
}

spec fn holds(slots: Seq<Slot>, key: Address) -> bool {
    exists|i: int| 0 <= i < slots.len() && slots[i].key == key
}

spec fn position(slots: Seq<Slot>, key: Address) -> int {
    choose|i: int| 0 <= i < slots.len() && slots[i].key == key
}

spec fn contents(slots: Seq<Slot>) -> Map<Address, Intent> {
    Map::new(|key: Address| holds(slots, key), |key: Address| slots[position(slots, key)].record)
}

spec fn distinct(slots: Seq<Slot>) -> bool {
    forall|i: int, j: int| 0 <= i < j < slots.len() ==> slots[i].key != slots[j].key
}

spec fn all_anchored(program_id: Address, slots: Seq<Slot>) -> bool {
    forall|i: int| 0 <= i < slots.len() ==> slots[i].record.anchored_at(program_id, slots[i].key)
}

proof fn lemma_position(slots: Seq<Slot>, i: int)
    requires
        distinct(slots),
        0 <= i < slots.len(),
    ensures
        holds(slots, slots[i].key),
        position(slots, slots[i].key) == i,
{
    let j = position(slots, slots[i].key);
    assert(0 <= j < slots.len() && slots[j].key == slots[i].key);
}

proof fn lemma_contents_push(slots: Seq<Slot>, slot: Slot)
    requires
        distinct(slots),
        !holds(slots, slot.key),
    ensures
        distinct(slots.push(slot)),
        contents(slots.push(slot)) == contents(slots).insert(slot.key, slot.record),
{
    let after = slots.push(slot);
    assert forall|i: int, j: int| 0 <= i < j < after.len() implies after[i].key != after[j].key by {
        if j == slots.len() {
            assert(slots[i].key == after[i].key);
        }
    }
    assert forall|key: Address| holds(after, key) <==> (key == slot.key || holds(slots, key)) by {
        if holds(after, key) {
            let i = position(after, key);
            if i < slots.len() {
                assert(slots[i].key == key);
            }
        }
        if key == slot.key {
            assert(after[slots.len() as int].key == key);
        }
        if holds(slots, key) {
            let i = position(slots, key);
            assert(after[i].key == key);
        }
    }
    assert forall|key: Address| holds(after, key) implies #[trigger] contents(after)[key]
        == contents(slots).insert(slot.key, slot.record)[key] by {
        let i = position(after, key);
        lemma_position(after, i);
        if i < slots.len() {
            lemma_position(slots, i);
        }
    }
    assert(contents(after) =~= contents(slots).insert(slot.key, slot.record));
}

proof fn lemma_contents_update(slots: Seq<Slot>, i: int, record: Intent)
    requires
        distinct(slots),
        0 <= i < slots.len(),
    ensures
        distinct(slots.update(i, Slot { key: slots[i].key, record })),
        contents(slots.update(i, Slot { key: slots[i].key, record })) == contents(slots).insert(
            slots[i].key,
            record,
        ),
{
    let after = slots.update(i, Slot { key: slots[i].key, record });
    assert forall|a: int| 0 <= a < slots.len() implies after[a].key == slots[a].key by {}
    assert forall|key: Address| holds(after, key) <==> holds(slots, key) by {
        if holds(after, key) {
            let a = position(after, key);
            assert(slots[a].key == key);
        }
        if holds(slots, key) {
            let a = position(slots, key);
            assert(after[a].key == key);
        }
    }
    lemma_position(slots, i);
    assert forall|key: Address| holds(after, key) implies #[trigger] contents(after)[key]
        == contents(slots).insert(slots[i].key, record)[key] by {
        let a = position(after, key);
        lemma_position(after, a);
        lemma_position(slots, a);
    }
    assert(contents(after) =~= contents(slots).insert(slots[i].key, record));
}

proof fn lemma_contents_remove(slots: Seq<Slot>, i: int)
    requires
        distinct(slots),
        0 <= i < slots.len(),
    ensures
        distinct(slots.remove(i)),
        contents(slots.remove(i)) == contents(slots).remove(slots[i].key),
{
    let after = slots.remove(i);
    assert forall|a: int| 0 <= a < after.len() implies after[a] == slots[if a < i {
        a
    } else {
        a + 1
    }] by {}
    assert forall|key: Address| holds(after, key) <==> (key != slots[i].key && holds(
        slots,
        key,
    )) by {
        if holds(after, key) {
            let a = position(after, key);
            let b = if a < i {
                a
            } else {
                a + 1
            };
            assert(slots[b].key == key);
        }
        if key != slots[i].key && holds(slots, key) {
            let b = position(slots, key);
            let a = if b < i {
                b
            } else {
                b - 1
            };
            assert(after[a].key == key);
        }
    }
    assert forall|key: Address| holds(after, key) implies #[trigger] contents(after)[key]
        == contents(slots).remove(slots[i].key)[key] by {
        let a = position(after, key);
        let b = if a < i {
            a
        } else {
            a + 1
        };
        lemma_position(after, a);
        lemma_position(slots, b);
    }
    assert(contents(after) =~= contents(slots).remove(slots[i].key));
}

/// The slot at `key` as the store `records` shows it.
pub open spec fn slot_of(records: Map<Address, Intent>, key: Address) -> IntentAccount {
    IntentAccount {
        key,
        data: if records.contains_key(key) {
            Some(records[key])
        } else {
            None
        },
    }
}

/// What a submission to the store `records` yields: the outcome of the
/// submission that names the slot as the store shows it.
pub open spec fn submit_outcome(
    records: Map<Address, Intent>,
    program_id: Address,
    accounts: SubmitIntent,
    intent_id: u64,
    input_mint: Address,
    output_mint: Address,
    input_amount: u64,
    expiry_ts: Option<i64>,
    category: u64,
    now: i64,
) -> Result<Intent, ProtocolError> {
    submission(
        SubmitIntent { intent: slot_of(records, accounts.intent.key), user: accounts.user },
        intent_id,
        input_mint,
        output_mint,
        input_amount,
        expiry_ts,
        category,
        now,
        intent_address(program_id, accounts.user.key, intent_id),
    )
}

/// The store after a submission: with the new record in the slot named
/// where the submission is permitted, unchanged where it is refused.
pub open spec fn after_submit(
    records: Map<Address, Intent>,
    program_id: Address,
    accounts: SubmitIntent,
    intent_id: u64,
    input_mint: Address,
    output_mint: Address,
    input_amount: u64,
    expiry_ts: Option<i64>,
    category: u64,
    now: i64,
) -> Map<Address, Intent> {
    match submit_outcome(
        records,
        program_id,
        accounts,
        intent_id,
        input_mint,
        output_mint,
        input_amount,
        expiry_ts,
        category,
        now,
    ) {
        Ok(intent) => records.insert(accounts.intent.key, intent),
        Err(_) => records,
    }
}

/// The cancellation as the store `records` sees it: it names the slot as
/// the store shows it.
pub open spec fn cancel_named(records: Map<Address, Intent>, accounts: CancelIntent)
    -> CancelIntent {
    CancelIntent { intent: slot_of(records, accounts.intent.key), user: accounts.user }
}

/// What a cancellation in the store `records` yields.
pub open spec fn cancel_outcome(
    records: Map<Address, Intent>,
    program_id: Address,
    accounts: CancelIntent,
    intent_id: u64,
) -> Result<IntentCancelledEvent, ProtocolError> {
    cancellation(
        cancel_named(records, accounts),
        rederived_cancel_address(program_id, cancel_named(records, accounts), intent_id),
    )
}

/// The store after a cancellation: without the record where the
/// cancellation is permitted, unchanged where it is refused.
pub open spec fn after_cancel(
    records: Map<Address, Intent>,
    program_id: Address,
    accounts: CancelIntent,
    intent_id: u64,
) -> Map<Address, Intent> {
    match cancel_outcome(records, program_id, accounts, intent_id) {
        Ok(_) => records.remove(accounts.intent.key),
        Err(_) => records,
    }
}

/// The fulfillment as the store `records` sees it: it names the slot as the
/// store shows it.
pub open spec fn fulfill_named(records: Map<Address, Intent>, accounts: FulfillIntent)
    -> FulfillIntent {
    FulfillIntent { intent: slot_of(records, accounts.intent.key), ..accounts }
}

/// What a fulfillment in the store `records` yields.
pub open spec fn fulfill_outcome(
    records: Map<Address, Intent>,
    program_id: Address,
    accounts: FulfillIntent,
    intent_id: u64,
    output_amount_to_user: u64,
    now: i64,
) -> Result<Settlement, ProtocolError> {
    fulfillment(
        fulfill_named(records, accounts),
        output_amount_to_user,
        now,
        rederived_intent_address(program_id, fulfill_named(records, accounts), intent_id),
        authority_address(program_id),
    )
}

/// The store after a fulfillment: with the fulfilled record in place of the
/// open one where the fulfillment is permitted, unchanged where it is
/// refused.
pub open spec fn after_fulfill(
    records: Map<Address, Intent>,
    program_id: Address,
    accounts: FulfillIntent,
    intent_id: u64,
    output_amount_to_user: u64,
    now: i64,
) -> Map<Address, Intent> {
    match fulfill_outcome(records, program_id, accounts, intent_id, output_amount_to_user, now) {
        Ok(settlement) => records.insert(accounts.intent.key, settlement.intent),
        Err(_) => records,
    }
}

impl View for IntentStore {
    type V = Map<Address, Intent>;

    closed spec fn view(&self) -> Map<Address, Intent> {
        contents(self.slots@)
    }
}

impl IntentStore {
    #[verifier::type_invariant]
    spec fn inv(self) -> bool {
        &&& distinct(self.slots@)
        &&& all_anchored(self.program_id, self.slots@)
    }

    /// The deployment that the store belongs to.
    pub closed spec fn deployment(self) -> Address {
        self.program_id
    }

    /// An empty store for the deployment `program_id`.
    pub fn new(program_id: Address) -> (r: IntentStore)
        ensures
            r@ == Map::<Address, Intent>::empty(),
            r.deployment() == program_id,
    {
        let r = IntentStore { program_id, slots: Vec::new() };
        assert(r@ =~= Map::<Address, Intent>::empty());
        r
    }

    /// The deployment that the store belongs to.
    pub fn program_id(&self) -> (r: Address)
        ensures
            r == self.deployment(),
    {
        self.program_id
    }

    fn find(&self, key: &Address) -> (r: Option<usize>)
        ensures
            match r {
                Some(i) => i < self.slots@.len() && self.slots@[i as int].key == *key,
                None => !holds(self.slots@, *key),
            },
    {
        let mut i: usize = 0;
        while i < self.slots.len()
            invariant
                i <= self.slots@.len(),
                forall|j: int| 0 <= j < i ==> self.slots@[j].key != *key,
            decreases self.slots@.len() - i,
        {
            if self.slots[i].key == *key {
                return Some(i);
            }
            i += 1;
        }
        None
    }

    /// Reads the slot at `key`. A record found there belongs there and is
    /// well formed: its input amount is positive.
    pub fn load(&self, key: &Address) -> (r: IntentAccount)
        ensures
            r == slot_of(self@, *key),
            r.data matches Some(record) ==> record.anchored_at(self.deployment(), *key),
    {
        proof {
            use_type_invariant(self);
        }
        match self.find(key) {
            Some(i) => {
                proof {
                    lemma_position(self.slots@, i as int);
                }
                IntentAccount { key: *key, data: Some(self.slots[i].record) }
            },
            None => IntentAccount { key: *key, data: None },
        }
    }
    /// Submits an intent at time `now`. The record is created in the slot
    /// that `accounts` names, which must be free; what `accounts` itself says
    /// of the slot's contents is not read. A refused submission changes
    /// nothing.
    pub fn submit(
        &mut self,
        accounts: &SubmitIntent,
        intent_id: u64,
        input_mint: Address,
        output_mint: Address,
        input_amount: u64,
        expiry_ts: Option<i64>,
        category: u64,
        now: i64,
    ) -> (r: Result<IntentSubmittedEvent, ProtocolError>)
        ensures
            final(self).deployment() == old(self).deployment(),
            final(self)@ == after_submit(
                old(self)@,
                old(self).deployment(),
                *accounts,
                intent_id,
                input_mint,
                output_mint,
                input_amount,
                expiry_ts,
                category,
                now,
            ),
            r == match submit_outcome(
                old(self)@,
                old(self).deployment(),
                *accounts,
                intent_id,
                input_mint,
                output_mint,
                input_amount,
                expiry_ts,
                category,
                now,
            ) {
                Ok(intent) => Ok(IntentSubmittedEvent::of(accounts.intent.key, intent)),
                Err(e) => Err(e),
            },
    {
        proof {
            use_type_invariant(&*self);
        }
        let key = accounts.intent.key;
        let named = SubmitIntent { intent: self.load(&key), user: accounts.user };
        match submit_intent(
            &self.program_id,
            &named,
            intent_id,
            input_mint,
            output_mint,
            input_amount,
            expiry_ts,
            category,
            now,
        ) {
            Ok((intent, event)) => {
                proof {
                    lemma_contents_push(self.slots@, Slot { key, record: intent });
                }
                let mut slots: Vec<Slot> = Vec::new();
                core::mem::swap(&mut self.slots, &mut slots);
                slots.push(Slot { key, record: intent });
                core::mem::swap(&mut self.slots, &mut slots);
                Ok(event)
            },
            Err(e) => Err(e),
        }
    }

    /// Cancels the intent in the slot that `accounts` names: the record is
    /// deleted. What `accounts` itself says of the slot's contents is not
    /// read. A refused cancellation changes nothing.
    pub fn cancel(&mut self, accounts: &CancelIntent, intent_id: u64) -> (r: Result<
        IntentCancelledEvent,
        ProtocolError,
    >)
        ensures
            final(self).deployment() == old(self).deployment(),
            final(self)@ == after_cancel(old(self)@, old(self).deployment(), *accounts, intent_id),
            r == cancel_outcome(old(self)@, old(self).deployment(), *accounts, intent_id),
    {
        proof {
            use_type_invariant(&*self);
        }
        let key = accounts.intent.key;
        let named = CancelIntent { intent: self.load(&key), user: accounts.user };
        match cancel_intent(&self.program_id, &named, intent_id) {
            Ok(event) => {
                match self.find(&key) {
                    Some(i) => {
                        proof {
                            lemma_position(self.slots@, i as int);
                            lemma_contents_remove(self.slots@, i as int);
                        }
                        let mut slots: Vec<Slot> = Vec::new();
                        core::mem::swap(&mut self.slots, &mut slots);
                        slots.remove(i);
                        core::mem::swap(&mut self.slots, &mut slots);
                    },
                    None => {},
                }
                Ok(event)
            },
            Err(e) => Err(e),
        }
    }

    /// Fulfills the intent in the slot that `accounts` names at time `now`:
    /// the record is marked fulfilled, and the settlement returned holds the
    /// two legs, which belong to the same indivisible unit as this call. What
    /// `accounts` itself says of the slot's contents is not read. A refused
    /// fulfillment changes nothing.
    pub fn fulfill(
        &mut self,
        accounts: &FulfillIntent,
        intent_id: u64,
        output_amount_to_user: u64,
        now: i64,
    ) -> (r: Result<Settlement, ProtocolError>)
        ensures
            final(self).deployment() == old(self).deployment(),
            final(self)@ == after_fulfill(
                old(self)@,
                old(self).deployment(),
                *accounts,
                intent_id,
                output_amount_to_user,
                now,
            ),
            r == fulfill_outcome(
                old(self)@,
                old(self).deployment(),
                *accounts,
                intent_id,
                output_amount_to_user,
                now,
            ),
    {
        proof {
            use_type_invariant(&*self);
        }
        let key = accounts.intent.key;
        let named = FulfillIntent {
            intent: self.load(&key),
            user: accounts.user,
            solver: accounts.solver,
            intent_authority: accounts.intent_authority,
            user_input_token_account: accounts.user_input_token_account,
            user_output_token_account: accounts.user_output_token_account,
            solver_input_token_account: accounts.solver_input_token_account,
            solver_output_token_account: accounts.solver_output_token_account,
        };
        match fulfill_intent(&self.program_id, &named, intent_id, output_amount_to_user, now) {
            Ok(settlement) => {
                match self.find(&key) {
                    Some(i) => {
                        proof {
                            lemma_position(self.slots@, i as int);
                            lemma_contents_update(self.slots@, i as int, settlement.intent);
                        }
                        let mut slots: Vec<Slot> = Vec::new();
                        core::mem::swap(&mut self.slots, &mut slots);
                        slots.set(i, Slot { key, record: settlement.intent });
                        core::mem::swap(&mut self.slots, &mut slots);
                    },
                    None => {},
                }
                Ok(settlement)
            },
            Err(e) => Err(e),
        }
    }
}

} // verus!
