//! The reports ledger: pending amounts by account, partitioned by schedule.
//!
//! The ledger itself is plain owned state; whoever shares it guards it with
//! one lock and holds that lock across each of the operations here. A
//! commit does not need the lock while its transaction is under way: it
//! takes its batch out of the pending amounts when it begins, and what is
//! reported meanwhile is pending anew.

use crate::big_amount::BigAmount;
use crate::contracts_abi::{Disbursal, DisbursalView};
use crate::primitives::{Address, Amount};
use vstd::prelude::*;

verus! {

/// A reported amount for an account, under a schedule where one is named.
#[derive(Clone, Copy, Debug, PartialEq, Eq)]
pub struct Report {
    pub account: Address,
    pub amount: Amount,
    pub schedule_key: Option<u64>,
}

/// A point-in-time summary of the pending amounts.
#[derive(Clone, Debug, PartialEq, Eq)]
pub struct ReportStats {
    pub accounts: usize,
    pub total_amount: BigAmount,
}

/// The running total of one account under one schedule.
#[derive(Clone, Debug, PartialEq, Eq)]
pub struct LedgerEntry {
    pub schedule_key: Option<u64>,
    pub account: Address,
    pub amount: BigAmount,
}

/// What an entry says, as plain values.
pub struct EntryView {
    pub schedule_key: Option<u64>,
    pub account: Address,
    pub amount: nat,
}

impl View for LedgerEntry {
    type V = EntryView;

    open spec fn view(&self) -> EntryView {
        EntryView {
            schedule_key: self.schedule_key,
            account: self.account,
            amount: self.amount.value(),
        }
    }
}

/// What each entry says.
pub open spec fn entry_views(entries: Seq<LedgerEntry>) -> Seq<EntryView> {
    Seq::new(entries.len(), |i: int| entries[i]@)
}

/// The key of the ledger's model: a schedule and an account.
pub type LedgerKey = (Option<u64>, Seq<u8>);

/// Whether an entry is the one of this schedule and account.
pub open spec fn entry_is(entry: EntryView, key: LedgerKey) -> bool {
    entry.schedule_key == key.0 && entry.account@ == key.1
}

/// The amount that the entries hold under a key: that of the last entry of
/// the key, if there is one.
pub open spec fn held(entries: Seq<EntryView>, key: LedgerKey) -> Option<nat>
    decreases entries.len(),
{
    if entries.len() == 0 {
        None
    } else if entry_is(entries.last(), key) {
        Some(entries.last().amount)
    } else {
        held(entries.drop_last(), key)
    }
}

/// No two entries have the same schedule and account.
pub open spec fn distinct(entries: Seq<EntryView>) -> bool
    decreases entries.len(),
{
    entries.len() == 0 || (distinct(entries.drop_last()) && held(
        entries.drop_last(),
        (entries.last().schedule_key, entries.last().account@),
    ).is_none())
}

/// The sum of all amounts.
pub open spec fn total_of(entries: Seq<EntryView>) -> nat
    decreases entries.len(),
{
    if entries.len() == 0 {
        0
    } else {
        total_of(entries.drop_last()) + entries.last().amount
    }
}

/// The number of entries under a schedule.
pub open spec fn pending_of(entries: Seq<EntryView>, schedule_key: Option<u64>) -> nat
    decreases entries.len(),
{
    if entries.len() == 0 {
        0
    } else if entries.last().schedule_key == schedule_key {
        pending_of(entries.drop_last(), schedule_key) + 1
    } else {
        pending_of(entries.drop_last(), schedule_key)
    }
}

/// The payments of the entries of a schedule: its accounts with their
/// totals, in the order of the entries.
pub open spec fn disbursals_of(entries: Seq<EntryView>, schedule_key: Option<u64>) -> Seq<
    DisbursalView,
>
    decreases entries.len(),
{
    if entries.len() == 0 {
        Seq::empty()
    } else if entries.last().schedule_key == schedule_key {
        disbursals_of(entries.drop_last(), schedule_key).push(
            DisbursalView { receiver: entries.last().account, amount: entries.last().amount },
        )
    } else {
        disbursals_of(entries.drop_last(), schedule_key)
    }
}

/// The entries without those of a schedule.
pub open spec fn without(entries: Seq<EntryView>, schedule_key: Option<u64>) -> Seq<EntryView>
    decreases entries.len(),
{
    if entries.len() == 0 {
        Seq::empty()
    } else if entries.last().schedule_key == schedule_key {
        without(entries.drop_last(), schedule_key)
    } else {
        without(entries.drop_last(), schedule_key).push(entries.last())
    }
}

/// The entries of a schedule.
pub open spec fn only(entries: Seq<EntryView>, schedule_key: Option<u64>) -> Seq<EntryView>
    decreases entries.len(),
{
    if entries.len() == 0 {
        Seq::empty()
    } else if entries.last().schedule_key == schedule_key {
        only(entries.drop_last(), schedule_key).push(entries.last())
    } else {
        only(entries.drop_last(), schedule_key)
    }
}

/// The amount of every schedule and account that has an entry.
pub open spec fn ledger_map(entries: Seq<EntryView>) -> Map<LedgerKey, nat> {
    Map::new(
        |key: LedgerKey| held(entries, key).is_some(),
        |key: LedgerKey| held(entries, key).unwrap(),
    )
}

/// The pending amount under a key in the ledger's model; zero where there
/// is none.
pub open spec fn amount_under(ledger: Map<LedgerKey, nat>, key: LedgerKey) -> nat {
    if ledger.contains_key(key) {
        ledger[key]
    } else {
        0
    }
}

/// The ledger's model after an amount was reported under a key: the amount
/// is added to what the key had, and no other key changes.
pub open spec fn ingested(ledger: Map<LedgerKey, nat>, key: LedgerKey, amount: nat) -> Map<
    LedgerKey,
    nat,
> {
    ledger.insert(key, amount_under(ledger, key) + amount)
}

/// The ledger's model after a batch was put back under a schedule: each
/// amount of the schedule in the batch is added to what its account has
/// meanwhile.
pub open spec fn restored(
    ledger: Map<LedgerKey, nat>,
    batch: Seq<EntryView>,
    schedule_key: Option<u64>,
) -> Map<LedgerKey, nat>
    decreases batch.len(),
{
    if batch.len() == 0 {
        ledger
    } else {
        let before = restored(ledger, batch.drop_last(), schedule_key);
        if batch.last().schedule_key == schedule_key {
            ingested(before, (schedule_key, batch.last().account@), batch.last().amount)
        } else {
            before
        }
    }
}

/// A position of the entry of a key, where there is one.
pub open spec fn index_of_key(entries: Seq<EntryView>, key: LedgerKey) -> int {
    choose|i: int| 0 <= i < entries.len() && entry_is(#[trigger] entries[i], key)
}

/// The entries after an amount was added for an account under a schedule:
/// the entry of the account is raised where it is, or a new entry is put
/// behind the others.
pub open spec fn with_amount(
    entries: Seq<EntryView>,
    schedule_key: Option<u64>,
    account: Address,
    amount: nat,
) -> Seq<EntryView> {
    let key = (schedule_key, account@);
    if held(entries, key).is_some() {
        let i = index_of_key(entries, key);
        entries.update(
            i,
            EntryView {
                schedule_key: entries[i].schedule_key,
                account: entries[i].account,
                amount: entries[i].amount + amount,
            },
        )
    } else {
        entries.push(EntryView { schedule_key, account, amount })
    }
}

/// The pending entries after a batch was put back under a schedule: each
/// entry of the schedule in the batch is added in its turn.
pub open spec fn with_batch(
    entries: Seq<EntryView>,
    batch: Seq<EntryView>,
    schedule_key: Option<u64>,
) -> Seq<EntryView>
    decreases batch.len(),
{
    if batch.len() == 0 {
        entries
    } else {
        let before = with_batch(entries, batch.drop_last(), schedule_key);
        if batch.last().schedule_key == schedule_key {
            with_amount(before, schedule_key, batch.last().account, batch.last().amount)
        } else {
            before
        }
    }
}

/// The first entries of distinct entries are distinct.
proof fn lemma_distinct_prefix(entries: Seq<EntryView>, n: int)
    requires
        distinct(entries),
        0 <= n <= entries.len(),
    ensures
        distinct(entries.take(n)),
    decreases entries.len(),
{
    if n < entries.len() {
        lemma_distinct_prefix(entries.drop_last(), n);
        assert(entries.drop_last().take(n) =~= entries.take(n));
    } else {
        assert(entries.take(n) =~= entries);
    }
}

/// Among distinct entries, a key has one position at most.
proof fn lemma_one_position(entries: Seq<EntryView>, key: LedgerKey, i: int, j: int)
    requires
        distinct(entries),
        0 <= i < entries.len(),
        0 <= j < entries.len(),
        entry_is(entries[i], key),
        entry_is(entries[j], key),
    ensures
        i == j,
{
    if i != j {
        let (low, high) = if i < j { (i, j) } else { (j, i) };
        let prefix = entries.take(high + 1);
        lemma_distinct_prefix(entries, high + 1);
        assert(prefix.last() == entries[high]);
        lemma_held_none(prefix.drop_last(), key);
        assert(prefix.drop_last()[low] == entries[low]);
    }
}

/// Whether `after` is `before` with the amount of the entry at `i`, which
/// is the one of `key`, raised by `amount`, and all else as it was.
pub open spec fn raised_at(
    before: Seq<EntryView>,
    after: Seq<EntryView>,
    i: int,
    key: LedgerKey,
    amount: nat,
) -> bool {
    &&& 0 <= i < before.len()
    &&& entry_is(before[i], key)
    &&& after == before.update(
        i,
        EntryView {
            schedule_key: before[i].schedule_key,
            account: before[i].account,
            amount: before[i].amount + amount,
        },
    )
}

/// An entry that nothing was held for is held after it is appended, and
/// nothing else changes.
proof fn lemma_held_push(entries: Seq<EntryView>, entry: EntryView, key: LedgerKey)
    ensures
        held(entries.push(entry), key) == (if entry_is(entry, key) {
            Some(entry.amount)
        } else {
            held(entries, key)
        }),
        total_of(entries.push(entry)) == total_of(entries) + entry.amount,
        pending_of(entries.push(entry), key.0) == pending_of(entries, key.0) + (if entry.schedule_key
            == key.0 {
            1nat
        } else {
            0
        }),
{
    assert(entries.push(entry).drop_last() =~= entries);
}

/// Appending an entry of a new key keeps the entries distinct.
proof fn lemma_distinct_push(entries: Seq<EntryView>, entry: EntryView)
    requires
        distinct(entries),
        held(entries, (entry.schedule_key, entry.account@)).is_none(),
    ensures
        distinct(entries.push(entry)),
{
    assert(entries.push(entry).drop_last() =~= entries);
}

/// Nothing is held under a key exactly where no entry is of that key.
proof fn lemma_held_none(entries: Seq<EntryView>, key: LedgerKey)
    ensures
        held(entries, key).is_none() <==> forall|i: int|
            0 <= i < entries.len() ==> !entry_is(#[trigger] entries[i], key),
    decreases entries.len(),
{
    if entries.len() > 0 {
        lemma_held_none(entries.drop_last(), key);
        if held(entries, key).is_none() {
            assert forall|i: int| 0 <= i < entries.len() implies !entry_is(
                #[trigger] entries[i],
                key,
            ) by {
                if i < entries.len() - 1 {
                    assert(entries.drop_last()[i] == entries[i]);
                }
            }
        } else if !entry_is(entries.last(), key) {
            let j = choose|j: int|
                0 <= j < entries.drop_last().len() && entry_is(
                    #[trigger] entries.drop_last()[j],
                    key,
                );
            assert(entries[j] == entries.drop_last()[j]);
        }
    }
}

/// Among distinct entries, the entry at a position is what is held under
/// its key.
proof fn lemma_held_at(entries: Seq<EntryView>, i: int)
    requires
        distinct(entries),
        0 <= i < entries.len(),
    ensures
        held(entries, (entries[i].schedule_key, entries[i].account@)) == Some(entries[i].amount),
    decreases entries.len(),
{
    if i < entries.len() - 1 {
        lemma_held_at(entries.drop_last(), i);
        assert(entries.drop_last()[i] == entries[i]);
    }
}

/// Replacing the amount of one entry changes what is held under its key,
/// and nothing else.
proof fn lemma_replace(entries: Seq<EntryView>, i: int, entry: EntryView, key: LedgerKey)
    requires
        distinct(entries),
        0 <= i < entries.len(),
        entry.schedule_key == entries[i].schedule_key,
        entry.account@ == entries[i].account@,
    ensures
        distinct(entries.update(i, entry)),
        held(entries.update(i, entry), key) == (if entry_is(entry, key) {
            Some(entry.amount)
        } else {
            held(entries, key)
        }),
        total_of(entries.update(i, entry)) + entries[i].amount == total_of(entries) + entry.amount,
        pending_of(entries.update(i, entry), key.0) == pending_of(entries, key.0),
    decreases entries.len(),
{
    let updated = entries.update(i, entry);
    let last_key = (entries.last().schedule_key, entries.last().account@);
    if i == entries.len() - 1 {
        assert(updated.drop_last() =~= entries.drop_last());
    } else {
        assert(updated.drop_last() =~= entries.drop_last().update(i, entry));
        assert(updated.last() == entries.last());
        assert(entries.drop_last()[i] == entries[i]);
        lemma_replace(entries.drop_last(), i, entry, key);
        lemma_replace(entries.drop_last(), i, entry, last_key);
        lemma_held_at(entries.drop_last(), i);
    }
}

/// Taking out a schedule leaves nothing under it, and what is held under
/// the other schedules as it was.
proof fn lemma_without(entries: Seq<EntryView>, schedule_key: Option<u64>, key: LedgerKey)
    requires
        distinct(entries),
    ensures
        distinct(without(entries, schedule_key)),
        held(without(entries, schedule_key), key) == (if key.0 == schedule_key {
            None
        } else {
            held(entries, key)
        }),
        pending_of(without(entries, schedule_key), key.0) == (if key.0 == schedule_key {
            0
        } else {
            pending_of(entries, key.0)
        }),
    decreases entries.len(),
{
    if entries.len() > 0 {
        let rest = entries.drop_last();
        let last_key = (entries.last().schedule_key, entries.last().account@);
        lemma_without(rest, schedule_key, key);
        lemma_without(rest, schedule_key, last_key);
        if entries.last().schedule_key != schedule_key {
            lemma_held_push(without(rest, schedule_key), entries.last(), key);
            lemma_distinct_push(without(rest, schedule_key), entries.last());
        }
    }
}

/// The first `n + 1` entries are the first `n` and the one after them.
proof fn lemma_take_next(entries: Seq<EntryView>, n: int)
    requires
        0 <= n < entries.len(),
    ensures
        entries.take(n + 1).drop_last() == entries.take(n),
        entries.take(n + 1).last() == entries[n],
{
    assert(entries.take(n + 1).drop_last() =~= entries.take(n));
}

/// The pending amounts, by schedule and account, and the batches that
/// commits have taken out of them and not yet settled.
#[derive(Clone, Debug, PartialEq, Eq)]
pub struct ReportsLedger {
    /// One entry for each schedule and account that has a pending amount.
    pub entries: Vec<LedgerEntry>,
    /// The entries that commits under way have read: they are paid out when
    /// their commit succeeds, and pending again when it fails.
    pub in_flight: Vec<LedgerEntry>,
}

impl View for ReportsLedger {
    type V = Map<LedgerKey, nat>;

    /// The pending amount of every schedule and account that has one.
    open spec fn view(&self) -> Map<LedgerKey, nat> {
        ledger_map(entry_views(self.entries@))
    }
}

impl ReportsLedger {
    /// No schedule and account has two pending entries.
    pub open spec fn wf(&self) -> bool {
        distinct(entry_views(self.entries@))
    }

    /// What the pending entries say.
    pub open spec fn pending_views(&self) -> Seq<EntryView> {
        entry_views(self.entries@)
    }

    /// What the entries of the commits under way say.
    pub open spec fn flight_views(&self) -> Seq<EntryView> {
        entry_views(self.in_flight@)
    }

    /// The number of accounts with a pending amount under a schedule.
    pub open spec fn pending(&self, schedule_key: Option<u64>) -> nat {
        pending_of(entry_views(self.entries@), schedule_key)
    }

    /// An empty ledger.
    pub fn new() -> (r: ReportsLedger)
        ensures
            r.wf(),
            r@ == Map::<LedgerKey, nat>::empty(),
            r.entries@.len() == 0,
            r.in_flight@.len() == 0,
    {
        let r = ReportsLedger { entries: Vec::new(), in_flight: Vec::new() };
        proof {
            assert(entry_views(r.entries@) =~= Seq::<EntryView>::empty());
            assert(r@ =~= Map::<LedgerKey, nat>::empty());
        }
        r
    }

    /// The position of the pending entry of a schedule and account.
    fn position(&self, schedule_key: Option<u64>, account: &Address) -> (r: Option<usize>)
        ensures
            match r {
                Some(i) => i < self.entries@.len() && entry_is(
                    self.pending_views()[i as int],
                    (schedule_key, account@),
                ),
                None => held(self.pending_views(), (schedule_key, account@)).is_none(),
            },
    {
        let mut i: usize = 0;
        while i < self.entries.len()
            invariant
                i <= self.entries.len(),
                forall|j: int|
                    0 <= j < i ==> !entry_is(
                        #[trigger] self.pending_views()[j],
                        (schedule_key, account@),
                    ),
            decreases self.entries.len() - i,
        {
            let entry = &self.entries[i];
            if same_schedule(entry.schedule_key, schedule_key) && entry.account == *account {
                return Some(i);
            }
            i += 1;
        }
        proof {
            lemma_held_none(self.pending_views(), (schedule_key, account@));
        }
        None
    }

    /// Adds an amount to the pending total of an account under a schedule,
    /// and makes the entry where there is none.
    pub fn add_amount(&mut self, schedule_key: Option<u64>, account: Address, amount: BigAmount)
        requires
            old(self).wf(),
        ensures
            final(self).wf(),
            final(self).in_flight == old(self).in_flight,
            final(self)@ == ingested(old(self)@, (schedule_key, account@), amount.value()),
            final(self).pending_views() == with_amount(
                old(self).pending_views(),
                schedule_key,
                account,
                amount.value(),
            ),
            !old(self)@.contains_key((schedule_key, account@)) ==> final(self).pending_views()
                == old(self).pending_views().push(
                EntryView { schedule_key, account, amount: amount.value() },
            ),
            old(self)@.contains_key((schedule_key, account@)) ==> exists|i: int|
                raised_at(
                    old(self).pending_views(),
                    final(self).pending_views(),
                    i,
                    (schedule_key, account@),
                    amount.value(),
                ),
            forall|key: Option<u64>|
                key != schedule_key ==> final(self).pending(key) == old(self).pending(key),
            final(self).pending(schedule_key) == old(self).pending(schedule_key) + (if old(
                self,
            )@.contains_key((schedule_key, account@)) {
                0nat
            } else {
                1
            }),
    {
        let ghost key = (schedule_key, account@);
        let ghost before = self.pending_views();
        match self.position(schedule_key, &account) {
            Some(i) => {
                let sum = self.entries[i].amount.add(&amount);
                let replaced = LedgerEntry {
                    schedule_key: self.entries[i].schedule_key,
                    account: self.entries[i].account,
                    amount: sum,
                };
                let ghost raised = replaced@;
                proof {
                    lemma_held_at(before, i as int);
                    lemma_one_position(before, key, i as int, index_of_key(before, key));
                    assert forall|k: LedgerKey| held(before.update(i as int, raised), k) == (if k
                        == key {
                        Some(raised.amount)
                    } else {
                        held(before, k)
                    }) by {
                        lemma_replace(before, i as int, raised, k);
                    }
                    assert forall|k: Option<u64>|
                        pending_of(before.update(i as int, raised), k) == pending_of(before, k) by {
                        lemma_replace(before, i as int, raised, (k, Seq::empty()));
                    }
                    lemma_replace(before, i as int, raised, key);
                }
                self.entries.set(i, replaced);
                proof {
                    assert(self.pending_views() =~= before.update(i as int, raised));
                    assert(raised_at(before, self.pending_views(), i as int, key, amount.value()));
                }
            },
            None => {
                let added = LedgerEntry { schedule_key, account, amount };
                let ghost pushed = added@;
                proof {
                    assert forall|k: LedgerKey| held(before.push(pushed), k) == (if k == key {
                        Some(pushed.amount)
                    } else {
                        held(before, k)
                    }) by {
                        lemma_held_push(before, pushed, k);
                    }
                    assert forall|k: Option<u64>|
                        pending_of(before.push(pushed), k) == pending_of(before, k) + (if k
                            == schedule_key {
                            1nat
                        } else {
                            0
                        }) by {
                        lemma_held_push(before, pushed, (k, Seq::empty()));
                    }
                    lemma_distinct_push(before, pushed);
                }
                self.entries.push(added);
                proof {
                    assert(self.pending_views() =~= before.push(pushed));
                }
            },
        }
        proof {
            assert(final(self)@ =~= ingested(old(self)@, key, amount.value()));
        }
    }

    /// The number of accounts with a pending amount under a schedule.
    pub fn count_for(&self, schedule_key: Option<u64>) -> (r: usize)
        ensures
            r == self.pending(schedule_key),
    {
        let mut count: usize = 0;
        let mut i: usize = 0;
        while i < self.entries.len()
            invariant
                i <= self.entries.len(),
                count <= i,
                count == pending_of(self.pending_views().take(i as int), schedule_key),
            decreases self.entries.len() - i,
        {
            proof {
                lemma_take_next(self.pending_views(), i as int);
            }
            if same_schedule(self.entries[i].schedule_key, schedule_key) {
                count += 1;
            }
            i += 1;
        }
        assert(self.pending_views().take(i as int) =~= self.pending_views());
        count
    }

    /// Takes the pending entries of a schedule out, as the batch of a
    /// commit: they are in flight from now on, behind what already is, and
    /// the schedule has nothing pending. The other schedules stay as they
    /// are.
    pub fn take_batch(&mut self, schedule_key: Option<u64>)
        requires
            old(self).wf(),
        ensures
            final(self).wf(),
            final(self).pending_views() == without(old(self).pending_views(), schedule_key),
            final(self).flight_views() == old(self).flight_views() + only(
                old(self).pending_views(),
                schedule_key,
            ),
            final(self).pending(schedule_key) == 0,
            forall|key: LedgerKey|
                key.0 == schedule_key ==> !(#[trigger] final(self)@.contains_key(key)),
            forall|key: LedgerKey|
                key.0 != schedule_key ==> (#[trigger] final(self)@.contains_key(key)
                    == old(self)@.contains_key(key) && amount_under(final(self)@, key)
                    == amount_under(old(self)@, key)),
    {
        let ghost before = self.pending_views();
        let ghost flying = self.flight_views();
        let mut kept: Vec<LedgerEntry> = Vec::new();
        let mut i: usize = 0;
        proof {
            assert(entry_views(kept@) =~= without(before.take(0), schedule_key));
            assert(self.flight_views() =~= flying + only(before.take(0), schedule_key));
        }
        while i < self.entries.len()
            invariant
                i <= self.entries.len(),
                self.pending_views() == before,
                entry_views(kept@) == without(before.take(i as int), schedule_key),
                self.flight_views() == flying + only(before.take(i as int), schedule_key),
            decreases self.entries.len() - i,
        {
            proof {
                lemma_take_next(before, i as int);
            }
            let ghost kept_before = entry_views(kept@);
            let ghost flight_before = self.flight_views();
            let copy = LedgerEntry {
                schedule_key: self.entries[i].schedule_key,
                account: self.entries[i].account,
                amount: self.entries[i].amount.duplicate(),
            };
            assert(copy@ == before[i as int]);
            if same_schedule(copy.schedule_key, schedule_key) {
                self.in_flight.push(copy);
                assert(self.flight_views() =~= flight_before.push(before[i as int]));
                assert(flying + only(before.take(i as int), schedule_key).push(before[i as int])
                    =~= (flying + only(before.take(i as int), schedule_key)).push(
                    before[i as int],
                ));
            } else {
                kept.push(copy);
                assert(entry_views(kept@) =~= kept_before.push(before[i as int]));
            }
            i += 1;
        }
        proof {
            assert(before.take(i as int) =~= before);
            assert forall|key: LedgerKey|
                held(without(before, schedule_key), key) == (if key.0 == schedule_key {
                    None
                } else {
                    held(before, key)
                }) by {
                lemma_without(before, schedule_key, key);
            }
            lemma_without(before, schedule_key, (schedule_key, Seq::empty()));
        }
        self.entries = kept;
    }

    /// The payments of what is in flight for a schedule: the accounts with
    /// their amounts, in the order in which they were taken.
    pub fn batch(&self, schedule_key: Option<u64>) -> (r: Vec<Disbursal>)
        ensures
            crate::contracts_abi::disbursal_views(r@) == disbursals_of(
                self.flight_views(),
                schedule_key,
            ),
    {
        let mut payments: Vec<Disbursal> = Vec::new();
        let mut i: usize = 0;
        proof {
            assert(crate::contracts_abi::disbursal_views(payments@) =~= disbursals_of(
                self.flight_views().take(0),
                schedule_key,
            ));
        }
        while i < self.in_flight.len()
            invariant
                i <= self.in_flight.len(),
                crate::contracts_abi::disbursal_views(payments@) == disbursals_of(
                    self.flight_views().take(i as int),
                    schedule_key,
                ),
            decreases self.in_flight.len() - i,
        {
            proof {
                lemma_take_next(self.flight_views(), i as int);
            }
            let ghost paid = crate::contracts_abi::disbursal_views(payments@);
            let entry = &self.in_flight[i];
            if same_schedule(entry.schedule_key, schedule_key) {
                payments.push(
                    Disbursal { receiver: entry.account, amount: entry.amount.duplicate() },
                );
                assert(crate::contracts_abi::disbursal_views(payments@) =~= paid.push(
                    DisbursalView {
                        receiver: self.flight_views()[i as int].account,
                        amount: self.flight_views()[i as int].amount,
                    },
                ));
            }
            i += 1;
        }
        assert(self.flight_views().take(i as int) =~= self.flight_views());
        payments
    }

    /// Settles the batch of a schedule: what is in flight for it is paid
    /// out and leaves the ledger. What is pending stays, and so do the
    /// batches of other schedules.
    pub fn settle(&mut self, schedule_key: Option<u64>)
        ensures
            final(self).entries == old(self).entries,
            final(self).flight_views() == without(old(self).flight_views(), schedule_key),
    {
        let ghost flying = self.flight_views();
        let mut kept: Vec<LedgerEntry> = Vec::new();
        let mut i: usize = 0;
        proof {
            assert(entry_views(kept@) =~= without(flying.take(0), schedule_key));
        }
        while i < self.in_flight.len()
            invariant
                i <= self.in_flight.len(),
                self.flight_views() == flying,
                self.entries == old(self).entries,
                entry_views(kept@) == without(flying.take(i as int), schedule_key),
            decreases self.in_flight.len() - i,
        {
            proof {
                lemma_take_next(flying, i as int);
            }
            let ghost kept_before = entry_views(kept@);
            if !same_schedule(self.in_flight[i].schedule_key, schedule_key) {
                kept.push(
                    LedgerEntry {
                        schedule_key: self.in_flight[i].schedule_key,
                        account: self.in_flight[i].account,
                        amount: self.in_flight[i].amount.duplicate(),
                    },
                );
                assert(entry_views(kept@) =~= kept_before.push(flying[i as int]));
            }
            i += 1;
        }
        assert(flying.take(i as int) =~= flying);
        self.in_flight = kept;
    }

    /// Puts the batch of a schedule back: each amount that is in flight for
    /// it is added to what its account has pending meanwhile, and nothing is
    /// in flight for the schedule any more.
    pub fn restore(&mut self, schedule_key: Option<u64>)
        requires
            old(self).wf(),
        ensures
            final(self).wf(),
            final(self)@ == restored(old(self)@, old(self).flight_views(), schedule_key),
            final(self).pending_views() == with_batch(
                old(self).pending_views(),
                old(self).flight_views(),
                schedule_key,
            ),
            final(self).flight_views() == without(old(self).flight_views(), schedule_key),
    {
        let ghost flying = self.flight_views();
        let mut kept: Vec<LedgerEntry> = Vec::new();
        let mut i: usize = 0;
        proof {
            assert(entry_views(kept@) =~= without(flying.take(0), schedule_key));
        }
        while i < self.in_flight.len()
            invariant
                i <= self.in_flight.len(),
                self.wf(),
                self.flight_views() == flying,
                self@ == restored(old(self)@, flying.take(i as int), schedule_key),
                self.pending_views() == with_batch(
                    old(self).pending_views(),
                    flying.take(i as int),
                    schedule_key,
                ),
                entry_views(kept@) == without(flying.take(i as int), schedule_key),
            decreases self.in_flight.len() - i,
        {
            proof {
                lemma_take_next(flying, i as int);
            }
            let ghost kept_before = entry_views(kept@);
            let key = self.in_flight[i].schedule_key;
            let account = self.in_flight[i].account;
            let amount = self.in_flight[i].amount.duplicate();
            assert(flying[i as int] == (EntryView {
                schedule_key: key,
                account,
                amount: amount.value(),
            }));
            if same_schedule(key, schedule_key) {
                self.add_amount(key, account, amount);
            } else {
                kept.push(LedgerEntry { schedule_key: key, account, amount });
                assert(entry_views(kept@) =~= kept_before.push(flying[i as int]));
            }
            i += 1;
        }
        assert(flying.take(i as int) =~= flying);
        self.in_flight = kept;
    }
}

/// Adds the report's amount to the running total of its account under its
/// schedule, and makes the entry where there is none. No amount is too
/// large, and no other account decides.
pub fn aggregate_report(reports: &mut ReportsLedger, report: Report)
    requires
        old(reports).wf(),
    ensures
        final(reports).wf(),
        final(reports).in_flight == old(reports).in_flight,
        final(reports)@ == ingested(
            old(reports)@,
            (report.schedule_key, report.account@),
            report.amount.value(),
        ),
        final(reports).pending_views() == with_amount(
            old(reports).pending_views(),
            report.schedule_key,
            report.account,
            report.amount.value(),
        ),
        !old(reports)@.contains_key((report.schedule_key, report.account@))
            ==> final(reports).pending_views() == old(reports).pending_views().push(
            EntryView {
                schedule_key: report.schedule_key,
                account: report.account,
                amount: report.amount.value(),
            },
        ),
        old(reports)@.contains_key((report.schedule_key, report.account@)) ==> exists|i: int|
            raised_at(
                old(reports).pending_views(),
                final(reports).pending_views(),
                i,
                (report.schedule_key, report.account@),
                report.amount.value(),
            ),
        forall|key: Option<u64>|
            key != report.schedule_key ==> final(reports).pending(key) == old(reports).pending(
                key,
            ),
        final(reports).pending(report.schedule_key) == old(reports).pending(report.schedule_key) + (
        if old(reports)@.contains_key((report.schedule_key, report.account@)) {
            0nat
        } else {
            1
        }),
{
    reports.add_amount(report.schedule_key, report.account, BigAmount::from_amount(report.amount));
}

/// The number of pending entries and the sum of their amounts.
pub fn get_reports_stats(reports: &ReportsLedger) -> (r: ReportStats)
    ensures
        r.accounts == reports.entries@.len(),
        r.total_amount.value() == total_of(reports.pending_views()),
        r.total_amount.wf(),
{
    let mut total = BigAmount::zero();
    let mut i: usize = 0;
    assert(reports.pending_views().take(0) =~= Seq::<EntryView>::empty());
    while i < reports.entries.len()
        invariant
            i <= reports.entries.len(),
            total.wf(),
            total.value() == total_of(reports.pending_views().take(i as int)),
        decreases reports.entries.len() - i,
    {
        proof {
            lemma_take_next(reports.pending_views(), i as int);
        }
        total = total.add(&reports.entries[i].amount);
        i += 1;
    }
    assert(reports.pending_views().take(i as int) =~= reports.pending_views());
    ReportStats { accounts: reports.entries.len(), total_amount: total }
}

/// Whether two schedule keys are the same.
pub fn same_schedule(a: Option<u64>, b: Option<u64>) -> (r: bool)
    ensures
        r == (a == b),
{
    match (a, b) {
        (Some(x), Some(y)) => x == y,
        (None, None) => true,
        _ => false,
    }
}

/// The entries of a schedule are distinct where all entries are, and hold
/// what all entries hold under the schedule.
proof fn lemma_only(entries: Seq<EntryView>, schedule_key: Option<u64>, key: LedgerKey)
    requires
        distinct(entries),
    ensures
        distinct(only(entries, schedule_key)),
        held(only(entries, schedule_key), key) == (if key.0 == schedule_key {
            held(entries, key)
        } else {
            None
        }),
    decreases entries.len(),
{
    if entries.len() > 0 {
        let rest = entries.drop_last();
        let last_key = (entries.last().schedule_key, entries.last().account@);
        lemma_only(rest, schedule_key, key);
        lemma_only(rest, schedule_key, last_key);
        if entries.last().schedule_key == schedule_key {
            lemma_held_push(only(rest, schedule_key), entries.last(), key);
            lemma_distinct_push(only(rest, schedule_key), entries.last());
        }
    }
}

/// Putting a batch of distinct entries back adds, under each key of the
/// schedule, what the batch holds for it, and changes no other key.
pub proof fn lemma_restored_adds(
    ledger: Map<LedgerKey, nat>,
    batch: Seq<EntryView>,
    schedule_key: Option<u64>,
    key: LedgerKey,
)
    requires
        distinct(batch),
    ensures
        key.0 != schedule_key ==> restored(ledger, batch, schedule_key).contains_key(key)
            == ledger.contains_key(key) && amount_under(
            restored(ledger, batch, schedule_key),
            key,
        ) == amount_under(ledger, key),
        key.0 == schedule_key ==> restored(ledger, batch, schedule_key).contains_key(key) == (
        ledger.contains_key(key) || held(batch, key).is_some()) && amount_under(
            restored(ledger, batch, schedule_key),
            key,
        ) == amount_under(ledger, key) + (match held(batch, key) {
            Some(amount) => amount,
            None => 0,
        }),
    decreases batch.len(),
{
    if batch.len() > 0 {
        lemma_restored_adds(ledger, batch.drop_last(), schedule_key, key);
    }
}

/// A commit that fails leaves the ledger as it was: where nothing was
/// reported since the commit took its batch, putting the batch back gives
/// every account what it had.
pub proof fn lemma_failed_commit_gives_back(entries: Seq<EntryView>, schedule_key: Option<u64>)
    requires
        distinct(entries),
    ensures
        restored(
            ledger_map(without(entries, schedule_key)),
            only(entries, schedule_key),
            schedule_key,
        ) == ledger_map(entries),
{
    let taken = ledger_map(without(entries, schedule_key));
    let batch = only(entries, schedule_key);
    let back = restored(taken, batch, schedule_key);
    lemma_only(entries, schedule_key, (schedule_key, Seq::empty()));
    let whole = ledger_map(entries);
    assert forall|key: LedgerKey| #[trigger] back.dom().contains(key) == whole.dom().contains(key) by {
        lemma_without(entries, schedule_key, key);
        lemma_only(entries, schedule_key, key);
        lemma_restored_adds(taken, batch, schedule_key, key);
    }
    assert forall|key: LedgerKey| #[trigger] back.dom().contains(key) implies back[key]
        == whole[key] by {
        lemma_without(entries, schedule_key, key);
        lemma_only(entries, schedule_key, key);
        lemma_restored_adds(taken, batch, schedule_key, key);
    }
    assert(back =~= whole);
}

/// What was reported while a commit was under way is kept when the commit
/// fails too: putting the batch back adds it to what came since.
pub proof fn lemma_failed_commit_keeps_reports(
    entries: Seq<EntryView>,
    schedule_key: Option<u64>,
    account: Seq<u8>,
    amount: nat,
)
    requires
        distinct(entries),
    ensures
        amount_under(
            restored(
                ingested(
                    ledger_map(without(entries, schedule_key)),
                    (schedule_key, account),
                    amount,
                ),
                only(entries, schedule_key),
                schedule_key,
            ),
            (schedule_key, account),
        ) == amount_under(ledger_map(entries), (schedule_key, account)) + amount,
{
    let key = (schedule_key, account);
    let taken = ingested(ledger_map(without(entries, schedule_key)), key, amount);
    lemma_without(entries, schedule_key, key);
    lemma_only(entries, schedule_key, key);
    lemma_restored_adds(taken, only(entries, schedule_key), schedule_key, key);
}

/// A report that comes in while a commit is under way is no part of the
/// commit and is not lost with it: once the commit has taken its batch,
/// the schedule has nothing pending, so that an amount reported then is
/// all that its account has pending, whatever the end of the commit does
/// to the batch.
pub proof fn lemma_report_during_commit_is_kept(
    entries: Seq<EntryView>,
    schedule_key: Option<u64>,
    account: Seq<u8>,
    amount: nat,
)
    requires
        distinct(entries),
    ensures
        amount_under(
            ingested(
                ledger_map(without(entries, schedule_key)),
                (schedule_key, account),
                amount,
            ),
            (schedule_key, account),
        ) == amount,
{
    lemma_without(entries, schedule_key, (schedule_key, account));
}

/// A report never lowers a pending amount: between two commits the amounts
/// only grow.
pub proof fn lemma_amounts_never_decrease(
    before: Map<LedgerKey, nat>,
    key: LedgerKey,
    amount: nat,
    other: LedgerKey,
)
    ensures
        amount_under(ingested(before, key, amount), other) >= amount_under(before, other),
{
}

/// Reports for one account add up: after two reports under the same
/// schedule, the account has both amounts on top of what it had.
pub proof fn lemma_reports_add_up(
    before: Map<LedgerKey, nat>,
    key: LedgerKey,
    first_amount: nat,
    second_amount: nat,
)
    ensures
        amount_under(ingested(ingested(before, key, first_amount), key, second_amount), key)
            == amount_under(before, key) + first_amount + second_amount,
{
}

/// Reports under two distinct schedules never merge: after both are taken,
/// each schedule holds its own report on top of what it held, even for the
/// same account, and every other schedule and account holds what it held.
pub proof fn lemma_schedules_never_merge(
    before: Map<LedgerKey, nat>,
    account: Seq<u8>,
    first_key: Option<u64>,
    first_amount: nat,
    second_key: Option<u64>,
    second_amount: nat,
)
    requires
        first_key != second_key,
    ensures
        ({
            let after = ingested(
                ingested(before, (first_key, account), first_amount),
                (second_key, account),
                second_amount,
            );
            &&& amount_under(after, (first_key, account)) == amount_under(
                before,
                (first_key, account),
            ) + first_amount
            &&& amount_under(after, (second_key, account)) == amount_under(
                before,
                (second_key, account),
            ) + second_amount
            &&& forall|other: LedgerKey|
                other != (first_key, account) && other != (second_key, account) ==> amount_under(
                    after,
                    other,
                ) == amount_under(before, other)
        }),
{
}

} // verus!
