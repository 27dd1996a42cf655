//! Executor status records and the aggregator that keeps the latest record
//! of every executor.

use crate::contracts_abi::AdditionalData;
use crate::primitives::TimeSpan;
use vstd::prelude::*;

verus! {

/// Lifecycle status of an executor.
#[derive(Clone, Copy, Debug, PartialEq, Eq, Hash, Structural)]
pub enum Status {
    Running,
    Succeeded,
    Failed,
    Timeout,
}

/// Where the commit pipeline of an executor stands.
#[derive(Clone, Copy, Debug, PartialEq, Eq, Hash, Structural)]
pub enum TransactionStatus {
    Succeeded,
    StepFailed,
    TransactionFailed,
    StepPending,
    TransactionPending,
    NotExecuted,
}

/// Lifecycle status of an executor that only watches a time limit.
#[derive(Clone, Copy, Debug, PartialEq, Eq, Hash, Structural)]
pub enum ExecStatus {
    RUNNING,
    COMPLETED,
    TIMEOUT,
}

impl Status {
    /// Whether the executor's task has ended in this status.
    pub open spec fn spec_is_terminal(self) -> bool {
        self != Status::Running
    }

    /// Whether the executor's task has ended in this status.
    #[verifier::when_used_as_spec(spec_is_terminal)]
    pub fn is_terminal(self) -> (r: bool)
        ensures
            r == self.spec_is_terminal(),
    {
        match self {
            Status::Running => false,
            _ => true,
        }
    }
}

/// The names and values of event parameters, as texts.
pub open spec fn params_view(params: Seq<AdditionalData>) -> Seq<(Seq<char>, Seq<char>)> {
    Seq::new(params.len(), |i: int| (params[i].name@, params[i].value@))
}

/// Copies a list of event parameters.
pub fn clone_params(params: &Vec<AdditionalData>) -> (r: Vec<AdditionalData>)
    ensures
        params_view(r@) == params_view(params@),
{
    let mut copy: Vec<AdditionalData> = Vec::new();
    let mut i: usize = 0;
    while i < params.len()
        invariant
            i <= params.len(),
            copy@.len() == i,
            forall|j: int|
                0 <= j < i ==> copy@[j].name@ == params@[j].name@ && copy@[j].value@
                    == params@[j].value@,
        decreases params.len() - i,
    {
        copy.push(AdditionalData { name: params[i].name.clone(), value: params[i].value.clone() });
        i += 1;
    }
    copy
}

/// What a status record says, as plain values.
pub struct StatsView {
    pub id: u128,
    pub sequence_number: u32,
    pub app: Seq<char>,
    pub creation_time: TimeSpan,
    pub status: Status,
    pub transaction_status: TransactionStatus,
    pub message: Seq<char>,
    pub params: Seq<(Seq<char>, Seq<char>)>,
    pub elapsed: TimeSpan,
    pub remaining: TimeSpan,
}

/// The record that an executor emits on every state transition.
#[derive(Clone, Debug, PartialEq, Eq)]
pub struct TimerExecutorStats {
    /// The executor's identity.
    pub id: u128,
    /// The sequence number of the deferred call that started the executor.
    pub sequence_number: u32,
    /// The application name of the executor's solver.
    pub app: String,
    /// When the executor was made, since the Unix epoch.
    pub creation_time: TimeSpan,
    pub status: Status,
    pub transaction_status: TransactionStatus,
    pub message: String,
    /// The parameters of the event, for audit.
    pub params: Vec<AdditionalData>,
    /// The time since the executor's start.
    pub elapsed: TimeSpan,
    /// The time until the deadline, while the executor runs.
    pub remaining: TimeSpan,
}

impl View for TimerExecutorStats {
    type V = StatsView;

    open spec fn view(&self) -> StatsView {
        StatsView {
            id: self.id,
            sequence_number: self.sequence_number,
            app: self.app@,
            creation_time: self.creation_time,
            status: self.status,
            transaction_status: self.transaction_status,
            message: self.message@,
            params: params_view(self.params@),
            elapsed: self.elapsed,
            remaining: self.remaining,
        }
    }
}

impl TimerExecutorStats {
    /// Copies a record.
    pub fn duplicate(&self) -> (r: TimerExecutorStats)
        ensures
            r@ == self@,
    {
        TimerExecutorStats {
            id: self.id,
            sequence_number: self.sequence_number,
            app: self.app.clone(),
            creation_time: self.creation_time,
            status: self.status,
            transaction_status: self.transaction_status,
            message: self.message.clone(),
            params: clone_params(&self.params),
            elapsed: self.elapsed,
            remaining: self.remaining,
        }
    }
}

/// Whether a record with this content is among the records.
pub open spec fn has(records: Seq<TimerExecutorStats>, content: StatsView) -> bool {
    exists|i: int| 0 <= i < records.len() && (#[trigger] records[i])@ == content
}

/// Whether a record of this executor is among the records.
pub open spec fn has_id(records: Seq<TimerExecutorStats>, id: u128) -> bool {
    exists|i: int| 0 <= i < records.len() && (#[trigger] records[i]).id == id
}

/// The records are in the order of their creation times.
pub open spec fn ordered(records: Seq<TimerExecutorStats>) -> bool {
    forall|i: int, j: int|
        0 <= i < j < records.len() ==> (#[trigger] records[i]).creation_time.total_nanos() <= (
        #[trigger] records[j]).creation_time.total_nanos()
}

/// No two records are of the same executor.
pub open spec fn one_per_executor(records: Seq<TimerExecutorStats>) -> bool {
    forall|i: int, j: int|
        0 <= i < j < records.len() ==> (#[trigger] records[i]).id != (#[trigger] records[j]).id
}

/// The creation times are proper spans.
pub open spec fn proper_times(records: Seq<TimerExecutorStats>) -> bool {
    forall|i: int| 0 <= i < records.len() ==> (#[trigger] records[i]).creation_time.wf()
}

/// Taking a record out keeps the order, and leaves no record of its
/// executor.
proof fn lemma_remove_keeps_order(before: Seq<TimerExecutorStats>, i: int)
    requires
        0 <= i < before.len(),
        ordered(before),
        one_per_executor(before),
        proper_times(before),
    ensures
        ordered(before.remove(i)),
        one_per_executor(before.remove(i)),
        proper_times(before.remove(i)),
        !has_id(before.remove(i), before[i].id),
{
}

/// Taking a record out leaves the others, and nothing else.
proof fn lemma_remove_keeps_others(before: Seq<TimerExecutorStats>, i: int)
    requires
        0 <= i < before.len(),
    ensures
        forall|k: int|
            0 <= k < before.len() && k != i ==> has(before.remove(i), (#[trigger] before[k])@),
        forall|j: int|
            0 <= j < before.remove(i).len() ==> has(before, (#[trigger] before.remove(i)[j])@),
{
    let after = before.remove(i);
    assert forall|k: int| 0 <= k < before.len() && k != i implies has(
        after,
        (#[trigger] before[k])@,
    ) by {
        let x = if k < i { k } else { k - 1 };
        assert(after[x] == before[k]);
    }
}

/// Putting a record in at its place keeps the order.
proof fn lemma_insert_keeps_order(
    before: Seq<TimerExecutorStats>,
    place: int,
    added: TimerExecutorStats,
)
    requires
        0 <= place <= before.len(),
        ordered(before),
        one_per_executor(before),
        proper_times(before),
        added.creation_time.wf(),
        !has_id(before, added.id),
        forall|j: int|
            0 <= j < place ==> (#[trigger] before[j]).creation_time.total_nanos()
                <= added.creation_time.total_nanos(),
        place < before.len() ==> added.creation_time.total_nanos()
            < before[place].creation_time.total_nanos(),
    ensures
        ordered(before.insert(place, added)),
        one_per_executor(before.insert(place, added)),
        proper_times(before.insert(place, added)),
{
    let after = before.insert(place, added);
    assert forall|a: int, b: int| 0 <= a < b < after.len() implies (#[trigger] after[a]).id != (
    #[trigger] after[b]).id && after[a].creation_time.total_nanos()
        <= after[b].creation_time.total_nanos() by {
        if a == place && place < b - 1 {
            assert(before[place].creation_time.total_nanos()
                <= before[b - 1].creation_time.total_nanos());
        }
    }
}

/// Putting a record in leaves the others, and adds nothing else.
proof fn lemma_insert_keeps_others(
    before: Seq<TimerExecutorStats>,
    place: int,
    added: TimerExecutorStats,
)
    requires
        0 <= place <= before.len(),
    ensures
        has(before.insert(place, added), added@),
        forall|k: int|
            0 <= k < before.len() ==> has(before.insert(place, added), (#[trigger] before[k])@),
        forall|j: int|
            0 <= j < before.insert(place, added).len() ==> ((
            #[trigger] before.insert(place, added)[j])@ == added@ || has(
                before,
                before.insert(place, added)[j]@,
            )),
{
    let after = before.insert(place, added);
    assert(after[place] == added);
    assert forall|k: int| 0 <= k < before.len() implies has(after, (#[trigger] before[k])@) by {
        let x = if k < place { k } else { k + 1 };
        assert(after[x] == before[k]);
    }
}

/// A position of the record of an executor, where it has one.
pub open spec fn index_of(records: Seq<TimerExecutorStats>, id: u128) -> int {
    choose|i: int| 0 <= i < records.len() && (#[trigger] records[i]).id == id
}

/// The latest record of every executor, by the executor's identity.
pub open spec fn latest_by_id(records: Seq<TimerExecutorStats>) -> Map<u128, StatsView> {
    Map::new(|id: u128| has_id(records, id), |id: u128| records[index_of(records, id)]@)
}

/// The mapping after the first `n` of the received records were taken in,
/// one after the other: of each executor the latest record wins.
pub open spec fn received_into(
    start: Map<u128, StatsView>,
    received: Seq<TimerExecutorStats>,
    n: int,
) -> Map<u128, StatsView>
    decreases n,
{
    if n <= 0 || n > received.len() {
        start
    } else {
        received_into(start, received, n - 1).insert(received[n - 1].id, received[n - 1]@)
    }
}

/// The records without the one of an executor.
pub open spec fn without_id(records: Seq<TimerExecutorStats>, id: u128) -> Seq<TimerExecutorStats> {
    if has_id(records, id) {
        records.remove(index_of(records, id))
    } else {
        records
    }
}

/// Whether `after` is `before` with a record put in at `place`, which is
/// its place in the order of creation times: behind every record that is
/// not younger, before the first that is.
pub open spec fn placed_at(
    before: Seq<TimerExecutorStats>,
    after: Seq<TimerExecutorStats>,
    place: int,
    added: TimerExecutorStats,
) -> bool {
    &&& 0 <= place <= before.len()
    &&& after == before.insert(place, added)
    &&& forall|j: int|
        0 <= j < place ==> (#[trigger] before[j]).creation_time.total_nanos()
            <= added.creation_time.total_nanos()
    &&& place < before.len() ==> added.creation_time.total_nanos()
        < before[place].creation_time.total_nanos()
}

/// Where every executor has one record, the record of an executor is found
/// at its position.
proof fn lemma_index_of(records: Seq<TimerExecutorStats>, i: int)
    requires
        one_per_executor(records),
        0 <= i < records.len(),
    ensures
        has_id(records, records[i].id),
        index_of(records, records[i].id) == i,
{
    let j = index_of(records, records[i].id);
    assert(records[j].id == records[i].id);
}

/// Where every executor has one record, the mapping gives each record under
/// its executor.
pub proof fn lemma_latest_at(records: Seq<TimerExecutorStats>, i: int)
    requires
        one_per_executor(records),
        0 <= i < records.len(),
    ensures
        latest_by_id(records).contains_key(records[i].id),
        latest_by_id(records)[records[i].id] == records[i]@,
{
    lemma_index_of(records, i);
}

/// Records that hold the new record, the old records of the other
/// executors and nothing else, give the old mapping with the new record
/// under its executor.
proof fn lemma_latest_after_insert(
    before: Seq<TimerExecutorStats>,
    after: Seq<TimerExecutorStats>,
    added: StatsView,
)
    requires
        one_per_executor(before),
        one_per_executor(after),
        has(after, added),
        forall|i: int|
            0 <= i < before.len() && (#[trigger] before[i]).id != added.id ==> has(
                after,
                before[i]@,
            ),
        forall|j: int|
            0 <= j < after.len() ==> ((#[trigger] after[j])@ == added || (has(before, after[j]@)
                && after[j].id != added.id)),
    ensures
        latest_by_id(after) == latest_by_id(before).insert(added.id, added),
{
    let old_map = latest_by_id(before);
    let new_map = latest_by_id(after);
    assert forall|k: u128| new_map.contains_key(k) implies #[trigger] old_map.insert(
        added.id,
        added,
    ).contains_key(k) && new_map[k] == old_map.insert(added.id, added)[k] by {
        let j = index_of(after, k);
        lemma_latest_at(after, j);
        if after[j]@ != added {
            let m = choose|m: int| 0 <= m < before.len() && (#[trigger] before[m])@ == after[j]@;
            lemma_latest_at(before, m);
        }
    }
}

/// Whether a filter lets a status pass: an empty filter lets every status
/// pass, another one the statuses it lists.
pub open spec fn passes(filter: Seq<Status>, status: Status) -> bool {
    filter.len() == 0 || filter.contains(status)
}

/// The content of the records that a filter lets pass, in their order.
pub open spec fn selected(records: Seq<TimerExecutorStats>, filter: Seq<Status>) -> Seq<StatsView>
    decreases records.len(),
{
    if records.len() == 0 {
        Seq::empty()
    } else if passes(filter, records.last().status) {
        selected(records.drop_last(), filter).push(records.last()@)
    } else {
        selected(records.drop_last(), filter)
    }
}

/// Whether a record with this content is among the records and passes
/// the filter.
pub open spec fn has_passing(
    records: Seq<TimerExecutorStats>,
    filter: Seq<Status>,
    content: StatsView,
) -> bool {
    exists|i: int|
        0 <= i < records.len() && (#[trigger] records[i])@ == content && passes(
            filter,
            records[i].status,
        )
}

/// What a filter selects is the content of the records that pass it.
pub proof fn lemma_selected_members(
    records: Seq<TimerExecutorStats>,
    filter: Seq<Status>,
    content: StatsView,
)
    ensures
        selected(records, filter).contains(content) <==> has_passing(records, filter, content),
    decreases records.len(),
{
    if records.len() > 0 {
        let rest = records.drop_last();
        let chosen = selected(rest, filter);
        lemma_selected_members(rest, filter, content);
        if has_passing(records, filter, content) {
            let i = choose|i: int|
                0 <= i < records.len() && (#[trigger] records[i])@ == content && passes(
                    filter,
                    records[i].status,
                );
            if i < records.len() - 1 {
                assert(rest[i] == records[i]);
                let k = choose|k: int| 0 <= k < chosen.len() && chosen[k] == content;
                if passes(filter, records.last().status) {
                    assert(chosen.push(records.last()@)[k] == content);
                }
            } else {
                assert(chosen.push(records.last()@)[chosen.len() as int] == content);
            }
        }
    }
}

/// What a filter selects from the records of an aggregator is the latest
/// record of every executor whose status passes, and nothing else.
pub proof fn lemma_selected_are_latest(
    records: Seq<TimerExecutorStats>,
    filter: Seq<Status>,
    content: StatsView,
)
    requires
        one_per_executor(records),
    ensures
        selected(records, filter).contains(content) <==> (latest_by_id(records).contains_key(
            content.id,
        ) && latest_by_id(records)[content.id] == content && passes(filter, content.status)),
{
    lemma_selected_members(records, filter, content);
    if has_passing(records, filter, content) {
        let i = choose|i: int|
            0 <= i < records.len() && (#[trigger] records[i])@ == content && passes(
                filter,
                records[i].status,
            );
        lemma_latest_at(records, i);
    }
}

/// The content of each record.
pub open spec fn contents(records: Seq<TimerExecutorStats>) -> Seq<StatsView> {
    Seq::new(records.len(), |i: int| records[i]@)
}

/// Whether a filter lets a status pass.
pub fn filter_passes(filter: &Vec<Status>, status: Status) -> (r: bool)
    ensures
        r == passes(filter@, status),
{
    if filter.len() == 0 {
        return true;
    }
    let mut i: usize = 0;
    while i < filter.len()
        invariant
            i <= filter.len(),
            forall|j: int| 0 <= j < i ==> filter@[j] != status,
        decreases filter.len() - i,
    {
        if filter[i] == status {
            return true;
        }
        i += 1;
    }
    false
}

/// The latest status record of every executor, in the order of the
/// executors' creation times. Records stay until the process ends.
#[derive(Clone, Debug, PartialEq, Eq)]
pub struct StatsMap {
    pub records: Vec<TimerExecutorStats>,
}

impl View for StatsMap {
    type V = Map<u128, StatsView>;

    /// The latest record of every executor, by the executor's identity.
    open spec fn view(&self) -> Map<u128, StatsView> {
        latest_by_id(self.records@)
    }
}

impl StatsMap {
    /// The records are ordered by creation time, one for each executor, and
    /// their times are proper spans.
    pub open spec fn wf(&self) -> bool {
        &&& ordered(self.records@)
        &&& one_per_executor(self.records@)
        &&& proper_times(self.records@)
    }

    /// An aggregator without records.
    pub fn new() -> (r: StatsMap)
        ensures
            r.wf(),
            r.records@.len() == 0,
            r@ == Map::<u128, StatsView>::empty(),
    {
        let r = StatsMap { records: Vec::new() };
        r
    }

    /// Takes the record of an executor out, if there is one.
    fn take_out(&mut self, id: u128) -> (found: bool)
        requires
            old(self).wf(),
        ensures
            final(self).wf(),
            found == has_id(old(self).records@, id),
            final(self).records@ == without_id(old(self).records@, id),
            !has_id(final(self).records@, id),
            final(self).records@.len() + (if found { 1nat } else { 0 }) == old(self).records@.len(),
            forall|i: int|
                0 <= i < old(self).records@.len() && (#[trigger] old(self).records@[i]).id != id
                    ==> has(final(self).records@, old(self).records@[i]@),
            forall|j: int|
                0 <= j < final(self).records@.len() ==> has(
                    old(self).records@,
                    (#[trigger] final(self).records@[j])@,
                ),
    {
        let mut i: usize = 0;
        while i < self.records.len()
            invariant
                i <= self.records.len(),
                *self == *old(self),
                self.wf(),
                forall|j: int| 0 <= j < i ==> (#[trigger] self.records@[j]).id != id,
            decreases self.records.len() - i,
        {
            if self.records[i].id == id {
                let _ = self.records.remove(i);
                proof {
                    lemma_index_of(old(self).records@, i as int);
                    lemma_remove_keeps_order(old(self).records@, i as int);
                    lemma_remove_keeps_others(old(self).records@, i as int);
                }
                return true;
            }
            i += 1;
        }
        proof {
            assert forall|k: int| 0 <= k < self.records@.len() implies has(
                self.records@,
                (#[trigger] self.records@[k])@,
            ) by {}
        }
        false
    }

    /// Puts the record of an executor that has none in, at its place in
    /// the order of creation times: behind the records that are not younger.
    fn put_in(&mut self, stats: TimerExecutorStats)
        requires
            old(self).wf(),
            !has_id(old(self).records@, stats.id),
            stats.creation_time.wf(),
        ensures
            final(self).wf(),
            final(self).records@.len() == old(self).records@.len() + 1,
            exists|place: int| placed_at(old(self).records@, final(self).records@, place, stats),
            has(final(self).records@, stats@),
            forall|i: int|
                0 <= i < old(self).records@.len() ==> has(
                    final(self).records@,
                    (#[trigger] old(self).records@[i])@,
                ),
            forall|j: int|
                0 <= j < final(self).records@.len() ==> ((#[trigger] final(self).records@[j])@
                    == stats@ || has(old(self).records@, final(self).records@[j]@)),
    {
        let mut place: usize = 0;
        while place < self.records.len() && !stats.creation_time.lt(
            self.records[place].creation_time,
        )
            invariant
                place <= self.records.len(),
                *self == *old(self),
                self.wf(),
                stats.creation_time.wf(),
                forall|j: int|
                    0 <= j < place ==> (#[trigger] self.records@[j]).creation_time.total_nanos()
                        <= stats.creation_time.total_nanos(),
            decreases self.records.len() - place,
        {
            place += 1;
        }
        let ghost added = stats;
        self.records.insert(place, stats);
        proof {
            lemma_insert_keeps_order(old(self).records@, place as int, added);
            lemma_insert_keeps_others(old(self).records@, place as int, added);
            assert(placed_at(old(self).records@, self.records@, place as int, added));
        }
    }

    /// Records the latest status of an executor: the record takes the place
    /// of the one that the executor had, if any. The records of the other
    /// executors stay.
    pub fn insert(&mut self, stats: TimerExecutorStats)
        requires
            old(self).wf(),
            stats.creation_time.wf(),
        ensures
            final(self).wf(),
            final(self)@ == old(self)@.insert(stats.id, stats@),
            exists|place: int|
                placed_at(
                    without_id(old(self).records@, stats.id),
                    final(self).records@,
                    place,
                    stats,
                ),
            has(final(self).records@, stats@),
            final(self).records@.len() == old(self).records@.len() + (if has_id(
                old(self).records@,
                stats.id,
            ) {
                0nat
            } else {
                1
            }),
            forall|i: int|
                0 <= i < old(self).records@.len() && (#[trigger] old(self).records@[i]).id
                    != stats.id ==> has(final(self).records@, old(self).records@[i]@),
            forall|j: int|
                0 <= j < final(self).records@.len() ==> ((#[trigger] final(self).records@[j])@
                    == stats@ || (has(old(self).records@, final(self).records@[j]@)
                    && final(self).records@[j].id != stats.id)),
    {
        let ghost content = stats@;
        let _ = self.take_out(stats.id);
        self.put_in(stats);
        proof {
            lemma_latest_after_insert(old(self).records@, self.records@, content);
        }
    }

}

/// Takes in the records received from the executors, in the order in
/// which they came: of each executor the latest record stays.
pub fn run_stats_receive(received: Vec<TimerExecutorStats>, stats_map: &mut StatsMap)
    requires
        old(stats_map).wf(),
        forall|i: int| 0 <= i < received@.len() ==> (#[trigger] received@[i]).creation_time.wf(),
    ensures
        final(stats_map).wf(),
        final(stats_map)@ == received_into(old(stats_map)@, received@, received@.len() as int),
{
    let mut i: usize = 0;
    while i < received.len()
        invariant
            i <= received.len(),
            stats_map.wf(),
            forall|k: int|
                0 <= k < received@.len() ==> (#[trigger] received@[k]).creation_time.wf(),
            stats_map@ == received_into(old(stats_map)@, received@, i as int),
        decreases received.len() - i,
    {
        let stats = received[i].duplicate();
        stats_map.insert(stats);
        i += 1;
    }
}

/// The current records that the filter lets pass, ordered by creation
/// time. An empty filter lets all pass.
pub fn get_stats_json(stats: &StatsMap, filter: &Vec<Status>) -> (r: Vec<TimerExecutorStats>)
    requires
        stats.wf(),
    ensures
        contents(r@) == selected(stats.records@, filter@),
        ordered(r@),
{
    let mut list: Vec<TimerExecutorStats> = Vec::new();
    let mut i: usize = 0;
    while i < stats.records.len()
        invariant
            i <= stats.records.len(),
            stats.wf(),
            contents(list@) == selected(stats.records@.take(i as int), filter@),
            ordered(list@),
            forall|k: int, j: int|
                0 <= k < list@.len() && i <= j < stats.records@.len() ==> (
                #[trigger] list@[k]).creation_time.total_nanos() <= (
                #[trigger] stats.records@[j]).creation_time.total_nanos(),
        decreases stats.records.len() - i,
    {
        proof {
            assert(stats.records@.take(i as int + 1).drop_last() =~= stats.records@.take(i as int));
        }
        if filter_passes(filter, stats.records[i].status) {
            let copy = stats.records[i].duplicate();
            list.push(copy);
        }
        i += 1;
    }
    assert(stats.records@.take(i as int) =~= stats.records@);
    list
}

} // verus!
