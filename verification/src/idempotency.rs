//! The idempotency guard for newsletter publishing.
//!
//! A client retrying a publish form resubmits the same client-supplied key.
//! The guard keeps one record per (user, key): created in progress at first
//! sight, completed exactly once with the response that was sent, and never
//! rewritten to a different outcome. A repeated or concurrent submission
//! observes the winner's record instead of executing the fan-out again, and
//! replays the saved response byte for byte.
//!
//! The backing store makes the first-sight insertion atomic (a unique
//! constraint per (user, key)); here that atomicity is the store's method
//! granularity. `begin_model`/`complete_model` describe the transitions, and
//! the laws at the end state exactly-once execution and verbatim replay.

use crate::http::{HttpResponse, HttpResponseView};
use vstd::prelude::*;

verus! {

/// Where a record stands: the fan-out is still running, or it finished and
/// its response is saved.
pub enum IdempotencyState {
    InProgress,
    Completed(HttpResponse),
}

/// One deduplication record: the (user, key) pair it guards, when it was
/// created, and its state.
pub struct IdempotencyRecord {
    pub user_id: u128,
    pub idempotency_key: String,
    pub created_at: u64,
    pub state: IdempotencyState,
}

/// The abstract value of a record's state.
pub enum StateView {
    InProgress,
    Completed(HttpResponseView),
}

/// The abstract value of a record.
pub struct RecordView {
    pub user_id: u128,
    pub key: Seq<char>,
    pub created_at: u64,
    pub state: StateView,
}

impl View for IdempotencyRecord {
    type V = RecordView;

    open spec fn view(&self) -> RecordView {
        RecordView {
            user_id: self.user_id,
            key: self.idempotency_key@,
            created_at: self.created_at,
            state: match self.state {
                IdempotencyState::InProgress => StateView::InProgress,
                IdempotencyState::Completed(resp) => StateView::Completed(resp@),
            },
        }
    }
}

impl DeepView for IdempotencyRecord {
    type V = RecordView;

    open spec fn deep_view(&self) -> RecordView {
        self.view()
    }
}

/// The first record for (`user_id`, `key`), if any — the only one, in a
/// well-formed store.
pub open spec fn idem_lookup(records: Seq<RecordView>, user_id: u128, key: Seq<char>) -> Option<
    RecordView,
>
    decreases records.len(),
{
    if records.len() == 0 {
        None
    } else if records[0].user_id == user_id && records[0].key == key {
        Some(records[0])
    } else {
        idem_lookup(records.skip(1), user_id, key)
    }
}

/// What beginning a submission returns.
pub enum BeginOutcome {
    /// No record existed: the caller owns the side effect and must call
    /// `complete_idempotent` once it has run.
    Fresh,
    /// Another submission holds the record and has not finished; the caller
    /// must wait and ask again rather than execute anything itself.
    InProgress,
    /// The submission already completed; return this saved response verbatim.
    Found(HttpResponse),
}

/// The abstract value of a `BeginOutcome`.
pub enum BeginModel {
    Fresh,
    InProgress,
    Found(HttpResponseView),
}

impl View for BeginOutcome {
    type V = BeginModel;

    open spec fn view(&self) -> BeginModel {
        match self {
            BeginOutcome::Fresh => BeginModel::Fresh,
            BeginOutcome::InProgress => BeginModel::InProgress,
            BeginOutcome::Found(resp) => BeginModel::Found(resp@),
        }
    }
}

/// How `begin_idempotent` transforms the store and what it returns: a miss
/// appends an in-progress record and grants `Fresh`; a hit leaves the store
/// alone and reports the record's state.
pub open spec fn begin_model(
    records: Seq<RecordView>,
    user_id: u128,
    key: Seq<char>,
    created_at: u64,
) -> (Seq<RecordView>, BeginModel) {
    match idem_lookup(records, user_id, key) {
        None => (
            records.push(RecordView { user_id, key, created_at, state: StateView::InProgress }),
            BeginModel::Fresh,
        ),
        Some(rec) => (
            records,
            match rec.state {
                StateView::InProgress => BeginModel::InProgress,
                StateView::Completed(resp) => BeginModel::Found(resp),
            },
        ),
    }
}

/// How `complete_idempotent` transforms the store: the (user, key) record —
/// and nothing else — now holds the saved response.
pub open spec fn complete_model(
    records: Seq<RecordView>,
    user_id: u128,
    key: Seq<char>,
    response: HttpResponseView,
) -> Seq<RecordView> {
    records.map(
        |i: int, rec: RecordView|
            if rec.user_id == user_id && rec.key == key {
                RecordView {
                    user_id: rec.user_id,
                    key: rec.key,
                    created_at: rec.created_at,
                    state: StateView::Completed(response),
                }
            } else {
                rec
            },
    )
}

/// The store unreachable: the one failure that aborts a publish attempt
/// outright.
#[derive(Clone, Copy, PartialEq, Eq, Structural, Debug)]
pub struct StoreUnreachable;

/// The guard's record store, keyed by (user, key); `available` stands for
/// whether the backing store can currently be reached.
pub struct IdempotencyStore {
    pub records: Vec<IdempotencyRecord>,
    pub available: bool,
}

impl IdempotencyStore {
    /// At most one record exists per (user, key).
    pub open spec fn wf(&self) -> bool {
        forall|i: int, j: int|
            0 <= i < j < self.records.deep_view().len() ==> !(self.records.deep_view()[i].user_id
                == self.records.deep_view()[j].user_id && self.records.deep_view()[i].key
                == self.records.deep_view()[j].key)
    }

    /// An empty, reachable store.
    pub fn new() -> (r: IdempotencyStore)
        ensures
            r.records@.len() == 0,
            r.available,
            r.wf(),
    {
        IdempotencyStore { records: Vec::new(), available: true }
    }

    /// Starts a submission for (`user_id`, `idempotency_key`), atomically
    /// creating the in-progress record on first sight. Exactly one caller is
    /// ever granted `Fresh` for a pair; everyone later observes that
    /// caller's record.
    pub fn begin_idempotent(
        &mut self,
        user_id: u128,
        idempotency_key: &String,
        created_at: u64,
    ) -> (r: Result<BeginOutcome, StoreUnreachable>)
        ensures
            final(self).available == old(self).available,
            !old(self).available ==> r is Err && final(self).records.deep_view() == old(
                self,
            ).records.deep_view(),
            old(self).available ==> (r matches Ok(outcome) && {
                let (new_records, model_outcome) = begin_model(
                    old(self).records.deep_view(),
                    user_id,
                    idempotency_key@,
                    created_at,
                );
                &&& final(self).records.deep_view() == new_records
                &&& outcome@ == model_outcome
            }),
            old(self).wf() ==> final(self).wf(),
    {
        if !self.available {
            return Err(StoreUnreachable);
        }
        proof {
            assert(self.records.deep_view().skip(0) =~= self.records.deep_view());
        }
        let ghost all = self.records.deep_view();
        let mut i: usize = 0;
        #[verifier::loop_isolation(false)]
        while i < self.records.len()
            invariant
                i <= self.records.len(),
                idem_lookup(all, user_id, idempotency_key@) == idem_lookup(
                    all.skip(i as int),
                    user_id,
                    idempotency_key@,
                ),
            decreases self.records.len() - i,
        {
            proof {
                assert(all.skip(i as int)[0] == all[i as int]);
                assert(all.skip(i as int).skip(1) =~= all.skip(i + 1));
            }
            let rec = &self.records[i];
            if rec.user_id == user_id && crate::string_eq(&rec.idempotency_key, idempotency_key) {
                return match &rec.state {
                    IdempotencyState::InProgress => Ok(BeginOutcome::InProgress),
                    IdempotencyState::Completed(resp) => Ok(BeginOutcome::Found(resp.duplicate())),
                };
            }
            i = i + 1;
        }
        proof {
            assert(all.skip(i as int).len() == 0);
        }
        let fresh = IdempotencyRecord {
            user_id,
            idempotency_key: idempotency_key.clone(),
            created_at,
            state: IdempotencyState::InProgress,
        };
        self.records.push(fresh);
        proof {
            let pushed = self.records.deep_view();
            assert(pushed =~~= all.push(
                RecordView {
                    user_id,
                    key: idempotency_key@,
                    created_at,
                    state: StateView::InProgress,
                },
            ));
            lemma_idem_lookup_none_means_absent(all, user_id, idempotency_key@);
            if old(self).wf() {
                assert forall|a: int, b: int| 0 <= a < b < pushed.len() implies !(pushed[a].user_id
                    == pushed[b].user_id && pushed[a].key == pushed[b].key) by {
                    assert(pushed[a] == all[a]);
                    if b < all.len() {
                        assert(pushed[b] == all[b]);
                    }
                }
            }
        }
        Ok(BeginOutcome::Fresh)
    }


    /// Whether (`user_id`, `idempotency_key`) currently holds an in-progress
    /// record — the state in which saving an outcome is allowed.
    pub fn has_in_progress(&self, user_id: u128, idempotency_key: &String) -> (r: bool)
        ensures
            r == match idem_lookup(self.records.deep_view(), user_id, idempotency_key@) {
                Some(rec) => rec.state is InProgress,
                None => false,
            },
    {
        let ghost all = self.records.deep_view();
        proof {
            assert(all.skip(0) =~= all);
        }
        let mut i: usize = 0;
        #[verifier::loop_isolation(false)]
        while i < self.records.len()
            invariant
                i <= self.records.len(),
                idem_lookup(all, user_id, idempotency_key@) == idem_lookup(
                    all.skip(i as int),
                    user_id,
                    idempotency_key@,
                ),
            decreases self.records.len() - i,
        {
            proof {
                assert(all.skip(i as int)[0] == all[i as int]);
                assert(all.skip(i as int).skip(1) =~= all.skip(i + 1));
            }
            let rec = &self.records[i];
            if rec.user_id == user_id && crate::string_eq(&rec.idempotency_key, idempotency_key) {
                return match &rec.state {
                    IdempotencyState::InProgress => true,
                    IdempotencyState::Completed(_) => false,
                };
            }
            i = i + 1;
        }
        proof {
            assert(all.skip(i as int).len() == 0);
        }
        false
    }

    /// Saves the outcome of the submission this caller was granted `Fresh`
    /// for. The record must still be in progress: a saved response is never
    /// overwritten.
    pub fn complete_idempotent(
        &mut self,
        user_id: u128,
        idempotency_key: &String,
        response: &HttpResponse,
    ) -> (r: Result<(), StoreUnreachable>)
        requires
            old(self).available ==> match idem_lookup(
                old(self).records.deep_view(),
                user_id,
                idempotency_key@,
            ) {
                Some(rec) => rec.state is InProgress,
                None => false,
            },
        ensures
            final(self).available == old(self).available,
            !old(self).available ==> r is Err && final(self).records.deep_view() == old(
                self,
            ).records.deep_view(),
            old(self).available ==> r is Ok && final(self).records.deep_view() == complete_model(
                old(self).records.deep_view(),
                user_id,
                idempotency_key@,
                response@,
            ),
            old(self).wf() ==> final(self).wf(),
    {
        if !self.available {
            return Err(StoreUnreachable);
        }
        let ghost orig = self.records.deep_view();
        let mut i: usize = 0;
        #[verifier::loop_isolation(false)]
        while i < self.records.len()
            invariant
                i <= self.records.len(),
                self.records@.len() == old(self).records@.len(),
                self.available == old(self).available,
                forall|k: int|
                    0 <= k < orig.len() && !(orig[k].user_id == user_id && orig[k].key
                        == idempotency_key@) ==> self.records.deep_view()[k] == orig[k],
                forall|k: int| i <= k < orig.len() ==> self.records.deep_view()[k] == orig[k],
                forall|k: int|
                    0 <= k < i && orig[k].user_id == user_id && orig[k].key == idempotency_key@
                        ==> self.records.deep_view()[k] == (RecordView {
                        user_id: orig[k].user_id,
                        key: orig[k].key,
                        created_at: orig[k].created_at,
                        state: StateView::Completed(response@),
                    }),
            decreases self.records.len() - i,
        {
            let ghost before = self.records.deep_view();
            if self.records[i].user_id == user_id && crate::string_eq(
                &self.records[i].idempotency_key,
                idempotency_key,
            ) {
                let updated = IdempotencyRecord {
                    user_id: self.records[i].user_id,
                    idempotency_key: self.records[i].idempotency_key.clone(),
                    created_at: self.records[i].created_at,
                    state: IdempotencyState::Completed(response.duplicate()),
                };
                self.records.set(i, updated);
                proof {
                    assert(self.records.deep_view() =~~= before.update(
                        i as int,
                        RecordView {
                            user_id: before[i as int].user_id,
                            key: before[i as int].key,
                            created_at: before[i as int].created_at,
                            state: StateView::Completed(response@),
                        },
                    ));
                }
            }
            i = i + 1;
        }
        proof {
            let done = self.records.deep_view();
            assert(done =~~= complete_model(orig, user_id, idempotency_key@, response@));
            if old(self).wf() {
                assert forall|a: int, b: int| 0 <= a < b < done.len() implies !(done[a].user_id
                    == done[b].user_id && done[a].key == done[b].key) by {
                    assert(done[a].user_id == orig[a].user_id && done[a].key == orig[a].key);
                    assert(done[b].user_id == orig[b].user_id && done[b].key == orig[b].key);
                }
            }
        }
        Ok(())
    }
}

/// A lookup miss means no record carries the pair.
proof fn lemma_idem_lookup_none_means_absent(
    records: Seq<RecordView>,
    user_id: u128,
    key: Seq<char>,
)
    requires
        idem_lookup(records, user_id, key) is None,
    ensures
        forall|i: int|
            0 <= i < records.len() ==> !(records[i].user_id == user_id && records[i].key == key),
    decreases records.len(),
{
    if records.len() > 0 {
        lemma_idem_lookup_none_means_absent(records.skip(1), user_id, key);
        assert forall|i: int|
            0 <= i < records.len() implies !(records[i].user_id == user_id && records[i].key
            == key) by {
            if i > 0 {
                assert(records.skip(1)[i - 1] == records[i]);
            }
        }
    }
}

// ------------------------------------------------------------------
// Laws
// ------------------------------------------------------------------

/// Law: submitting the same (user, key) twice sequentially — begin, run the
/// fan-out, complete with the response, begin again — replays exactly the
/// saved response, leaves the store untouched, and grants no second `Fresh`:
/// the side effect runs once.
pub proof fn lemma_sequential_resubmission_replays(
    records: Seq<RecordView>,
    user_id: u128,
    key: Seq<char>,
    first_created_at: u64,
    response: HttpResponseView,
    second_created_at: u64,
)
    requires
        idem_lookup(records, user_id, key) is None,
    ensures
        ({
            let (after_begin, first_outcome) = begin_model(records, user_id, key, first_created_at);
            let after_complete = complete_model(after_begin, user_id, key, response);
            let (after_second, second_outcome) = begin_model(
                after_complete,
                user_id,
                key,
                second_created_at,
            );
            &&& first_outcome is Fresh
            &&& second_outcome == BeginModel::Found(response)
            &&& after_second == after_complete
        }),
{
    let (after_begin, first_outcome) = begin_model(records, user_id, key, first_created_at);
    lemma_lookup_push_hit(records, user_id, key, first_created_at);
    let after_complete = complete_model(after_begin, user_id, key, response);
    lemma_lookup_after_complete(after_begin, user_id, key, response);
}

/// Law: of two concurrent submissions of the same (user, key), at most one
/// is granted `Fresh`. The first to reach the store creates the record; the
/// second observes it — in progress or completed — and must not run the
/// fan-out, whichever order the two arrive in.
pub proof fn lemma_concurrent_submission_single_fresh(
    records: Seq<RecordView>,
    user_id: u128,
    key: Seq<char>,
    first_created_at: u64,
    second_created_at: u64,
)
    requires
        idem_lookup(records, user_id, key) is None,
    ensures
        ({
            let (after_first, first_outcome) = begin_model(records, user_id, key, first_created_at);
            let (after_second, second_outcome) = begin_model(
                after_first,
                user_id,
                key,
                second_created_at,
            );
            &&& first_outcome is Fresh
            &&& !(second_outcome is Fresh)
            &&& after_second == after_first
        }),
{
    lemma_lookup_push_hit(records, user_id, key, first_created_at);
}


/// Law: two concurrent submissions of the same (user, key) converge. The
/// winner executes and saves its response; the loser first observes the
/// in-progress record — delivering nothing — and once the winner has
/// completed, its retry is handed back exactly the winner's response, so
/// both callers end up with byte-identical responses after one fan-out.
pub proof fn lemma_concurrent_submissions_converge(
    records: Seq<RecordView>,
    user_id: u128,
    key: Seq<char>,
    first_created_at: u64,
    second_created_at: u64,
    response: HttpResponseView,
    retry_created_at: u64,
)
    requires
        idem_lookup(records, user_id, key) is None,
    ensures
        ({
            let (after_first, first_outcome) = begin_model(records, user_id, key, first_created_at);
            let (after_second, second_outcome) = begin_model(
                after_first,
                user_id,
                key,
                second_created_at,
            );
            let after_complete = complete_model(after_second, user_id, key, response);
            let (after_retry, retry_outcome) = begin_model(
                after_complete,
                user_id,
                key,
                retry_created_at,
            );
            &&& first_outcome is Fresh
            &&& second_outcome == BeginModel::InProgress
            &&& retry_outcome == BeginModel::Found(response)
            &&& after_retry == after_complete
        }),
{
    lemma_lookup_push_hit(records, user_id, key, first_created_at);
    let (after_first, first_outcome) = begin_model(records, user_id, key, first_created_at);
    let (after_second, second_outcome) = begin_model(after_first, user_id, key, second_created_at);
    lemma_lookup_after_complete(after_second, user_id, key, response);
}

/// After a miss is turned into an in-progress record, looking the pair up
/// finds that record.
proof fn lemma_lookup_push_hit(
    records: Seq<RecordView>,
    user_id: u128,
    key: Seq<char>,
    created_at: u64,
)
    requires
        idem_lookup(records, user_id, key) is None,
    ensures
        idem_lookup(
            records.push(
                RecordView { user_id, key, created_at, state: StateView::InProgress },
            ),
            user_id,
            key,
        ) == Some(RecordView { user_id, key, created_at, state: StateView::InProgress }),
    decreases records.len(),
{
    let pushed = records.push(RecordView { user_id, key, created_at, state: StateView::InProgress });
    if records.len() == 0 {
        assert(pushed[0] == RecordView { user_id, key, created_at, state: StateView::InProgress });
    } else {
        lemma_lookup_push_hit(records.skip(1), user_id, key, created_at);
        assert(pushed.skip(1) =~= records.skip(1).push(
            RecordView { user_id, key, created_at, state: StateView::InProgress },
        ));
    }
}

/// Completing rewrites the pair's record to hold the response, and lookup
/// sees exactly that.
proof fn lemma_lookup_after_complete(
    records: Seq<RecordView>,
    user_id: u128,
    key: Seq<char>,
    response: HttpResponseView,
)
    requires
        idem_lookup(records, user_id, key) is Some,
    ensures
        ({
            let completed = complete_model(records, user_id, key, response);
            idem_lookup(completed, user_id, key) matches Some(rec) && rec.state
                == StateView::Completed(response)
        }),
    decreases records.len(),
{
    let completed = complete_model(records, user_id, key, response);
    assert(completed.len() == records.len());
    if records.len() > 0 {
        if records[0].user_id == user_id && records[0].key == key {
            assert(completed[0].state == StateView::Completed(response));
        } else {
            lemma_lookup_after_complete(records.skip(1), user_id, key, response);
            assert(completed.skip(1) =~= complete_model(records.skip(1), user_id, key, response));
            assert(completed[0] == records[0]);
        }
    }
}

} // verus!
