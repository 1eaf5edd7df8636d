//! The dedup gate: a review request is recorded once per repository and
//! pull-request number, and only its first recording lets it through.

use vstd::prelude::*;
use crate::error::PollError;
use crate::notification::{PullRequest, PullRequestModel};
use crate::text::{decimal, decimal_text, same_text};

verus! {

/// The record kept of a review request.
#[derive(Debug, Clone)]
pub struct NewReviewRequest {
    pub project: String,
    pub pr_number: String,
    pub pr_url: String,
    pub pr_title: String,
}

/// A record as mathematical data.
pub ghost struct RecordModel {
    pub project: Seq<char>,
    pub pr_number: Seq<char>,
    pub pr_url: Seq<char>,
    pub pr_title: Seq<char>,
}

impl RecordModel {
    /// The key a record is unique by: repository and pull-request number.
    pub open spec fn key(self) -> (Seq<char>, Seq<char>) {
        (self.project, self.pr_number)
    }
}

impl DeepView for NewReviewRequest {
    type V = RecordModel;

    open spec fn deep_view(&self) -> RecordModel {
        self@
    }
}

impl View for NewReviewRequest {
    type V = RecordModel;

    open spec fn view(&self) -> RecordModel {
        RecordModel {
            project: self.project@,
            pr_number: self.pr_number@,
            pr_url: self.pr_url@,
            pr_title: self.pr_title@,
        }
    }
}

/// The record of a pull request.
pub open spec fn record_of(pr: PullRequestModel) -> RecordModel {
    RecordModel {
        project: pr.repo,
        pr_number: decimal_text(pr.number),
        pr_url: pr.html_url,
        pr_title: pr.title,
    }
}

impl NewReviewRequest {
    /// Draws up the record of a pull request.
    pub fn for_pull_request(pr: &PullRequest) -> (record: NewReviewRequest)
        ensures
            record@ == record_of(pr@),
    {
        NewReviewRequest {
            project: pr.repo().to_owned(),
            pr_number: decimal(pr.number),
            pr_url: pr.html_url.clone(),
            pr_title: pr.title.clone(),
        }
    }
}

/// Whether a table holds a record under a key.
pub open spec fn has_key(table: Seq<RecordModel>, key: (Seq<char>, Seq<char>)) -> bool {
    exists|i: int| 0 <= i < table.len() && (#[trigger] table[i]).key() == key
}

/// No two records of a table share a key.
pub open spec fn keys_unique(table: Seq<RecordModel>) -> bool {
    forall|i: int, j: int|
        0 <= i < j < table.len() ==> (#[trigger] table[i]).key() != (#[trigger] table[j]).key()
}

/// The table after a record has asked for admission: unchanged if its key
/// is taken, with the record added otherwise.
pub open spec fn admitted_table(table: Seq<RecordModel>, record: RecordModel) -> Seq<RecordModel> {
    if has_key(table, record.key()) {
        table
    } else {
        table.push(record)
    }
}

/// Whether a record is let through: exactly when its key was not taken.
pub open spec fn admits(table: Seq<RecordModel>, record: RecordModel) -> bool {
    !has_key(table, record.key())
}

/// What follows once the store has said whether the key exists.
#[derive(Debug, Clone, Copy, PartialEq, Eq, Structural)]
pub enum GateAction {
    /// The key is taken: record nothing, forward nothing.
    Suppress,
    /// The key is free: insert the record, then forward the item.
    Insert,
}

/// The decision between the existence check and the insertion.
pub fn insert_review_request(exists: bool) -> (action: GateAction)
    ensures
        action == (if exists {
            GateAction::Suppress
        } else {
            GateAction::Insert
        }),
{
    if exists {
        GateAction::Suppress
    } else {
        GateAction::Insert
    }
}

/// How an attempt to record a review request ended, as the store and the
/// dispatcher of blocking work report it.
#[derive(Debug, Clone, Copy, PartialEq, Eq, Structural)]
pub enum RecordOutcome {
    /// The record was inserted.
    Inserted,
    /// A record with the same key was there already.
    AlreadyRecorded,
    /// The store failed.
    StorageFailed,
    /// The work could not be dispatched.
    NotScheduled,
}

/// Turns the outcome of recording into what the pipeline does with the pull
/// request: forward it if it was inserted, drop it if it was known, and fail
/// this item if the store or the dispatch failed.
pub fn recording_result(pr: PullRequest, outcome: RecordOutcome) -> (r: Result<
    Option<PullRequest>,
    PollError,
>)
    ensures
        outcome == RecordOutcome::Inserted ==> r == Ok::<Option<PullRequest>, PollError>(Some(pr)),
        outcome == RecordOutcome::AlreadyRecorded ==> r == Ok::<Option<PullRequest>, PollError>(
            None,
        ),
        outcome == RecordOutcome::StorageFailed ==> r == Err::<Option<PullRequest>, PollError>(
            PollError::Storage,
        ),
        outcome == RecordOutcome::NotScheduled ==> r == Err::<Option<PullRequest>, PollError>(
            PollError::Scheduling,
        ),
{
    match outcome {
        RecordOutcome::Inserted => Ok(Some(pr)),
        RecordOutcome::AlreadyRecorded => Ok(None),
        RecordOutcome::StorageFailed => Err(PollError::Storage),
        RecordOutcome::NotScheduled => Err(PollError::Scheduling),
    }
}

/// Settles an item: a recorded pull request goes on to the task sink; a known
/// one, or one whose recording failed, goes nowhere, and the stream goes on.
pub fn forwarded(recorded: Result<Option<PullRequest>, PollError>) -> (r: Option<PullRequest>)
    ensures
        match recorded {
            Ok(Some(pr)) => r == Some(pr),
            _ => r.is_none(),
        },
{
    match recorded {
        Ok(Some(pr)) => Some(pr),
        _ => None,
    }
}

/// A table of recorded review requests held in memory.
#[derive(Debug, Clone)]
pub struct ReviewHandler {
    pub records: Vec<NewReviewRequest>,
}

impl View for ReviewHandler {
    type V = Seq<RecordModel>;

    open spec fn view(&self) -> Seq<RecordModel> {
        self.records.deep_view()
    }
}

impl ReviewHandler {
    /// No two records share a key.
    pub open spec fn well_formed(&self) -> bool {
        keys_unique(self@)
    }

    /// Whether a record with this key is in the table.
    pub fn contains_key(&self, project: &str, pr_number: &str) -> (r: bool)
        ensures
            r == has_key(self@, (project@, pr_number@)),
    {
        let mut i: usize = 0;
        while i < self.records.len()
            invariant
                i <= self.records.len(),
                forall|k: int| 0 <= k < i ==> (#[trigger] self@[k]).key() != (project@, pr_number@),
            decreases self.records.len() - i,
        {
            let record = &self.records[i];
            assert(self@[i as int] == record@);
            if same_text(record.project.as_str(), project) && same_text(
                record.pr_number.as_str(),
                pr_number,
            ) {
                return true;
            }
            i += 1;
        }
        false
    }

    /// Checks for the record's key and inserts the record if the key is free,
    /// as one step. Returns whether the record was inserted.
    pub fn check_and_insert(&mut self, record: NewReviewRequest) -> (r: bool)
        requires
            old(self).well_formed(),
        ensures
            final(self).well_formed(),
            r == admits(old(self)@, record@),
            final(self)@ == admitted_table(old(self)@, record@),
    {
        let present = self.contains_key(record.project.as_str(), record.pr_number.as_str());
        match insert_review_request(present) {
            GateAction::Suppress => false,
            GateAction::Insert => {
                let ghost before = self@;
                self.records.push(record);
                assert(self@ =~= before.push(record@));
                true
            },
        }
    }

    /// Records a pull request under its repository and number. The pull
    /// request comes back if this was its first recording; nothing comes
    /// back if it was recorded before. A table in memory does not fail.
    pub fn record_review_request(&mut self, pr: PullRequest) -> (r: Result<
        Option<PullRequest>,
        PollError,
    >)
        requires
            old(self).well_formed(),
        ensures
            final(self).well_formed(),
            final(self)@ == admitted_table(old(self)@, record_of(pr@)),
            admits(old(self)@, record_of(pr@)) ==> r == Ok::<Option<PullRequest>, PollError>(
                Some(pr),
            ),
            !admits(old(self)@, record_of(pr@)) ==> r == Ok::<Option<PullRequest>, PollError>(None),
    {
        let record = NewReviewRequest::for_pull_request(&pr);
        let outcome = if self.check_and_insert(record) {
            RecordOutcome::Inserted
        } else {
            RecordOutcome::AlreadyRecorded
        };
        recording_result(pr, outcome)
    }

    /// Records a pull request and settles what becomes of it: it comes back,
    /// to be sent to the task sink, if this was its first recording, and not
    /// otherwise.
    pub fn record_in_task(&mut self, pr: PullRequest) -> (r: Option<PullRequest>)
        requires
            old(self).well_formed(),
        ensures
            final(self).well_formed(),
            final(self)@ == admitted_table(old(self)@, record_of(pr@)),
            admits(old(self)@, record_of(pr@)) ==> r == Some(pr),
            !admits(old(self)@, record_of(pr@)) ==> r.is_none(),
    {
        forwarded(self.record_review_request(pr))
    }
}

/// Starts an empty table.
pub fn new() -> (handler: ReviewHandler)
    ensures
        handler.well_formed(),
        handler@ == Seq::<RecordModel>::empty(),
{
    let handler = ReviewHandler { records: Vec::new() };
    assert(handler@ =~= Seq::<RecordModel>::empty());
    handler
}

/// The number of records a table holds under a key.
pub open spec fn count_key(table: Seq<RecordModel>, key: (Seq<char>, Seq<char>)) -> nat
    decreases table.len(),
{
    if table.len() == 0 {
        0
    } else {
        count_key(table.drop_last(), key) + (if table.last().key() == key {
            1nat
        } else {
            0nat
        })
    }
}

/// A table that does not hold a key holds no record under it.
pub proof fn lemma_absent_key_counts_zero(table: Seq<RecordModel>, key: (Seq<char>, Seq<char>))
    requires
        !has_key(table, key),
    ensures
        count_key(table, key) == 0,
    decreases table.len(),
{
    if table.len() > 0 {
        assert(table[table.len() - 1].key() != key);
        assert forall|i: int| 0 <= i < table.drop_last().len() implies (
        #[trigger] table.drop_last()[i]).key() != key by {
            assert(table.drop_last()[i] == table[i]);
        }
        lemma_absent_key_counts_zero(table.drop_last(), key);
    }
}

/// Admitting two records with the same key, one after the other, into a
/// table that does not hold the key: the first is let through and the second
/// is not, the second leaves the table as the first left it, and the table
/// then holds exactly one record under the key. Records under other keys are
/// neither added nor lost.
pub proof fn lemma_admit_twice(table: Seq<RecordModel>, first: RecordModel, second: RecordModel)
    requires
        keys_unique(table),
        first.key() == second.key(),
        !has_key(table, first.key()),
    ensures
        admits(table, first),
        !admits(admitted_table(table, first), second),
        admitted_table(admitted_table(table, first), second) == admitted_table(table, first),
        admitted_table(table, first) == table.push(first),
        count_key(admitted_table(admitted_table(table, first), second), first.key()) == 1,
        keys_unique(admitted_table(table, first)),
{
    let once = table.push(first);
    assert(once[table.len() as int].key() == second.key());
    assert(once.drop_last() =~= table);
    lemma_absent_key_counts_zero(table, first.key());
}

/// Admission is idempotent on any table: once a record has asked for
/// admission, a record with the same key is never let through, and asking
/// again changes nothing.
pub proof fn lemma_admit_idempotent(table: Seq<RecordModel>, first: RecordModel, second: RecordModel)
    requires
        first.key() == second.key(),
    ensures
        !admits(admitted_table(table, first), second),
        admitted_table(admitted_table(table, first), second) == admitted_table(table, first),
{
    if has_key(table, first.key()) {
    } else {
        let once = table.push(first);
        assert(once[table.len() as int].key() == second.key());
    }
}

} // verus!
