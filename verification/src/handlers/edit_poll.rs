use vstd::prelude::*;
use crate::clock::{DbTime, closing_passed, has_closing_passed, poll_closed};
use crate::fields::{text_or, text_or_default, text_or_empty};
use crate::http::{DbFailure, Status};
use crate::middleware::auth::AuthUser;

verus! {

broadcast use vstd::seq_lib::group_filter_ensures;

/// One choice of an edited poll: with an `id`, a new text for that stored
/// choice; without one, a choice to add.
#[derive(Debug)]
pub struct ChoiceEdit {
    pub id: Option<i32>,
    pub option_text: String,
}

/// A request to rewrite a poll: its details and the full list of its choices.
#[derive(Debug)]
pub struct EditPollRequest {
    pub title: String,
    pub about: Option<String>,
    pub multiple_choice: bool,
    pub closes_at: Option<String>,
    pub choices: Vec<ChoiceEdit>,
}

#[derive(Debug)]
pub struct ErrorResponse {
    pub error: String,
}

#[derive(Debug)]
pub struct SuccessResponse {
    pub message: String,
}

/// One change that editing makes to the choices stored for a poll.
#[derive(Debug)]
pub enum ChoiceChange {
    Rename { id: i32, option_text: String },
    Add { option_text: String },
    Remove { id: i32 },
}

/// The change that one edited choice asks for.
pub open spec fn change_for(e: ChoiceEdit) -> ChoiceChange {
    match e.id {
        Some(id) => ChoiceChange::Rename { id, option_text: e.option_text },
        None => ChoiceChange::Add { option_text: e.option_text },
    }
}

/// Some edited choice names the stored choice `id`.
pub open spec fn names_choice(edits: Seq<ChoiceEdit>, id: i32) -> bool {
    exists|i: int| 0 <= i < edits.len() && #[trigger] edits[i].id == Some(id)
}

/// The stored choices that no edited choice names: they are dropped.
pub open spec fn dropped_choices(existing: Seq<i32>, edits: Seq<ChoiceEdit>) -> Seq<i32> {
    existing.filter(|id: i32| !names_choice(edits, id))
}

/// The changes that bring the stored choices `existing` in line with `edits`:
/// each edited choice in order, renamed or added, then the removal of each
/// stored choice that no edit names, in stored order.
pub open spec fn choice_changes(existing: Seq<i32>, edits: Seq<ChoiceEdit>) -> Seq<ChoiceChange> {
    edits.map_values(|e: ChoiceEdit| change_for(e)) + dropped_choices(existing, edits).map_values(
        |id: i32| ChoiceChange::Remove { id },
    )
}

/// Returns whether some edited choice names the stored choice `id`.
fn edits_name(edits: &Vec<ChoiceEdit>, id: i32) -> (named: bool)
    ensures
        named == names_choice(edits@, id),
{
    let mut k: usize = 0;
    while k < edits.len()
        invariant
            k <= edits.len(),
            forall|j: int| 0 <= j < k ==> edits@[j].id != Some(id),
        decreases edits.len() - k,
    {
        if edits[k].id == Some(id) {
            assert(edits@[k as int].id == Some(id));
            return true;
        }
        k = k + 1;
    }
    false
}

/// Plans the changes that bring the stored choices `existing` in line with
/// `edits`.
pub fn plan_choice_changes(existing: &Vec<i32>, edits: &Vec<ChoiceEdit>) -> (changes: Vec<ChoiceChange>)
    ensures
        changes@ == choice_changes(existing@, edits@),
        edits@.len() <= changes@.len(),
        forall|i: int| 0 <= i < edits@.len() ==> #[trigger] changes@[i] == match edits@[i].id {
            Some(id) => ChoiceChange::Rename { id, option_text: edits@[i].option_text },
            None => ChoiceChange::Add { option_text: edits@[i].option_text },
        },
        forall|k: int| edits@.len() <= k < changes@.len() ==> (#[trigger] changes@[k] matches ChoiceChange::Remove { id }
            && existing@.contains(id) && forall|i: int| 0 <= i < edits@.len() ==> edits@[i].id != Some(id)),
        forall|j: int|
            0 <= j < existing@.len() && (forall|i: int| 0 <= i < edits@.len() ==> edits@[i].id != Some(
                #[trigger] existing@[j],
            )) ==> changes@.contains(ChoiceChange::Remove { id: existing@[j] }),
        forall|i: int|
            0 <= i < edits@.len() && #[trigger] edits@[i].id is Some ==> !changes@.contains(
                ChoiceChange::Remove { id: edits@[i].id->Some_0 },
            ),
{
    let mut changes: Vec<ChoiceChange> = Vec::new();
    let mut i: usize = 0;
    while i < edits.len()
        invariant
            i <= edits.len(),
            changes@ == edits@.take(i as int).map_values(|e: ChoiceEdit| change_for(e)),
        decreases edits.len() - i,
    {
        let text = edits[i].option_text.clone();
        let change = match edits[i].id {
            Some(id) => ChoiceChange::Rename { id, option_text: text },
            None => ChoiceChange::Add { option_text: text },
        };
        changes.push(change);
        assert(edits@.take(i + 1) =~= edits@.take(i as int).push(edits@[i as int]));
        i = i + 1;
    }
    assert(edits@.take(edits@.len() as int) =~= edits@);
    let ghost renamed = changes@;
    let ghost keep = |id: i32| !names_choice(edits@, id);
    let mut j: usize = 0;
    while j < existing.len()
        invariant
            j <= existing.len(),
            renamed == edits@.map_values(|e: ChoiceEdit| change_for(e)),
            keep == (|id: i32| !names_choice(edits@, id)),
            changes@ == renamed + existing@.take(j as int).filter(keep).map_values(
                |id: i32| ChoiceChange::Remove { id },
            ),
        decreases existing.len() - j,
    {
        let id = existing[j];
        let named = edits_name(edits, id);
        proof {
            assert(existing@.take(j + 1) =~= existing@.take(j as int).push(id));
            existing@.take(j as int).lemma_filter_push(id, keep);
        }
        if !named {
            changes.push(ChoiceChange::Remove { id });
        }
        assert(changes@ =~= renamed + existing@.take(j + 1).filter(keep).map_values(
            |id: i32| ChoiceChange::Remove { id },
        ));
        j = j + 1;
    }
    assert(existing@.take(existing@.len() as int) =~= existing@);
    proof {
        law_changes_follow_edits(existing@, edits@);
        assert forall|j: int|
            0 <= j < existing@.len() && (forall|i: int| 0 <= i < edits@.len() ==> edits@[i].id != Some(
                #[trigger] existing@[j],
            )) implies changes@.contains(ChoiceChange::Remove { id: existing@[j] }) by {
            law_unnamed_stored_choices_are_removed(existing@, edits@, j);
        }
        assert forall|i: int|
            0 <= i < edits@.len() && #[trigger] edits@[i].id is Some implies !changes@.contains(
                ChoiceChange::Remove { id: edits@[i].id->Some_0 },
            ) by {
            law_named_choices_are_never_removed(existing@, edits@, i, edits@[i].id->Some_0);
        }
    }
    changes
}

/// Editing keeps or drops every stored choice: each stored choice is either
/// named by some edited choice, or its removal is among the planned changes.
pub proof fn law_stored_choices_kept_or_removed(existing: Seq<i32>, edits: Seq<ChoiceEdit>, i: int)
    requires
        0 <= i < existing.len(),
    ensures
        names_choice(edits, existing[i]) || choice_changes(existing, edits).contains(
            ChoiceChange::Remove { id: existing[i] },
        ),
{
    let keep = |id: i32| !names_choice(edits, id);
    if !names_choice(edits, existing[i]) {
        let dropped = dropped_choices(existing, edits);
        assert(dropped.contains(existing[i]));
        let k = choose|k: int| 0 <= k < dropped.len() && dropped[k] == existing[i];
        let changes = choice_changes(existing, edits);
        assert(changes[edits.len() + k] == ChoiceChange::Remove { id: existing[i] });
    }
}

/// A choice that the request names, at any position, is never removed: whatever
/// the stored choices, the planned changes hold no removal of its id.
pub proof fn law_named_choices_are_never_removed(existing: Seq<i32>, edits: Seq<ChoiceEdit>, i: int, id: i32)
    requires
        0 <= i < edits.len(),
        edits[i].id == Some(id),
    ensures
        !choice_changes(existing, edits).contains(ChoiceChange::Remove { id }),
{
    law_changes_follow_edits(existing, edits);
    let changes = choice_changes(existing, edits);
    if changes.contains(ChoiceChange::Remove { id }) {
        let k = choose|k: int| 0 <= k < changes.len() && changes[k] == ChoiceChange::Remove { id };
        if k < edits.len() {
            assert(changes[k] == change_for(edits[k]));
        } else {
            assert(!names_choice(edits, id));
            assert(edits[i].id == Some(id));
        }
    }
}

/// A stored choice that no edited choice names, at any position, is removed.
pub proof fn law_unnamed_stored_choices_are_removed(existing: Seq<i32>, edits: Seq<ChoiceEdit>, j: int)
    requires
        0 <= j < existing.len(),
        forall|i: int| 0 <= i < edits.len() ==> edits[i].id != Some(existing[j]),
    ensures
        choice_changes(existing, edits).contains(ChoiceChange::Remove { id: existing[j] }),
{
    law_stored_choices_kept_or_removed(existing, edits, j);
}

/// Editing removes only stored choices that no edited choice names, and every
/// edited choice becomes exactly one rename or addition, in request order.
pub proof fn law_changes_follow_edits(existing: Seq<i32>, edits: Seq<ChoiceEdit>)
    ensures
        choice_changes(existing, edits).len() == edits.len() + dropped_choices(existing, edits).len(),
        forall|i: int| 0 <= i < edits.len() ==> #[trigger] choice_changes(existing, edits)[i]
            == change_for(edits[i]),
        forall|k: int|
            edits.len() <= k < choice_changes(existing, edits).len() ==> (
            #[trigger] choice_changes(existing, edits)[k] matches ChoiceChange::Remove { id }
                && existing.contains(id) && !names_choice(edits, id)),
{
    let keep = |id: i32| !names_choice(edits, id);
    let dropped = dropped_choices(existing, edits);
    assert forall|k: int|
        edits.len() <= k < choice_changes(existing, edits).len() implies (
        #[trigger] choice_changes(existing, edits)[k] matches ChoiceChange::Remove { id }
            && existing.contains(id) && !names_choice(edits, id)) by {
        let d = k - edits.len();
        assert(keep(dropped[d]));
        existing.lemma_filter_contains_rev(keep, dropped[d]);
    }
}

/// The edit a request asks for: the poll, the user asking, and the new content.
#[derive(Debug)]
pub struct EditContext {
    pub poll_id: String,
    pub user_id: String,
    pub request: EditPollRequest,
}

/// What the database holds about a poll that an edit needs; a column that
/// could not be read is `None`.
#[derive(Debug)]
pub struct EditPollRow {
    pub created_by: Option<String>,
    pub status: Option<String>,
    pub closes_at: Option<DbTime>,
}

/// The answer to a poll edit.
pub type EditPollReply = Result<SuccessResponse, (Status, ErrorResponse)>;

/// Where a poll edit stands: the database work it waits for, or its answer.
#[derive(Debug)]
pub enum EditPollStep {
    FetchPoll(EditFetchingPoll),
    CountVotes(EditCountingVotes),
    Begin(EditBeginning),
    UpdatePoll(EditUpdatingPoll),
    FetchChoiceIds(EditFetchingChoiceIds),
    ApplyChange(EditApplyingChange),
    Commit(EditCommitting),
    Reply(EditPollReply),
}

/// `reply` refuses the edit with `status` and the message `msg`.
pub open spec fn rejects(reply: EditPollReply, status: Status, msg: Seq<char>) -> bool {
    reply matches Err((s, e)) && s == status && e.error@ == msg
}

/// The edit ends here, refused with `status` and the message `msg`.
pub open spec fn ends_with_error(step: EditPollStep, status: Status, msg: Seq<char>) -> bool {
    step matches EditPollStep::Reply(r) && rejects(r, status, msg)
}

fn refuse(status: Status, msg: &str) -> (step: EditPollStep)
    ensures
        ends_with_error(step, status, msg@),
{
    EditPollStep::Reply(Err((status, ErrorResponse { error: String::from_str(msg) })))
}

/// The message that refuses an edit by someone other than the poll's creator.
pub open spec fn not_creator_message(creator: Seq<char>, user: Seq<char>) -> Seq<char> {
    "Only the creator can edit this poll (Creator: "@ + creator + ", You: "@ + user + ")"@
}

/// The message that answers a failed change of the stored choices.
pub open spec fn change_failure(c: ChoiceChange) -> Seq<char> {
    match c {
        ChoiceChange::Rename { .. } => "Failed to update choice"@,
        ChoiceChange::Add { .. } => "Failed to insert new choice"@,
        ChoiceChange::Remove { .. } => "Failed to delete old choices"@,
    }
}

/// The stored choice ids as the edit reads them: an id that cannot be read
/// counts as 0.
pub open spec fn stored_ids(ids: Seq<Option<i32>>) -> Seq<i32> {
    ids.map_values(|o: Option<i32>| match o {
        Some(v) => v,
        None => 0i32,
    })
}

/// Edits and views agree on closing: an edit is refused for being closed (by
/// status or by time) exactly when the poll is shown as closed.
pub proof fn law_edit_refused_iff_closed(row: EditPollRow, now: DbTime)
    ensures
        (text_or_default(row.status, "open"@) == "closed"@ || closing_passed(row.closes_at, now))
            == poll_closed(text_or_default(row.status, "open"@), row.closes_at, now),
{
}

/// Starts editing poll `poll_id` on behalf of `user`: first the poll is looked up.
pub fn edit_poll(poll_id: String, user: AuthUser, payload: EditPollRequest) -> (step: EditPollStep)
    ensures
        step matches EditPollStep::FetchPoll(p) && p.ctx() == (EditContext {
            poll_id,
            user_id: user.user_id,
            request: payload,
        }),
{
    EditPollStep::FetchPoll(
        EditFetchingPoll { ctx: EditContext { poll_id, user_id: user.user_id, request: payload } },
    )
}

/// Waiting for the poll's creator, status and closing time.
#[derive(Debug)]
pub struct EditFetchingPoll {
    ctx: EditContext,
}

impl EditFetchingPoll {
    pub closed spec fn ctx(&self) -> EditContext {
        self.ctx
    }

    pub fn context(&self) -> (c: &EditContext)
        ensures
            *c == self.ctx(),
    {
        &self.ctx
    }

    /// Decides on the poll as stored, at time `now`: a closed poll, one past
    /// its closing time, or one created by someone else cannot be edited.
    pub fn resume(self, answer: Result<Option<EditPollRow>, DbFailure>, now: DbTime) -> (step: EditPollStep)
        ensures
            answer is Err ==> ends_with_error(step, Status::InternalServerError, "Database error fetching poll"@),
            answer matches Ok(None) ==> ends_with_error(step, Status::NotFound, "Poll not found"@),
            answer matches Ok(Some(row)) ==> {
                let status = text_or_default(row.status, "open"@);
                let creator = text_or_default(row.created_by, Seq::empty());
                if status == "closed"@ {
                    ends_with_error(step, Status::BadRequest, "Cannot edit a closed poll"@)
                } else if closing_passed(row.closes_at, now) {
                    ends_with_error(
                        step,
                        Status::BadRequest,
                        "Cannot edit a poll after its closing time has passed"@,
                    )
                } else if creator != self.ctx().user_id@ {
                    ends_with_error(step, Status::Forbidden, not_creator_message(creator, self.ctx().user_id@))
                } else {
                    step matches EditPollStep::CountVotes(p) && p.ctx() == self.ctx()
                }
            },
    {
        let row = match answer {
            Err(_) => return refuse(Status::InternalServerError, "Database error fetching poll"),
            Ok(None) => return refuse(Status::NotFound, "Poll not found"),
            Ok(Some(row)) => row,
        };
        let creator = text_or_empty(row.created_by);
        let status = text_or(row.status, "open");
        let closed = String::from_str("closed");
        if status == closed {
            return refuse(Status::BadRequest, "Cannot edit a closed poll");
        }
        if has_closing_passed(row.closes_at, now) {
            return refuse(Status::BadRequest, "Cannot edit a poll after its closing time has passed");
        }
        if !(creator == self.ctx.user_id) {
            let msg = String::from_str("Only the creator can edit this poll (Creator: ").concat(
                creator.as_str(),
            ).concat(", You: ").concat(self.ctx.user_id.as_str()).concat(")");
            return EditPollStep::Reply(Err((Status::Forbidden, ErrorResponse { error: msg })));
        }
        EditPollStep::CountVotes(EditCountingVotes { ctx: self.ctx })
    }
}

/// Waiting for the number of votes cast in the poll.
#[derive(Debug)]
pub struct EditCountingVotes {
    ctx: EditContext,
}

impl EditCountingVotes {
    pub closed spec fn ctx(&self) -> EditContext {
        self.ctx
    }

    pub fn context(&self) -> (c: &EditContext)
        ensures
            *c == self.ctx(),
    {
        &self.ctx
    }

    /// A poll that has votes can no longer be edited; a count that cannot be
    /// read counts as no votes.
    pub fn resume(self, answer: Result<Option<i64>, DbFailure>) -> (step: EditPollStep)
        ensures
            answer is Err ==> ends_with_error(step, Status::InternalServerError, "Failed to load vote count"@),
            answer matches Ok(count) ==> if count matches Some(c) && c > 0 {
                ends_with_error(step, Status::BadRequest, "Poll cannot be edited after voting begins"@)
            } else {
                step matches EditPollStep::Begin(p) && p.ctx() == self.ctx()
            },
    {
        let count = match answer {
            Err(_) => return refuse(Status::InternalServerError, "Failed to load vote count"),
            Ok(c) => c.unwrap_or(0),
        };
        if count > 0 {
            return refuse(Status::BadRequest, "Poll cannot be edited after voting begins");
        }
        EditPollStep::Begin(EditBeginning { ctx: self.ctx })
    }
}

/// Waiting for a transaction to open.
#[derive(Debug)]
pub struct EditBeginning {
    ctx: EditContext,
}

impl EditBeginning {
    pub closed spec fn ctx(&self) -> EditContext {
        self.ctx
    }

    pub fn context(&self) -> (c: &EditContext)
        ensures
            *c == self.ctx(),
    {
        &self.ctx
    }

    /// Once the transaction is open, the poll's details are rewritten.
    pub fn resume(self, answer: Result<(), DbFailure>) -> (step: EditPollStep)
        ensures
            answer is Err ==> ends_with_error(step, Status::InternalServerError, "Transaction failed"@),
            answer is Ok ==> (step matches EditPollStep::UpdatePoll(p) && p.ctx() == self.ctx()),
    {
        match answer {
            Err(_) => refuse(Status::InternalServerError, "Transaction failed"),
            Ok(()) => EditPollStep::UpdatePoll(EditUpdatingPoll { ctx: self.ctx }),
        }
    }
}

/// Waiting for the poll's title, description, kind and closing time to be
/// rewritten from the request.
#[derive(Debug)]
pub struct EditUpdatingPoll {
    ctx: EditContext,
}

impl EditUpdatingPoll {
    pub closed spec fn ctx(&self) -> EditContext {
        self.ctx
    }

    pub fn context(&self) -> (c: &EditContext)
        ensures
            *c == self.ctx(),
    {
        &self.ctx
    }

    /// Once the details are rewritten, the stored choices are listed.
    pub fn resume(self, answer: Result<(), DbFailure>) -> (step: EditPollStep)
        ensures
            answer is Err ==> ends_with_error(step, Status::InternalServerError, "Failed to update poll"@),
            answer is Ok ==> (step matches EditPollStep::FetchChoiceIds(p) && p.ctx() == self.ctx()),
    {
        match answer {
            Err(_) => refuse(Status::InternalServerError, "Failed to update poll"),
            Ok(()) => EditPollStep::FetchChoiceIds(EditFetchingChoiceIds { ctx: self.ctx }),
        }
    }
}

/// Waiting for the ids of the choices stored for the poll.
#[derive(Debug)]
pub struct EditFetchingChoiceIds {
    ctx: EditContext,
}

impl EditFetchingChoiceIds {
    pub closed spec fn ctx(&self) -> EditContext {
        self.ctx
    }

    pub fn context(&self) -> (c: &EditContext)
        ensures
            *c == self.ctx(),
    {
        &self.ctx
    }

    /// Plans the changes to the stored choices and starts applying them.
    pub fn resume(self, answer: Result<Vec<Option<i32>>, DbFailure>) -> (step: EditPollStep)
        ensures
            answer is Err ==> ends_with_error(
                step,
                Status::InternalServerError,
                "Failed to fetch existing choices"@,
            ),
            answer matches Ok(ids) ==> {
                let plan = choice_changes(stored_ids(ids@), self.ctx().request.choices@);
                if plan.len() > 0 {
                    step matches EditPollStep::ApplyChange(p) && p.ctx() == self.ctx()
                        && p.changes() == plan && p.position() == 0
                } else {
                    step matches EditPollStep::Commit(p) && p.ctx() == self.ctx()
                }
            },
    {
        let ids = match answer {
            Err(_) => return refuse(Status::InternalServerError, "Failed to fetch existing choices"),
            Ok(ids) => ids,
        };
        let mut existing: Vec<i32> = Vec::new();
        let mut i: usize = 0;
        while i < ids.len()
            invariant
                i <= ids.len(),
                existing@ == stored_ids(ids@.take(i as int)),
            decreases ids.len() - i,
        {
            let v = match ids[i] {
                Some(v) => v,
                None => 0,
            };
            existing.push(v);
            assert(ids@.take(i + 1) =~= ids@.take(i as int).push(ids@[i as int]));
            assert(existing@ =~= stored_ids(ids@.take(i + 1)));
            i = i + 1;
        }
        assert(ids@.take(ids@.len() as int) =~= ids@);
        let changes = plan_choice_changes(&existing, &self.ctx.request.choices);
        if changes.len() > 0 {
            EditPollStep::ApplyChange(EditApplyingChange { ctx: self.ctx, changes, next: 0 })
        } else {
            EditPollStep::Commit(EditCommitting { ctx: self.ctx })
        }
    }
}

/// Waiting for one planned change of the stored choices to be made.
#[derive(Debug)]
pub struct EditApplyingChange {
    ctx: EditContext,
    changes: Vec<ChoiceChange>,
    next: usize,
}

impl EditApplyingChange {
    #[verifier::type_invariant]
    spec fn wf(self) -> bool {
        self.next < self.changes@.len()
    }

    pub closed spec fn ctx(&self) -> EditContext {
        self.ctx
    }

    /// All planned changes, in the order they are made.
    pub closed spec fn changes(&self) -> Seq<ChoiceChange> {
        self.changes@
    }

    /// The index of the change waited for.
    pub closed spec fn position(&self) -> nat {
        self.next as nat
    }

    pub fn context(&self) -> (c: &EditContext)
        ensures
            *c == self.ctx(),
    {
        &self.ctx
    }

    /// The change waited for.
    pub fn change(&self) -> (c: &ChoiceChange)
        ensures
            self.position() < self.changes().len(),
            *c == self.changes()[self.position() as int],
    {
        proof {
            use_type_invariant(self);
        }
        &self.changes[self.next]
    }

    /// Moves on to the next planned change, or to the commit after the last.
    pub fn resume(self, answer: Result<(), DbFailure>) -> (step: EditPollStep)
        ensures
            self.position() < self.changes().len(),
            answer is Err ==> ends_with_error(
                step,
                Status::InternalServerError,
                change_failure(self.changes()[self.position() as int]),
            ),
            answer is Ok ==> if self.position() + 1 < self.changes().len() {
                step matches EditPollStep::ApplyChange(p) && p.ctx() == self.ctx() && p.changes()
                    == self.changes() && p.position() == self.position() + 1
            } else {
                step matches EditPollStep::Commit(p) && p.ctx() == self.ctx()
            },
    {
        proof {
            use_type_invariant(&self);
        }
        match answer {
            Err(_) => {
                let msg = match &self.changes[self.next] {
                    ChoiceChange::Rename { .. } => "Failed to update choice",
                    ChoiceChange::Add { .. } => "Failed to insert new choice",
                    ChoiceChange::Remove { .. } => "Failed to delete old choices",
                };
                refuse(Status::InternalServerError, msg)
            },
            Ok(()) => {
                if self.next < self.changes.len() - 1 {
                    EditPollStep::ApplyChange(
                        EditApplyingChange { ctx: self.ctx, changes: self.changes, next: self.next + 1 },
                    )
                } else {
                    EditPollStep::Commit(EditCommitting { ctx: self.ctx })
                }
            },
        }
    }
}

/// Waiting for the transaction to commit.
#[derive(Debug)]
pub struct EditCommitting {
    ctx: EditContext,
}

impl EditCommitting {
    pub closed spec fn ctx(&self) -> EditContext {
        self.ctx
    }

    pub fn context(&self) -> (c: &EditContext)
        ensures
            *c == self.ctx(),
    {
        &self.ctx
    }

    /// The edit succeeds once the transaction commits.
    pub fn resume(self, answer: Result<(), DbFailure>) -> (step: EditPollStep)
        ensures
            answer is Err ==> ends_with_error(step, Status::InternalServerError, "Failed to commit changes"@),
            answer is Ok ==> (step matches EditPollStep::Reply(Ok(r)) && r.message@ == "Poll updated successfully"@),
    {
        match answer {
            Err(_) => refuse(Status::InternalServerError, "Failed to commit changes"),
            Ok(()) => EditPollStep::Reply(
                Ok(SuccessResponse { message: String::from_str("Poll updated successfully") }),
            ),
        }
    }
}

} // verus!
