use vstd::prelude::*;
use crate::clock::{DbTime, closing_text, closing_time_text};
use crate::fields::{text_or, text_or_default, text_or_empty};
use crate::http::{DbFailure, Status};
use crate::middleware::auth::AuthUser;

verus! {

/// A poll as a team's list of polls shows it.
#[derive(Debug)]
pub struct PollListItem {
    pub id: String,
    pub title: String,
    pub about: Option<String>,
    pub closes_at: Option<String>,
    pub status: String,
    pub created_by: String,
}

#[derive(Debug)]
pub struct ErrorResponse {
    pub error: String,
}

/// The answer to a request for a team's polls.
pub type ListPollsReply = Result<Vec<PollListItem>, (Status, ErrorResponse)>;

/// The team whose polls a request asks for, and the user asking.
#[derive(Debug)]
pub struct ListPollsContext {
    pub team_id: String,
    pub user_id: String,
}

/// A poll of the team as stored; a column that could not be read is `None`.
#[derive(Debug)]
pub struct PollListRow {
    pub id: Option<String>,
    pub title: Option<String>,
    pub about: Option<String>,
    pub closes_at: Option<DbTime>,
    pub status: Option<String>,
    pub created_by: Option<String>,
}

/// Where a request for a team's polls stands: the database work it waits for, or its answer.
#[derive(Debug)]
pub enum ListPollsStep {
    CheckMember(ListPollsCheckingMember),
    FetchPolls(ListPollsFetching),
    Reply(ListPollsReply),
}

/// `reply` refuses the list with `status` and the message `msg`.
pub open spec fn rejects(reply: ListPollsReply, status: Status, msg: Seq<char>) -> bool {
    reply matches Err((s, e)) && s == status && e.error@ == msg
}

/// The request ends here, refused with `status` and the message `msg`.
pub open spec fn ends_with_error(step: ListPollsStep, status: Status, msg: Seq<char>) -> bool {
    step matches ListPollsStep::Reply(r) && rejects(r, status, msg)
}

fn refuse(status: Status, msg: &str) -> (step: ListPollsStep)
    ensures
        ends_with_error(step, status, msg@),
{
    ListPollsStep::Reply(Err((status, ErrorResponse { error: String::from_str(msg) })))
}

/// `optional` is the optional text `expected`.
pub open spec fn same_text(optional: Option<String>, expected: Option<Seq<char>>) -> bool {
    match (optional, expected) {
        (None, None) => true,
        (Some(t), Some(u)) => t@ == u,
        _ => false,
    }
}

/// A stored poll as the list shows it: unreadable columns show as empty text,
/// an unreadable status as `open`.
pub open spec fn shows_item(row: PollListRow, item: PollListItem) -> bool {
    &&& item.id@ == text_or_default(row.id, Seq::empty())
    &&& item.title@ == text_or_default(row.title, Seq::empty())
    &&& item.about == row.about
    &&& same_text(item.closes_at, closing_text(row.closes_at))
    &&& item.status@ == text_or_default(row.status, "open"@)
    &&& item.created_by@ == text_or_default(row.created_by, Seq::empty())
}

/// Starts listing the polls of team `team_id` for `user`: first the user's
/// membership of the team is checked.
pub fn list_polls(team_id: String, user: AuthUser) -> (step: ListPollsStep)
    ensures
        step matches ListPollsStep::CheckMember(p) && p.ctx() == (ListPollsContext {
            team_id,
            user_id: user.user_id,
        }),
{
    ListPollsStep::CheckMember(
        ListPollsCheckingMember { ctx: ListPollsContext { team_id, user_id: user.user_id } },
    )
}

/// Waiting to learn whether the user belongs to the team.
#[derive(Debug)]
pub struct ListPollsCheckingMember {
    ctx: ListPollsContext,
}

impl ListPollsCheckingMember {
    pub closed spec fn ctx(&self) -> ListPollsContext {
        self.ctx
    }

    pub fn context(&self) -> (c: &ListPollsContext)
        ensures
            *c == self.ctx(),
    {
        &self.ctx
    }

    /// Only members of a team see its polls.
    pub fn resume(self, answer: Result<bool, DbFailure>) -> (step: ListPollsStep)
        ensures
            answer is Err ==> ends_with_error(
                step,
                Status::InternalServerError,
                "Database error checking membership"@,
            ),
            answer == Ok::<bool, DbFailure>(false) ==> ends_with_error(
                step,
                Status::Forbidden,
                "You are not a member of this team"@,
            ),
            answer == Ok::<bool, DbFailure>(true) ==> (step matches ListPollsStep::FetchPolls(p) && p.ctx()
                == self.ctx()),
    {
        match answer {
            Err(_) => refuse(Status::InternalServerError, "Database error checking membership"),
            Ok(false) => refuse(Status::Forbidden, "You are not a member of this team"),
            Ok(true) => ListPollsStep::FetchPolls(ListPollsFetching { ctx: self.ctx }),
        }
    }
}

/// Waiting for the team's polls, newest first.
#[derive(Debug)]
pub struct ListPollsFetching {
    ctx: ListPollsContext,
}

/// Shows one stored poll.
fn show_item(row: PollListRow) -> (item: PollListItem)
    ensures
        shows_item(row, item),
{
    let closes_at = closing_time_text(row.closes_at);
    let id = text_or_empty(row.id);
    let title = text_or_empty(row.title);
    let status = text_or(row.status, "open");
    let created_by = text_or_empty(row.created_by);
    PollListItem { id, title, about: row.about, closes_at, status, created_by }
}

impl ListPollsFetching {
    pub closed spec fn ctx(&self) -> ListPollsContext {
        self.ctx
    }

    pub fn context(&self) -> (c: &ListPollsContext)
        ensures
            *c == self.ctx(),
    {
        &self.ctx
    }

    /// Shows every stored poll, in the order the database gave them.
    pub fn resume(self, answer: Result<Vec<PollListRow>, DbFailure>) -> (step: ListPollsStep)
        ensures
            answer is Err ==> ends_with_error(step, Status::InternalServerError, "Failed to load polls"@),
            answer matches Ok(rows) ==> (step matches ListPollsStep::Reply(Ok(items)) && items@.len()
                == rows@.len() && forall|i: int|
                0 <= i < rows@.len() ==> shows_item(rows@[i], #[trigger] items@[i])),
    {
        let rows = match answer {
            Err(_) => return refuse(Status::InternalServerError, "Failed to load polls"),
            Ok(rows) => rows,
        };
        let ghost all = rows@;
        let mut rows = rows;
        let n = rows.len();
        let mut items: Vec<PollListItem> = Vec::new();
        let mut i: usize = 0;
        while i < n
            invariant
                n == all.len(),
                i <= n,
                rows@ == all.subrange(i as int, n as int),
                items@.len() == i,
                forall|k: int| 0 <= k < i ==> shows_item(all[k], #[trigger] items@[k]),
            decreases n - i,
        {
            let row = rows.remove(0);
            assert(row == all[i as int]);
            items.push(show_item(row));
            assert(rows@ =~= all.subrange(i + 1, n as int));
            i = i + 1;
        }
        ListPollsStep::Reply(Ok(items))
    }
}

} // verus!
