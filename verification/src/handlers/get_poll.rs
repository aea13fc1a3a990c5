use vstd::prelude::*;
use crate::clock::{DbTime, poll_closed, is_poll_closed, closing_text, closing_time_text};
use crate::fields::{text_or, text_or_default, text_or_empty};
use crate::http::{DbFailure, Status};
use crate::middleware::auth::AuthUser;

verus! {

/// One choice of a poll with the number of votes it received.
#[derive(Debug)]
pub struct PollOption {
    pub id: i32,
    pub option_text: String,
    pub vote_count: i64,
}

/// A poll as shown to a member of its team.
#[derive(Debug)]
pub struct PollResponse {
    pub id: String,
    pub title: String,
    pub about: Option<String>,
    pub multiple_choice: bool,
    pub closes_at: Option<String>,
    pub is_closed: bool,
    pub team_id: String,
    pub created_by: String,
    pub choices: Vec<PollOption>,
}

/// Why a poll is not shown; `team_id` names the poll's team when the user is
/// not one of its members.
#[derive(Debug)]
pub struct ErrorResponse {
    pub error: String,
    pub team_id: Option<String>,
}

/// The answer to a request for a poll.
pub type GetPollReply = Result<PollResponse, (Status, ErrorResponse)>;

/// The poll a request asks for, and the user asking.
#[derive(Debug)]
pub struct GetPollContext {
    pub poll_id: String,
    pub user_id: String,
}

/// What the database holds about a poll; a column that could not be read is `None`.
#[derive(Debug)]
pub struct PollRow {
    pub id: Option<String>,
    pub title: Option<String>,
    pub about: Option<String>,
    pub multiple_choice: Option<bool>,
    pub closes_at: Option<DbTime>,
    pub status: Option<String>,
    pub team_id: Option<String>,
    pub created_by: Option<String>,
}

/// One choice of a poll with its vote count, as stored; a column that could not
/// be read is `None`.
#[derive(Debug)]
pub struct ChoiceCountRow {
    pub id: Option<i32>,
    pub option_text: Option<String>,
    pub vote_count: Option<i64>,
}

/// Where a request for a poll stands: the database work it waits for, or its answer.
#[derive(Debug)]
pub enum GetPollStep {
    FetchPoll(GetPollFetching),
    CheckMember(GetPollCheckingMember),
    FetchChoices(GetPollFetchingChoices),
    Reply(GetPollReply),
}

/// `reply` refuses the poll with `status`, the message `msg` and the team `team`.
pub open spec fn rejects(reply: GetPollReply, status: Status, msg: Seq<char>, team: Option<Seq<char>>) -> bool {
    &&& reply matches Err((s, e))
    &&& s == status
    &&& e.error@ == msg
    &&& match (e.team_id, team) {
        (None, None) => true,
        (Some(t), Some(u)) => t@ == u,
        _ => false,
    }
}

/// The request ends here, refused with `status`, the message `msg` and the team `team`.
pub open spec fn ends_with_error(step: GetPollStep, status: Status, msg: Seq<char>, team: Option<Seq<char>>) -> bool {
    step matches GetPollStep::Reply(r) && rejects(r, status, msg, team)
}

fn refuse(status: Status, msg: &str) -> (step: GetPollStep)
    ensures
        ends_with_error(step, status, msg@, None),
{
    GetPollStep::Reply(Err((status, ErrorResponse { error: String::from_str(msg), team_id: None })))
}

/// A stored choice as shown: unreadable columns show as 0 or empty text.
pub open spec fn shows_choice(row: ChoiceCountRow, o: PollOption) -> bool {
    &&& o.id == (match row.id {
        Some(v) => v,
        None => 0i32,
    })
    &&& o.option_text@ == text_or_default(row.option_text, Seq::empty())
    &&& o.vote_count == (match row.vote_count {
        Some(v) => v,
        None => 0i64,
    })
}

/// `text` is the optional text `expected`.
pub open spec fn same_text(text: Option<String>, expected: Option<Seq<char>>) -> bool {
    match (text, expected) {
        (None, None) => true,
        (Some(t), Some(u)) => t@ == u,
        _ => false,
    }
}

/// `r` shows the poll stored as `row` with the choices `choices` at time `now`.
pub open spec fn shows_poll(r: PollResponse, row: PollRow, choices: Seq<ChoiceCountRow>, now: DbTime) -> bool {
    let status = text_or_default(row.status, "open"@);
    &&& r.id@ == text_or_default(row.id, Seq::empty())
    &&& r.title@ == text_or_default(row.title, Seq::empty())
    &&& r.about == row.about
    &&& r.multiple_choice == (row.multiple_choice matches Some(b) && b)
    &&& same_text(r.closes_at, closing_text(row.closes_at))
    &&& r.is_closed == poll_closed(status, row.closes_at, now)
    &&& r.team_id@ == text_or_default(row.team_id, Seq::empty())
    &&& r.created_by@ == text_or_default(row.created_by, Seq::empty())
    &&& r.choices@.len() == choices.len()
    &&& forall|i: int| 0 <= i < choices.len() ==> shows_choice(choices[i], #[trigger] r.choices@[i])
}

/// Starts showing poll `poll_id` to `user`: first the poll is looked up.
pub fn get_poll(poll_id: String, user: AuthUser) -> (step: GetPollStep)
    ensures
        step matches GetPollStep::FetchPoll(p) && p.ctx() == (GetPollContext { poll_id, user_id: user.user_id }),
{
    GetPollStep::FetchPoll(GetPollFetching { ctx: GetPollContext { poll_id, user_id: user.user_id } })
}

/// Waiting for the poll.
#[derive(Debug)]
pub struct GetPollFetching {
    ctx: GetPollContext,
}

impl GetPollFetching {
    pub closed spec fn ctx(&self) -> GetPollContext {
        self.ctx
    }

    pub fn context(&self) -> (c: &GetPollContext)
        ensures
            *c == self.ctx(),
    {
        &self.ctx
    }

    /// A poll that exists goes on to the membership check of its team.
    pub fn resume(self, answer: Result<Option<PollRow>, DbFailure>) -> (step: GetPollStep)
        ensures
            answer is Err ==> ends_with_error(
                step,
                Status::InternalServerError,
                "Database error fetching poll"@,
                None,
            ),
            answer matches Ok(None) ==> ends_with_error(step, Status::NotFound, "Poll not found"@, None),
            answer matches Ok(Some(row)) ==> (step matches GetPollStep::CheckMember(p) && p.ctx()
                == self.ctx() && p.row() == row && p.team_id()@ == text_or_default(
                row.team_id,
                Seq::empty(),
            )),
    {
        let row = match answer {
            Err(_) => return refuse(Status::InternalServerError, "Database error fetching poll"),
            Ok(None) => return refuse(Status::NotFound, "Poll not found"),
            Ok(Some(row)) => row,
        };
        let team = row.team_id.clone();
        let team_id = text_or_empty(team);
        GetPollStep::CheckMember(GetPollCheckingMember { ctx: self.ctx, row, team_id })
    }
}

/// Waiting to learn whether the user belongs to the poll's team.
#[derive(Debug)]
pub struct GetPollCheckingMember {
    ctx: GetPollContext,
    row: PollRow,
    team_id: String,
}

impl GetPollCheckingMember {
    pub closed spec fn ctx(&self) -> GetPollContext {
        self.ctx
    }

    pub closed spec fn row(&self) -> PollRow {
        self.row
    }

    pub closed spec fn team_id(&self) -> String {
        self.team_id
    }

    pub fn context(&self) -> (c: &GetPollContext)
        ensures
            *c == self.ctx(),
    {
        &self.ctx
    }

    /// The team whose membership is checked.
    pub fn team(&self) -> (t: &String)
        ensures
            *t == self.team_id(),
    {
        &self.team_id
    }

    /// Only members of the poll's team see it; a refused user learns the team.
    pub fn resume(self, answer: Result<bool, DbFailure>) -> (step: GetPollStep)
        ensures
            answer is Err ==> ends_with_error(
                step,
                Status::InternalServerError,
                "Membership verification failed"@,
                None,
            ),
            answer == Ok::<bool, DbFailure>(false) ==> ends_with_error(
                step,
                Status::Forbidden,
                "You are not a member of this team"@,
                Some(self.team_id()@),
            ),
            answer == Ok::<bool, DbFailure>(true) ==> (step matches GetPollStep::FetchChoices(p)
                && p.ctx() == self.ctx() && p.row() == self.row()),
    {
        match answer {
            Err(_) => refuse(Status::InternalServerError, "Membership verification failed"),
            Ok(false) => GetPollStep::Reply(
                Err(
                    (
                        Status::Forbidden,
                        ErrorResponse {
                            error: String::from_str("You are not a member of this team"),
                            team_id: Some(self.team_id),
                        },
                    ),
                ),
            ),
            Ok(true) => GetPollStep::FetchChoices(GetPollFetchingChoices { ctx: self.ctx, row: self.row }),
        }
    }
}

/// Waiting for the poll's choices and their vote counts.
#[derive(Debug)]
pub struct GetPollFetchingChoices {
    ctx: GetPollContext,
    row: PollRow,
}

/// Shows each stored choice, reading unreadable columns as 0 or empty text.
fn show_choices(rows: Vec<ChoiceCountRow>) -> (opts: Vec<PollOption>)
    ensures
        opts@.len() == rows@.len(),
        forall|i: int| 0 <= i < rows@.len() ==> shows_choice(rows@[i], #[trigger] opts@[i]),
{
    let mut opts: Vec<PollOption> = Vec::new();
    let mut rows = rows;
    let ghost all = rows@;
    let mut i: usize = 0;
    let n = rows.len();
    while i < n
        invariant
            n == all.len(),
            i <= n,
            rows@ == all.subrange(i as int, n as int),
            opts@.len() == i,
            forall|k: int| 0 <= k < i ==> shows_choice(all[k], #[trigger] opts@[k]),
        decreases n - i,
    {
        let row = rows.remove(0);
        assert(row == all[i as int]);
        let id = match row.id {
            Some(v) => v,
            None => 0,
        };
        let vote_count = match row.vote_count {
            Some(v) => v,
            None => 0,
        };
        let option_text = text_or_empty(row.option_text);
        opts.push(PollOption { id, option_text, vote_count });
        assert(rows@ =~= all.subrange(i + 1, n as int));
        i = i + 1;
    }
    opts
}

impl GetPollFetchingChoices {
    pub closed spec fn ctx(&self) -> GetPollContext {
        self.ctx
    }

    pub closed spec fn row(&self) -> PollRow {
        self.row
    }

    pub fn context(&self) -> (c: &GetPollContext)
        ensures
            *c == self.ctx(),
    {
        &self.ctx
    }

    /// Shows the poll with its choices; whether it is closed is judged at `now`.
    pub fn resume(self, answer: Result<Vec<ChoiceCountRow>, DbFailure>, now: DbTime) -> (step: GetPollStep)
        ensures
            answer is Err ==> ends_with_error(step, Status::InternalServerError, "Failed to fetch choices"@, None),
            answer matches Ok(rows) ==> (step matches GetPollStep::Reply(Ok(r)) && shows_poll(
                r,
                self.row(),
                rows@,
                now,
            )),
    {
        let rows = match answer {
            Err(_) => return refuse(Status::InternalServerError, "Failed to fetch choices"),
            Ok(rows) => rows,
        };
        let choices = show_choices(rows);
        let row = self.row;
        let status = text_or(row.status, "open");
        let is_closed = is_poll_closed(&status, row.closes_at, now);
        let multiple_choice = match row.multiple_choice {
            Some(b) => b,
            None => false,
        };
        let created_by = text_or_empty(row.created_by);
        let team_id = text_or_empty(row.team_id);
        let id = text_or_empty(row.id);
        let title = text_or_empty(row.title);
        let closes_at = closing_time_text(row.closes_at);
        let r = PollResponse {
            id,
            title,
            about: row.about,
            multiple_choice,
            closes_at,
            is_closed,
            team_id,
            created_by,
            choices,
        };
        GetPollStep::Reply(Ok(r))
    }
}

} // verus!
