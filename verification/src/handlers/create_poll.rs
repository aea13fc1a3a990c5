use vstd::prelude::*;
use crate::http::{DbFailure, Status};
use crate::ids::{is_uuid_v4_text, new_id};
use crate::middleware::auth::AuthUser;

verus! {

/// A request to open a poll in a team.
#[derive(Debug)]
pub struct CreatePollRequest {
    pub title: String,
    pub about: Option<String>,
    pub multiple_choice: Option<bool>,
    pub closes_at: Option<String>,
    pub choices: Vec<String>,
}

/// The new poll and the address at which it can be shared.
#[derive(Debug)]
pub struct CreatePollResponse {
    pub poll_id: String,
    pub share_url: String,
}

/// Why a poll was not created.
#[derive(Debug)]
pub struct ErrorResponse {
    error: String,
}

impl ErrorResponse {
    /// The message of the refusal.
    pub closed spec fn text(&self) -> Seq<char> {
        self.error@
    }

    /// Returns the message of the refusal.
    pub fn error(&self) -> (e: &String)
        ensures
            e@ == self.text(),
    {
        &self.error
    }
}

/// The answer to a request to create a poll.
pub type CreatePollReply = Result<CreatePollResponse, (Status, ErrorResponse)>;

/// The poll a request asks to create: the team, the creator, and the poll itself.
#[derive(Debug)]
pub struct CreatePollContext {
    pub team_id: String,
    pub user_id: String,
    pub request: CreatePollRequest,
}

/// Where the creation of a poll stands: the database work it waits for, or its answer.
#[derive(Debug)]
pub enum CreatePollStep {
    CheckMember(CreatePollCheckingMember),
    Begin(CreatePollBeginning),
    InsertPoll(CreatePollInserting),
    InsertChoice(CreatePollInsertingChoice),
    Commit(CreatePollCommitting),
    Reply(CreatePollReply),
}

/// `reply` refuses the poll with `status` and the message `msg`.
pub open spec fn rejects(reply: CreatePollReply, status: Status, msg: Seq<char>) -> bool {
    reply matches Err((s, e)) && s == status && e.text() == msg
}

/// The creation ends here, refused with `status` and the message `msg`.
pub open spec fn ends_with_error(step: CreatePollStep, status: Status, msg: Seq<char>) -> bool {
    step matches CreatePollStep::Reply(r) && rejects(r, status, msg)
}

fn refuse(status: Status, msg: &str) -> (step: CreatePollStep)
    ensures
        ends_with_error(step, status, msg@),
{
    CreatePollStep::Reply(Err((status, ErrorResponse { error: String::from_str(msg) })))
}

/// The address at which the poll `poll_id` is shared.
pub open spec fn share_url_of(poll_id: Seq<char>) -> Seq<char> {
    "http://localhost:3000/poll/"@ + poll_id
}

/// Starts creating the poll `payload` in team `team_id` for `user`. A poll needs
/// at least two choices; then the user's membership of the team is checked.
pub fn create_poll(team_id: String, user: AuthUser, payload: CreatePollRequest) -> (step: CreatePollStep)
    ensures
        payload.choices@.len() < 2 ==> ends_with_error(
            step,
            Status::BadRequest,
            "Poll must have at least 2 choices"@,
        ),
        payload.choices@.len() >= 2 ==> (step matches CreatePollStep::CheckMember(p) && p.ctx() == (
        CreatePollContext { team_id, user_id: user.user_id, request: payload })),
{
    if payload.choices.len() < 2 {
        return refuse(Status::BadRequest, "Poll must have at least 2 choices");
    }
    CreatePollStep::CheckMember(
        CreatePollCheckingMember {
            ctx: CreatePollContext { team_id, user_id: user.user_id, request: payload },
        },
    )
}

/// Waiting to learn whether the creator belongs to the team.
#[derive(Debug)]
pub struct CreatePollCheckingMember {
    ctx: CreatePollContext,
}

impl CreatePollCheckingMember {
    #[verifier::type_invariant]
    spec fn wf(self) -> bool {
        self.ctx.request.choices@.len() >= 2
    }

    pub closed spec fn ctx(&self) -> CreatePollContext {
        self.ctx
    }

    pub fn context(&self) -> (c: &CreatePollContext)
        ensures
            *c == self.ctx(),
    {
        &self.ctx
    }

    /// Only members of the team create polls in it; the new poll gets a fresh id.
    pub fn resume(self, answer: Result<bool, DbFailure>) -> (step: CreatePollStep)
        ensures
            answer is Err ==> ends_with_error(
                step,
                Status::InternalServerError,
                "Database error checking team membership"@,
            ),
            answer == Ok::<bool, DbFailure>(false) ==> ends_with_error(
                step,
                Status::Forbidden,
                "You are not a member of this team"@,
            ),
            answer == Ok::<bool, DbFailure>(true) ==> (step matches CreatePollStep::Begin(p) && p.ctx()
                == self.ctx() && is_uuid_v4_text(p.poll_id()@)),
    {
        match answer {
            Err(_) => refuse(Status::InternalServerError, "Database error checking team membership"),
            Ok(false) => refuse(Status::Forbidden, "You are not a member of this team"),
            Ok(true) => {
                proof {
                    use_type_invariant(&self);
                }
                let poll_id = new_id();
                CreatePollStep::Begin(CreatePollBeginning { ctx: self.ctx, poll_id })
            },
        }
    }
}

/// Waiting for a transaction to open.
#[derive(Debug)]
pub struct CreatePollBeginning {
    ctx: CreatePollContext,
    poll_id: String,
}

impl CreatePollBeginning {
    #[verifier::type_invariant]
    spec fn wf(self) -> bool {
        self.ctx.request.choices@.len() >= 2
    }

    pub closed spec fn ctx(&self) -> CreatePollContext {
        self.ctx
    }

    /// The id of the poll being created.
    pub closed spec fn poll_id(&self) -> String {
        self.poll_id
    }

    pub fn context(&self) -> (c: &CreatePollContext)
        ensures
            *c == self.ctx(),
    {
        &self.ctx
    }

    /// Once the transaction is open, the poll is stored.
    pub fn resume(self, answer: Result<(), DbFailure>) -> (step: CreatePollStep)
        ensures
            answer is Err ==> ends_with_error(step, Status::InternalServerError, "Database transaction failed"@),
            answer is Ok ==> (step matches CreatePollStep::InsertPoll(p) && p.ctx() == self.ctx()
                && p.poll_id() == self.poll_id()),
    {
        proof {
            use_type_invariant(&self);
        }
        match answer {
            Err(_) => refuse(Status::InternalServerError, "Database transaction failed"),
            Ok(()) => CreatePollStep::InsertPoll(CreatePollInserting { ctx: self.ctx, poll_id: self.poll_id }),
        }
    }
}

/// Waiting for the poll itself to be stored.
#[derive(Debug)]
pub struct CreatePollInserting {
    ctx: CreatePollContext,
    poll_id: String,
}

impl CreatePollInserting {
    #[verifier::type_invariant]
    spec fn wf(self) -> bool {
        self.ctx.request.choices@.len() >= 2
    }

    pub closed spec fn ctx(&self) -> CreatePollContext {
        self.ctx
    }

    pub closed spec fn poll_id(&self) -> String {
        self.poll_id
    }

    pub fn context(&self) -> (c: &CreatePollContext)
        ensures
            *c == self.ctx(),
    {
        &self.ctx
    }

    /// The id under which the poll is stored.
    pub fn id(&self) -> (id: &String)
        ensures
            *id == self.poll_id(),
    {
        &self.poll_id
    }

    /// Once the poll is stored, its first choice follows.
    pub fn resume(self, answer: Result<(), DbFailure>) -> (step: CreatePollStep)
        ensures
            answer is Err ==> ends_with_error(step, Status::InternalServerError, "Failed to create poll"@),
            answer is Ok ==> (step matches CreatePollStep::InsertChoice(p) && p.ctx() == self.ctx()
                && p.poll_id() == self.poll_id() && p.position() == 0),
    {
        proof {
            use_type_invariant(&self);
        }
        match answer {
            Err(_) => refuse(Status::InternalServerError, "Failed to create poll"),
            Ok(()) => CreatePollStep::InsertChoice(
                CreatePollInsertingChoice { ctx: self.ctx, poll_id: self.poll_id, next: 0 },
            ),
        }
    }
}

/// Waiting for one choice of the poll to be stored.
#[derive(Debug)]
pub struct CreatePollInsertingChoice {
    ctx: CreatePollContext,
    poll_id: String,
    next: usize,
}

impl CreatePollInsertingChoice {
    #[verifier::type_invariant]
    spec fn wf(self) -> bool {
        &&& self.ctx.request.choices@.len() >= 2
        &&& self.next < self.ctx.request.choices@.len()
    }

    pub closed spec fn ctx(&self) -> CreatePollContext {
        self.ctx
    }

    pub closed spec fn poll_id(&self) -> String {
        self.poll_id
    }

    /// The index of the choice being stored.
    pub closed spec fn position(&self) -> nat {
        self.next as nat
    }

    pub fn context(&self) -> (c: &CreatePollContext)
        ensures
            *c == self.ctx(),
    {
        &self.ctx
    }

    /// The id of the poll the choice belongs to.
    pub fn id(&self) -> (id: &String)
        ensures
            *id == self.poll_id(),
    {
        &self.poll_id
    }

    /// The text of the choice being stored.
    pub fn option_text(&self) -> (t: &String)
        ensures
            self.position() < self.ctx().request.choices@.len(),
            *t == self.ctx().request.choices@[self.position() as int],
    {
        proof {
            use_type_invariant(self);
        }
        &self.ctx.request.choices[self.next]
    }

    /// Moves on to the next choice, or to the commit after the last.
    pub fn resume(self, answer: Result<(), DbFailure>) -> (step: CreatePollStep)
        ensures
            answer is Err ==> ends_with_error(step, Status::InternalServerError, "Failed to insert option"@),
            answer is Ok ==> if self.position() + 1 < self.ctx().request.choices@.len() {
                step matches CreatePollStep::InsertChoice(p) && p.ctx() == self.ctx() && p.poll_id()
                    == self.poll_id() && p.position() == self.position() + 1
            } else {
                step matches CreatePollStep::Commit(p) && p.poll_id() == self.poll_id()
            },
    {
        proof {
            use_type_invariant(&self);
        }
        match answer {
            Err(_) => refuse(Status::InternalServerError, "Failed to insert option"),
            Ok(()) => {
                if self.next < self.ctx.request.choices.len() - 1 {
                    CreatePollStep::InsertChoice(
                        CreatePollInsertingChoice { ctx: self.ctx, poll_id: self.poll_id, next: self.next + 1 },
                    )
                } else {
                    CreatePollStep::Commit(CreatePollCommitting { poll_id: self.poll_id })
                }
            },
        }
    }
}

/// Waiting for the transaction to commit.
#[derive(Debug)]
pub struct CreatePollCommitting {
    poll_id: String,
}

impl CreatePollCommitting {
    pub closed spec fn poll_id(&self) -> String {
        self.poll_id
    }

    /// The poll exists once the transaction commits; it is shared at its address.
    pub fn resume(self, answer: Result<(), DbFailure>) -> (step: CreatePollStep)
        ensures
            answer is Err ==> ends_with_error(
                step,
                Status::InternalServerError,
                "Failed to commit poll creation"@,
            ),
            answer is Ok ==> (step matches CreatePollStep::Reply(Ok(r)) && r.poll_id == self.poll_id()
                && r.share_url@ == share_url_of(self.poll_id()@)),
    {
        match answer {
            Err(_) => refuse(Status::InternalServerError, "Failed to commit poll creation"),
            Ok(()) => {
                let share_url = String::from_str("http://localhost:3000/poll/").concat(self.poll_id.as_str());
                CreatePollStep::Reply(Ok(CreatePollResponse { poll_id: self.poll_id, share_url }))
            },
        }
    }
}

} // verus!
