use vstd::prelude::*;
use crate::http::{DbFailure, Status};
use crate::ids::{is_uuid_v4_text, new_id};
use crate::middleware::auth::AuthUser;

verus! {

/// A request to found a team.
#[derive(Debug)]
pub struct CreateTeamRequest {
    pub name: String,
}

/// A team as the service shows it.
#[derive(Debug)]
pub struct TeamResponse {
    pub id: String,
    pub name: String,
    pub created_by: Option<String>,
}

#[derive(Debug)]
pub struct ErrorResponse {
    pub error: String,
}

#[derive(Debug)]
pub struct SuccessResponse {
    pub message: String,
}

/// The answer to a request to found a team.
pub type CreateTeamReply = Result<TeamResponse, (Status, ErrorResponse)>;

/// The answer to a request for the user's teams.
pub type ListTeamsReply = Result<Vec<TeamResponse>, (Status, ErrorResponse)>;

/// The answer to a request to join a team.
pub type JoinTeamReply = Result<SuccessResponse, (Status, ErrorResponse)>;

/// `reply` refuses the request with `status` and the message `msg`.
pub open spec fn rejects<T>(reply: Result<T, (Status, ErrorResponse)>, status: Status, msg: Seq<char>) -> bool {
    reply matches Err((s, e)) && s == status && e.error@ == msg
}

fn refusal<T>(status: Status, msg: &str) -> (reply: Result<T, (Status, ErrorResponse)>)
    ensures
        rejects(reply, status, msg@),
{
    Err((status, ErrorResponse { error: String::from_str(msg) }))
}

/// The team a request asks to found: its new id, its name, and its founder.
#[derive(Debug)]
pub struct CreateTeamContext {
    pub team_id: String,
    pub name: String,
    pub user_id: String,
}

/// Where the founding of a team stands: the database work it waits for, or its answer.
#[derive(Debug)]
pub enum CreateTeamStep {
    Begin(CreateTeamBeginning),
    InsertTeam(CreateTeamInserting),
    InsertAdmin(CreateTeamAddingAdmin),
    Commit(CreateTeamCommitting),
    Reply(CreateTeamReply),
}

/// The founding ends here, refused with `status` and the message `msg`.
pub open spec fn create_ends_with_error(step: CreateTeamStep, status: Status, msg: Seq<char>) -> bool {
    step matches CreateTeamStep::Reply(r) && rejects(r, status, msg)
}

/// Starts founding the team `payload` for `user` under a fresh id: first a
/// transaction opens.
pub fn create_team(user: AuthUser, payload: CreateTeamRequest) -> (step: CreateTeamStep)
    ensures
        step matches CreateTeamStep::Begin(p) && p.ctx().name == payload.name && p.ctx().user_id
            == user.user_id && is_uuid_v4_text(p.ctx().team_id@),
{
    let team_id = new_id();
    CreateTeamStep::Begin(
        CreateTeamBeginning {
            ctx: CreateTeamContext { team_id, name: payload.name, user_id: user.user_id },
        },
    )
}

/// Waiting for a transaction to open.
#[derive(Debug)]
pub struct CreateTeamBeginning {
    ctx: CreateTeamContext,
}

impl CreateTeamBeginning {
    pub closed spec fn ctx(&self) -> CreateTeamContext {
        self.ctx
    }

    pub fn context(&self) -> (c: &CreateTeamContext)
        ensures
            *c == self.ctx(),
    {
        &self.ctx
    }

    /// Once the transaction is open, the team is stored.
    pub fn resume(self, answer: Result<(), DbFailure>) -> (step: CreateTeamStep)
        ensures
            answer is Err ==> create_ends_with_error(step, Status::InternalServerError, "Database error"@),
            answer is Ok ==> (step matches CreateTeamStep::InsertTeam(p) && p.ctx() == self.ctx()),
    {
        match answer {
            Err(_) => CreateTeamStep::Reply(refusal(Status::InternalServerError, "Database error")),
            Ok(()) => CreateTeamStep::InsertTeam(CreateTeamInserting { ctx: self.ctx }),
        }
    }
}

/// Waiting for the team to be stored.
#[derive(Debug)]
pub struct CreateTeamInserting {
    ctx: CreateTeamContext,
}

impl CreateTeamInserting {
    pub closed spec fn ctx(&self) -> CreateTeamContext {
        self.ctx
    }

    pub fn context(&self) -> (c: &CreateTeamContext)
        ensures
            *c == self.ctx(),
    {
        &self.ctx
    }

    /// Once the team is stored, its founder joins it as admin.
    pub fn resume(self, answer: Result<(), DbFailure>) -> (step: CreateTeamStep)
        ensures
            answer is Err ==> create_ends_with_error(step, Status::InternalServerError, "Failed to create team"@),
            answer is Ok ==> (step matches CreateTeamStep::InsertAdmin(p) && p.ctx() == self.ctx()),
    {
        match answer {
            Err(_) => CreateTeamStep::Reply(refusal(Status::InternalServerError, "Failed to create team")),
            Ok(()) => CreateTeamStep::InsertAdmin(CreateTeamAddingAdmin { ctx: self.ctx }),
        }
    }
}

/// Waiting for the founder to be stored as the team's admin.
#[derive(Debug)]
pub struct CreateTeamAddingAdmin {
    ctx: CreateTeamContext,
}

impl CreateTeamAddingAdmin {
    pub closed spec fn ctx(&self) -> CreateTeamContext {
        self.ctx
    }

    pub fn context(&self) -> (c: &CreateTeamContext)
        ensures
            *c == self.ctx(),
    {
        &self.ctx
    }

    /// The role the founder holds in the team.
    pub fn role(&self) -> (r: &'static str)
        ensures
            r@ == "admin"@,
    {
        "admin"
    }

    /// Once the founder is admin, the transaction commits.
    pub fn resume(self, answer: Result<(), DbFailure>) -> (step: CreateTeamStep)
        ensures
            answer is Err ==> create_ends_with_error(step, Status::InternalServerError, "Failed to add as admin"@),
            answer is Ok ==> (step matches CreateTeamStep::Commit(p) && p.ctx() == self.ctx()),
    {
        match answer {
            Err(_) => CreateTeamStep::Reply(refusal(Status::InternalServerError, "Failed to add as admin")),
            Ok(()) => CreateTeamStep::Commit(CreateTeamCommitting { ctx: self.ctx }),
        }
    }
}

/// Waiting for the transaction to commit.
#[derive(Debug)]
pub struct CreateTeamCommitting {
    ctx: CreateTeamContext,
}

impl CreateTeamCommitting {
    pub closed spec fn ctx(&self) -> CreateTeamContext {
        self.ctx
    }

    /// The team exists once the transaction commits; it shows its founder.
    pub fn resume(self, answer: Result<(), DbFailure>) -> (step: CreateTeamStep)
        ensures
            answer is Err ==> create_ends_with_error(
                step,
                Status::InternalServerError,
                "Failed to commit transaction"@,
            ),
            answer is Ok ==> (step matches CreateTeamStep::Reply(Ok(t)) && t.id == self.ctx().team_id
                && t.name == self.ctx().name && t.created_by == Some(self.ctx().user_id)),
    {
        match answer {
            Err(_) => CreateTeamStep::Reply(refusal(Status::InternalServerError, "Failed to commit transaction")),
            Ok(()) => CreateTeamStep::Reply(
                Ok(
                    TeamResponse {
                        id: self.ctx.team_id,
                        name: self.ctx.name,
                        created_by: Some(self.ctx.user_id),
                    },
                ),
            ),
        }
    }
}

/// A request for the teams that a user belongs to.
#[derive(Debug)]
pub struct ListTeamsFetching {
    user_id: String,
}

/// Where a request for the user's teams stands.
#[derive(Debug)]
pub enum ListTeamsStep {
    FetchTeams(ListTeamsFetching),
    Reply(ListTeamsReply),
}

/// Starts listing the teams that `user` belongs to.
pub fn list_teams(user: AuthUser) -> (step: ListTeamsStep)
    ensures
        step matches ListTeamsStep::FetchTeams(p) && p.user() == user.user_id,
{
    ListTeamsStep::FetchTeams(ListTeamsFetching { user_id: user.user_id })
}

impl ListTeamsFetching {
    pub closed spec fn user(&self) -> String {
        self.user_id
    }

    /// The user whose teams are listed.
    pub fn user_id(&self) -> (u: &String)
        ensures
            *u == self.user(),
    {
        &self.user_id
    }

    /// Shows the user's teams as stored.
    pub fn resume(self, answer: Result<Vec<TeamResponse>, DbFailure>) -> (step: ListTeamsStep)
        ensures
            answer is Err ==> (step matches ListTeamsStep::Reply(r) && rejects(
                r,
                Status::InternalServerError,
                "Failed to fetch teams"@,
            )),
            answer matches Ok(teams) ==> (step matches ListTeamsStep::Reply(Ok(shown)) && shown == teams),
    {
        match answer {
            Err(_) => ListTeamsStep::Reply(refusal(Status::InternalServerError, "Failed to fetch teams")),
            Ok(teams) => ListTeamsStep::Reply(Ok(teams)),
        }
    }
}

/// The team a user asks to join.
#[derive(Debug)]
pub struct JoinTeamContext {
    pub team_id: String,
    pub user_id: String,
}

/// Where a request to join a team stands: the database work it waits for, or its answer.
#[derive(Debug)]
pub enum JoinTeamStep {
    CheckMember(JoinTeamCheckingMember),
    InsertMember(JoinTeamInserting),
    Reply(JoinTeamReply),
}

/// Starts adding `user` to team `team_id`: first their membership is checked.
pub fn join_team(user: AuthUser, team_id: String) -> (step: JoinTeamStep)
    ensures
        step matches JoinTeamStep::CheckMember(p) && p.ctx() == (JoinTeamContext {
            team_id,
            user_id: user.user_id,
        }),
{
    JoinTeamStep::CheckMember(JoinTeamCheckingMember { ctx: JoinTeamContext { team_id, user_id: user.user_id } })
}

/// The memberships stored after a join of `user` to `team`, given the stored
/// memberships `members`: `JoinTeamCheckingMember::resume` stores nothing for a
/// member and a new membership for anyone else.
pub open spec fn after_join(members: Set<(Seq<char>, Seq<char>)>, team: Seq<char>, user: Seq<char>) -> Set<
    (Seq<char>, Seq<char>),
> {
    if members.contains((team, user)) {
        members
    } else {
        members.insert((team, user))
    }
}

/// Joining is idempotent: after a join, the membership check of a second join
/// answers that the user is a member (so it replies `Already a member` and
/// stores nothing), and two joins store what one does.
pub proof fn law_join_is_idempotent(members: Set<(Seq<char>, Seq<char>)>, team: Seq<char>, user: Seq<char>)
    ensures
        after_join(members, team, user).contains((team, user)),
        after_join(after_join(members, team, user), team, user) == after_join(members, team, user),
{
}

/// Waiting to learn whether the user already belongs to the team.
#[derive(Debug)]
pub struct JoinTeamCheckingMember {
    ctx: JoinTeamContext,
}

impl JoinTeamCheckingMember {
    pub closed spec fn ctx(&self) -> JoinTeamContext {
        self.ctx
    }

    pub fn context(&self) -> (c: &JoinTeamContext)
        ensures
            *c == self.ctx(),
    {
        &self.ctx
    }

    /// Joining a team one already belongs to succeeds and stores nothing;
    /// otherwise the user is stored as a member.
    pub fn resume(self, answer: Result<bool, DbFailure>) -> (step: JoinTeamStep)
        ensures
            answer is Err ==> (step matches JoinTeamStep::Reply(r) && rejects(
                r,
                Status::InternalServerError,
                "Database error checking membership"@,
            )),
            answer == Ok::<bool, DbFailure>(true) ==> (step matches JoinTeamStep::Reply(Ok(m)) && m.message@
                == "Already a member"@),
            answer == Ok::<bool, DbFailure>(false) ==> (step matches JoinTeamStep::InsertMember(p) && p.ctx()
                == self.ctx()),
    {
        match answer {
            Err(_) => JoinTeamStep::Reply(refusal(Status::InternalServerError, "Database error checking membership")),
            Ok(true) => JoinTeamStep::Reply(Ok(SuccessResponse { message: String::from_str("Already a member") })),
            Ok(false) => JoinTeamStep::InsertMember(JoinTeamInserting { ctx: self.ctx }),
        }
    }
}

/// Waiting for the user to be stored as a member of the team.
#[derive(Debug)]
pub struct JoinTeamInserting {
    ctx: JoinTeamContext,
}

impl JoinTeamInserting {
    pub closed spec fn ctx(&self) -> JoinTeamContext {
        self.ctx
    }

    pub fn context(&self) -> (c: &JoinTeamContext)
        ensures
            *c == self.ctx(),
    {
        &self.ctx
    }

    /// The role a joining user holds in the team.
    pub fn role(&self) -> (r: &'static str)
        ensures
            r@ == "member"@,
    {
        "member"
    }

    /// The user has joined once stored; a team that does not exist refuses them.
    pub fn resume(self, answer: Result<(), DbFailure>) -> (step: JoinTeamStep)
        ensures
            answer is Err ==> (step matches JoinTeamStep::Reply(r) && rejects(
                r,
                Status::InternalServerError,
                "Failed to join team. Ensure the team ID is correct."@,
            )),
            answer is Ok ==> (step matches JoinTeamStep::Reply(Ok(m)) && m.message@
                == "Successfully joined team"@),
    {
        match answer {
            Err(_) => JoinTeamStep::Reply(
                refusal(Status::InternalServerError, "Failed to join team. Ensure the team ID is correct."),
            ),
            Ok(()) => JoinTeamStep::Reply(Ok(SuccessResponse { message: String::from_str("Successfully joined team") })),
        }
    }
}

} // verus!
