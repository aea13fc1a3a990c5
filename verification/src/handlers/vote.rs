use vstd::prelude::*;
use crate::clock::{DbTime, poll_closed, is_poll_closed};
use crate::fields::{text_or, text_or_default, text_or_empty};
use crate::http::{DbFailure, Status};
use crate::handlers::get_poll::PollRow;
use crate::middleware::auth::AuthUser;

verus! {

/// The choices a user votes for.
#[derive(Debug)]
pub struct VoteRequest {
    pub option_ids: Vec<i32>,
}

#[derive(Debug)]
pub struct ErrorResponse {
    pub error: String,
}

#[derive(Debug)]
pub struct SuccessResponse {
    pub message: String,
}

/// The answer to a vote.
pub type VoteReply = Result<SuccessResponse, (Status, ErrorResponse)>;

/// The vote a request asks to cast: the poll, the voter, and the chosen options.
#[derive(Debug)]
pub struct VoteContext {
    pub poll_id: String,
    pub user_id: String,
    pub option_ids: Vec<i32>,
}

/// What the database holds about a poll that a vote needs; a column that could
/// not be read is `None`.
#[derive(Debug)]
pub struct VotePollRow {
    pub team_id: Option<String>,
    pub multiple_choice: Option<bool>,
    pub status: Option<String>,
    pub closes_at: Option<DbTime>,
}

/// A poll as a vote reads it: an unreadable team is empty, an unreadable kind is
/// single-choice, an unreadable status is `open`.
#[derive(Debug)]
pub struct VotePoll {
    pub team_id: String,
    pub multiple_choice: bool,
    pub status: String,
    pub closes_at: Option<DbTime>,
}

/// `poll` is `row` read with the defaults for unreadable columns.
pub open spec fn reads_as(row: VotePollRow, poll: VotePoll) -> bool {
    &&& poll.team_id@ == text_or_default(row.team_id, Seq::empty())
    &&& poll.multiple_choice == (row.multiple_choice matches Some(b) && b)
    &&& poll.status@ == text_or_default(row.status, "open"@)
    &&& poll.closes_at == row.closes_at
}

/// Where a vote stands: the database work it waits for, or its answer.
#[derive(Debug)]
pub enum VoteStep {
    FetchPoll(VoteFetchingPoll),
    CheckMember(VoteCheckingMember),
    FindVote(VoteCheckingExisting),
    Begin(VoteBeginning),
    Insert(VoteInserting),
    Commit(VoteCommitting),
    Reply(VoteReply),
}

/// `reply` refuses the vote with `status` and the message `msg`.
pub open spec fn rejects(reply: VoteReply, status: Status, msg: Seq<char>) -> bool {
    reply matches Err((s, e)) && s == status && e.error@ == msg
}

/// The vote ends here, refused with `status` and the message `msg`.
pub open spec fn ends_with_error(step: VoteStep, status: Status, msg: Seq<char>) -> bool {
    step matches VoteStep::Reply(r) && rejects(r, status, msg)
}

fn refuse(status: Status, msg: &str) -> (step: VoteStep)
    ensures
        ends_with_error(step, status, msg@),
{
    VoteStep::Reply(Err((status, ErrorResponse { error: String::from_str(msg) })))
}

/// Starts casting `payload` in poll `poll_id` for `user`: first the poll is looked up.
pub fn vote(poll_id: String, user: AuthUser, payload: VoteRequest) -> (step: VoteStep)
    ensures
        step matches VoteStep::FetchPoll(p) && p.ctx() == (VoteContext {
            poll_id,
            user_id: user.user_id,
            option_ids: payload.option_ids,
        }),
{
    VoteStep::FetchPoll(
        VoteFetchingPoll {
            ctx: VoteContext { poll_id, user_id: user.user_id, option_ids: payload.option_ids },
        },
    )
}

/// Votes and views agree on closing: for one stored poll at one time, a member's
/// vote is refused as closed exactly when the poll is shown as closed.
pub proof fn law_vote_refused_iff_shown_closed(for_vote: VotePollRow, poll: VotePoll, shown: PollRow, now: DbTime)
    requires
        reads_as(for_vote, poll),
        for_vote.status == shown.status,
        for_vote.closes_at == shown.closes_at,
    ensures
        poll_closed(poll.status@, poll.closes_at, now) == poll_closed(
            text_or_default(shown.status, "open"@),
            shown.closes_at,
            now,
        ),
{
}

/// Waiting for the poll's team, kind, status and closing time.
#[derive(Debug)]
pub struct VoteFetchingPoll {
    ctx: VoteContext,
}

impl VoteFetchingPoll {
    pub closed spec fn ctx(&self) -> VoteContext {
        self.ctx
    }

    pub fn context(&self) -> (c: &VoteContext)
        ensures
            *c == self.ctx(),
    {
        &self.ctx
    }

    /// A poll that exists goes on to the membership check of its team.
    pub fn resume(self, answer: Result<Option<VotePollRow>, DbFailure>) -> (step: VoteStep)
        ensures
            answer is Err ==> ends_with_error(step, Status::InternalServerError, "Database error checking poll"@),
            answer matches Ok(None) ==> ends_with_error(step, Status::NotFound, "Poll not found"@),
            answer matches Ok(Some(row)) ==> (step matches VoteStep::CheckMember(p) && p.ctx() == self.ctx()
                && reads_as(row, p.poll())),
    {
        let row = match answer {
            Err(_) => return refuse(Status::InternalServerError, "Database error checking poll"),
            Ok(None) => return refuse(Status::NotFound, "Poll not found"),
            Ok(Some(row)) => row,
        };
        let multiple_choice = match row.multiple_choice {
            Some(b) => b,
            None => false,
        };
        let closes_at = row.closes_at;
        let team_id = text_or_empty(row.team_id);
        let status = text_or(row.status, "open");
        let poll = VotePoll { team_id, multiple_choice, status, closes_at };
        VoteStep::CheckMember(VoteCheckingMember { ctx: self.ctx, poll })
    }
}

/// Waiting to learn whether the voter belongs to the poll's team.
#[derive(Debug)]
pub struct VoteCheckingMember {
    ctx: VoteContext,
    poll: VotePoll,
}

impl VoteCheckingMember {
    pub closed spec fn ctx(&self) -> VoteContext {
        self.ctx
    }

    pub closed spec fn poll(&self) -> VotePoll {
        self.poll
    }

    pub fn context(&self) -> (c: &VoteContext)
        ensures
            *c == self.ctx(),
    {
        &self.ctx
    }

    /// The team whose membership is checked.
    pub fn team_id(&self) -> (t: &String)
        ensures
            *t == self.poll().team_id,
    {
        &self.poll.team_id
    }

    /// Only members of the poll's team vote, and only while the poll is open at `now`.
    pub fn resume(self, answer: Result<bool, DbFailure>, now: DbTime) -> (step: VoteStep)
        ensures
            answer is Err ==> ends_with_error(
                step,
                Status::InternalServerError,
                "Database error checking membership"@,
            ),
            answer == Ok::<bool, DbFailure>(false) ==> ends_with_error(
                step,
                Status::Forbidden,
                "You are not a member of this team"@,
            ),
            answer == Ok::<bool, DbFailure>(true) ==> if poll_closed(
                self.poll().status@,
                self.poll().closes_at,
                now,
            ) {
                ends_with_error(step, Status::BadRequest, "Poll is closed"@)
            } else {
                step matches VoteStep::FindVote(p) && p.ctx() == self.ctx() && p.poll() == self.poll()
            },
    {
        match answer {
            Err(_) => refuse(Status::InternalServerError, "Database error checking membership"),
            Ok(false) => refuse(Status::Forbidden, "You are not a member of this team"),
            Ok(true) => {
                if is_poll_closed(&self.poll.status, self.poll.closes_at, now) {
                    refuse(Status::BadRequest, "Poll is closed")
                } else {
                    VoteStep::FindVote(VoteCheckingExisting { ctx: self.ctx, poll: self.poll })
                }
            },
        }
    }
}

/// Waiting to learn whether the voter has already voted in the poll.
#[derive(Debug)]
pub struct VoteCheckingExisting {
    ctx: VoteContext,
    poll: VotePoll,
}

/// The options may be recorded for a poll of this kind: at least one, and
/// exactly one in a single-choice poll.
pub open spec fn acceptable_options(options: Seq<i32>, multiple_choice: bool) -> bool {
    options.len() > 0 && (!multiple_choice ==> options.len() == 1)
}

impl VoteCheckingExisting {
    pub closed spec fn ctx(&self) -> VoteContext {
        self.ctx
    }

    pub closed spec fn poll(&self) -> VotePoll {
        self.poll
    }

    pub fn context(&self) -> (c: &VoteContext)
        ensures
            *c == self.ctx(),
    {
        &self.ctx
    }

    /// A single-choice poll takes one vote per user, for exactly one option; any
    /// poll needs at least one option.
    pub fn resume(self, answer: Result<bool, DbFailure>) -> (step: VoteStep)
        ensures
            answer is Err ==> ends_with_error(step, Status::InternalServerError, "Vote check error"@),
            answer matches Ok(voted) ==> if !self.poll().multiple_choice && voted {
                ends_with_error(step, Status::Conflict, "Already voted in this single-choice poll"@)
            } else if self.ctx().option_ids@.len() == 0 {
                ends_with_error(step, Status::BadRequest, "No option selected"@)
            } else if !self.poll().multiple_choice && self.ctx().option_ids@.len() > 1 {
                ends_with_error(step, Status::BadRequest, "Cannot vote for multiple options"@)
            } else {
                step matches VoteStep::Begin(p) && p.ctx() == self.ctx() && p.poll() == self.poll()
            },
            step is Begin ==> acceptable_options(self.ctx().option_ids@, self.poll().multiple_choice),
    {
        let voted = match answer {
            Err(_) => return refuse(Status::InternalServerError, "Vote check error"),
            Ok(v) => v,
        };
        if !self.poll.multiple_choice && voted {
            return refuse(Status::Conflict, "Already voted in this single-choice poll");
        }
        if self.ctx.option_ids.len() == 0 {
            return refuse(Status::BadRequest, "No option selected");
        }
        if !self.poll.multiple_choice && self.ctx.option_ids.len() > 1 {
            return refuse(Status::BadRequest, "Cannot vote for multiple options");
        }
        VoteStep::Begin(VoteBeginning { ctx: self.ctx, poll: self.poll })
    }
}

/// Waiting for a transaction to open.
#[derive(Debug)]
pub struct VoteBeginning {
    ctx: VoteContext,
    poll: VotePoll,
}

impl VoteBeginning {
    #[verifier::type_invariant]
    spec fn wf(self) -> bool {
        acceptable_options(self.ctx.option_ids@, self.poll.multiple_choice)
    }

    pub closed spec fn ctx(&self) -> VoteContext {
        self.ctx
    }

    pub closed spec fn poll(&self) -> VotePoll {
        self.poll
    }

    pub fn context(&self) -> (c: &VoteContext)
        ensures
            *c == self.ctx(),
    {
        &self.ctx
    }

    /// Once the transaction is open, the first chosen option is recorded.
    pub fn resume(self, answer: Result<(), DbFailure>) -> (step: VoteStep)
        ensures
            answer is Err ==> ends_with_error(step, Status::InternalServerError, "Transaction failed"@),
            answer is Ok ==> (step matches VoteStep::Insert(p) && p.ctx() == self.ctx() && p.poll()
                == self.poll() && p.position() == 0),
    {
        proof {
            use_type_invariant(&self);
        }
        match answer {
            Err(_) => refuse(Status::InternalServerError, "Transaction failed"),
            Ok(()) => VoteStep::Insert(VoteInserting { ctx: self.ctx, poll: self.poll, next: 0 }),
        }
    }
}

/// A vote as the database stores it.
pub struct StoredVote {
    pub poll_id: Seq<char>,
    pub user_id: Seq<char>,
    pub option_id: i32,
}

/// How many of the stored votes `user` cast in `poll`.
pub open spec fn votes_of_user(votes: Seq<StoredVote>, poll: Seq<char>, user: Seq<char>) -> nat
    decreases votes.len(),
{
    if votes.len() == 0 {
        0
    } else {
        votes_of_user(votes.drop_last(), poll, user) + if votes.last().poll_id == poll
            && votes.last().user_id == user {
            1nat
        } else {
            0nat
        }
    }
}

/// No user has more than one stored vote in `poll`.
pub open spec fn one_vote_per_user(votes: Seq<StoredVote>, poll: Seq<char>) -> bool {
    forall|user: Seq<char>| #[trigger] votes_of_user(votes, poll, user) <= 1
}

/// The votes of `user` in `poll` for the options `options`, one each, in order.
pub open spec fn votes_for(poll: Seq<char>, user: Seq<char>, options: Seq<i32>) -> Seq<StoredVote> {
    Seq::new(options.len(), |i: int| StoredVote { poll_id: poll, user_id: user, option_id: options[i] })
}

/// The votes a vote flow stores: one per chosen option, in order, for its poll and voter.
pub open spec fn recorded_votes(ctx: VoteContext) -> Seq<StoredVote> {
    votes_for(ctx.poll_id@, ctx.user_id@, ctx.option_ids@)
}

/// How many of the stored votes in `poll` went to the choice `option`.
pub open spec fn votes_for_option(votes: Seq<StoredVote>, poll: Seq<char>, option: i32) -> nat
    decreases votes.len(),
{
    if votes.len() == 0 {
        0
    } else {
        votes_for_option(votes.drop_last(), poll, option) + if votes.last().poll_id == poll
            && votes.last().option_id == option {
            1nat
        } else {
            0nat
        }
    }
}

/// How often `option` occurs among the chosen options.
pub open spec fn occurrences(options: Seq<i32>, option: i32) -> nat
    decreases options.len(),
{
    if options.len() == 0 {
        0
    } else {
        occurrences(options.drop_last(), option) + if options.last() == option {
            1nat
        } else {
            0nat
        }
    }
}

proof fn lemma_votes_for_option_append(a: Seq<StoredVote>, b: Seq<StoredVote>, poll: Seq<char>, option: i32)
    ensures
        votes_for_option(a + b, poll, option) == votes_for_option(a, poll, option) + votes_for_option(
            b,
            poll,
            option,
        ),
    decreases b.len(),
{
    if b.len() > 0 {
        assert((a + b).drop_last() =~= a + b.drop_last());
        lemma_votes_for_option_append(a, b.drop_last(), poll, option);
    }
}

proof fn lemma_votes_for_counts_options(poll: Seq<char>, user: Seq<char>, options: Seq<i32>, option: i32)
    ensures
        votes_for_option(votes_for(poll, user, options), poll, option) == occurrences(options, option),
    decreases options.len(),
{
    if options.len() > 0 {
        assert(votes_for(poll, user, options).drop_last() =~= votes_for(poll, user, options.drop_last()));
        lemma_votes_for_counts_options(poll, user, options.drop_last(), option);
    }
}

/// A recorded vote adds exactly one to the count of each chosen option: once the
/// votes a vote flow records are stored, every choice of the poll counts the
/// votes it had plus the number of times the vote chose it.
pub proof fn law_vote_adds_one_per_chosen_option(stored: Seq<StoredVote>, ctx: VoteContext, option: i32)
    ensures
        votes_for_option(stored + recorded_votes(ctx), ctx.poll_id@, option) == votes_for_option(
            stored,
            ctx.poll_id@,
            option,
        ) + occurrences(ctx.option_ids@, option),
{
    lemma_votes_for_option_append(stored, recorded_votes(ctx), ctx.poll_id@, option);
    lemma_votes_for_counts_options(ctx.poll_id@, ctx.user_id@, ctx.option_ids@, option);
}

proof fn lemma_votes_of_user_append(a: Seq<StoredVote>, b: Seq<StoredVote>, poll: Seq<char>, user: Seq<char>)
    ensures
        votes_of_user(a + b, poll, user) == votes_of_user(a, poll, user) + votes_of_user(b, poll, user),
    decreases b.len(),
{
    if b.len() > 0 {
        assert((a + b).drop_last() =~= a + b.drop_last());
        lemma_votes_of_user_append(a, b.drop_last(), poll, user);
    }
}

/// A single-choice poll keeps at most one vote per user. Suppose the stored
/// votes have at most one per user in the poll, and the check for an earlier
/// vote answered `voted` truthfully. If the check lets the vote through (as
/// `VoteCheckingExisting::resume` does exactly when the options are acceptable
/// and, in a single-choice poll, the voter has no vote yet), then storing the
/// votes the flow records keeps at most one per user.
pub proof fn law_single_choice_keeps_one_vote_per_user(
    stored: Seq<StoredVote>,
    ctx: VoteContext,
    multiple_choice: bool,
    voted: bool,
)
    requires
        !multiple_choice,
        one_vote_per_user(stored, ctx.poll_id@),
        voted == (votes_of_user(stored, ctx.poll_id@, ctx.user_id@) > 0),
        !(voted && !multiple_choice),
        acceptable_options(ctx.option_ids@, multiple_choice),
    ensures
        one_vote_per_user(stored + recorded_votes(ctx), ctx.poll_id@),
{
    let added = recorded_votes(ctx);
    let poll = ctx.poll_id@;
    assert forall|user: Seq<char>| #[trigger] votes_of_user(stored + added, poll, user) <= 1 by {
        lemma_votes_of_user_append(stored, added, poll, user);
        assert(added.len() == 1);
        assert(votes_of_user(added.drop_last(), poll, user) == 0);
        assert(added.last() == added[0]);
        assert(votes_of_user(stored, poll, user) <= 1);
        if user == ctx.user_id@ {
            assert(votes_of_user(stored, poll, user) == 0);
        } else {
            assert(votes_of_user(added, poll, user) == 0);
        }
    }
}

/// Waiting for one chosen option to be recorded.
#[derive(Debug)]
pub struct VoteInserting {
    ctx: VoteContext,
    poll: VotePoll,
    next: usize,
}

impl VoteInserting {
    #[verifier::type_invariant]
    spec fn wf(self) -> bool {
        &&& acceptable_options(self.ctx.option_ids@, self.poll.multiple_choice)
        &&& self.next < self.ctx.option_ids@.len()
    }

    pub closed spec fn ctx(&self) -> VoteContext {
        self.ctx
    }

    pub closed spec fn poll(&self) -> VotePoll {
        self.poll
    }

    /// The index of the option being recorded.
    pub closed spec fn position(&self) -> nat {
        self.next as nat
    }

    pub fn context(&self) -> (c: &VoteContext)
        ensures
            *c == self.ctx(),
    {
        &self.ctx
    }

    /// The option being recorded: always one the request chose, in a poll
    /// whose kind allows the whole choice.
    pub fn option_id(&self) -> (id: i32)
        ensures
            self.position() < self.ctx().option_ids@.len(),
            id == self.ctx().option_ids@[self.position() as int],
            acceptable_options(self.ctx().option_ids@, self.poll().multiple_choice),
    {
        proof {
            use_type_invariant(self);
        }
        self.ctx.option_ids[self.next]
    }

    /// A vote that cannot be recorded (the database refuses a second vote for
    /// the same option) ends the vote; otherwise the next option follows, and
    /// the commit after the last.
    pub fn resume(self, answer: Result<(), DbFailure>) -> (step: VoteStep)
        ensures
            answer is Err ==> ends_with_error(step, Status::Conflict, "Already voted for an option"@),
            answer is Ok ==> if self.position() + 1 < self.ctx().option_ids@.len() {
                step matches VoteStep::Insert(p) && p.ctx() == self.ctx() && p.poll() == self.poll()
                    && p.position() == self.position() + 1
            } else {
                step matches VoteStep::Commit(p) && p.ctx() == self.ctx()
            },
    {
        proof {
            use_type_invariant(&self);
        }
        match answer {
            Err(_) => refuse(Status::Conflict, "Already voted for an option"),
            Ok(()) => {
                if self.next < self.ctx.option_ids.len() - 1 {
                    VoteStep::Insert(VoteInserting { ctx: self.ctx, poll: self.poll, next: self.next + 1 })
                } else {
                    VoteStep::Commit(VoteCommitting { ctx: self.ctx })
                }
            },
        }
    }
}

/// Waiting for the transaction to commit.
#[derive(Debug)]
pub struct VoteCommitting {
    ctx: VoteContext,
}

impl VoteCommitting {
    pub closed spec fn ctx(&self) -> VoteContext {
        self.ctx
    }

    pub fn context(&self) -> (c: &VoteContext)
        ensures
            *c == self.ctx(),
    {
        &self.ctx
    }

    /// The vote is recorded once the transaction commits.
    pub fn resume(self, answer: Result<(), DbFailure>) -> (step: VoteStep)
        ensures
            answer is Err ==> ends_with_error(step, Status::InternalServerError, "Save vote failed"@),
            answer is Ok ==> (step matches VoteStep::Reply(Ok(r)) && r.message@ == "Vote recorded"@),
    {
        match answer {
            Err(_) => refuse(Status::InternalServerError, "Save vote failed"),
            Ok(()) => VoteStep::Reply(Ok(SuccessResponse { message: String::from_str("Vote recorded") })),
        }
    }
}

} // verus!
