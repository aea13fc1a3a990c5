use vstd::prelude::*;
use crate::fields::{text_or, text_or_default, text_or_empty};
use crate::http::{DbFailure, Status};
use crate::middleware::auth::AuthUser;

verus! {

#[derive(Debug)]
pub struct ErrorResponse {
    pub error: String,
}

/// The poll whose live results a request asks for, and the user asking.
#[derive(Debug)]
pub struct StreamContext {
    pub poll_id: String,
    pub user_id: String,
}

/// A granted request for live results: the poll whose tallies are sent.
#[derive(Debug)]
pub struct ResultsStream {
    pub poll_id: String,
}

/// The answer to a request for live results.
pub type StreamReply = Result<ResultsStream, (Status, ErrorResponse)>;

/// Where a request for live results stands: the database work it waits for, or its answer.
#[derive(Debug)]
pub enum StreamStep {
    FetchPoll(StreamFetchingPoll),
    CheckMember(StreamCheckingMember),
    Reply(StreamReply),
}

/// `reply` refuses the stream with `status` and the message `msg`.
pub open spec fn rejects(reply: StreamReply, status: Status, msg: Seq<char>) -> bool {
    reply matches Err((s, e)) && s == status && e.error@ == msg
}

/// The request ends here, refused with `status` and the message `msg`.
pub open spec fn ends_with_error(step: StreamStep, status: Status, msg: Seq<char>) -> bool {
    step matches StreamStep::Reply(r) && rejects(r, status, msg)
}

fn refuse(status: Status, msg: &str) -> (step: StreamStep)
    ensures
        ends_with_error(step, status, msg@),
{
    StreamStep::Reply(Err((status, ErrorResponse { error: String::from_str(msg) })))
}

/// Starts streaming the results of poll `poll_id` to `user`: first the poll's
/// team is looked up.
pub fn stream_results(poll_id: String, user: AuthUser) -> (step: StreamStep)
    ensures
        step matches StreamStep::FetchPoll(p) && p.ctx() == (StreamContext { poll_id, user_id: user.user_id }),
{
    StreamStep::FetchPoll(StreamFetchingPoll { ctx: StreamContext { poll_id, user_id: user.user_id } })
}

/// Waiting for the poll's team; the inner `None` stands for a team that could
/// not be read.
#[derive(Debug)]
pub struct StreamFetchingPoll {
    ctx: StreamContext,
}

impl StreamFetchingPoll {
    pub closed spec fn ctx(&self) -> StreamContext {
        self.ctx
    }

    pub fn context(&self) -> (c: &StreamContext)
        ensures
            *c == self.ctx(),
    {
        &self.ctx
    }

    /// A poll that exists goes on to the membership check of its team.
    pub fn resume(self, answer: Result<Option<Option<String>>, DbFailure>) -> (step: StreamStep)
        ensures
            answer is Err ==> ends_with_error(step, Status::InternalServerError, "Database error checking poll"@),
            answer matches Ok(None) ==> ends_with_error(step, Status::NotFound, "Poll not found"@),
            answer matches Ok(Some(team)) ==> (step matches StreamStep::CheckMember(p) && p.ctx()
                == self.ctx() && p.team_id()@ == text_or_default(team, Seq::empty())),
    {
        let team = match answer {
            Err(_) => return refuse(Status::InternalServerError, "Database error checking poll"),
            Ok(None) => return refuse(Status::NotFound, "Poll not found"),
            Ok(Some(team)) => team,
        };
        let team_id = text_or_empty(team);
        StreamStep::CheckMember(StreamCheckingMember { ctx: self.ctx, team_id })
    }
}

/// Waiting to learn whether the user belongs to the poll's team.
#[derive(Debug)]
pub struct StreamCheckingMember {
    ctx: StreamContext,
    team_id: String,
}

impl StreamCheckingMember {
    pub closed spec fn ctx(&self) -> StreamContext {
        self.ctx
    }

    pub closed spec fn team_id(&self) -> String {
        self.team_id
    }

    pub fn context(&self) -> (c: &StreamContext)
        ensures
            *c == self.ctx(),
    {
        &self.ctx
    }

    /// The team whose membership is checked.
    pub fn team(&self) -> (t: &String)
        ensures
            *t == self.team_id(),
    {
        &self.team_id
    }

    /// Only members of the poll's team receive its live results.
    pub fn resume(self, answer: Result<bool, DbFailure>) -> (step: StreamStep)
        ensures
            answer is Err ==> ends_with_error(
                step,
                Status::InternalServerError,
                "Database error checking membership"@,
            ),
            answer == Ok::<bool, DbFailure>(false) ==> ends_with_error(
                step,
                Status::Forbidden,
                "You are not a member of this team"@,
            ),
            answer == Ok::<bool, DbFailure>(true) ==> (step matches StreamStep::Reply(Ok(s)) && s.poll_id
                == self.ctx().poll_id),
    {
        match answer {
            Err(_) => refuse(Status::InternalServerError, "Database error checking membership"),
            Ok(false) => refuse(Status::Forbidden, "You are not a member of this team"),
            Ok(true) => StreamStep::Reply(Ok(ResultsStream { poll_id: self.ctx.poll_id })),
        }
    }
}

/// One choice of a poll with its vote count, as stored; a column that could not
/// be read is `None`.
#[derive(Debug)]
pub struct TallyRow {
    pub choice_id: Option<i32>,
    pub option_text: Option<String>,
    pub votes: Option<i64>,
}

/// One choice in a results update.
#[derive(Debug)]
pub struct ChoiceTally {
    pub choice_id: i32,
    pub text: String,
    pub votes: i64,
}

/// A results update: every choice with its votes, and the votes of all choices together.
#[derive(Debug)]
pub struct ResultsTally {
    pub total_votes: i64,
    pub results: Vec<ChoiceTally>,
}

/// What one tick of the stream sends: an update, or word that the results could
/// not be read.
#[derive(Debug)]
pub enum StreamUpdate {
    Tally(ResultsTally),
    Error,
}

/// The votes a stored choice counts: an unreadable count is 0.
pub open spec fn votes_of(r: TallyRow) -> int {
    match r.votes {
        Some(v) => v as int,
        None => 0,
    }
}

/// The votes of all the stored choices together.
pub open spec fn vote_total(rows: Seq<TallyRow>) -> int
    decreases rows.len(),
{
    if rows.len() == 0 {
        0
    } else {
        vote_total(rows.drop_last()) + votes_of(rows.last())
    }
}

/// Adding up the votes choice by choice stays within `i64`.
pub open spec fn total_fits(rows: Seq<TallyRow>) -> bool {
    forall|k: int| 0 <= k <= rows.len() ==> i64::MIN <= #[trigger] vote_total(rows.take(k)) <= i64::MAX
}

/// A stored choice as an update shows it: unreadable columns show as 0 or empty text.
pub open spec fn shows_tally(row: TallyRow, t: ChoiceTally) -> bool {
    &&& t.choice_id == (match row.choice_id {
        Some(v) => v,
        None => 0i32,
    })
    &&& t.text@ == text_or_default(row.option_text, Seq::empty())
    &&& t.votes as int == votes_of(row)
}

/// The votes listed in an update, added up.
pub open spec fn listed_total(results: Seq<ChoiceTally>) -> int
    decreases results.len(),
{
    if results.len() == 0 {
        0
    } else {
        listed_total(results.drop_last()) + results.last().votes as int
    }
}

proof fn lemma_totals_agree(rows: Seq<TallyRow>, results: Seq<ChoiceTally>)
    requires
        results.len() == rows.len(),
        forall|i: int| 0 <= i < rows.len() ==> shows_tally(rows[i], #[trigger] results[i]),
    ensures
        listed_total(results) == vote_total(rows),
    decreases rows.len(),
{
    if rows.len() > 0 {
        let r = rows.drop_last();
        let t = results.drop_last();
        assert forall|i: int| 0 <= i < r.len() implies shows_tally(r[i], #[trigger] t[i]) by {
            assert(shows_tally(rows[i], results[i]));
        }
        lemma_totals_agree(r, t);
        assert(shows_tally(rows[rows.len() - 1], results[results.len() - 1]));
    }
}

/// Returns whether the votes of `rows` can be added up within `i64`.
pub fn tally_fits(rows: &Vec<TallyRow>) -> (fits: bool)
    ensures
        fits == total_fits(rows@),
{
    let mut total: i64 = 0;
    let mut i: usize = 0;
    assert(rows@.take(0) =~= Seq::<TallyRow>::empty());
    while i < rows.len()
        invariant
            i <= rows@.len(),
            total as int == vote_total(rows@.take(i as int)),
            forall|k: int| 0 <= k <= i ==> i64::MIN <= #[trigger] vote_total(rows@.take(k)) <= i64::MAX,
        decreases rows.len() - i,
    {
        let v: i64 = match rows[i].votes {
            Some(v) => v,
            None => 0,
        };
        assert(rows@.take(i + 1).drop_last() =~= rows@.take(i as int));
        match total.checked_add(v) {
            Some(t) => {
                total = t;
            },
            None => {
                assert(!(i64::MIN <= vote_total(rows@.take(i + 1)) <= i64::MAX));
                return false;
            },
        }
        i = i + 1;
    }
    assert(rows@.take(rows@.len() as int) =~= rows@);
    true
}

/// Builds one results update from the stored choices: each choice with its
/// votes, and the total of all votes.
pub fn tally_results(rows: Vec<TallyRow>) -> (tally: ResultsTally)
    requires
        total_fits(rows@),
    ensures
        tally.total_votes as int == vote_total(rows@),
        tally.results@.len() == rows@.len(),
        forall|i: int| 0 <= i < rows@.len() ==> shows_tally(rows@[i], #[trigger] tally.results@[i]),
        tally.total_votes as int == listed_total(tally.results@),
{
    let ghost all = rows@;
    let mut rows = rows;
    let n = rows.len();
    let mut total: i64 = 0;
    let mut results: Vec<ChoiceTally> = Vec::new();
    let mut i: usize = 0;
    assert(all.take(0) =~= Seq::<TallyRow>::empty());
    while i < n
        invariant
            n == all.len(),
            i <= n,
            total_fits(all),
            rows@ == all.subrange(i as int, n as int),
            total as int == vote_total(all.take(i as int)),
            results@.len() == i,
            forall|k: int| 0 <= k < i ==> shows_tally(all[k], #[trigger] results@[k]),
        decreases n - i,
    {
        let row = rows.remove(0);
        assert(row == all[i as int]);
        let votes: i64 = match row.votes {
            Some(v) => v,
            None => 0,
        };
        assert(all.take(i + 1).drop_last() =~= all.take(i as int));
        assert(all.take(i + 1).last() == all[i as int]);
        assert(i64::MIN <= vote_total(all.take(i + 1)) <= i64::MAX);
        total = total + votes;
        let choice_id = match row.choice_id {
            Some(v) => v,
            None => 0,
        };
        let text = text_or_empty(row.option_text);
        results.push(ChoiceTally { choice_id, text, votes });
        assert(rows@ =~= all.subrange(i + 1, n as int));
        i = i + 1;
    }
    assert(all.take(n as int) =~= all);
    proof {
        lemma_totals_agree(all, results@);
    }
    ResultsTally { total_votes: total, results }
}

/// The update one tick of the stream sends for the stored choices it read.
pub fn stream_update(answer: Result<Vec<TallyRow>, DbFailure>) -> (update: StreamUpdate)
    requires
        answer matches Ok(rows) ==> total_fits(rows@),
    ensures
        answer is Err ==> update is Error,
        answer matches Ok(rows) ==> (update matches StreamUpdate::Tally(t) && t.total_votes as int
            == vote_total(rows@) && t.total_votes as int == listed_total(t.results@)
            && t.results@.len() == rows@.len() && (forall|i: int|
            0 <= i < rows@.len() ==> shows_tally(rows@[i], #[trigger] t.results@[i]))),
{
    match answer {
        Err(_) => StreamUpdate::Error,
        Ok(rows) => StreamUpdate::Tally(tally_results(rows)),
    }
}

} // verus!
