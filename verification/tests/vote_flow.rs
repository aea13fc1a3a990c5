use team_polls::handlers::vote::{vote, VotePollRow, VoteReply, VoteRequest, VoteStep};
use team_polls::middleware::auth::AuthUser;
use team_polls::{is_poll_closed, DbFailure, DbTime, Status};

fn user(id: &str) -> AuthUser {
    AuthUser { user_id: id.to_string() }
}

fn at(secs: i64) -> DbTime {
    DbTime { secs, nanos: 0 }
}

fn row(multiple: bool, status: &str, closes_at: Option<DbTime>) -> VotePollRow {
    VotePollRow {
        team_id: Some("team-1".to_string()),
        multiple_choice: Some(multiple),
        status: Some(status.to_string()),
        closes_at,
    }
}

fn expect_error(step: VoteStep, status: Status, msg: &str) {
    match step {
        VoteStep::Reply(Err((s, e))) => {
            assert_eq!(s, status);
            assert_eq!(e.error, msg);
        },
        other => panic!("expected a refusal, got {:?}", other),
    }
}

/// Runs a vote up to the check for an earlier vote, with membership granted at `now`.
fn until_existing(options: Vec<i32>, poll: VotePollRow, now: DbTime) -> VoteStep {
    let VoteStep::FetchPoll(p) = vote("poll-1".to_string(), user("u-1"), VoteRequest { option_ids: options })
    else {
        panic!()
    };
    assert_eq!(p.context().poll_id, "poll-1");
    let VoteStep::CheckMember(m) = p.resume(Ok(Some(poll))) else { panic!() };
    assert_eq!(m.team_id(), "team-1");
    m.resume(Ok(true), now)
}

#[test]
fn vote_needs_an_existing_poll() {
    let VoteStep::FetchPoll(p) = vote("x".to_string(), user("u"), VoteRequest { option_ids: vec![1] }) else {
        panic!()
    };
    expect_error(p.resume(Ok(None)), Status::NotFound, "Poll not found");
    let VoteStep::FetchPoll(p) = vote("x".to_string(), user("u"), VoteRequest { option_ids: vec![1] }) else {
        panic!()
    };
    expect_error(p.resume(Err(DbFailure)), Status::InternalServerError, "Database error checking poll");
}

#[test]
fn vote_needs_team_membership() {
    let VoteStep::FetchPoll(p) = vote("x".to_string(), user("u"), VoteRequest { option_ids: vec![1] }) else {
        panic!()
    };
    let VoteStep::CheckMember(m) = p.resume(Ok(Some(row(false, "open", None)))) else { panic!() };
    expect_error(m.resume(Ok(false), at(0)), Status::Forbidden, "You are not a member of this team");
    let VoteStep::FetchPoll(p) = vote("x".to_string(), user("u"), VoteRequest { option_ids: vec![1] }) else {
        panic!()
    };
    let VoteStep::CheckMember(m) = p.resume(Ok(Some(row(false, "open", None)))) else { panic!() };
    expect_error(m.resume(Err(DbFailure), at(0)), Status::InternalServerError, "Database error checking membership");
}

#[test]
fn vote_refused_in_closed_poll() {
    expect_error(until_existing(vec![1], row(false, "closed", None), at(0)), Status::BadRequest, "Poll is closed");
    expect_error(
        until_existing(vec![1], row(false, "open", Some(at(100))), at(101)),
        Status::BadRequest,
        "Poll is closed",
    );
    expect_error(
        until_existing(vec![1], row(false, "open", Some(DbTime { secs: 100, nanos: 5 })), DbTime { secs: 100, nanos: 6 }),
        Status::BadRequest,
        "Poll is closed",
    );
}

#[test]
fn vote_accepted_up_to_the_closing_instant() {
    let step = until_existing(vec![1], row(false, "open", Some(at(100))), at(100));
    assert!(matches!(step, VoteStep::FindVote(_)));
    let step = until_existing(vec![1], row(false, "open", Some(at(100))), at(99));
    assert!(matches!(step, VoteStep::FindVote(_)));
}

#[test]
fn unreadable_poll_columns_read_as_open_single_choice() {
    let poll = VotePollRow { team_id: None, multiple_choice: None, status: None, closes_at: None };
    let VoteStep::FetchPoll(p) = vote("x".to_string(), user("u"), VoteRequest { option_ids: vec![1, 2] }) else {
        panic!()
    };
    let VoteStep::CheckMember(m) = p.resume(Ok(Some(poll))) else { panic!() };
    assert_eq!(m.team_id(), "");
    let VoteStep::FindVote(f) = m.resume(Ok(true), at(0)) else { panic!() };
    expect_error(f.resume(Ok(false)), Status::BadRequest, "Cannot vote for multiple options");
}

#[test]
fn single_choice_poll_takes_one_vote_per_user() {
    let VoteStep::FindVote(f) = until_existing(vec![3], row(false, "open", None), at(0)) else { panic!() };
    expect_error(f.resume(Ok(true)), Status::Conflict, "Already voted in this single-choice poll");
    let VoteStep::FindVote(f) = until_existing(vec![3, 4], row(false, "open", None), at(0)) else { panic!() };
    expect_error(f.resume(Ok(false)), Status::BadRequest, "Cannot vote for multiple options");
    let VoteStep::FindVote(f) = until_existing(vec![3], row(false, "open", None), at(0)) else { panic!() };
    expect_error(f.resume(Err(DbFailure)), Status::InternalServerError, "Vote check error");
}

#[test]
fn vote_needs_an_option() {
    let VoteStep::FindVote(f) = until_existing(vec![], row(true, "open", None), at(0)) else { panic!() };
    expect_error(f.resume(Ok(false)), Status::BadRequest, "No option selected");
}

#[test]
fn multiple_choice_vote_records_every_option_in_one_transaction() {
    let VoteStep::FindVote(f) = until_existing(vec![7, 8, 9], row(true, "open", None), at(0)) else { panic!() };
    let VoteStep::Begin(b) = f.resume(Ok(true)) else { panic!("an earlier vote does not block a multiple-choice poll") };
    let mut step = b.resume(Ok(()));
    let mut recorded = Vec::new();
    loop {
        step = match step {
            VoteStep::Insert(i) => {
                recorded.push(i.option_id());
                assert_eq!(i.context().user_id, "u-1");
                i.resume(Ok(()))
            },
            VoteStep::Commit(c) => {
                let reply: VoteStep = c.resume(Ok(()));
                match reply {
                    VoteStep::Reply(Ok(r)) => assert_eq!(r.message, "Vote recorded"),
                    _ => panic!(),
                }
                break;
            },
            _ => panic!("unexpected step"),
        }
    }
    assert_eq!(recorded, vec![7, 8, 9]);
}

#[test]
fn vote_stops_at_the_first_refused_option() {
    let VoteStep::FindVote(f) = until_existing(vec![7, 8], row(true, "open", None), at(0)) else { panic!() };
    let VoteStep::Begin(b) = f.resume(Ok(false)) else { panic!() };
    let VoteStep::Insert(i) = b.resume(Ok(())) else { panic!() };
    let VoteStep::Insert(i) = i.resume(Ok(())) else { panic!() };
    assert_eq!(i.option_id(), 8);
    expect_error(i.resume(Err(DbFailure)), Status::Conflict, "Already voted for an option");
}

#[test]
fn vote_reports_transaction_failures() {
    let VoteStep::FindVote(f) = until_existing(vec![1], row(false, "open", None), at(0)) else { panic!() };
    let VoteStep::Begin(b) = f.resume(Ok(false)) else { panic!() };
    expect_error(b.resume(Err(DbFailure)), Status::InternalServerError, "Transaction failed");
    let VoteStep::FindVote(f) = until_existing(vec![1], row(false, "open", None), at(0)) else { panic!() };
    let VoteStep::Begin(b) = f.resume(Ok(false)) else { panic!() };
    let VoteStep::Insert(i) = b.resume(Ok(())) else { panic!() };
    let VoteStep::Commit(c) = i.resume(Ok(())) else { panic!() };
    let reply: VoteReply = match c.resume(Err(DbFailure)) {
        VoteStep::Reply(r) => r,
        _ => panic!(),
    };
    let (s, e) = reply.unwrap_err();
    assert_eq!(s, Status::InternalServerError);
    assert_eq!(e.error, "Save vote failed");
}

#[test]
fn closing_rule_reads_status_then_time() {
    assert!(is_poll_closed(&"closed".to_string(), None, at(0)));
    assert!(!is_poll_closed(&"open".to_string(), None, at(0)));
    assert!(!is_poll_closed(&"Closed".to_string(), None, at(0)));
    assert!(is_poll_closed(&"open".to_string(), Some(at(5)), at(6)));
    assert!(!is_poll_closed(&"open".to_string(), Some(at(5)), at(5)));
    assert!(is_poll_closed(&"anything".to_string(), Some(at(-5)), at(0)));
}

#[test]
fn closed_poll_stays_closed_later() {
    let closes = Some(at(5));
    for later in [6, 7, 1_000] {
        assert!(is_poll_closed(&"open".to_string(), closes, at(later)));
    }
    assert!(team_polls::has_closing_passed(closes, DbTime { secs: 5, nanos: 1 }));
    assert!(!team_polls::has_closing_passed(None, at(i64::MAX)));
    assert_eq!(team_polls::text_or(None, "open"), "open");
    assert_eq!(team_polls::text_or(Some("closed".to_string()), "open"), "closed");
}
