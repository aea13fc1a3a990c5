use team_polls::handlers::create_poll::{create_poll, CreatePollRequest, CreatePollStep};
use team_polls::handlers::get_poll::{get_poll, ChoiceCountRow, GetPollStep, PollRow};
use team_polls::handlers::list_polls::{list_polls, ListPollsStep, PollListRow};
use team_polls::handlers::stream_results::{
    stream_results, stream_update, tally_fits, tally_results, StreamStep, StreamUpdate, TallyRow,
};
use team_polls::handlers::health::ping;
use team_polls::middleware::auth::AuthUser;
use team_polls::{closing_time_text, DbFailure, DbTime, Status};

fn is_uuid_v4(s: &str) -> bool {
    let c: Vec<char> = s.chars().collect();
    c.len() == 36
        && c.iter().enumerate().all(|(i, ch)| {
            if [8, 13, 18, 23].contains(&i) { *ch == '-' } else { ch.is_ascii_digit() || ('a'..='f').contains(ch) }
        })
        && c[14] == '4'
        && "89ab".contains(c[19])
}

fn user(id: &str) -> AuthUser {
    AuthUser { user_id: id.to_string() }
}

fn request(choices: &[&str]) -> CreatePollRequest {
    CreatePollRequest {
        title: "Lunch".to_string(),
        about: Some("Where?".to_string()),
        multiple_choice: Some(false),
        closes_at: None,
        choices: choices.iter().map(|c| c.to_string()).collect(),
    }
}

fn expect_create_error(step: CreatePollStep, status: Status, msg: &str) {
    match step {
        CreatePollStep::Reply(Err((s, e))) => {
            assert_eq!(s, status);
            assert_eq!(e.error(), msg);
        },
        other => panic!("expected a refusal, got {:?}", other),
    }
}

#[test]
fn ping_answers_pong() {
    let (s, r) = ping();
    assert_eq!(s, Status::Success);
    assert_eq!(r.message, "pong");
}

#[test]
fn poll_needs_two_choices() {
    expect_create_error(
        create_poll("t".to_string(), user("u"), request(&["only"])),
        Status::BadRequest,
        "Poll must have at least 2 choices",
    );
    expect_create_error(
        create_poll("t".to_string(), user("u"), request(&[])),
        Status::BadRequest,
        "Poll must have at least 2 choices",
    );
}

#[test]
fn poll_creation_needs_membership() {
    let CreatePollStep::CheckMember(m) = create_poll("t".to_string(), user("u"), request(&["a", "b"])) else {
        panic!()
    };
    assert_eq!(m.context().team_id, "t");
    expect_create_error(m.resume(Ok(false)), Status::Forbidden, "You are not a member of this team");
    let CreatePollStep::CheckMember(m) = create_poll("t".to_string(), user("u"), request(&["a", "b"])) else {
        panic!()
    };
    expect_create_error(
        m.resume(Err(DbFailure)),
        Status::InternalServerError,
        "Database error checking team membership",
    );
}

#[test]
fn poll_creation_stores_poll_then_choices_then_commits() {
    let CreatePollStep::CheckMember(m) = create_poll("t".to_string(), user("u"), request(&["a", "b", "c"])) else {
        panic!()
    };
    let CreatePollStep::Begin(b) = m.resume(Ok(true)) else { panic!() };
    let CreatePollStep::InsertPoll(p) = b.resume(Ok(())) else { panic!() };
    let id = p.id().clone();
    assert!(is_uuid_v4(&id));
    assert_eq!(p.context().request.title, "Lunch");
    let mut step = p.resume(Ok(()));
    let mut stored = Vec::new();
    let reply = loop {
        step = match step {
            CreatePollStep::InsertChoice(c) => {
                assert_eq!(c.id(), &id);
                stored.push(c.option_text().clone());
                c.resume(Ok(()))
            },
            CreatePollStep::Commit(c) => match c.resume(Ok(())) {
                CreatePollStep::Reply(r) => break r.unwrap(),
                _ => panic!(),
            },
            _ => panic!(),
        };
    };
    assert_eq!(stored, vec!["a", "b", "c"]);
    assert_eq!(reply.poll_id, id);
    assert_eq!(reply.share_url, format!("http://localhost:3000/poll/{}", id));
}

#[test]
fn poll_ids_are_fresh() {
    let mut ids = Vec::new();
    for _ in 0..2 {
        let CreatePollStep::CheckMember(m) = create_poll("t".to_string(), user("u"), request(&["a", "b"])) else {
            panic!()
        };
        let CreatePollStep::Begin(b) = m.resume(Ok(true)) else { panic!() };
        let CreatePollStep::InsertPoll(p) = b.resume(Ok(())) else { panic!() };
        ids.push(p.id().clone());
    }
    assert_ne!(ids[0], ids[1]);
}

#[test]
fn poll_creation_reports_each_failure() {
    let fresh = || {
        let CreatePollStep::CheckMember(m) = create_poll("t".to_string(), user("u"), request(&["a", "b"])) else {
            panic!()
        };
        let CreatePollStep::Begin(b) = m.resume(Ok(true)) else { panic!() };
        b
    };
    expect_create_error(fresh().resume(Err(DbFailure)), Status::InternalServerError, "Database transaction failed");
    let CreatePollStep::InsertPoll(p) = fresh().resume(Ok(())) else { panic!() };
    expect_create_error(p.resume(Err(DbFailure)), Status::InternalServerError, "Failed to create poll");
    let CreatePollStep::InsertPoll(p) = fresh().resume(Ok(())) else { panic!() };
    let CreatePollStep::InsertChoice(c) = p.resume(Ok(())) else { panic!() };
    expect_create_error(c.resume(Err(DbFailure)), Status::InternalServerError, "Failed to insert option");
    let CreatePollStep::InsertPoll(p) = fresh().resume(Ok(())) else { panic!() };
    let CreatePollStep::InsertChoice(c) = p.resume(Ok(())) else { panic!() };
    let CreatePollStep::InsertChoice(c) = c.resume(Ok(())) else { panic!() };
    let CreatePollStep::Commit(k) = c.resume(Ok(())) else { panic!() };
    expect_create_error(k.resume(Err(DbFailure)), Status::InternalServerError, "Failed to commit poll creation");
}

fn stored_poll(status: Option<&str>, closes_at: Option<DbTime>) -> PollRow {
    PollRow {
        id: Some("poll-1".to_string()),
        title: Some("Lunch".to_string()),
        about: None,
        multiple_choice: Some(true),
        closes_at,
        status: status.map(|s| s.to_string()),
        team_id: Some("team-1".to_string()),
        created_by: Some("u-0".to_string()),
    }
}

#[test]
fn get_poll_shows_poll_with_counts() {
    let GetPollStep::FetchPoll(f) = get_poll("poll-1".to_string(), user("u-1")) else { panic!() };
    let closes = DbTime { secs: 1_714_564_800, nanos: 0 };
    let GetPollStep::CheckMember(m) = f.resume(Ok(Some(stored_poll(None, Some(closes))))) else { panic!() };
    assert_eq!(m.team(), "team-1");
    let GetPollStep::FetchChoices(c) = m.resume(Ok(true)) else { panic!() };
    let rows = vec![
        ChoiceCountRow { id: Some(1), option_text: Some("Pizza".to_string()), vote_count: Some(3) },
        ChoiceCountRow { id: None, option_text: None, vote_count: None },
    ];
    let GetPollStep::Reply(Ok(r)) = c.resume(Ok(rows), DbTime { secs: 1_714_564_801, nanos: 0 }) else { panic!() };
    assert_eq!(r.id, "poll-1");
    assert_eq!(r.title, "Lunch");
    assert_eq!(r.about, None);
    assert!(r.multiple_choice);
    assert_eq!(r.closes_at.as_deref(), Some("2024-05-01 12:00:00"));
    assert!(r.is_closed);
    assert_eq!(r.team_id, "team-1");
    assert_eq!(r.created_by, "u-0");
    assert_eq!(r.choices.len(), 2);
    assert_eq!((r.choices[0].id, r.choices[0].option_text.as_str(), r.choices[0].vote_count), (1, "Pizza", 3));
    assert_eq!((r.choices[1].id, r.choices[1].option_text.as_str(), r.choices[1].vote_count), (0, "", 0));
}

#[test]
fn get_poll_open_until_closing_time() {
    let GetPollStep::FetchPoll(f) = get_poll("p".to_string(), user("u")) else { panic!() };
    let GetPollStep::CheckMember(m) = f.resume(Ok(Some(stored_poll(Some("open"), None)))) else { panic!() };
    let GetPollStep::FetchChoices(c) = m.resume(Ok(true)) else { panic!() };
    let GetPollStep::Reply(Ok(r)) = c.resume(Ok(vec![]), DbTime { secs: 0, nanos: 0 }) else { panic!() };
    assert!(!r.is_closed);
    assert_eq!(r.closes_at, None);
    assert!(r.choices.is_empty());

    let GetPollStep::FetchPoll(f) = get_poll("p".to_string(), user("u")) else { panic!() };
    let GetPollStep::CheckMember(m) = f.resume(Ok(Some(stored_poll(Some("closed"), None)))) else { panic!() };
    let GetPollStep::FetchChoices(c) = m.resume(Ok(true)) else { panic!() };
    let GetPollStep::Reply(Ok(r)) = c.resume(Ok(vec![]), DbTime { secs: 0, nanos: 0 }) else { panic!() };
    assert!(r.is_closed);
}

#[test]
fn get_poll_refusals() {
    let GetPollStep::FetchPoll(f) = get_poll("p".to_string(), user("u")) else { panic!() };
    let GetPollStep::Reply(Err((s, e))) = f.resume(Ok(None)) else { panic!() };
    assert_eq!((s, e.error.as_str(), e.team_id), (Status::NotFound, "Poll not found", None));
    let GetPollStep::FetchPoll(f) = get_poll("p".to_string(), user("u")) else { panic!() };
    let GetPollStep::Reply(Err((s, e))) = f.resume(Err(DbFailure)) else { panic!() };
    assert_eq!((s, e.error.as_str()), (Status::InternalServerError, "Database error fetching poll"));
    let GetPollStep::FetchPoll(f) = get_poll("p".to_string(), user("u")) else { panic!() };
    let GetPollStep::CheckMember(m) = f.resume(Ok(Some(stored_poll(None, None)))) else { panic!() };
    let GetPollStep::Reply(Err((s, e))) = m.resume(Ok(false)) else { panic!() };
    assert_eq!(s, Status::Forbidden);
    assert_eq!(e.error, "You are not a member of this team");
    assert_eq!(e.team_id.as_deref(), Some("team-1"));
    let GetPollStep::FetchPoll(f) = get_poll("p".to_string(), user("u")) else { panic!() };
    let GetPollStep::CheckMember(m) = f.resume(Ok(Some(stored_poll(None, None)))) else { panic!() };
    let GetPollStep::Reply(Err((s, e))) = m.resume(Err(DbFailure)) else { panic!() };
    assert_eq!((s, e.error.as_str(), e.team_id), (Status::InternalServerError, "Membership verification failed", None));
    let GetPollStep::FetchPoll(f) = get_poll("p".to_string(), user("u")) else { panic!() };
    let GetPollStep::CheckMember(m) = f.resume(Ok(Some(stored_poll(None, None)))) else { panic!() };
    let GetPollStep::FetchChoices(c) = m.resume(Ok(true)) else { panic!() };
    let GetPollStep::Reply(Err((s, e))) = c.resume(Err(DbFailure), DbTime { secs: 0, nanos: 0 }) else { panic!() };
    assert_eq!((s, e.error.as_str()), (Status::InternalServerError, "Failed to fetch choices"));
}

#[test]
fn closing_time_renders_like_chrono() {
    assert_eq!(closing_time_text(Some(DbTime { secs: 0, nanos: 0 })).as_deref(), Some("1970-01-01 00:00:00"));
    assert_eq!(
        closing_time_text(Some(DbTime { secs: 1_714_564_800, nanos: 500_000_000 })).as_deref(),
        Some("2024-05-01 12:00:00.500")
    );
    assert_eq!(closing_time_text(None), None);
}

#[test]
fn list_polls_shows_team_polls() {
    let ListPollsStep::CheckMember(m) = list_polls("team-1".to_string(), user("u")) else { panic!() };
    assert_eq!(m.context().team_id, "team-1");
    let ListPollsStep::FetchPolls(f) = m.resume(Ok(true)) else { panic!() };
    let rows = vec![
        PollListRow {
            id: Some("p2".to_string()),
            title: Some("Second".to_string()),
            about: Some("x".to_string()),
            closes_at: Some(DbTime { secs: 86_400, nanos: 0 }),
            status: Some("closed".to_string()),
            created_by: Some("u".to_string()),
        },
        PollListRow { id: None, title: None, about: None, closes_at: None, status: None, created_by: None },
    ];
    let ListPollsStep::Reply(Ok(items)) = f.resume(Ok(rows)) else { panic!() };
    assert_eq!(items.len(), 2);
    assert_eq!(items[0].id, "p2");
    assert_eq!(items[0].title, "Second");
    assert_eq!(items[0].about.as_deref(), Some("x"));
    assert_eq!(items[0].closes_at.as_deref(), Some("1970-01-02 00:00:00"));
    assert_eq!(items[0].status, "closed");
    assert_eq!(items[0].created_by, "u");
    assert_eq!(items[1].status, "open");
    assert_eq!(items[1].id, "");
    assert_eq!(items[1].closes_at, None);
}

#[test]
fn list_polls_refusals() {
    let ListPollsStep::CheckMember(m) = list_polls("t".to_string(), user("u")) else { panic!() };
    let ListPollsStep::Reply(Err((s, e))) = m.resume(Ok(false)) else { panic!() };
    assert_eq!((s, e.error.as_str()), (Status::Forbidden, "You are not a member of this team"));
    let ListPollsStep::CheckMember(m) = list_polls("t".to_string(), user("u")) else { panic!() };
    let ListPollsStep::Reply(Err((s, e))) = m.resume(Err(DbFailure)) else { panic!() };
    assert_eq!((s, e.error.as_str()), (Status::InternalServerError, "Database error checking membership"));
    let ListPollsStep::CheckMember(m) = list_polls("t".to_string(), user("u")) else { panic!() };
    let ListPollsStep::FetchPolls(f) = m.resume(Ok(true)) else { panic!() };
    let ListPollsStep::Reply(Err((s, e))) = f.resume(Err(DbFailure)) else { panic!() };
    assert_eq!((s, e.error.as_str()), (Status::InternalServerError, "Failed to load polls"));
}

#[test]
fn stream_needs_poll_and_membership() {
    let StreamStep::FetchPoll(f) = stream_results("p".to_string(), user("u")) else { panic!() };
    let StreamStep::Reply(Err((s, e))) = f.resume(Ok(None)) else { panic!() };
    assert_eq!((s, e.error.as_str()), (Status::NotFound, "Poll not found"));
    let StreamStep::FetchPoll(f) = stream_results("p".to_string(), user("u")) else { panic!() };
    let StreamStep::Reply(Err((s, e))) = f.resume(Err(DbFailure)) else { panic!() };
    assert_eq!((s, e.error.as_str()), (Status::InternalServerError, "Database error checking poll"));
    let StreamStep::FetchPoll(f) = stream_results("p".to_string(), user("u")) else { panic!() };
    let StreamStep::CheckMember(m) = f.resume(Ok(Some(Some("team-1".to_string())))) else { panic!() };
    assert_eq!(m.team(), "team-1");
    let StreamStep::Reply(Err((s, e))) = m.resume(Ok(false)) else { panic!() };
    assert_eq!((s, e.error.as_str()), (Status::Forbidden, "You are not a member of this team"));
    let StreamStep::FetchPoll(f) = stream_results("p".to_string(), user("u")) else { panic!() };
    let StreamStep::CheckMember(m) = f.resume(Ok(Some(None))) else { panic!() };
    assert_eq!(m.team(), "");
    let StreamStep::Reply(Err((s, e))) = m.resume(Err(DbFailure)) else { panic!() };
    assert_eq!((s, e.error.as_str()), (Status::InternalServerError, "Database error checking membership"));
    let StreamStep::FetchPoll(f) = stream_results("p".to_string(), user("u")) else { panic!() };
    let StreamStep::CheckMember(m) = f.resume(Ok(Some(Some("t".to_string())))) else { panic!() };
    let StreamStep::Reply(Ok(stream)) = m.resume(Ok(true)) else { panic!() };
    assert_eq!(stream.poll_id, "p");
}

#[test]
fn tally_adds_up_votes() {
    let rows = vec![
        TallyRow { choice_id: Some(1), option_text: Some("A".to_string()), votes: Some(2) },
        TallyRow { choice_id: Some(2), option_text: Some("B".to_string()), votes: Some(5) },
        TallyRow { choice_id: None, option_text: None, votes: None },
    ];
    assert!(tally_fits(&rows));
    let t = tally_results(rows);
    assert_eq!(t.total_votes, 7);
    assert_eq!(t.results.len(), 3);
    assert_eq!((t.results[1].choice_id, t.results[1].text.as_str(), t.results[1].votes), (2, "B", 5));
    assert_eq!((t.results[2].choice_id, t.results[2].text.as_str(), t.results[2].votes), (0, "", 0));
    assert_eq!(t.results.iter().map(|r| r.votes).sum::<i64>(), t.total_votes);
}

#[test]
fn tally_of_no_choices_is_zero() {
    let StreamUpdate::Tally(t) = stream_update(Ok(vec![])) else { panic!() };
    assert_eq!(t.total_votes, 0);
    assert!(t.results.is_empty());
    assert!(matches!(stream_update(Err(DbFailure)), StreamUpdate::Error));
}

#[test]
fn tally_detects_overflow() {
    let rows = vec![
        TallyRow { choice_id: Some(1), option_text: None, votes: Some(i64::MAX) },
        TallyRow { choice_id: Some(2), option_text: None, votes: Some(1) },
    ];
    assert!(!tally_fits(&rows));
    let rows = vec![
        TallyRow { choice_id: Some(1), option_text: None, votes: Some(i64::MAX) },
        TallyRow { choice_id: Some(2), option_text: None, votes: Some(-1) },
    ];
    assert!(tally_fits(&rows));
}
