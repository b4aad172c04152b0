use jenkins_cli::client::{connection_status, job_response_status, response_status, ConnectionError, RequestError};
use jenkins_cli::logs::{parse_count, progressive_chunk, LogChunk, LogFollower};
use jenkins_cli::model::{JobInfo, ParameterValue, SubJobInfo};
use jenkins_cli::resolver::{JobResolver, ResolveError, ResolveMode, ResolveStep};
use jenkins_cli::trigger::{check_buildable, trigger_request, NotBuildable, QueueDecision, QueuePoll, QueueTracker, QUEUE_POLL_BUDGET};

fn sub(name: &str, color: Option<&str>) -> SubJobInfo {
    SubJobInfo {
        name: name.to_string(),
        url: format!("https://ci.example.com/job/{}/", name),
        color: color.map(|c| c.to_string()),
    }
}

fn job(children: Option<Vec<SubJobInfo>>) -> JobInfo {
    JobInfo {
        name: Some("x".to_string()),
        url: None,
        color: None,
        buildable: Some(true),
        last_build: None,
        jobs: children,
        property: None,
    }
}

#[test]
fn folder_choice_descends_to_leaf() {
    let (mut r, step) = JobResolver::start(ResolveMode::Strict, Some("folder".to_string()));
    assert_eq!(step, ResolveStep::FetchJob("folder".to_string()));
    let step = r.on_job(&job(Some(vec![sub("a", Some("blue")), sub("b", None)]))).unwrap();
    assert_eq!(
        step,
        ResolveStep::Choose(vec!["a [Success]".to_string(), "b [Unknown]".to_string()])
    );
    let step = r.on_choice(0).unwrap();
    assert_eq!(step, ResolveStep::FetchJob("folder/job/a".to_string()));
    let step = r.on_job(&job(None)).unwrap();
    assert_eq!(step, ResolveStep::Done("folder/job/a".to_string()));
}

#[test]
fn leaf_is_returned_unchanged_on_first_fetch() {
    for children in [None, Some(vec![])] {
        let (mut r, step) = JobResolver::start(ResolveMode::Strict, Some("a/job/b".to_string()));
        assert_eq!(step, ResolveStep::FetchJob("a/job/b".to_string()));
        assert_eq!(r.on_job(&job(children)).unwrap(), ResolveStep::Done("a/job/b".to_string()));
        assert_eq!(r.on_job(&job(None)), Err(ResolveError::UnexpectedEvent));
    }
}

#[test]
fn nested_choices_append_one_segment_per_level() {
    let (mut r, _) = JobResolver::start(ResolveMode::Strict, Some("top".to_string()));
    r.on_job(&job(Some(vec![sub("mid", None)]))).unwrap();
    assert_eq!(r.on_choice(0).unwrap(), ResolveStep::FetchJob("top/job/mid".to_string()));
    r.on_job(&job(Some(vec![sub("x", None), sub("leaf", Some("red_anime"))]))).unwrap();
    assert_eq!(r.on_choice(1).unwrap(), ResolveStep::FetchJob("top/job/mid/job/leaf".to_string()));
}

#[test]
fn root_listing_is_offered_and_chosen_by_name() {
    let (mut r, step) = JobResolver::start(ResolveMode::Strict, None);
    assert_eq!(step, ResolveStep::FetchRoot);
    let step = r.on_root_jobs(&vec![sub("alpha", Some("red")), sub("beta", Some("notbuilt"))]).unwrap();
    assert_eq!(
        step,
        ResolveStep::Choose(vec!["alpha [Failed]".to_string(), "beta [Not Built]".to_string()])
    );
    assert_eq!(r.on_choice(5), Err(ResolveError::SelectionOutOfRange));
    assert_eq!(r.on_choice(1).unwrap(), ResolveStep::FetchJob("beta".to_string()));
}

#[test]
fn empty_root_listing_is_an_error() {
    let (mut r, _) = JobResolver::start(ResolveMode::Open, None);
    let err = r.on_root_jobs(&vec![]).unwrap_err();
    assert_eq!(err, ResolveError::NoJobs);
    assert_eq!(err.to_string(), "No jobs found on this Jenkins instance");
}

#[test]
fn open_mode_offers_to_stop_at_a_folder() {
    let (mut r, _) = JobResolver::start(ResolveMode::Open, Some("folder".to_string()));
    let step = r.on_job(&job(Some(vec![sub("a", None)]))).unwrap();
    assert_eq!(
        step,
        ResolveStep::Choose(vec!["[Open this job/folder]".to_string(), "a [Unknown]".to_string()])
    );
    assert_eq!(r.on_choice(0).unwrap(), ResolveStep::Done("folder".to_string()));

    let (mut r, _) = JobResolver::start(ResolveMode::Open, Some("folder".to_string()));
    r.on_job(&job(Some(vec![sub("a", None)]))).unwrap();
    assert_eq!(r.on_choice(1).unwrap(), ResolveStep::FetchJob("folder/job/a".to_string()));
}

#[test]
fn answers_out_of_turn_are_refused() {
    let (mut r, _) = JobResolver::start(ResolveMode::Strict, None);
    assert_eq!(r.on_choice(0), Err(ResolveError::UnexpectedEvent));
    assert_eq!(r.on_job(&job(None)), Err(ResolveError::UnexpectedEvent));
}

#[test]
fn parameterized_trigger_posts_exact_form() {
    let params = vec![
        ParameterValue { name: "BRANCH".to_string(), value: "main".to_string() },
        ParameterValue { name: "DEPLOY".to_string(), value: "true".to_string() },
    ];
    let req = trigger_request("https://ci.example.com/", "app", Some(params));
    assert_eq!(req.url, "https://ci.example.com/job/app/buildWithParameters");
    assert_eq!(
        req.form,
        Some(vec![
            ("BRANCH".to_string(), "main".to_string()),
            ("DEPLOY".to_string(), "true".to_string()),
        ])
    );
}

#[test]
fn plain_trigger_uses_build_endpoint() {
    let req = trigger_request("https://ci.example.com", "folder/job/app", None);
    assert_eq!(req.url, "https://ci.example.com/job/folder/job/app/build");
    assert_eq!(req.form, None);
    let req = trigger_request("https://ci.example.com", "app", Some(vec![]));
    assert_eq!(req.url, "https://ci.example.com/job/app/buildWithParameters");
    assert_eq!(req.form, Some(vec![]));
}

#[test]
fn queue_wait_gives_up_exactly_at_budget() {
    let mut t = QueueTracker::new(QUEUE_POLL_BUDGET);
    let mut decisions = Vec::new();
    while t.can_poll() {
        let d = t.observe(QueuePoll::Lost(None));
        decisions.push(d);
        if d != QueueDecision::Wait {
            break;
        }
    }
    assert_eq!(decisions.len(), 30);
    assert!(decisions[..29].iter().all(|d| *d == QueueDecision::Wait));
    assert_eq!(decisions[29], QueueDecision::Undetermined);
    assert!(!t.can_poll());
}

#[test]
fn queue_wait_outcomes() {
    let mut t = QueueTracker::new(3);
    assert_eq!(t.observe(QueuePoll::Pending), QueueDecision::Wait);
    assert_eq!(t.observe(QueuePoll::Resolved(17)), QueueDecision::Started(17));
    let mut t = QueueTracker::new(3);
    assert_eq!(t.observe(QueuePoll::Lost(Some(9))), QueueDecision::AlreadyStarted(9));
    let mut t = QueueTracker::new(2);
    assert_eq!(t.observe(QueuePoll::Pending), QueueDecision::Wait);
    assert_eq!(t.observe(QueuePoll::Pending), QueueDecision::TimedOut);
}

#[test]
fn streamer_shows_each_chunk_once_and_stops() {
    let answers = vec![
        LogChunk { text: "line1\n".to_string(), next_offset: 6, more_data: true },
        LogChunk { text: "line2\n".to_string(), next_offset: 12, more_data: false },
    ];
    let mut f = LogFollower::new();
    let mut shown = String::new();
    let mut asked = Vec::new();
    let mut fetches = 0;
    while let Some(offset) = f.next_fetch() {
        asked.push(offset);
        let chunk = &answers[fetches];
        fetches += 1;
        shown.push_str(&chunk.text);
        f.accept(chunk);
    }
    assert_eq!(shown, "line1\nline2\n");
    assert_eq!(fetches, 2);
    assert_eq!(asked, vec![0, 6]);
    assert!(f.is_finished());
}

#[test]
fn empty_chunk_still_moves_offset() {
    let mut f = LogFollower::new();
    assert!(!f.accept(&LogChunk { text: String::new(), next_offset: 40, more_data: true }));
    assert_eq!(f.next_fetch(), Some(40));
    f.fail();
    assert_eq!(f.next_fetch(), None);
}

#[test]
fn progressive_headers_are_read() {
    let c = progressive_chunk("abc".to_string(), Some("true"), Some("1024"), 7);
    assert_eq!(c, LogChunk { text: "abc".to_string(), next_offset: 1024, more_data: true });
    let c = progressive_chunk(String::new(), Some("TRUE"), Some("x1"), 7);
    assert_eq!(c.next_offset, 7);
    assert!(!c.more_data);
    let c = progressive_chunk(String::new(), None, None, 5);
    assert_eq!((c.next_offset, c.more_data), (5, false));
}

#[test]
fn counts_parse_like_std() {
    for s in ["0", "42", "+7", "007", "", "+", "-1", "1 ", "18446744073709551615", "18446744073709551616", "99999999999999999999999"] {
        assert_eq!(parse_count(s), s.parse::<usize>().ok(), "for {:?}", s);
    }
}

#[test]
fn status_codes_are_read() {
    assert_eq!(connection_status(200), Ok(()));
    assert_eq!(connection_status(401), Err(ConnectionError::AuthenticationFailed));
    assert_eq!(connection_status(403), Err(ConnectionError::AuthenticationFailed));
    assert_eq!(connection_status(404), Err(ConnectionError::ServerNotFound));
    assert_eq!(connection_status(500), Err(ConnectionError::Http(500)));
    assert_eq!(connection_status(204), Err(ConnectionError::Http(204)));
    assert_eq!(
        ConnectionError::AuthenticationFailed.to_string(),
        "Authentication failed. Please check your username and API token."
    );
    assert_eq!(ConnectionError::Http(502).to_string(), "Failed to connect to Jenkins: HTTP 502");
    assert_eq!(job_response_status(200, "a"), Ok(()));
    let e = job_response_status(404, "a/job/b").unwrap_err();
    assert_eq!(e, RequestError::JobNotFound("a/job/b".to_string()));
    assert_eq!(e.to_string(), "Job 'a/job/b' not found");
    assert_eq!(job_response_status(500, "a"), Err(RequestError::Status(500)));
    assert_eq!(response_status(201), Ok(()));
    assert_eq!(response_status(404), Err(RequestError::Status(404)));
}

#[test]
fn buildable_check_tells_disabled_apart() {
    let mut info = job(None);
    assert_eq!(check_buildable(&info), Ok(()));
    info.buildable = None;
    assert_eq!(check_buildable(&info), Ok(()));
    info.buildable = Some(false);
    assert_eq!(check_buildable(&info), Err(NotBuildable::Refused));
    info.color = Some("disabled".to_string());
    assert_eq!(check_buildable(&info), Err(NotBuildable::Disabled));
    assert_eq!(
        NotBuildable::Disabled.to_string(),
        "The job is disabled. Please check the job configuration in Jenkins."
    );
    assert_eq!(
        NotBuildable::Refused.to_string(),
        "The job is not buildable. Please check the job configuration in Jenkins."
    );
}

#[test]
fn resolver_and_request_messages() {
    assert_eq!(ResolveError::SelectionOutOfRange.to_string(), "Invalid selection");
    assert_eq!(ResolveError::UnexpectedEvent.to_string(), "Unexpected answer during job selection");
    assert_eq!(RequestError::Status(503).to_string(), "Request failed: HTTP 503");
    assert_eq!(
        ConnectionError::ServerNotFound.to_string(),
        "Jenkins server not found. Please check the URL."
    );
}
