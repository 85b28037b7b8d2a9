use cnoidc::config::ZappConfig;
use cnoidc::failure::Failure;
use cnoidc::time::{Duration, Timestamp};
use cnoidc::zapp::{
    readyz, Answer, Credentials, Handout, Opening, OpeningEvent, Session, SessionManager,
    ZappClient,
};
use cnoidc::zitadel::ProjectClient;

fn zapp() -> ZappClient {
    ZappClient::new(ZappConfig {
        url: "https://zapp.example.com/base/".to_string(),
        token_file: "/run/token".to_string(),
        key_dir: "/run/keys".to_string(),
        timeout_secs: 10,
    })
}

fn at(secs: i64) -> Timestamp {
    Timestamp { secs, nanos: 0 }
}

fn broken(text: &str) -> Failure {
    Failure::new(text.to_string())
}

fn credentials() -> Credentials {
    Credentials {
        zitadel_url: "https://z.example.com/sub".to_string(),
        username: "cluster".to_string(),
        project_id: "42".to_string(),
        key: "{\"key\":1}".to_string(),
        expires_at: at(3000),
    }
}

fn failure(opening: Opening) -> String {
    match opening {
        Opening::Done(Err(failure)) => failure.text(),
        other => panic!("{other:?}"),
    }
}

#[test]
fn a_session_is_opened_with_a_key() {
    let zapp = zapp();
    let opening = ZappClient::open_session();
    assert!(matches!(opening, Opening::ReadToken));
    let opening = opening.step(&zapp, OpeningEvent::Token(Ok(" tok\n".to_string())));
    match &opening {
        Opening::Request(url, token) => {
            assert_eq!(url, "https://zapp.example.com/base/v1/credentials");
            assert_eq!(token, "tok");
        }
        other => panic!("{other:?}"),
    }
    let opening = opening.step(
        &zapp,
        OpeningEvent::Answered(Answer::Read(200, "body".to_string())),
    );
    assert!(matches!(&opening, Opening::Parse(body) if body == "body"));
    let opening = opening.step(&zapp, OpeningEvent::Parsed(Ok(credentials()), at(0)));
    assert!(matches!(&opening, Opening::CreateKey(_, key) if key == "{\"key\":1}"));
    let opening = opening.step(&zapp, OpeningEvent::KeyCreated(Ok(())));
    assert!(matches!(&opening, Opening::WriteKey(_, key) if key == "{\"key\":1}"));
    let opening = opening.step(&zapp, OpeningEvent::KeyWritten(Ok(())));
    assert!(
        matches!(&opening, Opening::Authenticate(draft) if draft.zitadel_url == "https://z.example.com/sub/")
    );
    let opening = opening.step(&zapp, OpeningEvent::LoggedIn(Ok(())));
    assert!(matches!(&opening, Opening::RemoveKey(_, Ok(()))));
    let opening = opening.step(&zapp, OpeningEvent::KeyRemoved(Ok(())));
    let session = match opening {
        Opening::Done(result) => result.expect("a session"),
        other => panic!("{other:?}"),
    };
    assert_eq!(session.project_id, "42");
    assert_eq!(session.zitadel.project_id, "42");
    assert_eq!(session.zitadel.url, "https://z.example.com/sub/");
    assert_eq!(session.zitadel_url, "https://z.example.com/sub/");
    assert_eq!(session.username, "cluster");
    assert_eq!(session.issued_at, at(0));
    assert_eq!(session.expires_at, at(3000));
    assert_eq!(session.issuer(), "https://z.example.com/sub");
}

#[test]
fn tokens_must_be_readable_and_not_blank() {
    let zapp = zapp();
    let token = |contents| failure(Opening::ReadToken.step(&zapp, OpeningEvent::Token(contents)));
    assert_eq!(
        token(Err(broken("no such file"))),
        "reading token /run/token: no such file"
    );
    assert_eq!(token(Ok(" \n".to_string())), "token /run/token is empty");
    let nowhere = ZappClient::new(ZappConfig {
        url: "nowhere".to_string(),
        ..zapp.config
    });
    assert_eq!(
        failure(Opening::ReadToken.step(&nowhere, OpeningEvent::Token(Ok("t".to_string())))),
        "relative URL without a base"
    );
}

#[test]
fn answers_must_be_successful_and_parse() {
    let zapp = zapp();
    let request = || Opening::Request("u".to_string(), "t".to_string());
    let answer = |answer| failure(request().step(&zapp, OpeningEvent::Answered(answer)));
    assert_eq!(
        answer(Answer::NotSent(broken("refused"))),
        "requesting credentials from zapp: refused"
    );
    assert_eq!(
        answer(Answer::NotRead(broken("cut off"))),
        "reading zapp response: cut off"
    );
    assert_eq!(
        answer(Answer::Read(403, "who?".to_string())),
        "zapp answered 403 Forbidden: who?"
    );
    assert_eq!(
        failure(Opening::Parse("x".to_string()).step(
            &zapp,
            OpeningEvent::Parsed(Err(broken("not JSON")), at(0))
        )),
        "parsing zapp response: not JSON"
    );
    assert_eq!(
        failure(Opening::Parse("x".to_string()).step(
            &zapp,
            OpeningEvent::Parsed(
                Ok(Credentials {
                    zitadel_url: "z".to_string(),
                    ..credentials()
                }),
                at(0)
            )
        )),
        "relative URL without a base"
    );
}

#[test]
fn refusals_can_be_told_by_their_status() {
    let zapp = zapp();
    let opening = Opening::Request("u".to_string(), "t".to_string());
    let refused = Answer::Read(403, "who?".to_string());
    let failure = match opening.step(&zapp, OpeningEvent::Answered(refused)) {
        Opening::Done(Err(failure)) => failure,
        other => panic!("{other:?}"),
    };
    let mut manager = SessionManager::new();
    let failure = manager
        .renewed(at(0), clock(0), Err(failure))
        .unwrap_err()
        .context("obtaining Zitadel credential");
    let answer = failure.zapp.as_ref().expect("an answer of zapp");
    assert_eq!(answer.status, 403);
    assert_eq!(answer.body, "who?");
    assert!(failure.http.is_none());
    assert!(!failure.has_status(403));
    assert_eq!(
        failure.text(),
        "obtaining Zitadel credential: zapp answered 403 Forbidden: who?"
    );
}

fn with_key() -> Opening {
    Opening::Parse("x".to_string()).step(&zapp(), OpeningEvent::Parsed(Ok(credentials()), at(0)))
}

#[test]
fn the_key_is_always_removed() {
    let zapp = zapp();
    assert_eq!(
        failure(with_key().step(&zapp, OpeningEvent::KeyCreated(Err(broken("full"))))),
        "creating key file in /run/keys: full"
    );
    let write = || with_key().step(&zapp, OpeningEvent::KeyCreated(Ok(())));
    // A file that could not be written is removed, whether or not that works.
    let discard = write().step(&zapp, OpeningEvent::KeyWritten(Err(broken("full"))));
    assert!(matches!(&discard, Opening::DiscardKey(_)));
    assert_eq!(
        failure(discard.step(&zapp, OpeningEvent::KeyRemoved(Err(broken("busy"))))),
        "writing key file: full"
    );
    // A failed login is looked at only once the file is gone.
    let login = || write().step(&zapp, OpeningEvent::KeyWritten(Ok(())));
    let failed = || login().step(&zapp, OpeningEvent::LoggedIn(Err(broken("bad key"))));
    assert!(matches!(failed(), Opening::RemoveKey(_, Err(_))));
    assert_eq!(
        failure(failed().step(&zapp, OpeningEvent::KeyRemoved(Ok(())))),
        "authenticating against Zitadel at https://z.example.com/sub/: authenticating against \
         Zitadel: bad key"
    );
    assert_eq!(
        failure(failed().step(&zapp, OpeningEvent::KeyRemoved(Err(broken("busy"))))),
        "removing key file: busy"
    );
    let good = login().step(&zapp, OpeningEvent::LoggedIn(Ok(())));
    assert_eq!(
        failure(good.step(&zapp, OpeningEvent::KeyRemoved(Err(broken("busy"))))),
        "removing key file: busy"
    );
}

fn session(issued: i64, expires: i64) -> Session {
    Session {
        zitadel: ProjectClient {
            url: "https://z/".to_string(),
            project_id: "42".to_string(),
        },
        project_id: "42".to_string(),
        zitadel_url: "https://z//".to_string(),
        username: "u".to_string(),
        issued_at: at(issued),
        expires_at: at(expires),
    }
}

#[test]
fn issuers_end_without_slashes() {
    assert_eq!(session(0, 1).issuer(), "https://z");
}

#[test]
fn sessions_get_stale_after_two_thirds() {
    let session = session(0, 3000);
    assert!(!session.is_stale(at(1999)));
    assert!(session.is_stale(at(2000)));
    assert!(session.is_stale(at(3000)));
    let copy = session.duplicate();
    assert_eq!(copy.expires_at, at(3000));
    assert_eq!(copy.zitadel_url, "https://z//");
}

#[test]
fn expired_sessions_are_stale() {
    // The clock went back after the session was opened.
    let session = session(5000, 100);
    assert!(session.is_stale(at(100)));
    assert!(session.is_stale(at(3000)));
    assert!(session.is_stale(at(5000)));
    assert!(!session.is_stale(at(99)));
    let mut manager = SessionManager::new();
    let _ = manager.renewed(at(3000), clock(0), Ok(session));
    assert!(!manager.is_ready(at(3000)));
    assert!(matches!(manager.session(at(3000), clock(1)), Handout::Renew));
    // One that expires the moment it is issued.
    assert!(self::session(7, 7).is_stale(at(7)));
}

fn clock(secs: u64) -> Duration {
    Duration::from_secs(secs)
}

#[test]
fn sessions_are_renewed_and_kept() {
    let mut manager = SessionManager::new();
    assert!(!manager.is_ready(at(0)));
    assert!(matches!(manager.session(at(0), clock(0)), Handout::Renew));
    let first = manager
        .renewed(at(0), clock(1), Ok(session(0, 3000)))
        .expect("a session");
    assert!(manager.is_ready(at(2999)));
    assert!(!manager.is_ready(at(3000)));
    // Fresh: handed out again.
    match manager.session(at(1999), clock(1999)) {
        Handout::Ready(Ok(lease)) => assert_eq!(lease.id, first.id),
        other => panic!("{other:?}"),
    }
    // Stale: to be renewed, with the current one to fall back to.
    assert!(matches!(manager.session(at(2000), clock(2000)), Handout::Renew));
    let kept = manager
        .renewed(at(2000), clock(2001), Err(broken("down")))
        .expect("the current session");
    assert_eq!(kept.id, first.id);
    // Within the backoff zapp is not asked again.
    match manager.session(at(2010), clock(2030)) {
        Handout::Ready(Ok(lease)) => assert_eq!(lease.id, first.id),
        other => panic!("{other:?}"),
    }
    assert!(matches!(manager.session(at(2031), clock(2031)), Handout::Renew));
    // Expired: nothing to fall back to.
    match manager.session(at(3000), clock(2030)) {
        Handout::Ready(Err(failure)) => assert_eq!(
            failure.text(),
            "not asking zapp again yet: the last attempt failed 29s ago"
        ),
        other => panic!("{other:?}"),
    }
    assert_eq!(
        manager
            .renewed(at(3000), clock(2040), Err(broken("still down")))
            .unwrap_err()
            .text(),
        "still down"
    );
    // A success forgets the failure.
    let second = manager
        .renewed(at(3000), clock(2080), Ok(session(3000, 6000)))
        .expect("a session");
    assert_ne!(second.id, first.id);
    assert_eq!(manager.last_failure, None);
}

#[test]
fn backoffs_are_told_in_human_terms() {
    let mut manager = SessionManager::new();
    let text = |manager: &SessionManager, now| match manager.session(at(0), now) {
        Handout::Ready(Err(failure)) => failure.text(),
        other => panic!("{other:?}"),
    };
    assert!(manager.renewed(at(0), clock(100), Err(broken("down"))).is_err());
    assert_eq!(
        text(&manager, clock(100)),
        "not asking zapp again yet: the last attempt failed 0s ago"
    );
    assert_eq!(
        text(
            &manager,
            Duration {
                secs: 112,
                nanos: 999_999_999
            }
        ),
        "not asking zapp again yet: the last attempt failed 12s ago"
    );
    assert!(matches!(manager.session(at(0), clock(130)), Handout::Renew));
}

#[test]
fn only_the_current_session_is_invalidated() {
    let mut manager = SessionManager::new();
    let first = manager.renewed(at(0), clock(0), Ok(session(0, 3000))).expect("a session");
    let second = manager.renewed(at(0), clock(0), Ok(session(0, 3000))).expect("a session");
    assert!(!manager.invalidate(first.id));
    assert!(manager.is_ready(at(0)));
    assert!(manager.invalidate(second.id));
    assert!(!manager.is_ready(at(0)));
    assert!(!manager.invalidate(second.id));
    assert!(matches!(manager.session(at(0), clock(0)), Handout::Renew));
}

#[test]
fn readiness_is_told_by_the_status() {
    assert_eq!(readyz(true), (200, "ok"));
    assert_eq!(readyz(false), (503, "no Zitadel credential"));
}
