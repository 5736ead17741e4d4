use gx_datalinker::web::{
    authorized, avatar_plan, bearer_token, credentials_match, login_decision, login_response,
    notice, session_username, LoginDecision, Notice, StoredUser, UploadRefusal,
};

const SECRET: &[u8] = b"seu_segredo_super_forte";

fn now() -> i64 {
    std::time::SystemTime::now().duration_since(std::time::UNIX_EPOCH).unwrap().as_secs() as i64
}

fn user(role: Option<&str>) -> StoredUser {
    StoredUser { username: "ana".to_string(), password: "s3cret".to_string(), role: role.map(|r| r.to_string()) }
}

#[test]
fn bearer_token_strips_every_prefix() {
    assert_eq!(bearer_token(Some("Bearer abc.def")), Some("abc.def".to_string()));
    assert_eq!(bearer_token(Some("Bearer Bearer xyz")), Some("xyz".to_string()));
    assert_eq!(bearer_token(Some("Bearer ")), Some("".to_string()));
    assert_eq!(bearer_token(Some("bearer abc")), None);
    assert_eq!(bearer_token(Some("Basic abc")), None);
    assert_eq!(bearer_token(None), None);
}

#[test]
fn login_issues_a_day_long_token() {
    match login_decision(Some(&user(Some("admin"))), "ana@x.com", "s3cret", 1_700_000_000) {
        LoginDecision::Issue(c) => {
            assert_eq!(c.sub, "ana@x.com");
            assert_eq!(c.username, "ana");
            assert_eq!(c.role, "admin");
            assert_eq!(c.exp, 1_700_086_400);
        }
        LoginDecision::Refuse(_) => panic!("login refused"),
    }
    match login_decision(Some(&user(None)), "ana@x.com", "s3cret", 0) {
        LoginDecision::Issue(c) => assert_eq!(c.role, "user"),
        LoginDecision::Refuse(_) => panic!("login refused"),
    }
}

#[test]
fn login_refusals() {
    match login_decision(Some(&user(None)), "ana@x.com", "wrong", 0) {
        LoginDecision::Refuse(r) => {
            assert_eq!(r.message, "Senha incorreta");
            assert_eq!(r.username, "");
        }
        LoginDecision::Issue(_) => panic!("wrong password accepted"),
    }
    match login_decision(None, "ana@x.com", "s3cret", 0) {
        LoginDecision::Refuse(r) => assert_eq!(r.message, "Usuário não encontrado"),
        LoginDecision::Issue(_) => panic!("unknown user accepted"),
    }
}

#[test]
fn avatar_plans() {
    let p = avatar_plan("ana", Some("image/png"), Some("me.photo.jpeg"), 1000).unwrap();
    assert_eq!(p.file_name, "ana.jpeg");
    assert_eq!(p.avatar_url, "/avatars/ana.jpeg");
    let p = avatar_plan("ana", Some("image/png"), None, 0).unwrap();
    assert_eq!(p.file_name, "ana.png");
    let p = avatar_plan("ana", Some("image/gif"), Some("noext"), 2097152).unwrap();
    assert_eq!(p.file_name, "ana.noext");
    let p = avatar_plan("ana", Some("image/gif"), Some("trailing."), 1).unwrap();
    assert_eq!(p.file_name, "ana.");
    assert_eq!(avatar_plan("ana", Some("text/plain"), Some("a.png"), 1).unwrap_err(), UploadRefusal::BadRequest);
    assert_eq!(avatar_plan("ana", None, Some("a.png"), 1).unwrap_err(), UploadRefusal::BadRequest);
    assert_eq!(avatar_plan("ana", Some("image/png"), Some("a.png"), 2097153).unwrap_err(), UploadRefusal::PayloadTooLarge);
}

#[test]
fn notices() {
    assert_eq!(notice(Notice::Registered), "Usuário registrado com sucesso");
    assert_eq!(notice(Notice::ConnectionDeleted), "Conexão deletada com sucesso");
}

#[test]
fn bearer_header_round_trip() {
    for t in ["abc", "", "x.y.z", "Bearerless"] {
        let header = format!("Bearer {}", t);
        assert_eq!(bearer_token(Some(&header)), Some(t.to_string()));
    }
}

#[test]
fn login_response_writes_the_exact_token() {
    let r = login_response(Some(&user(Some("admin"))), "ana@x.com", "s3cret", 1_700_000_000, SECRET);
    assert_eq!(r.username, "ana");
    assert_eq!(
        r.message,
        "eyJ0eXAiOiJKV1QiLCJhbGciOiJIUzI1NiJ9.\
         eyJzdWIiOiJhbmFAeC5jb20iLCJ1c2VybmFtZSI6ImFuYSIsInJvbGUiOiJhZG1pbiIsImV4cCI6MTcwMDA4NjQwMH0.\
         hvf1JKggQsKs_n8CtucNJShYUKobmxgnexBILLgqEVM"
    );
}

#[test]
fn login_response_refusals() {
    let r = login_response(Some(&user(None)), "ana@x.com", "wrong", 0, SECRET);
    assert_eq!(r.message, "Senha incorreta");
    assert_eq!(r.username, "");
    let r = login_response(None, "ana@x.com", "s3cret", 0, SECRET);
    assert_eq!(r.message, "Usuário não encontrado");
    assert_eq!(r.username, "");
}

#[test]
fn credentials_match_only_on_the_right_password() {
    assert!(credentials_match(Some(&user(None)), "s3cret"));
    assert!(!credentials_match(Some(&user(None)), "S3cret"));
    assert!(!credentials_match(None, "s3cret"));
}

#[test]
fn issued_token_is_authorized() {
    let r = login_response(Some(&user(Some("admin"))), "ana@x.com", "s3cret", now(), SECRET);
    let header = format!("Bearer {}", r.message);
    assert!(authorized(Some(&header), SECRET));
    assert_eq!(session_username(&r.message, SECRET), Ok("ana".to_string()));
}

#[test]
fn foreign_or_missing_tokens_are_refused() {
    let r = login_response(Some(&user(None)), "ana@x.com", "s3cret", now(), SECRET);
    let header = format!("Bearer {}", r.message);
    assert!(!authorized(Some(&header), b"another key"));
    assert!(!authorized(Some(&r.message), SECRET));
    assert!(!authorized(None, SECRET));
    assert!(!authorized(Some("Bearer not.a.token"), SECRET));
    assert_eq!(session_username(&r.message, b"another key"), Err(UploadRefusal::Unauthorized));
    assert_eq!(session_username("garbage", SECRET), Err(UploadRefusal::Unauthorized));
}

#[test]
fn expired_token_is_refused() {
    let r = login_response(Some(&user(None)), "ana@x.com", "s3cret", 1_000, SECRET);
    let header = format!("Bearer {}", r.message);
    assert!(!authorized(Some(&header), SECRET));
    assert_eq!(session_username(&r.message, SECRET), Err(UploadRefusal::Unauthorized));
}
