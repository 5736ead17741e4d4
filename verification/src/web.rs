//! The account and connection service of the web site: the bearer token of a request,
//! the session tokens that a login signs and a request shows, the outcome of a login,
//! and where an uploaded avatar goes.

use vstd::prelude::*;
use crate::calendar::last_day;
use serde_json::Value;
use crate::text::{chars_of, owned, push_str, starts_with, strip_prefixes, trim_start_matches};

verus! {

/// The bearer token of an `Authorization` header value: what follows every leading
/// `Bearer ` of a value that begins with one; `None` where there is no header, its value
/// is not visible ASCII, or it does not begin with `Bearer `.
pub open spec fn bearer_token_of(header: Option<Seq<char>>) -> Option<Seq<char>> {
    match header {
        Some(h) => if "Bearer "@.len() <= h.len() && h.subrange(0, "Bearer "@.len() as int)
            == "Bearer "@ {
            Some(strip_prefixes(h, "Bearer "@))
        } else {
            None
        },
        None => None,
    }
}

/// The bearer token of an `Authorization` header value.
pub fn bearer_token(header: Option<&str>) -> (r: Option<String>)
    ensures
        match r {
            Some(t) => bearer_token_of(
                match header {
                    Some(h) => Some(h@),
                    None => None,
                },
            ) == Some(t@),
            None => bearer_token_of(
                match header {
                    Some(h) => Some(h@),
                    None => None,
                },
            ) is None,
        },
{
    proof {
        reveal_strlit("Bearer ");
    }
    match header {
        Some(h) => if starts_with(h, "Bearer ") {
            Some(trim_start_matches(h, "Bearer "))
        } else {
            None
        },
        None => None,
    }
}

/// The claims of a session token.
#[derive(Debug)]
pub struct Claims {
    /// The e-mail address of the user.
    pub sub: String,
    pub username: String,
    pub role: String,
    /// When the token expires, in seconds since the Unix epoch.
    pub exp: usize,
}

/// The reply to a login.
#[derive(Debug)]
pub struct LoginResponse {
    /// The session token, or why the login failed.
    pub message: String,
    pub username: String,
}

/// A user as the user table stores it.
#[derive(Debug)]
pub struct StoredUser {
    pub username: String,
    pub password: String,
    /// The user's type, where it could be read.
    pub role: Option<String>,
}

/// What a login comes to: a session token to issue, or a refusal.
#[derive(Debug)]
pub enum LoginDecision {
    Issue(Claims),
    Refuse(LoginResponse),
}

/// How long a session token lasts, in seconds.
pub const SESSION_SECONDS: i64 = 86400;

/// The last second that `chrono` can hold, in seconds since the Unix epoch.
pub open spec fn last_timestamp() -> int {
    (last_day() + 1) * 86400 - 1
}

/// Whether a login with `password` finds the user and the password matches.
pub fn credentials_match(user: Option<&StoredUser>, password: &str) -> (r: bool)
    ensures
        r == (user matches Some(u) && u.password@ == password@),
{
    match user {
        Some(u) => {
            let given = owned(password);
            u.password == given
        },
        None => false,
    }
}

/// A login with `email` and `password` at `now` (seconds since the Unix epoch): where the
/// user exists and the password matches, a token for the user with the user's type
/// (`user` where it could not be read) that expires a day later; otherwise a refusal
/// that says why.
pub fn login_decision(user: Option<&StoredUser>, email: &str, password: &str, now: i64) -> (d:
    LoginDecision)
    requires
        user matches Some(u) && u.password@ == password@ ==> now + SESSION_SECONDS
            <= last_timestamp(),
    ensures
        match user {
            None => d matches LoginDecision::Refuse(r) && r.message@ == "Usuário não encontrado"@
                && r.username@ == ""@,
            Some(u) => if u.password@ == password@ {
                &&& d matches LoginDecision::Issue(c)
                &&& c.sub@ == email@
                &&& c.username@ == u.username@
                &&& c.role@ == (match u.role {
                    Some(t) => t@,
                    None => "user"@,
                })
                &&& c.exp == (now + SESSION_SECONDS) as usize
            } else {
                d matches LoginDecision::Refuse(r) && r.message@ == "Senha incorreta"@ && r.username@
                    == ""@
            },
        },
{
    match user {
        None => LoginDecision::Refuse(
            LoginResponse { message: owned("Usuário não encontrado"), username: owned("") },
        ),
        Some(u) => {
            let given = owned(password);
            if u.password == given {
                let role = match &u.role {
                    Some(t) => t.clone(),
                    None => owned("user"),
                };
                let expires: i64 = now + SESSION_SECONDS;
                LoginDecision::Issue(
                    Claims {
                        sub: owned(email),
                        username: u.username.clone(),
                        role,
                        exp: expires as usize,
                    },
                )
            } else {
                LoginDecision::Refuse(
                    LoginResponse { message: owned("Senha incorreta"), username: owned("") },
                )
            }
        },
    }
}

/// The claims `(sub, username, role, exp)` that `jsonwebtoken::decode` reads from `token`
/// with the HMAC key `secret` and the default validation, setting the clock aside: `None`
/// where the token is malformed, its algorithm is not HS256, its signature does not
/// verify, or its claims lack one of these fields (three strings and an unsigned number).
pub uninterp spec fn jwt_hs256_claims(token: Seq<char>, secret: Seq<u8>) -> Option<(Seq<char>, Seq<char>, Seq<char>, usize)>;

/// The token that `jsonwebtoken::encode` writes, with the default (HS256) header and the
/// HMAC key `secret`, for the claims `sub`, `username`, `role` and `exp`, in that order.
pub uninterp spec fn jwt_hs256_token(sub: Seq<char>, username: Seq<char>, role: Seq<char>, exp: usize, secret: Seq<u8>) -> Seq<char>;

/// Calls `jsonwebtoken::decode` on `token` with the key `secret` and the default
/// validation. A claims value that comes back is the one `jwt_hs256_claims` names, and a
/// token that it names no claims for is refused. The default validation also refuses a
/// token whose `exp` lies more than a minute in the past; that depends on the clock, so
/// nothing is said of when a token with claims is refused. Where the payload holds a field
/// twice, `serde_json` keeps the last value.
#[verifier::external_body]
fn decode_session(token: &str, secret: &[u8]) -> (r: Option<Claims>)
    ensures
        r matches Some(c) ==> jwt_hs256_claims(token@, secret@) == Some(
            (c.sub@, c.username@, c.role@, c.exp),
        ),
        jwt_hs256_claims(token@, secret@) is None ==> r is None,
{
    let key = jsonwebtoken::DecodingKey::from_secret(secret);
    match jsonwebtoken::decode::<Value>(token, &key, &jsonwebtoken::Validation::default()) {
        Ok(data) => Some(Claims {
            sub: data.claims["sub"].as_str()?.to_string(),
            username: data.claims["username"].as_str()?.to_string(),
            role: data.claims["role"].as_str()?.to_string(),
            exp: usize::try_from(data.claims["exp"].as_u64()?).ok()?,
        }),
        Err(_) => None,
    }
}

/// Calls `jsonwebtoken::encode` with the default header, the claims as a JSON object with
/// the fields `sub`, `username`, `role` and `exp` in that order, and the HMAC key `secret`.
/// With an HMAC key and an HS256 header it cannot fail. The token is the one
/// `jwt_hs256_token` names, and decoding it with the same key gives the claims back.
#[verifier::external_body]
fn encode_session(claims: &Claims, secret: &[u8]) -> (t: String)
    ensures
        t@ == jwt_hs256_token(claims.sub@, claims.username@, claims.role@, claims.exp, secret@),
        jwt_hs256_claims(t@, secret@) == Some(
            (claims.sub@, claims.username@, claims.role@, claims.exp),
        ),
{
    let mut fields = serde_json::Map::new();
    fields.insert("sub".to_string(), Value::from(claims.sub.clone()));
    fields.insert("username".to_string(), Value::from(claims.username.clone()));
    fields.insert("role".to_string(), Value::from(claims.role.clone()));
    fields.insert("exp".to_string(), Value::from(claims.exp));
    let key = jsonwebtoken::EncodingKey::from_secret(secret);
    jsonwebtoken::encode(&jsonwebtoken::Header::default(), &Value::Object(fields), &key).unwrap()
}

/// The reply to a login with `email` and `password` at `now`, tokens signed with
/// `secret`: the session token and the user's name where `login_decision` issues one, its
/// refusal otherwise. The token decodes with `secret` to the claims of the login.
pub fn login_response(user: Option<&StoredUser>, email: &str, password: &str, now: i64, secret: &[u8]) -> (r: LoginResponse)
    requires
        user matches Some(u) && u.password@ == password@ ==> now + SESSION_SECONDS
            <= last_timestamp(),
    ensures
        match user {
            None => r.message@ == "Usuário não encontrado"@ && r.username@ == ""@,
            Some(u) => if u.password@ == password@ {
                let role = match u.role {
                    Some(t) => t@,
                    None => "user"@,
                };
                let exp = (now + SESSION_SECONDS) as usize;
                &&& r.message@ == jwt_hs256_token(email@, u.username@, role, exp, secret@)
                &&& jwt_hs256_claims(r.message@, secret@) == Some((email@, u.username@, role, exp))
                &&& r.username@ == u.username@
            } else {
                r.message@ == "Senha incorreta"@ && r.username@ == ""@
            },
        },
{
    match login_decision(user, email, password, now) {
        LoginDecision::Issue(claims) => {
            let message = encode_session(&claims, secret);
            LoginResponse { message, username: claims.username }
        },
        LoginDecision::Refuse(refusal) => refusal,
    }
}

/// Whether the session token of a request's `Authorization` header is accepted: there is
/// a `Bearer ` token and it decodes with `secret`. A header without a bearer token, or
/// with a token that has no claims under `secret`, is refused.
pub fn authorized(header: Option<&str>, secret: &[u8]) -> (r: bool)
    ensures
        r ==> (bearer_token_of(opt_view(header)) matches Some(t) && jwt_hs256_claims(t, secret@)
            is Some),
        bearer_token_of(opt_view(header)) is None ==> !r,
        (bearer_token_of(opt_view(header)) matches Some(t) && jwt_hs256_claims(t, secret@)
            is None) ==> !r,
{
    match bearer_token(header) {
        Some(token) => {
            proof {
                assert(opt_view(header) == match header {
                    Some(h) => Some(h@),
                    None => None::<Seq<char>>,
                });
            }
            decode_session(token.as_str(), secret).is_some()
        },
        None => false,
    }
}

/// The user whose session token `token` is, for an avatar upload: the `username` of its
/// claims under `secret`, or `Unauthorized` where it has none or is not accepted.
pub fn session_username(token: &str, secret: &[u8]) -> (r: Result<String, UploadRefusal>)
    ensures
        r matches Ok(u) ==> (jwt_hs256_claims(token@, secret@) matches Some(c) && c.1 == u@),
        r matches Err(e) ==> e == UploadRefusal::Unauthorized,
        jwt_hs256_claims(token@, secret@) is None ==> r == Err::<String, UploadRefusal>(
            UploadRefusal::Unauthorized,
        ),
{
    match decode_session(token, secret) {
        Some(claims) => Ok(claims.username),
        None => Err(UploadRefusal::Unauthorized),
    }
}

} // verus!

verus! {

/// The largest avatar accepted, in bytes.
pub const MAX_AVATAR_BYTES: usize = 2097152;

/// Why an upload was refused.
#[derive(Clone, Copy, Debug, PartialEq, Eq, Structural)]
pub enum UploadRefusal {
    /// The file is not an image, or no file came.
    BadRequest,
    /// The file is larger than `MAX_AVATAR_BYTES`.
    PayloadTooLarge,
    /// The session token is not accepted.
    Unauthorized,
}

/// Where an accepted avatar is stored.
#[derive(Debug)]
pub struct AvatarPlan {
    /// `<username>.<extension>`, in the avatar directory.
    pub file_name: String,
    /// The address of the avatar on the site.
    pub avatar_url: String,
}

/// What follows the last `.` of a name (the whole name where it has none).
pub open spec fn extension_of(name: Seq<char>) -> Seq<char>
    decreases name.len(),
{
    if name.len() == 0 {
        name
    } else if name.last() == '.' {
        Seq::empty()
    } else {
        extension_of(name.drop_last()).push(name.last())
    }
}

/// The content type of an upload, `application/octet-stream` where none is given.
pub open spec fn content_type_or_default(content_type: Option<Seq<char>>) -> Seq<char> {
    match content_type {
        Some(c) => c,
        None => "application/octet-stream"@,
    }
}

/// The name of an uploaded file, `avatar.png` where none is given.
pub open spec fn file_name_or_default(file_name: Option<Seq<char>>) -> Seq<char> {
    match file_name {
        Some(f) => f,
        None => "avatar.png"@,
    }
}

pub open spec fn opt_view(s: Option<&str>) -> Option<Seq<char>> {
    match s {
        Some(x) => Some(x@),
        None => None,
    }
}

fn extension(name: &str) -> (r: String)
    ensures
        r@ == extension_of(name@),
{
    let cs = chars_of(name);
    let n = cs.len();
    let mut k: usize = n;
    let ghost s = name@;
    assert(s.subrange(0, n as int) =~= s);
    assert(s.subrange(n as int, n as int) =~= Seq::<char>::empty());
    assert(extension_of(s) =~= extension_of(s.subrange(0, n as int)) + s.subrange(n as int, n as int));
    while k > 0 && cs[k - 1] != '.'
        invariant
            cs@ == s,
            s == name@,
            k <= n,
            n == s.len(),
            extension_of(s) == extension_of(s.subrange(0, k as int)) + s.subrange(k as int, n as int),
        decreases k,
    {
        let ghost t = s.subrange(0, k as int);
        assert(t.drop_last() =~= s.subrange(0, k - 1));
        assert(t.last() == s[k - 1]);
        assert(extension_of(s.subrange(0, k - 1)) + s.subrange(k - 1, n as int) =~= extension_of(
            s.subrange(0, k - 1),
        ).push(s[k - 1]) + s.subrange(k as int, n as int));
        k = k - 1;
    }
    proof {
        if k > 0 {
            assert(s.subrange(0, k as int).last() == s[k - 1]);
        }
        assert(extension_of(s.subrange(0, k as int)) =~= Seq::<char>::empty());
        assert(s.subrange(k as int, n as int) =~= extension_of(s));
    }
    let mut r = String::new();
    let mut j: usize = k;
    while j < n
        invariant
            cs@ == s,
            k <= j <= n,
            n == s.len(),
            r@ == s.subrange(k as int, j as int),
        decreases n - j,
    {
        crate::text::string_push(&mut r, cs[j]);
        assert(s.subrange(k as int, j + 1) =~= s.subrange(k as int, j as int).push(cs@[j as int]));
        j = j + 1;
    }
    r
}

/// Whether an upload of the given content type can be an avatar: only images can.
pub fn accepts_avatar_type(content_type: Option<&str>) -> (r: bool)
    ensures
        r == ("image/"@.len() <= content_type_or_default(opt_view(content_type)).len()
            && content_type_or_default(opt_view(content_type)).subrange(0, "image/"@.len() as int)
            == "image/"@),
{
    let ctype = match content_type {
        Some(c) => owned(c),
        None => owned("application/octet-stream"),
    };
    starts_with(ctype.as_str(), "image/")
}

/// Where the avatar of `username` is stored, given the content type, the file name and
/// the size of the upload: an upload that is not an image is refused as a bad request,
/// one larger than `MAX_AVATAR_BYTES` as too large.
pub fn avatar_plan(username: &str, content_type: Option<&str>, file_name: Option<&str>, size: usize) -> (r:
    Result<AvatarPlan, UploadRefusal>)
    ensures
        !("image/"@.len() <= content_type_or_default(opt_view(content_type)).len()
            && content_type_or_default(opt_view(content_type)).subrange(0, "image/"@.len() as int)
            == "image/"@) ==> r == Err::<AvatarPlan, UploadRefusal>(UploadRefusal::BadRequest),
        ("image/"@.len() <= content_type_or_default(opt_view(content_type)).len()
            && content_type_or_default(opt_view(content_type)).subrange(0, "image/"@.len() as int)
            == "image/"@) ==> (if size > MAX_AVATAR_BYTES {
            r == Err::<AvatarPlan, UploadRefusal>(UploadRefusal::PayloadTooLarge)
        } else {
            &&& r matches Ok(plan)
            &&& plan.file_name@ == username@ + "."@ + extension_of(
                file_name_or_default(opt_view(file_name)),
            )
            &&& plan.avatar_url@ == "/avatars/"@ + plan.file_name@
        }),
{
    if !accepts_avatar_type(content_type) {
        return Err(UploadRefusal::BadRequest);
    }
    let uploaded = match file_name {
        Some(f) => owned(f),
        None => owned("avatar.png"),
    };
    let ext = extension(uploaded.as_str());
    if size > MAX_AVATAR_BYTES {
        return Err(UploadRefusal::PayloadTooLarge);
    }
    let mut name = owned(username);
    push_str(&mut name, ".");
    push_str(&mut name, ext.as_str());
    let mut url = owned("/avatars/");
    push_str(&mut url, name.as_str());
    Ok(AvatarPlan { file_name: name, avatar_url: url })
}

/// The directory where avatars are stored, relative to the working directory.
pub fn avatar_directory() -> (r: String)
    ensures
        r@ == "./static/avatars"@,
{
    owned("./static/avatars")
}

/// The replies of the connection and account handlers.
#[derive(Clone, Copy, Debug, PartialEq, Eq, Structural)]
pub enum Notice {
    Registered,
    ConnectionCreated,
    ConnectionUpdated,
    ConnectionDeleted,
    AvatarUploaded,
}

/// The message of a reply.
pub open spec fn notice_text(n: Notice) -> Seq<char> {
    match n {
        Notice::Registered => "Usuário registrado com sucesso"@,
        Notice::ConnectionCreated => "Conexão criada com sucesso"@,
        Notice::ConnectionUpdated => "Conexão atualizada com sucesso"@,
        Notice::ConnectionDeleted => "Conexão deletada com sucesso"@,
        Notice::AvatarUploaded => "Upload feito com sucesso"@,
    }
}

/// The message of a reply.
pub fn notice(n: Notice) -> (r: String)
    ensures
        r@ == notice_text(n),
{
    match n {
        Notice::Registered => owned("Usuário registrado com sucesso"),
        Notice::ConnectionCreated => owned("Conexão criada com sucesso"),
        Notice::ConnectionUpdated => owned("Conexão atualizada com sucesso"),
        Notice::ConnectionDeleted => owned("Conexão deletada com sucesso"),
        Notice::AvatarUploaded => owned("Upload feito com sucesso"),
    }
}

} // verus!

verus! {

/// The extension of a file name holds no `.`, so the stored name has exactly one more
/// `.` than the user's name.
pub proof fn lemma_extension_has_no_dot(name: Seq<char>)
    ensures
        forall|i: int| 0 <= i < extension_of(name).len() ==> extension_of(name)[i] != '.',
    decreases name.len(),
{
    if name.len() > 0 && name.last() != '.' {
        lemma_extension_has_no_dot(name.drop_last());
        let e = extension_of(name.drop_last());
        assert forall|i: int| 0 <= i < extension_of(name).len() implies extension_of(name)[i] != '.' by {
            if i < e.len() {
                assert(extension_of(name)[i] == e[i]);
            }
        }
    } else if name.len() > 0 {
        assert(extension_of(name) =~= Seq::<char>::empty());
    }
}

} // verus!

verus! {

/// A header written `Bearer <token>` gives the token back, for any token that does not
/// itself begin with `Bearer `.
pub proof fn lemma_bearer_round_trip(token: Seq<char>)
    requires
        !("Bearer "@.len() <= token.len() && token.subrange(0, "Bearer "@.len() as int) == "Bearer "@),
    ensures
        bearer_token_of(Some("Bearer "@ + token)) == Some(token),
{
    reveal_strlit("Bearer ");
    let h = "Bearer "@ + token;
    assert(h.subrange(0, 7) =~= "Bearer "@);
    assert(h.subrange(7, h.len() as int) =~= token);
    assert(strip_prefixes(token, "Bearer "@) == token);
    assert(strip_prefixes(h, "Bearer "@) == strip_prefixes(token, "Bearer "@));
}

/// No token read from a header begins with `Bearer `.
pub proof fn lemma_bearer_token_has_no_prefix(header: Seq<char>)
    ensures
        bearer_token_of(Some(header)) matches Some(t) ==> !("Bearer "@.len() <= t.len() && t.subrange(
            0,
            "Bearer "@.len() as int,
        ) == "Bearer "@),
{
    reveal_strlit("Bearer ");
    crate::text::lemma_strip_prefixes_done(header, "Bearer "@);
}

} // verus!
