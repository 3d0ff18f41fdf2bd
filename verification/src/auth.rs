//! Auth token handling for tunnel connections.

use crate::json;
use crate::json::{Json, JsonValue, ObjectBuilder};
use crate::members;
use crate::members::{Listed, Members};
use crate::protocol;
use crate::text;
use crate::text::{pieces, same};
use crate::wire;
use crate::wire::{find_text, record};
use vstd::prelude::*;

verus! {

/// An authentication token for the tunnel relay.
#[derive(Debug, Clone)]
pub enum AuthToken {
    /// A JWT from hanzo.id.
    Jwt { token: String },
    /// A Hanzo API key.
    ApiKey { key: String },
}

/// What an [`AuthToken`] says.
pub enum AuthView {
    Jwt(Seq<char>),
    ApiKey(Seq<char>),
}

impl View for AuthToken {
    type V = AuthView;

    open spec fn view(&self) -> AuthView {
        match *self {
            AuthToken::Jwt { token } => AuthView::Jwt(token@),
            AuthToken::ApiKey { key } => AuthView::ApiKey(key@),
        }
    }
}

/// The kind of token that a raw text is: a JWT where dots part it into three
/// pieces or more (header.payload.signature), else an API key.
pub open spec fn detected(s: Seq<char>) -> AuthView {
    if text::split(s, '.').len() >= 3 {
        AuthView::Jwt(s)
    } else {
        AuthView::ApiKey(s)
    }
}

/// The raw text of a token.
pub open spec fn bearer_of(t: AuthView) -> Seq<char> {
    match t {
        AuthView::Jwt(s) => s,
        AuthView::ApiKey(s) => s,
    }
}

/// Detection keeps the raw text: it is what goes into the header.
pub proof fn detection_keeps_the_text(s: Seq<char>)
    ensures
        bearer_of(detected(s)) == s,
{
}

/// A text is taken for a JWT if and only if it holds two dots or more.
pub proof fn jwt_has_two_dots(s: Seq<char>)
    ensures
        detected(s) is Jwt <==> exists|i: int, j: int|
            0 <= i < j < s.len() && #[trigger] s[i] == '.' && #[trigger] s[j] == '.',
{
    dots_part_pieces(s);
}

/// There is one piece more than there are dots.
proof fn dots_part_pieces(s: Seq<char>)
    ensures
        text::split(s, '.').len() >= 1,
        text::split(s, '.').len() >= 2 <==> exists|i: int|
            0 <= i < s.len() && #[trigger] s[i] == '.',
        text::split(s, '.').len() >= 3 <==> exists|i: int, j: int|
            0 <= i < j < s.len() && #[trigger] s[i] == '.' && #[trigger] s[j] == '.',
    decreases s.len(),
{
    if s.len() > 0 {
        let t = s.drop_last();
        let n = s.len() - 1;
        dots_part_pieces(t);
        assert(forall|i: int| 0 <= i < n ==> #[trigger] t[i] == s[i]);
        if exists|i: int| 0 <= i < t.len() && #[trigger] t[i] == '.' {
            let i = choose|i: int| 0 <= i < t.len() && #[trigger] t[i] == '.';
            assert(s[i] == '.');
            if s[n] == '.' {
                assert(0 <= i < n < s.len() && s[i] == '.' && s[n] == '.');
            }
        }
        if exists|i: int, j: int|
            0 <= i < j < t.len() && #[trigger] t[i] == '.' && #[trigger] t[j] == '.' {
            let (i, j) = choose|i: int, j: int|
                0 <= i < j < t.len() && #[trigger] t[i] == '.' && #[trigger] t[j] == '.';
            assert(s[i] == '.' && s[j] == '.');
        }
        if exists|i: int| 0 <= i < s.len() && #[trigger] s[i] == '.' {
            let i = choose|i: int| 0 <= i < s.len() && #[trigger] s[i] == '.';
            if i < n {
                assert(t[i] == '.');
            }
        }
        if exists|i: int, j: int|
            0 <= i < j < s.len() && #[trigger] s[i] == '.' && #[trigger] s[j] == '.' {
            let (i, j) = choose|i: int, j: int|
                0 <= i < j < s.len() && #[trigger] s[i] == '.' && #[trigger] s[j] == '.';
            assert(t[i] == '.');
            if j < n {
                assert(t[j] == '.');
            }
        }
    }
}

/// The JSON object of a token.
pub open spec fn auth_json(t: AuthView) -> Json {
    Json::Object(
        match t {
            AuthView::Jwt(s) => protocol::tagged("jwt"@).insert("token"@, Json::Str(s)),
            AuthView::ApiKey(s) => protocol::tagged("api_key"@).insert("key"@, Json::Str(s)),
        },
    )
}

/// The token that a document holds.
pub open spec fn auth_of(j: Json) -> Option<AuthView> {
    let kind = wire::text_field(j, 0, "type"@);
    let token = wire::text_field(j, 1, "token"@);
    let key = wire::text_field(j, 1, "key"@);
    if !wire::is_record(j, 2) {
        None
    } else if kind == Some("jwt"@) && token is Some {
        Some(AuthView::Jwt(token->0))
    } else if kind == Some("api_key"@) && key is Some {
        Some(AuthView::ApiKey(key->0))
    } else {
        None
    }
}

/// What is written for a token is read back.
pub proof fn auth_is_read_back(t: AuthView)
    ensures
        auth_of(auth_json(t)) == Some(t),
{
    reveal_strlit("type");
    reveal_strlit("jwt");
    reveal_strlit("token");
    reveal_strlit("api_key");
    reveal_strlit("key");
    assert("type"@.len() != "token"@.len());
    assert("type"@.len() != "key"@.len());
    assert("jwt"@.len() != "api_key"@.len());
}

/// Whether a text gives a field of the token twice that its discriminator
/// announces.
pub open spec fn auth_repeated(kind: Option<Seq<char>>, list: Seq<Listed>) -> bool {
    ||| members::repeats(list, "type"@)
    ||| kind == Some("jwt"@) && members::repeats(list, "token"@)
    ||| kind == Some("api_key"@) && members::repeats(list, "key"@)
}

/// The token in a text which has this JSON value and lists these members; none
/// where the text gives a field twice.
pub open spec fn auth_in(j: Option<Json>, list: Seq<Listed>) -> Option<AuthView> {
    match j {
        Some(j) => if auth_repeated(wire::text_field(j, 0, "type"@), list) {
            None
        } else {
            auth_of(j)
        },
        None => None,
    }
}

/// The token that a text holds.
pub open spec fn auth_of_text(text: Seq<char>) -> Option<AuthView> {
    auth_in(json::json_of_text(text), members::listing(text))
}

/// The text of what is written for a token is read back.
pub proof fn auth_text_is_read_back(t: AuthView, s: Seq<char>)
    requires
        json::json_of_text(s) == Some(auth_json(t)),
        json::is_shown(s, auth_json(t)),
    ensures
        auth_of_text(s) == Some(t),
{
    auth_is_read_back(t);
    json::shown_is_not_repeated(s, auth_json(t));
}

impl AuthToken {
    /// Auto-detect token type from a raw string.
    /// JWTs have dots (header.payload.signature), API keys don't.
    pub fn from_string(s: &str) -> (r: AuthToken)
        ensures
            r@ == detected(s@),
    {
        let parts = pieces(s, '.');
        assert(text::split(s@, '.').len() == parts@.len());
        if parts.len() >= 3 {
            AuthToken::Jwt { token: s.to_owned() }
        } else {
            AuthToken::ApiKey { key: s.to_owned() }
        }
    }

    /// Get the bearer value for an Authorization header.
    pub fn bearer(&self) -> (r: &str)
        ensures
            r@ == bearer_of(self@),
    {
        match self {
            AuthToken::Jwt { token } => token.as_str(),
            AuthToken::ApiKey { key } => key.as_str(),
        }
    }

    /// The JSON object of this token.
    pub fn to_value(&self) -> (r: JsonValue)
        ensures
            r@ == auth_json(self@),
    {
        let mut o = ObjectBuilder::new();
        match self {
            AuthToken::Jwt { token } => {
                o.put("type", JsonValue::text("jwt"));
                o.put("token", JsonValue::text(token.as_str()));
            },
            AuthToken::ApiKey { key } => {
                o.put("type", JsonValue::text("api_key"));
                o.put("key", JsonValue::text(key.as_str()));
            },
        }
        o.build()
    }

    /// Reads a token from a JSON value.
    pub fn from_value(v: &JsonValue) -> (r: Option<AuthToken>)
        ensures
            (match r {
                Some(t) => Some(t@),
                None => None,
            }) == auth_of(v@),
    {
        proof {
            reveal_strlit("jwt");
            reveal_strlit("api_key");
            assert("jwt"@.len() != "api_key"@.len());
        }
        if !record(v, 2) {
            return None;
        }
        match find_text(v, 0, "type") {
            Some(kind) => if same(kind.as_str(), "jwt") {
                match find_text(v, 1, "token") {
                    Some(token) => Some(AuthToken::Jwt { token }),
                    None => None,
                }
            } else if same(kind.as_str(), "api_key") {
                match find_text(v, 1, "key") {
                    Some(key) => Some(AuthToken::ApiKey { key }),
                    None => None,
                }
            } else {
                None
            },
            None => None,
        }
    }

    /// Reads a token from the JSON value of a text and from what the text lists.
    pub fn from_listed(v: Option<JsonValue>, list: &Members) -> (r: Option<AuthToken>)
        ensures
            (match r {
                Some(t) => Some(t@),
                None => None,
            }) == auth_in(json::held(v), list@),
    {
        proof {
            reveal_strlit("jwt");
            reveal_strlit("api_key");
            assert("jwt"@.len() != "api_key"@.len());
        }
        match v {
            Some(v) => {
                let token = AuthToken::from_value(&v);
                let repeated = list.repeats("type") || (match &token {
                    Some(AuthToken::Jwt { .. }) => list.repeats("token"),
                    Some(AuthToken::ApiKey { .. }) => list.repeats("key"),
                    None => false,
                });
                if repeated {
                    None
                } else {
                    token
                }
            },
            None => None,
        }
    }

    /// Reads a token from JSON text.
    pub fn from_json(text: &str) -> (r: Option<AuthToken>)
        ensures
            (match r {
                Some(t) => Some(t@),
                None => None,
            }) == auth_of_text(text@),
    {
        AuthToken::from_listed(JsonValue::parse(text), &Members::read(text))
    }
}

/// What a token says is what it holds.
pub proof fn tokens_say_what_they_hold(t: AuthToken)
    ensures
        t matches AuthToken::Jwt { token } ==> t@ == AuthView::Jwt(token@) && bearer_of(t@)
            == token@,
        t matches AuthToken::ApiKey { key } ==> t@ == AuthView::ApiKey(key@) && bearer_of(t@)
            == key@,
{
}

/// A raw text is taken for one kind of token or the other, and kept as it is.
pub proof fn detection_decides(s: Seq<char>)
    ensures
        detected(s) == AuthView::Jwt(s) <==> exists|i: int, j: int|
            0 <= i < j < s.len() && #[trigger] s[i] == '.' && #[trigger] s[j] == '.',
        detected(s) == AuthView::ApiKey(s) <==> !exists|i: int, j: int|
            0 <= i < j < s.len() && #[trigger] s[i] == '.' && #[trigger] s[j] == '.',
{
    jwt_has_two_dots(s);
}

/// The document of a token says which kind it is and holds it, and nothing
/// else; one is read from a document if and only if that does.
pub proof fn tokens_are_written_and_read(s: Seq<char>, j: Json)
    ensures
        forall|n: Seq<char>| #[trigger]
            json::json_get(auth_json(AuthView::Jwt(s)), n) == if n == "type"@ {
                Some(Json::Str("jwt"@))
            } else if n == "token"@ {
                Some(Json::Str(s))
            } else {
                None
            },
        forall|n: Seq<char>| #[trigger]
            json::json_get(auth_json(AuthView::ApiKey(s)), n) == if n == "type"@ {
                Some(Json::Str("api_key"@))
            } else if n == "key"@ {
                Some(Json::Str(s))
            } else {
                None
            },
        auth_of(j) == Some(AuthView::Jwt(s)) <==> wire::is_record(j, 2) && wire::field(
            j,
            0,
            "type"@,
        ) == Some(Json::Str("jwt"@)) && wire::field(j, 1, "token"@) == Some(Json::Str(s)),
        auth_of(j) == Some(AuthView::ApiKey(s)) <==> wire::is_record(j, 2) && wire::field(
            j,
            0,
            "type"@,
        ) == Some(Json::Str("api_key"@)) && wire::field(j, 1, "key"@) == Some(Json::Str(s)),
{
    reveal_strlit("type");
    reveal_strlit("jwt");
    reveal_strlit("token");
    reveal_strlit("api_key");
    reveal_strlit("key");
    assert("type"@.len() == 4 && "token"@.len() == 5 && "key"@.len() == 3);
    assert("jwt"@.len() != "api_key"@.len());
}

/// A text holds the token of its document, unless it gives a field of that
/// token twice.
pub proof fn fields_of_tokens_are_given_once(j: Json, list: Seq<Listed>, t: AuthView)
    requires
        auth_of(j) == Some(t),
    ensures
        auth_in(None, list) is None,
        auth_in(Some(j), list) == if members::repeats(list, "type"@) || (t is Jwt
            && members::repeats(list, "token"@)) || (t is ApiKey && members::repeats(
            list,
            "key"@,
        )) {
            None
        } else {
            Some(t)
        },
{
    reveal_strlit("jwt");
    reveal_strlit("api_key");
    assert("jwt"@.len() != "api_key"@.len());
}

/// Whatever a token is made of is sent: it is kept as it is, and what it is
/// taken for depends on its dots alone.
pub proof fn tokens_are_sent_as_given(s: &str, t: AuthToken, b: &str)
    requires
        call_ensures(AuthToken::from_string, (s,), t),
        call_ensures(AuthToken::bearer, (&t,), b),
    ensures
        b@ == s@,
        t is Jwt <==> exists|i: int, j: int|
            0 <= i < j < s@.len() && #[trigger] s@[i] == '.' && #[trigger] s@[j] == '.',
        t matches AuthToken::Jwt { token } ==> token@ == s@,
        t matches AuthToken::ApiKey { key } ==> key@ == s@,
{
    detection_decides(s@);
}

/// The credential of a token is what it holds, of either kind.
pub proof fn bearer_is_what_is_held(t: &AuthToken, b: &str)
    requires
        call_ensures(AuthToken::bearer, (t,), b),
    ensures
        *t matches AuthToken::Jwt { token } ==> b@ == token@,
        *t matches AuthToken::ApiKey { key } ==> b@ == key@,
{
}

/// A token is read back from what it is written as, which says its kind.
pub proof fn tokens_are_kept(t: &AuthToken, v: JsonValue, r: Option<AuthToken>)
    requires
        call_ensures(AuthToken::to_value, (t,), v),
        call_ensures(AuthToken::from_value, (&v,), r),
    ensures
        *t matches AuthToken::Jwt { token } ==> (r matches Some(AuthToken::Jwt { token: k }) && k@
            == token@) && json::json_get(v@, "type"@) == Some(Json::Str("jwt"@))
            && json::json_get(v@, "token"@) == Some(Json::Str(token@)),
        *t matches AuthToken::ApiKey { key } ==> (r matches Some(AuthToken::ApiKey { key: k })
            && k@ == key@) && json::json_get(v@, "type"@) == Some(Json::Str("api_key"@))
            && json::json_get(v@, "key"@) == Some(Json::Str(key@)),
{
    tokens_are_written_and_read(bearer_of(t@), v@);
    reveal_strlit("type");
    reveal_strlit("token");
    reveal_strlit("key");
    assert("type"@.len() == 4 && "token"@.len() == 5 && "key"@.len() == 3);
}

/// A text holds the token of its document, as far as it gives its fields once.
pub proof fn texts_hold_tokens(text: &str, t: Option<AuthToken>)
    requires
        call_ensures(AuthToken::from_json, (text,), t),
    ensures
        (match t {
            Some(k) => Some(k@),
            None => None,
        }) == auth_in(json::json_of_text(text@), members::listing(text@)),
{
}

/// A token that is read from a document and what its text lists is the one of
/// the document, as far as the text gives its fields once.
pub proof fn listed_tokens_are_read(v: Option<JsonValue>, list: &Members, r: Option<AuthToken>)
    requires
        call_ensures(AuthToken::from_listed, (v, list), r),
    ensures
        v is None ==> r is None,
        (match r {
            Some(k) => Some(k@),
            None => None,
        }) == auth_in(json::held(v), list@),
{
}

} // verus!
