use vstd::prelude::*;
use vstd::string::*;

use crate::error::Error;
use crate::paging::Page;
use crate::query::{query_text, request_uri, uri_text};

verus! {

/// The HTTP verb of a request.
#[derive(Debug, Clone, Copy, PartialEq, Eq, Structural)]
pub enum Method {
    Get,
    Post,
    Put,
    Delete,
}

/// A call to one endpoint of the service, ready to be sent.
#[derive(Debug)]
pub struct ApiRequest {
    pub method: Method,
    /// Path of the endpoint below the API root, without the `.json` suffix.
    pub endpoint: String,
    /// Query parameters, in the order in which they are sent.
    pub params: Vec<(String, String)>,
}

/// The parameters hold exactly the given keys and values, in order.
pub open spec fn params_are(ps: Seq<(String, String)>, expected: Seq<(Seq<char>, Seq<char>)>) -> bool {
    &&& ps.len() == expected.len()
    &&& forall|i: int|
        0 <= i < ps.len() ==> (#[trigger] ps[i]).0@ == expected[i].0 && ps[i].1@ == expected[i].1
}

/// The character of a decimal digit.
pub open spec fn digit_char(d: nat) -> char {
    seq!['0', '1', '2', '3', '4', '5', '6', '7', '8', '9'][d as int]
}

/// The decimal writing of `n`, without sign or leading zeros.
pub open spec fn decimal(n: nat) -> Seq<char>
    decreases n,
{
    if n < 10 {
        seq![digit_char(n)]
    } else {
        decimal(n / 10) + seq![digit_char(n % 10)]
    }
}

/// Relies on std's `Display` for `u32`, which writes the number in decimal
/// with no sign, padding or leading zeros.
#[verifier::external_body]
fn decimal_string(n: u32) -> (r: String)
    ensures
        r@ == decimal(n as nat),
{
    format!("{}", n)
}

fn param(key: &str, value: &str) -> (r: (String, String))
    ensures
        r.0@ == key@,
        r.1@ == value@,
{
    (String::from_str(key), String::from_str(value))
}

impl ApiRequest {
    /// The address that this request is sent to.
    pub fn uri(&self) -> (r: String)
        ensures
            r@ == uri_text(self.endpoint@, query_text(self.params@)),
    {
        request_uri(self.endpoint.as_str(), &self.params)
    }
}

/// A session with the service: the room acted on, if any, and the session
/// token sent with each call that needs one.
#[derive(Debug)]
pub struct Voicebox {
    pub code: Option<String>,
    pub session: String,
}

impl Voicebox {
    /// A session for the room `room_code`, with an empty token.
    pub fn new(room_code: Option<String>) -> (r: Voicebox)
        ensures
            r.code == room_code,
            r.session@ == Seq::<char>::empty(),
    {
        Voicebox { code: room_code, session: String::new() }
    }

    /// Replaces the session token, as obtained at login.
    pub fn set_session(&mut self, session: String)
        ensures
            final(self).code == old(self).code,
            final(self).session == session,
    {
        self.session = session;
    }

    /// The room code, or the error for a call that needs one.
    fn room_code(&self) -> (r: Result<String, Error>)
        ensures
            match self.code {
                None => r == Err::<String, Error>(Error::MissingRoomCode),
                Some(c) => r is Ok && r->Ok_0@ == c@,
            },
    {
        match &self.code {
            None => Err(Error::MissingRoomCode),
            Some(c) => Ok(c.clone()),
        }
    }

    /// Logs in with an email address: `POST login?email=...`.
    pub fn login(&self, email: &str) -> (r: ApiRequest)
        ensures
            r.method == Method::Post,
            r.endpoint@ == "login"@,
            params_are(r.params@, seq![("email"@, email@)]),
    {
        let params = vec![param("email", email)];
        ApiRequest { method: Method::Post, endpoint: String::from_str("login"), params }
    }

    /// Shows a popup message in the room: `POST login` with the session, the
    /// room code and the text. Fails without a room code.
    pub fn popup(&self, msg: &str) -> (r: Result<ApiRequest, Error>)
        ensures
            self.code is None <==> r == Err::<ApiRequest, Error>(Error::MissingRoomCode),
            self.code is Some ==> {
                &&& r is Ok
                &&& r->Ok_0.method == Method::Post
                &&& r->Ok_0.endpoint@ == "login"@
                &&& params_are(
                    r->Ok_0.params@,
                    seq![
                        ("session"@, self.session@),
                        ("room_code"@, self.code->Some_0@),
                        ("text"@, msg@),
                    ],
                )
            },
    {
        let code = match self.room_code() {
            Err(e) => return Err(e),
            Ok(c) => c,
        };
        let params = vec![
            param("session", self.session.as_str()),
            param("room_code", code.as_str()),
            param("text", msg),
        ];
        Ok(ApiRequest { method: Method::Post, endpoint: String::from_str("login"), params })
    }

    /// Sets the user's display name: `PUT profile` with the session and the handle.
    pub fn set_handle(&self, handle: &str) -> (r: ApiRequest)
        ensures
            r.method == Method::Put,
            r.endpoint@ == "profile"@,
            params_are(r.params@, seq![("session"@, self.session@), ("handle"@, handle@)]),
    {
        let params = vec![param("session", self.session.as_str()), param("handle", handle)];
        ApiRequest { method: Method::Put, endpoint: String::from_str("profile"), params }
    }

    /// Adds a song to the room's queue: `POST queue` with the session, the room
    /// code and the song's id. Fails without a room code.
    pub fn enqueue_song(&self, id: &str) -> (r: Result<ApiRequest, Error>)
        ensures
            self.code is None <==> r == Err::<ApiRequest, Error>(Error::MissingRoomCode),
            self.code is Some ==> {
                &&& r is Ok
                &&& r->Ok_0.method == Method::Post
                &&& r->Ok_0.endpoint@ == "queue"@
                &&& params_are(
                    r->Ok_0.params@,
                    seq![
                        ("session"@, self.session@),
                        ("room_code"@, self.code->Some_0@),
                        ("song_id"@, id@),
                    ],
                )
            },
    {
        let code = match self.room_code() {
            Err(e) => return Err(e),
            Ok(c) => c,
        };
        let params = vec![
            param("session", self.session.as_str()),
            param("room_code", code.as_str()),
            param("song_id", id),
        ];
        Ok(ApiRequest { method: Method::Post, endpoint: String::from_str("queue"), params })
    }

    /// Removes an entry from the room's queue: `DELETE queue` with the session,
    /// the room code and the entry's id. Fails without a room code.
    pub fn delete_song(&self, id: &str) -> (r: Result<ApiRequest, Error>)
        ensures
            self.code is None <==> r == Err::<ApiRequest, Error>(Error::MissingRoomCode),
            self.code is Some ==> {
                &&& r is Ok
                &&& r->Ok_0.method == Method::Delete
                &&& r->Ok_0.endpoint@ == "queue"@
                &&& params_are(
                    r->Ok_0.params@,
                    seq![
                        ("session"@, self.session@),
                        ("room_code"@, self.code->Some_0@),
                        ("from"@, id@),
                    ],
                )
            },
    {
        let code = match self.room_code() {
            Err(e) => return Err(e),
            Ok(c) => c,
        };
        let params = vec![
            param("session", self.session.as_str()),
            param("room_code", code.as_str()),
            param("from", id),
        ];
        Ok(ApiRequest { method: Method::Delete, endpoint: String::from_str("queue"), params })
    }

    /// One page of the user's favorite songs: `GET songs/favorites` with the
    /// session, the page index and the page size, in decimal.
    pub fn favorites(&self, page: u32, per_page: u32) -> (r: ApiRequest)
        ensures
            r.method == Method::Get,
            r.endpoint@ == "songs/favorites"@,
            params_are(
                r.params@,
                seq![
                    ("session"@, self.session@),
                    ("page"@, decimal(page as nat)),
                    ("per_page"@, decimal(per_page as nat)),
                ],
            ),
    {
        let params = self.page_params(page, per_page);
        ApiRequest { method: Method::Get, endpoint: String::from_str("songs/favorites"), params }
    }

    /// One page of the room's play history: `GET plays/history` with the
    /// session, the page index and the page size, in decimal.
    pub fn history(&self, page: u32, per_page: u32) -> (r: ApiRequest)
        ensures
            r.method == Method::Get,
            r.endpoint@ == "plays/history"@,
            params_are(
                r.params@,
                seq![
                    ("session"@, self.session@),
                    ("page"@, decimal(page as nat)),
                    ("per_page"@, decimal(per_page as nat)),
                ],
            ),
    {
        let params = self.page_params(page, per_page);
        ApiRequest { method: Method::Get, endpoint: String::from_str("plays/history"), params }
    }

    fn page_params(&self, page: u32, per_page: u32) -> (r: Vec<(String, String)>)
        ensures
            params_are(
                r@,
                seq![
                    ("session"@, self.session@),
                    ("page"@, decimal(page as nat)),
                    ("per_page"@, decimal(per_page as nat)),
                ],
            ),
    {
        let page_text = decimal_string(page);
        let per_page_text = decimal_string(per_page);
        vec![
            param("session", self.session.as_str()),
            (String::from_str("page"), page_text),
            (String::from_str("per_page"), per_page_text),
        ]
    }
}

} // verus!
