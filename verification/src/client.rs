//! The client side of the notary protocol.
//!
//! A client stands for one signing identity talking to the notary service.
//! For each operation it says which request to send, and the functions named
//! after the operation's responses say what an answer means. The client mints
//! one token when it first needs one and sends that token with every request
//! from then on.

use crate::error::AppleCodesignError;
use crate::http::{
    push_header, spec_accept_json, spec_content_type_json, HttpMethod, HttpRequest,
    HttpRequestView,
};
use crate::json::{json_items, json_members, json_parse, parse_json, spec_text_member};
use crate::notary::{
    NewSubmissionRequest, NewSubmissionResponse, SubmissionLogResponse, SubmissionResponse,
};
use crate::token::{AppStoreConnectToken, ConnectTokenEncoder, SigningIdentity};
use vstd::prelude::*;

verus! {

/// The address that submissions are sent to and asked after.
pub const NOTARY_SUBMISSIONS_URL: &'static str =
    "https://appstoreconnect.apple.com/notary/v2/submissions";

/// The address of the iTunes producer service.
pub const ITUNES_PRODUCER_SERVICE_URL: &'static str =
    "https://contentdelivery.itunes.apple.com/WebObjects/MZLabelService.woa/json/MZITunesProducerService";

/// For how many seconds a token holds, unless the client is told otherwise.
pub const DEFAULT_TOKEN_LIFETIME: u64 = 300;

/// The only status with which the service accepts a new submission.
pub const HTTP_OK: u16 = 200;

/// A client as a mathematical value: whose tokens it sends, for how long it
/// has them minted, and the token that it holds, if it has minted one.
pub struct AppStoreConnectClientView {
    pub identity: SigningIdentity,
    pub token_lifetime: u64,
    pub token: Option<Seq<char>>,
}

/// A client for the notary part of the App Store Connect API.
///
/// The token is minted once and not looked at again: the client does not
/// notice when it expires. A caller that keeps a client for longer than the
/// token's lifetime makes a new client.
pub struct AppStoreConnectClient {
    connect_token: ConnectTokenEncoder,
    token_lifetime: u64,
    token: Option<AppStoreConnectToken>,
}

impl View for AppStoreConnectClient {
    type V = AppStoreConnectClientView;

    closed spec fn view(&self) -> AppStoreConnectClientView {
        AppStoreConnectClientView {
            identity: self.connect_token@,
            token_lifetime: self.token_lifetime,
            token: self.token.deep_view(),
        }
    }
}

/// The request that creates a submission.
pub open spec fn spec_create_submission_request(
    token: Seq<char>,
    body: serde_json::Value,
) -> HttpRequestView {
    HttpRequestView {
        method: HttpMethod::Post,
        url: NOTARY_SUBMISSIONS_URL@,
        bearer_token: Some(token),
        headers: seq![spec_accept_json(), spec_content_type_json()],
        json: Some(body),
    }
}

/// The request that asks for the status of a submission.
pub open spec fn spec_get_submission_request(
    token: Seq<char>,
    submission_id: Seq<char>,
) -> HttpRequestView {
    HttpRequestView {
        method: HttpMethod::Get,
        url: NOTARY_SUBMISSIONS_URL@ + "/"@ + submission_id,
        bearer_token: Some(token),
        headers: seq![spec_accept_json()],
        json: None,
    }
}

/// The request that asks where the log of a submission is.
pub open spec fn spec_get_submission_log_request(
    token: Seq<char>,
    submission_id: Seq<char>,
) -> HttpRequestView {
    HttpRequestView {
        method: HttpMethod::Get,
        url: NOTARY_SUBMISSIONS_URL@ + "/"@ + submission_id + "/logs"@,
        bearer_token: Some(token),
        headers: seq![spec_accept_json()],
        json: None,
    }
}

/// The request that fetches a log document. It goes to an address that the
/// service handed out for the purpose, and carries no credential.
pub open spec fn spec_log_document_request(url: Seq<char>) -> HttpRequestView {
    HttpRequestView {
        method: HttpMethod::Get,
        url,
        bearer_token: None,
        headers: seq![spec_accept_json()],
        json: None,
    }
}

/// The token in the outcome of getting one, where there is one.
pub open spec fn spec_token_of(
    outcome: Result<AppStoreConnectToken, AppleCodesignError>,
) -> Option<Seq<char>> {
    match outcome {
        Ok(token) => Some(token@),
        Err(_) => None,
    }
}

impl AppStoreConnectClientView {
    /// How an operation that needs a token leaves the client. `token` is the
    /// token that the operation got, if it got one.
    ///
    /// A client that holds a token hands that token out and stays as it is.
    /// A client that holds none holds afterwards what was minted for it,
    /// which is nothing where minting failed.
    pub open spec fn after_token(self, after: Self, token: Option<Seq<char>>) -> bool {
        &&& after.identity == self.identity
        &&& after.token_lifetime == self.token_lifetime
        &&& after.token == token
        &&& self.token is Some ==> token == self.token
    }

    /// `token` is a token minted for this client: a token of its identity
    /// that holds for its token lifetime, issued at a time that 64 bits hold
    /// together with the expiry.
    pub open spec fn mints(self, token: Seq<char>) -> bool {
        exists|now: int|
            0 <= now && now + self.token_lifetime <= u64::MAX
                && #[trigger] ConnectTokenEncoder::spec_minted(
                self.identity,
                now,
                self.token_lifetime as int,
                token,
            )
    }
}

impl AppStoreConnectClient {
    /// Makes a client whose tokens hold for `DEFAULT_TOKEN_LIFETIME` seconds.
    pub fn new(connect_token: ConnectTokenEncoder) -> (client: Self)
        ensures
            client@ == (AppStoreConnectClientView {
                identity: connect_token@,
                token_lifetime: DEFAULT_TOKEN_LIFETIME,
                token: None,
            }),
    {
        AppStoreConnectClient { connect_token, token_lifetime: DEFAULT_TOKEN_LIFETIME, token: None }
    }

    /// Makes a client whose tokens hold for `token_lifetime` seconds.
    pub fn with_token_lifetime(connect_token: ConnectTokenEncoder, token_lifetime: u64) -> (client:
        Self)
        ensures
            client@ == (AppStoreConnectClientView {
                identity: connect_token@,
                token_lifetime,
                token: None,
            }),
    {
        AppStoreConnectClient { connect_token, token_lifetime, token: None }
    }

    /// What the client holds after one outcome of minting, and what the
    /// operation that asked for the token gets. A minted token is kept and
    /// handed out, an error is handed on and nothing is kept. A client that
    /// holds a token already keeps that one, whatever was minted.
    pub fn keep_token(
        &mut self,
        minted: Result<AppStoreConnectToken, AppleCodesignError>,
    ) -> (r: Result<AppStoreConnectToken, AppleCodesignError>)
        ensures
            old(self)@.after_token(final(self)@, spec_token_of(r)),
            old(self)@.token is None ==> r == minted,
    {
        match &self.token {
            Some(token) => Ok(token.clone()),
            None => match minted {
                Ok(token) => {
                    self.token = Some(token.clone());
                    Ok(token)
                },
                Err(error) => Err(error),
            },
        }
    }

    /// The token to send with a request: the one that the client holds, or,
    /// where it holds none yet, a newly minted one, which it holds from then
    /// on.
    ///
    /// Whether minting succeeds is up to the signing library, the key and
    /// the clock. Nothing is minted for a client that holds a token. For a
    /// client that holds none, a token that comes out was minted for it: by
    /// its encoder, to hold for its token lifetime.
    pub fn get_token(&mut self) -> (r: Result<AppStoreConnectToken, AppleCodesignError>)
        ensures
            old(self)@.token is Some ==> r is Ok,
            old(self)@.after_token(final(self)@, spec_token_of(r)),
            old(self)@.token is None ==> (r matches Ok(token) ==> old(self)@.mints(token@)),
            r matches Err(error) ==> error is JsonWebToken || error is SystemClockBeforeUnixEpoch
                || error is TokenLifetimeTooLong,
    {
        match &self.token {
            Some(token) => Ok(token.clone()),
            None => {
                let minted = self.connect_token.new_token(self.token_lifetime);
                self.keep_token(minted)
            },
        }
    }

    /// The request that creates a submission for the software with the given
    /// SHA-256 digest, in hexadecimal, under the given name. No notification
    /// is asked for.
    ///
    /// The request carries the client's token, which is minted for the
    /// purpose where the client holds none. Fails only where no token can be
    /// had; see [`AppStoreConnectClient::get_token`].
    pub fn create_submission(&mut self, sha256: &str, submission_name: &str) -> (r: Result<
        HttpRequest,
        AppleCodesignError,
    >)
        ensures
            old(self)@.token is Some ==> r is Ok,
            old(self)@.token is None ==> (r matches Ok(request) ==> old(self)@.mints(
                request@.bearer_token.unwrap(),
            )),
            match r {
                Ok(request) => {
                    &&& final(self)@.token matches Some(token)
                    &&& old(self)@.after_token(final(self)@, Some(token))
                    &&& request@.json matches Some(body)
                    &&& request@ == spec_create_submission_request(token, body)
                    &&& spec_new_submission(sha256@, submission_name@, body)
                },
                Err(error) => {
                    &&& old(self)@.after_token(final(self)@, None)
                    &&& error is JsonWebToken || error is SystemClockBeforeUnixEpoch
                        || error is TokenLifetimeTooLong
                },
            },
    {
        let token = match self.get_token() {
            Ok(token) => token,
            Err(error) => return Err(error),
        };
        let body = NewSubmissionRequest {
            notifications: Vec::new(),
            sha256: String::from_str(sha256),
            submission_name: String::from_str(submission_name),
        };
        let mut headers: Vec<(String, String)> = Vec::new();
        push_header(&mut headers, "Accept", "application/json");
        push_header(&mut headers, "Content-Type", "application/json");
        assert(headers.deep_view() =~= seq![spec_accept_json(), spec_content_type_json()]);
        Ok(
            HttpRequest {
                method: HttpMethod::Post,
                url: String::from_str(NOTARY_SUBMISSIONS_URL),
                bearer_token: Some(token),
                headers,
                json: Some(body.to_json()),
            },
        )
    }

    /// What the status of the answer to a new submission means: 200 and no
    /// other status says that the submission was taken.
    pub fn create_submission_status(status: u16) -> (r: Result<(), AppleCodesignError>)
        ensures
            status == HTTP_OK ==> r is Ok,
            status != HTTP_OK ==> r == Err::<(), AppleCodesignError>(
                AppleCodesignError::NotarizeServerError,
            ),
    {
        if status == HTTP_OK {
            Ok(())
        } else {
            Err(AppleCodesignError::NotarizeServerError)
        }
    }

    /// What the answer to a new submission means: with status 200 the body
    /// is read as the record of the submission, with any other status the
    /// service has refused and the body is not looked at.
    pub fn create_submission_response(status: u16, body: &[u8]) -> (r: Result<
        NewSubmissionResponse,
        AppleCodesignError,
    >)
        ensures
            status != HTTP_OK ==> r == Err::<NewSubmissionResponse, AppleCodesignError>(
                AppleCodesignError::NotarizeServerError,
            ),
            status == HTTP_OK ==> match json_parse(body@) {
                None => r matches Err(AppleCodesignError::SerdeJson(_)),
                Some(doc) => if NewSubmissionResponse::can_decode(doc) {
                    r matches Ok(value) && value.is_encoded_by(doc)
                } else {
                    r == Err::<NewSubmissionResponse, AppleCodesignError>(
                        AppleCodesignError::NotarizeResponseMalformed,
                    )
                },
            },
    {
        match Self::create_submission_status(status) {
            Ok(()) => NewSubmissionResponse::from_slice(body),
            Err(error) => Err(error),
        }
    }

    /// The request that asks for the status of a submission.
    ///
    /// The request carries the client's token, which is minted for the
    /// purpose where the client holds none. Fails only where no token can be
    /// had; see [`AppStoreConnectClient::get_token`].
    pub fn get_submission(&mut self, submission_id: &str) -> (r: Result<
        HttpRequest,
        AppleCodesignError,
    >)
        ensures
            old(self)@.token is Some ==> r is Ok,
            old(self)@.token is None ==> (r matches Ok(request) ==> old(self)@.mints(
                request@.bearer_token.unwrap(),
            )),
            match r {
                Ok(request) => {
                    &&& final(self)@.token matches Some(token)
                    &&& old(self)@.after_token(final(self)@, Some(token))
                    &&& request@ == spec_get_submission_request(token, submission_id@)
                },
                Err(error) => {
                    &&& old(self)@.after_token(final(self)@, None)
                    &&& error is JsonWebToken || error is SystemClockBeforeUnixEpoch
                        || error is TokenLifetimeTooLong
                },
            },
    {
        let token = match self.get_token() {
            Ok(token) => token,
            Err(error) => return Err(error),
        };
        let mut url = String::from_str(NOTARY_SUBMISSIONS_URL);
        url.append("/");
        url.append(submission_id);
        let mut headers: Vec<(String, String)> = Vec::new();
        assert(headers.deep_view() =~= Seq::<(Seq<char>, Seq<char>)>::empty());
        push_header(&mut headers, "Accept", "application/json");
        Ok(HttpRequest { method: HttpMethod::Get, url, bearer_token: Some(token), headers, json: None })
    }

    /// What the answer to a request for the status of a submission means:
    /// the body is read as the record of the submission, whatever its status.
    /// [`SubmissionResponse::into_result`] turns the record into a verdict.
    pub fn get_submission_response(body: &[u8]) -> (r: Result<
        SubmissionResponse,
        AppleCodesignError,
    >)
        ensures
            match json_parse(body@) {
                None => r matches Err(AppleCodesignError::SerdeJson(_)),
                Some(doc) => if SubmissionResponse::can_decode(doc) {
                    r matches Ok(value) && value.is_encoded_by(doc)
                } else {
                    r == Err::<SubmissionResponse, AppleCodesignError>(
                        AppleCodesignError::NotarizeResponseMalformed,
                    )
                },
            },
    {
        SubmissionResponse::from_slice(body)
    }

    /// The request that asks where the log of a submission is: the first of
    /// the two requests that it takes to get the log.
    ///
    /// The request carries the client's token, which is minted for the
    /// purpose where the client holds none. Fails only where no token can be
    /// had; see [`AppStoreConnectClient::get_token`].
    pub fn get_submission_log(&mut self, submission_id: &str) -> (r: Result<
        HttpRequest,
        AppleCodesignError,
    >)
        ensures
            old(self)@.token is Some ==> r is Ok,
            old(self)@.token is None ==> (r matches Ok(request) ==> old(self)@.mints(
                request@.bearer_token.unwrap(),
            )),
            match r {
                Ok(request) => {
                    &&& final(self)@.token matches Some(token)
                    &&& old(self)@.after_token(final(self)@, Some(token))
                    &&& request@ == spec_get_submission_log_request(token, submission_id@)
                },
                Err(error) => {
                    &&& old(self)@.after_token(final(self)@, None)
                    &&& error is JsonWebToken || error is SystemClockBeforeUnixEpoch
                        || error is TokenLifetimeTooLong
                },
            },
    {
        let token = match self.get_token() {
            Ok(token) => token,
            Err(error) => return Err(error),
        };
        let mut url = String::from_str(NOTARY_SUBMISSIONS_URL);
        url.append("/");
        url.append(submission_id);
        url.append("/logs");
        let mut headers: Vec<(String, String)> = Vec::new();
        assert(headers.deep_view() =~= Seq::<(Seq<char>, Seq<char>)>::empty());
        push_header(&mut headers, "Accept", "application/json");
        Ok(HttpRequest { method: HttpMethod::Get, url, bearer_token: Some(token), headers, json: None })
    }

    /// What the answer to the first request for a log means: the body is
    /// read as the place of the log, and the second request, which fetches
    /// the log from there, comes out. That request carries no credential.
    pub fn get_submission_log_location(body: &[u8]) -> (r: Result<HttpRequest, AppleCodesignError>)
        ensures
            match json_parse(body@) {
                None => r matches Err(AppleCodesignError::SerdeJson(_)),
                Some(doc) => if SubmissionLogResponse::can_decode(doc) {
                    r matches Ok(request) && request@ == spec_log_document_request(
                        spec_developer_log_url(doc),
                    )
                } else {
                    r == Err::<HttpRequest, AppleCodesignError>(
                        AppleCodesignError::NotarizeResponseMalformed,
                    )
                },
            },
    {
        let location = match SubmissionLogResponse::from_slice(body) {
            Ok(location) => location,
            Err(error) => return Err(error),
        };
        let url = String::from_str(location.data.attributes.developer_log_url());
        let mut headers: Vec<(String, String)> = Vec::new();
        assert(headers.deep_view() =~= Seq::<(Seq<char>, Seq<char>)>::empty());
        push_header(&mut headers, "Accept", "application/json");
        Ok(HttpRequest { method: HttpMethod::Get, url, bearer_token: None, headers, json: None })
    }

    /// What the answer to the second request for a log means: the body is
    /// the log, a JSON document of whatever shape, and comes out as it is.
    pub fn get_submission_log_response(body: &[u8]) -> (r: Result<
        serde_json::Value,
        AppleCodesignError,
    >)
        ensures
            match json_parse(body@) {
                None => r matches Err(AppleCodesignError::SerdeJson(_)),
                Some(doc) => r == Ok::<serde_json::Value, AppleCodesignError>(doc),
            },
    {
        match parse_json(body) {
            Ok(doc) => Ok(doc),
            Err(error) => Err(AppleCodesignError::SerdeJson(error)),
        }
    }
}

/// `body` is the document that asks for a new submission of the software with
/// the given digest under the given name, with no notification.
pub open spec fn spec_new_submission(
    sha256: Seq<char>,
    submission_name: Seq<char>,
    body: serde_json::Value,
) -> bool {
    &&& json_members(body).dom() =~= set!["notifications"@, "sha256"@, "submissionName"@]
    &&& json_items(json_members(body)["notifications"@]).len() == 0
    &&& spec_text_member(body, "sha256"@) == Some(sha256)
    &&& spec_text_member(body, "submissionName"@) == Some(submission_name)
}

/// The address of the log that the answer to the first request for a log
/// names.
pub open spec fn spec_developer_log_url(doc: serde_json::Value) -> Seq<char> {
    spec_text_member(
        json_members(json_members(doc)["data"@])["attributes"@],
        "developerLogUrl"@,
    ).unwrap()
}

/// A client has one token. Once an operation has got a token from it, the
/// client holds that token, every later operation gets the same one, and the
/// client is left as it was.
pub proof fn law_one_token_per_client(
    before: AppStoreConnectClientView,
    between: AppStoreConnectClientView,
    after: AppStoreConnectClientView,
    first: Seq<char>,
    later: Option<Seq<char>>,
)
    requires
        before.after_token(between, Some(first)),
        between.after_token(after, later),
    ensures
        later == Some(first),
        after == between,
        after.token == Some(first),
{
}

/// However many operations follow one another on a client, they get one
/// token: once one of them has got a token, every later one gets the same,
/// and the client holds it. `states` are the states of the client before,
/// between and after the operations, `tokens` what each operation got.
pub proof fn law_one_token_for_every_caller(
    states: Seq<AppStoreConnectClientView>,
    tokens: Seq<Option<Seq<char>>>,
    first: int,
    later: int,
)
    requires
        states.len() == tokens.len() + 1,
        forall|i: int|
            #![trigger tokens[i]]
            0 <= i < tokens.len() ==> states[i].after_token(states[i + 1], tokens[i]),
        0 <= first <= later < tokens.len(),
        tokens[first] is Some,
    ensures
        tokens[later] == tokens[first],
        states[later + 1].token == tokens[first],
    decreases later - first,
{
    assert(states[later].after_token(states[later + 1], tokens[later]));
    if first < later {
        law_one_token_for_every_caller(states, tokens, first, later - 1);
    }
}

} // verus!
