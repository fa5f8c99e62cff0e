//! The catalog client: credentials, the search-call plan, the error
//! taxonomy, and the shaping of the service's search and status responses.
//!
//! The functions here decide and describe; the network calls they prepare
//! for are issued outside the library, which then hands the decoded
//! outcome back in.

use vstd::prelude::*;
use vstd::string::StringExecFns;
use crate::parts::{lemma_vec_deep_view_index, lemma_vec_deep_view_len, DigiKeyPartInfo};
use crate::token::AuthError;

verus! {

broadcast use lemma_vec_deep_view_len, lemma_vec_deep_view_index;

/// How many records one search asks the provider for.
pub const SEARCH_RECORD_COUNT: i32 = 10;

/// The position the search window starts at.
pub const SEARCH_RECORD_START: i32 = 0;

/// Failure of one search call.
#[derive(Debug, Clone)]
pub enum SearchError {
    /// The client holds no usable credentials; no call was attempted.
    NotConfigured,
    /// Obtaining a bearer token failed.
    AuthFailed(AuthError),
    /// The provider answered the search with a non-success status; carries
    /// the status code and the response body.
    ProviderRejected(u16, String),
    /// The provider's search response body could not be decoded.
    MalformedResponse,
}

/// The decimal digit `d` as a character.
pub open spec fn digit_char(d: nat) -> char {
    if d == 0 {
        '0'
    } else if d == 1 {
        '1'
    } else if d == 2 {
        '2'
    } else if d == 3 {
        '3'
    } else if d == 4 {
        '4'
    } else if d == 5 {
        '5'
    } else if d == 6 {
        '6'
    } else if d == 7 {
        '7'
    } else if d == 8 {
        '8'
    } else {
        '9'
    }
}

/// The decimal writing of `n`, most significant digit first, without
/// leading zeros (a single zero for zero itself).
pub open spec fn spec_decimal(n: nat) -> Seq<char>
    decreases n,
{
    if n < 10 {
        seq![digit_char(n)]
    } else {
        spec_decimal(n / 10).push(digit_char(n % 10))
    }
}

fn append_digit(s: &mut String, d: u16)
    requires
        d < 10,
    ensures
        final(s)@ == old(s)@.push(digit_char(d as nat)),
{
    let ds: &str = match d {
        0 => "0",
        1 => "1",
        2 => "2",
        3 => "3",
        4 => "4",
        5 => "5",
        6 => "6",
        7 => "7",
        8 => "8",
        _ => "9",
    };
    proof {
        reveal_strlit("0");
        reveal_strlit("1");
        reveal_strlit("2");
        reveal_strlit("3");
        reveal_strlit("4");
        reveal_strlit("5");
        reveal_strlit("6");
        reveal_strlit("7");
        reveal_strlit("8");
        reveal_strlit("9");
        assert(ds@ =~= seq![digit_char(d as nat)]);
    }
    s.append(ds);
    proof {
        assert(s@ =~= old(s)@.push(digit_char(d as nat)));
    }
}

/// Writes `n` in decimal.
pub fn u16_to_decimal(n: u16) -> (r: String)
    ensures
        r@ == spec_decimal(n as nat),
    decreases n,
{
    if n < 10 {
        let mut s = String::new();
        append_digit(&mut s, n);
        proof {
            assert(s@ =~= seq![digit_char(n as nat)]);
        }
        s
    } else {
        let mut s = u16_to_decimal(n / 10);
        append_digit(&mut s, n % 10);
        s
    }
}

impl SearchError {
    /// The human-readable account of this failure.
    pub open spec fn spec_message(&self) -> Seq<char> {
        match self {
            SearchError::NotConfigured =>
                "DigiKey API not configured. Set DIGIKEY_CLIENT_ID and DIGIKEY_CLIENT_SECRET environment variables."@,
            SearchError::AuthFailed(AuthError::ProviderRejected(status, body)) =>
                "DigiKey authentication failed: "@ + spec_decimal(*status as nat) + " - "@
                + body@,
            SearchError::AuthFailed(AuthError::MalformedResponse) =>
                "Failed to parse DigiKey token response"@,
            SearchError::ProviderRejected(status, body) => "DigiKey search failed: "@
                + spec_decimal(*status as nat) + " - "@ + body@,
            SearchError::MalformedResponse => "Failed to parse DigiKey search response"@,
        }
    }

    /// Renders the failure for the wire's `error` field.
    pub fn message(&self) -> (r: String)
        ensures
            r@ == self.spec_message(),
    {
        match self {
            SearchError::NotConfigured =>
                "DigiKey API not configured. Set DIGIKEY_CLIENT_ID and DIGIKEY_CLIENT_SECRET environment variables.".to_owned(),
            SearchError::AuthFailed(AuthError::ProviderRejected(status, body)) => {
                let mut s = "DigiKey authentication failed: ".to_owned();
                let dec = u16_to_decimal(*status);
                s.append(dec.as_str());
                s.append(" - ");
                s.append(body.as_str());
                proof {
                    assert(s@ =~= self.spec_message());
                }
                s
            },
            SearchError::AuthFailed(AuthError::MalformedResponse) =>
                "Failed to parse DigiKey token response".to_owned(),
            SearchError::ProviderRejected(status, body) => {
                let mut s = "DigiKey search failed: ".to_owned();
                let dec = u16_to_decimal(*status);
                s.append(dec.as_str());
                s.append(" - ");
                s.append(body.as_str());
                proof {
                    assert(s@ =~= self.spec_message());
                }
                s
            },
            SearchError::MalformedResponse =>
                "Failed to parse DigiKey search response".to_owned(),
        }
    }
}

/// The body of the provider's keyword-search call.
#[derive(Debug, Clone)]
pub struct KeywordSearchRequest {
    pub keywords: String,
    pub record_count: i32,
    pub record_start_position: i32,
}

/// The catalog client: the two credentials it was constructed with.
pub struct DigiKeyClient {
    pub client_id: String,
    pub client_secret: String,
}

impl DigiKeyClient {
    /// Both credentials are present.
    pub open spec fn spec_configured(&self) -> bool {
        self.client_id@.len() > 0 && self.client_secret@.len() > 0
    }

    pub fn new(client_id: String, client_secret: String) -> (c: Self)
        ensures
            c.client_id == client_id,
            c.client_secret == client_secret,
    {
        DigiKeyClient { client_id, client_secret }
    }

    /// Whether the integration is configured: true exactly when both the
    /// client id and the client secret are non-empty.
    pub fn is_configured(&self) -> (r: bool)
        ensures
            r == self.spec_configured(),
    {
        !self.client_id.as_str().is_empty() && !self.client_secret.as_str().is_empty()
    }

    /// The form of the client-credentials token request.
    pub fn token_request_params(&self) -> (params: Vec<(String, String)>)
        ensures
            params.deep_view() == seq![
                ("client_id"@, self.client_id@),
                ("client_secret"@, self.client_secret@),
                ("grant_type"@, "client_credentials"@),
            ],
    {
        let mut params: Vec<(String, String)> = Vec::new();
        params.push(("client_id".to_owned(), self.client_id.clone()));
        params.push(("client_secret".to_owned(), self.client_secret.clone()));
        params.push(("grant_type".to_owned(), "client_credentials".to_owned()));
        proof {
            assert(params.deep_view() =~= seq![
                ("client_id"@, self.client_id@),
                ("client_secret"@, self.client_secret@),
                ("grant_type"@, "client_credentials"@),
            ]);
        }
        params
    }

    /// The headers of one authenticated search call: the bearer credential
    /// and the fixed locale set.
    pub fn search_headers(&self, access_token: &str) -> (hs: Vec<(String, String)>)
        ensures
            hs.deep_view() == seq![
                ("Authorization"@, "Bearer "@ + access_token@),
                ("X-DIGIKEY-Client-Id"@, self.client_id@),
                ("X-DIGIKEY-Locale-Site"@, "US"@),
                ("X-DIGIKEY-Locale-Language"@, "en"@),
                ("X-DIGIKEY-Locale-Currency"@, "USD"@),
            ],
    {
        let mut auth = "Bearer ".to_owned();
        auth.append(access_token);
        let mut hs: Vec<(String, String)> = Vec::new();
        hs.push(("Authorization".to_owned(), auth));
        hs.push(("X-DIGIKEY-Client-Id".to_owned(), self.client_id.clone()));
        hs.push(("X-DIGIKEY-Locale-Site".to_owned(), "US".to_owned()));
        hs.push(("X-DIGIKEY-Locale-Language".to_owned(), "en".to_owned()));
        hs.push(("X-DIGIKEY-Locale-Currency".to_owned(), "USD".to_owned()));
        proof {
            assert(hs.deep_view() =~= seq![
                ("Authorization"@, "Bearer "@ + access_token@),
                ("X-DIGIKEY-Client-Id"@, self.client_id@),
                ("X-DIGIKEY-Locale-Site"@, "US"@),
                ("X-DIGIKEY-Locale-Language"@, "en"@),
                ("X-DIGIKEY-Locale-Currency"@, "USD"@),
            ]);
        }
        hs
    }

    /// Plans one search call: refuses immediately, with no call prepared,
    /// when the client is unconfigured; otherwise yields the exact request
    /// body to send, with the fixed record window.
    pub fn begin_search(&self, query: &str) -> (r: Result<KeywordSearchRequest, SearchError>)
        ensures
            !self.spec_configured() ==> (r matches Err(e) && e == SearchError::NotConfigured),
            self.spec_configured() ==> (r matches Ok(req) && req.keywords@ == query@
                && req.record_count == SEARCH_RECORD_COUNT && req.record_start_position
                == SEARCH_RECORD_START),
    {
        if !self.is_configured() {
            return Err(SearchError::NotConfigured);
        }
        Ok(
            KeywordSearchRequest {
                keywords: query.to_owned(),
                record_count: SEARCH_RECORD_COUNT,
                record_start_position: SEARCH_RECORD_START,
            },
        )
    }
}

impl Default for DigiKeyClient {
    /// A client with no credentials; it reports itself unconfigured.
    fn default() -> (c: Self)
        ensures
            c.client_id@.len() == 0,
            c.client_secret@.len() == 0,
    {
        DigiKeyClient { client_id: String::new(), client_secret: String::new() }
    }
}

/// The inbound search request: a free-text query and an optional exact
/// part number.
#[derive(Debug, Clone)]
pub struct DigiKeySearchRequest {
    pub query: String,
    pub mpn: Option<String>,
}

/// The outbound search response.
#[derive(Debug, Clone)]
pub struct DigiKeySearchResponse {
    pub query: String,
    pub success: bool,
    pub error: Option<String>,
    pub parts: Vec<DigiKeyPartInfo>,
    pub total_count: usize,
}

/// The term actually searched for: the exact part number when one was
/// given, the free-text query otherwise.
pub fn effective_query(req: DigiKeySearchRequest) -> (q: String)
    ensures
        q == (match req.mpn {
            Some(m) => m,
            None => req.query,
        }),
{
    match req.mpn {
        Some(m) => m,
        None => req.query,
    }
}

/// Shapes the outcome of one search into the wire response: a success
/// carries the parts and their count; a failure carries no parts, a count
/// of zero, and the failure's message. Failures are answered, never
/// propagated.
pub fn build_search_response(
    query: String,
    result: Result<Vec<DigiKeyPartInfo>, SearchError>,
) -> (resp: DigiKeySearchResponse)
    ensures
        resp.query == query,
        resp.success == (result is Ok),
        result matches Ok(parts) ==> (resp.parts == parts && resp.total_count == parts@.len()
            && resp.error is None),
        result matches Err(e) ==> (resp.error matches Some(msg) && msg@ == e.spec_message()
            && resp.parts@.len() == 0 && resp.total_count == 0),
{
    match result {
        Ok(parts) => {
            let total_count = parts.len();
            DigiKeySearchResponse { query, success: true, error: None, parts, total_count }
        },
        Err(e) => DigiKeySearchResponse {
            query,
            success: false,
            error: Some(e.message()),
            parts: Vec::new(),
            total_count: 0,
        },
    }
}

/// The status endpoint's message for a given configuration state.
pub fn status_message(configured: bool) -> (m: String)
    ensures
        configured ==> m@ == "DigiKey API is configured and ready"@,
        !configured ==> m@
            == "DigiKey API is not configured. Set DIGIKEY_CLIENT_ID and DIGIKEY_CLIENT_SECRET environment variables."@,
{
    if configured {
        "DigiKey API is configured and ready".to_owned()
    } else {
        "DigiKey API is not configured. Set DIGIKEY_CLIENT_ID and DIGIKEY_CLIENT_SECRET environment variables.".to_owned()
    }
}

} // verus!
