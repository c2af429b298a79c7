//! The local Riot client: lockfile credentials, localhost-only endpoints,
//! response interpretation, lockfile discovery decisions, champ-select session
//! payloads and their transformation into a draft.
use vstd::prelude::*;

use crate::domain::champion::{Champion, ChampionView, Role};
use crate::domain::draft::{DraftPhase, DraftState, DraftStateView, TeamDraft, TeamSide};
use crate::text::{
    concat, concat3, contains, decimal, decimal_string, has_prefix, has_substring, parse_unsigned,
    parse_unsigned_str, same_text, split_char, split_on, starts_with, trim, trimmed,
    signed_decimal, signed_decimal_string,
};

verus! {

/// The HTTP methods the adapter issues.
#[derive(Debug, Clone, Copy, PartialEq, Eq, Structural)]
pub enum HttpMethod {
    Get,
}

impl HttpMethod {
    pub fn as_str(self) -> (r: &'static str)
        ensures
            r@ == "GET"@,
    {
        match self {
            HttpMethod::Get => "GET",
        }
    }
}

/// The endpoints of the local client that the adapter reads.
#[derive(Debug, Clone, Copy, PartialEq, Eq, Structural)]
pub enum RiotEndpoint {
    ChampSelectSession,
    CurrentSummoner,
    GameVersion,
}

impl RiotEndpoint {
    pub open spec fn path_text(self) -> Seq<char> {
        match self {
            RiotEndpoint::ChampSelectSession => "/lol-champ-select/v1/session"@,
            RiotEndpoint::CurrentSummoner => "/lol-summoner/v1/current-summoner"@,
            RiotEndpoint::GameVersion => "/lol-patch/v1/game-version"@,
        }
    }

    pub fn path(self) -> (r: &'static str)
        ensures
            r@ == self.path_text(),
    {
        match self {
            RiotEndpoint::ChampSelectSession => "/lol-champ-select/v1/session",
            RiotEndpoint::CurrentSummoner => "/lol-summoner/v1/current-summoner",
            RiotEndpoint::GameVersion => "/lol-patch/v1/game-version",
        }
    }
}

/// Why the local Riot client could not be used.
#[derive(Debug, Clone, PartialEq, Eq)]
pub enum RiotClientError {
    ClientAbsent,
    LockfileAbsent,
    LockfileInaccessible { path: String, reason: String },
    InvalidLockfile { reason: String },
    LocalSslInitializationFailed(String),
    LocalhostOnlyViolation { url: String },
    RequestFailed(String),
    EndpointChanged { endpoint: RiotEndpoint, status_code: u16 },
    PatchUnknown,
}

/// Mathematical value of a [`RiotClientError`].
pub enum RiotClientErrorView {
    ClientAbsent,
    LockfileAbsent,
    LockfileInaccessible { path: Seq<char>, reason: Seq<char> },
    InvalidLockfile { reason: Seq<char> },
    LocalSslInitializationFailed(Seq<char>),
    LocalhostOnlyViolation { url: Seq<char> },
    RequestFailed(Seq<char>),
    EndpointChanged { endpoint: RiotEndpoint, status_code: u16 },
    PatchUnknown,
}

impl View for RiotClientError {
    type V = RiotClientErrorView;

    open spec fn view(&self) -> RiotClientErrorView {
        match self {
            RiotClientError::ClientAbsent => RiotClientErrorView::ClientAbsent,
            RiotClientError::LockfileAbsent => RiotClientErrorView::LockfileAbsent,
            RiotClientError::LockfileInaccessible { path, reason } => RiotClientErrorView::LockfileInaccessible {
                path: path@,
                reason: reason@,
            },
            RiotClientError::InvalidLockfile { reason } => RiotClientErrorView::InvalidLockfile {
                reason: reason@,
            },
            RiotClientError::LocalSslInitializationFailed(reason) => RiotClientErrorView::LocalSslInitializationFailed(reason@),
            RiotClientError::LocalhostOnlyViolation { url } => RiotClientErrorView::LocalhostOnlyViolation { url: url@ },
            RiotClientError::RequestFailed(reason) => RiotClientErrorView::RequestFailed(reason@),
            RiotClientError::EndpointChanged { endpoint, status_code } => RiotClientErrorView::EndpointChanged {
                endpoint: *endpoint,
                status_code: *status_code,
            },
            RiotClientError::PatchUnknown => RiotClientErrorView::PatchUnknown,
        }
    }
}

impl RiotClientErrorView {
    /// The human-readable message of an error.
    pub open spec fn message(self) -> Seq<char> {
        match self {
            RiotClientErrorView::ClientAbsent => "league client absent"@,
            RiotClientErrorView::LockfileAbsent => "league lockfile absent"@,
            RiotClientErrorView::LockfileInaccessible { path, reason } => "league lockfile inaccessible at "@
                + path + ": "@ + reason,
            RiotClientErrorView::InvalidLockfile { reason } => "invalid league lockfile: "@ + reason,
            RiotClientErrorView::LocalSslInitializationFailed(reason) => "local ssl initialization failed: "@
                + reason,
            RiotClientErrorView::LocalhostOnlyViolation { url } => "riot client adapter refused non-localhost url: "@
                + url,
            RiotClientErrorView::RequestFailed(reason) => "riot client request failed: "@ + reason,
            RiotClientErrorView::EndpointChanged { endpoint, status_code } => "riot endpoint "@
                + endpoint.path_text() + " returned unexpected status "@ + decimal(status_code as nat),
            RiotClientErrorView::PatchUnknown => "league patch is unknown"@,
        }
    }
}

impl RiotClientError {
    /// The human-readable message of this error.
    pub fn message(&self) -> (r: String)
        ensures
            r@ == self@.message(),
    {
        match self {
            RiotClientError::ClientAbsent => String::from_str("league client absent"),
            RiotClientError::LockfileAbsent => String::from_str("league lockfile absent"),
            RiotClientError::LockfileInaccessible { path, reason } => {
                let mut r = concat3("league lockfile inaccessible at ", path.as_str(), ": ");
                r.append(reason.as_str());
                r
            },
            RiotClientError::InvalidLockfile { reason } => concat(
                "invalid league lockfile: ",
                reason.as_str(),
            ),
            RiotClientError::LocalSslInitializationFailed(reason) => concat(
                "local ssl initialization failed: ",
                reason.as_str(),
            ),
            RiotClientError::LocalhostOnlyViolation { url } => concat(
                "riot client adapter refused non-localhost url: ",
                url.as_str(),
            ),
            RiotClientError::RequestFailed(reason) => concat(
                "riot client request failed: ",
                reason.as_str(),
            ),
            RiotClientError::EndpointChanged { endpoint, status_code } => {
                let mut r = concat3(
                    "riot endpoint ",
                    endpoint.path(),
                    " returned unexpected status ",
                );
                r.append(decimal_string(*status_code as u64).as_str());
                r
            },
            RiotClientError::PatchUnknown => String::from_str("league patch is unknown"),
        }
    }
}

/// The credentials that the local client writes into its lockfile.
#[derive(Debug, Clone, PartialEq, Eq)]
pub struct LockfileData {
    pub process_name: String,
    pub pid: u32,
    pub port: u16,
    pub password: String,
    pub protocol: String,
}

pub struct LockfileDataView {
    pub process_name: Seq<char>,
    pub pid: u32,
    pub port: u16,
    pub password: Seq<char>,
    pub protocol: Seq<char>,
}

impl View for LockfileData {
    type V = LockfileDataView;

    open spec fn view(&self) -> LockfileDataView {
        LockfileDataView {
            process_name: self.process_name@,
            pid: self.pid,
            port: self.port,
            password: self.password@,
            protocol: self.protocol@,
        }
    }
}

/// What a lockfile's content holds: after trimming, five `:`-separated fields
/// `process:pid:port:password:protocol`, pid a `u32` and port a `u16`.
pub open spec fn lockfile_parse(raw: Seq<char>) -> Result<LockfileDataView, RiotClientErrorView> {
    let segments = split_on(trimmed(raw), ':');
    if segments.len() != 5 {
        Err(
            RiotClientErrorView::InvalidLockfile {
                reason: "expected 5 segments, got "@ + decimal(segments.len()),
            },
        )
    } else {
        match parse_unsigned(segments[1], u32::MAX as nat) {
            Err(e) => Err(
                RiotClientErrorView::InvalidLockfile { reason: "invalid pid: "@ + e.message_text() },
            ),
            Ok(pid) => match parse_unsigned(segments[2], u16::MAX as nat) {
                Err(e) => Err(
                    RiotClientErrorView::InvalidLockfile {
                        reason: "invalid port: "@ + e.message_text(),
                    },
                ),
                Ok(port) => Ok(
                    LockfileDataView {
                        process_name: segments[0],
                        pid: pid as u32,
                        port: port as u16,
                        password: segments[3],
                        protocol: segments[4],
                    },
                ),
            },
        }
    }
}

impl LockfileData {
    /// Reads the credentials out of a lockfile's content.
    pub fn parse(raw: &str) -> (r: Result<Self, RiotClientError>)
        ensures
            match r {
                Ok(data) => lockfile_parse(raw@) == Ok::<LockfileDataView, RiotClientErrorView>(data@),
                Err(e) => lockfile_parse(raw@) == Err::<LockfileDataView, RiotClientErrorView>(e@),
            },
    {
        let trimmed_raw = trim(raw);
        let mut segments = split_char(trimmed_raw.as_str(), ':');
        let ghost segs = split_on(trimmed(raw@), ':');
        assert(segments.len() == segs.len());
        if segments.len() != 5 {
            let count = decimal_string(segments.len() as u64);
            return Err(
                RiotClientError::InvalidLockfile {
                    reason: concat("expected 5 segments, got ", count.as_str()),
                },
            );
        }
        assert(segments@[1]@ == segs[1]);
        assert(segments@[2]@ == segs[2]);
        let pid = match parse_unsigned_str(segments[1].as_str(), u32::MAX as u64) {
            Ok(v) => v as u32,
            Err(e) => {
                return Err(
                    RiotClientError::InvalidLockfile {
                        reason: concat("invalid pid: ", e.message()),
                    },
                );
            },
        };
        let port = match parse_unsigned_str(segments[2].as_str(), u16::MAX as u64) {
            Ok(v) => v as u16,
            Err(e) => {
                return Err(
                    RiotClientError::InvalidLockfile {
                        reason: concat("invalid port: ", e.message()),
                    },
                );
            },
        };
        let protocol = segments.pop().unwrap();
        let password = segments.pop().unwrap();
        let _port_text = segments.pop();
        let _pid_text = segments.pop();
        let process_name = segments.pop().unwrap();
        Ok(LockfileData { process_name, pid, port, password, protocol })
    }
}

/// The URL prefixes of the loopback interface that the adapter accepts.
pub open spec fn is_localhost_url(url: Seq<char>) -> bool {
    has_prefix(url, "https://127.0.0.1:"@) || has_prefix(url, "https://localhost:"@) || has_prefix(
        url,
        "https://[::1]:"@,
    )
}

/// A client of the local Riot HTTP API, bound to the loopback address.
#[derive(Debug, Clone)]
pub struct LocalRiotHttpClient {
    pub base_url: String,
    pub credentials: LockfileData,
}

impl LocalRiotHttpClient {
    /// The base URL for some credentials: `<protocol>://127.0.0.1:<port>`.
    pub open spec fn base_url_for(credentials: LockfileDataView) -> Seq<char> {
        credentials.protocol + "://127.0.0.1:"@ + decimal(credentials.port as nat)
    }

    /// A client for the credentials; the local client only speaks https.
    pub fn new(credentials: LockfileData) -> (r: Result<Self, RiotClientError>)
        ensures
            credentials.protocol@ != "https"@ ==> (r matches Err(e) && e@
                == RiotClientErrorView::LocalSslInitializationFailed(
                "riot local client must use https"@,
            )),
            credentials.protocol@ == "https"@ ==> (r matches Ok(c) && c.base_url@
                == Self::base_url_for(credentials@) && c.credentials@ == credentials@),
    {
        if !same_text(credentials.protocol.as_str(), "https") {
            return Err(
                RiotClientError::LocalSslInitializationFailed(
                    String::from_str("riot local client must use https"),
                ),
            );
        }
        let mut base_url = concat(credentials.protocol.as_str(), "://127.0.0.1:");
        base_url.append(decimal_string(credentials.port as u64).as_str());
        Ok(LocalRiotHttpClient { base_url, credentials })
    }

    /// The full URL of an endpoint.
    pub fn url_for(&self, endpoint: RiotEndpoint) -> (r: String)
        ensures
            r@ == self.base_url@ + endpoint.path_text(),
    {
        concat(self.base_url.as_str(), endpoint.path())
    }

    /// Refuses any URL outside the loopback interface.
    pub fn ensure_localhost(url: &str) -> (r: Result<(), RiotClientError>)
        ensures
            is_localhost_url(url@) ==> (r is Ok),
            !is_localhost_url(url@) ==> (r matches Err(e) && e@
                == (RiotClientErrorView::LocalhostOnlyViolation { url: url@ })),
    {
        if starts_with(url, "https://127.0.0.1:") || starts_with(url, "https://localhost:")
            || starts_with(url, "https://[::1]:") {
            Ok(())
        } else {
            Err(RiotClientError::LocalhostOnlyViolation { url: String::from_str(url) })
        }
    }
}


/// A client only ever addresses the loopback interface: every endpoint URL
/// of a client made from https credentials is a loopback URL.
pub proof fn lemma_client_urls_are_local(credentials: LockfileDataView, endpoint: RiotEndpoint)
    requires
        credentials.protocol == "https"@,
    ensures
        is_localhost_url(LocalRiotHttpClient::base_url_for(credentials) + endpoint.path_text()),
{
    reveal_strlit("https");
    reveal_strlit("://127.0.0.1:");
    reveal_strlit("https://127.0.0.1:");
    let url = LocalRiotHttpClient::base_url_for(credentials) + endpoint.path_text();
    let prefix = "https://127.0.0.1:"@;
    assert(url.subrange(0, prefix.len() as int) =~= prefix);
}

/// The arguments of the `curl` call that performs a request: silent but
/// showing errors, accepting the client's self-signed certificate, basic
/// authentication as `riot`, the method, a last line with the HTTP status,
/// and the URL.
pub open spec fn request_arguments_text(password: Seq<char>, url: Seq<char>) -> Seq<Seq<char>> {
    seq![
        "--silent"@,
        "--show-error"@,
        "--insecure"@,
        "--user"@,
        "riot:"@ + password,
        "--request"@,
        "GET"@,
        "--write-out"@,
        "\n%{http_code}"@,
        url,
    ]
}

impl LocalRiotHttpClient {
    /// The arguments of the `curl` call for a request to `endpoint`; a URL
    /// outside the loopback interface is refused before any request is made.
    pub fn request_arguments(&self, method: HttpMethod, endpoint: RiotEndpoint) -> (r: Result<
        Vec<String>,
        RiotClientError,
    >)
        ensures
            is_localhost_url(self.base_url@ + endpoint.path_text()) <==> r is Ok,
            r matches Ok(args) ==> args.deep_view() == request_arguments_text(
                self.credentials.password@,
                self.base_url@ + endpoint.path_text(),
            ),
            r matches Err(e) ==> e@ == (RiotClientErrorView::LocalhostOnlyViolation {
                url: self.base_url@ + endpoint.path_text(),
            }),
    {
        let url = self.url_for(endpoint);
        match Self::ensure_localhost(url.as_str()) {
            Err(e) => return Err(e),
            Ok(()) => {},
        }
        let user = concat("riot:", self.credentials.password.as_str());
        let mut args: Vec<String> = Vec::new();
        args.push(String::from_str("--silent"));
        args.push(String::from_str("--show-error"));
        args.push(String::from_str("--insecure"));
        args.push(String::from_str("--user"));
        args.push(user);
        args.push(String::from_str("--request"));
        args.push(String::from_str(method.as_str()));
        args.push(String::from_str("--write-out"));
        args.push(String::from_str("\n%{http_code}"));
        args.push(url);
        assert(args.deep_view() =~= request_arguments_text(
            self.credentials.password@,
            self.base_url@ + endpoint.path_text(),
        ));
        Ok(args)
    }
}

/// Index of the last occurrence of `c` in `s`, or -1.
pub open spec fn last_index_of(s: Seq<char>, c: char) -> int
    decreases s.len(),
{
    if s.len() == 0 {
        -1
    } else if s.last() == c {
        s.len() - 1
    } else {
        last_index_of(s.drop_last(), c)
    }
}

proof fn lemma_last_index_of(s: Seq<char>, c: char)
    ensures
        -1 <= last_index_of(s, c) < s.len(),
        last_index_of(s, c) >= 0 ==> s[last_index_of(s, c)] == c,
        forall|k: int| last_index_of(s, c) < k < s.len() ==> s[k] != c,
    decreases s.len(),
{
    if s.len() > 0 && s.last() != c {
        lemma_last_index_of(s.drop_last(), c);
        assert forall|k: int| 0 <= k < s.len() - 1 implies #[trigger] s[k] == s.drop_last()[k] by {}
    }
}

/// What the adapter makes of the output of a successful request: the body
/// before the last line break and the HTTP status on the last line; statuses
/// 200 to 299 give the body, other statuses mean the endpoint changed.
pub open spec fn http_body_of(output: Seq<char>, endpoint: RiotEndpoint) -> Result<Seq<char>, RiotClientErrorView> {
    let i = last_index_of(output, '\n');
    if i < 0 {
        Err(RiotClientErrorView::RequestFailed("missing http status from curl output"@))
    } else {
        match parse_unsigned(trimmed(output.subrange(i + 1, output.len() as int)), u16::MAX as nat) {
            Err(e) => Err(RiotClientErrorView::RequestFailed(e.message_text())),
            Ok(status) => if 200 <= status <= 299 {
                Ok(output.subrange(0, i))
            } else {
                Err(RiotClientErrorView::EndpointChanged { endpoint, status_code: status as u16 })
            },
        }
    }
}

/// Splits the output of a request (body, a line break, then the HTTP status
/// code) and checks the status.
pub fn interpret_http_output(output: &str, endpoint: RiotEndpoint) -> (r: Result<String, RiotClientError>)
    ensures
        match r {
            Ok(body) => http_body_of(output@, endpoint) == Ok::<Seq<char>, RiotClientErrorView>(body@),
            Err(e) => http_body_of(output@, endpoint) == Err::<Seq<char>, RiotClientErrorView>(e@),
        },
{
    let n = output.unicode_len();
    let mut i: usize = n;
    proof { lemma_last_index_of(output@, '\n'); }
    assert(output@.subrange(0, n as int) =~= output@);
    while i > 0 && output.get_char(i - 1) != '\n'
        invariant
            n == output@.len(),
            i <= n,
            last_index_of(output@.subrange(0, i as int), '\n') == last_index_of(output@, '\n'),
        decreases i,
    {
        assert(output@.subrange(0, i as int).drop_last() =~= output@.subrange(0, i - 1));
        i = i - 1;
    }
    proof {
        assert(output@.subrange(0, n as int) =~= output@);
    }
    if i == 0 {
        assert(output@.subrange(0, 0) =~= Seq::<char>::empty());
        return Err(
            RiotClientError::RequestFailed(
                String::from_str("missing http status from curl output"),
            ),
        );
    }
    assert(output@.subrange(0, i as int).last() == '\n');
    let status_text = trim(output.substring_char(i, n));
    match parse_unsigned_str(status_text.as_str(), u16::MAX as u64) {
        Err(e) => Err(RiotClientError::RequestFailed(String::from_str(e.message()))),
        Ok(status) => if 200 <= status && status <= 299 {
            Ok(String::from_str(output.substring_char(0, i - 1)))
        } else {
            Err(RiotClientError::EndpointChanged { endpoint, status_code: status as u16 })
        },
    }
}

/// The value of a text or an error.
pub open spec fn text_result_view(r: Result<String, RiotClientError>) -> Result<Seq<char>, RiotClientErrorView> {
    match r {
        Ok(t) => Ok(t@),
        Err(e) => Err(e@),
    }
}

/// Decodes a JSON string body; a decoding failure is a failed request.
pub open spec fn json_string_body(body: Seq<char>) -> Result<Seq<char>, RiotClientErrorView> {
    match crate::json::json_string_decoding(body) {
        Ok(s) => Ok(s),
        Err(m) => Err(RiotClientErrorView::RequestFailed(m)),
    }
}

/// The game version from the response of the game-version endpoint: errors
/// pass through, a blank version means the patch is unknown.
pub open spec fn game_version_of(response: Result<Seq<char>, RiotClientErrorView>) -> Result<Seq<char>, RiotClientErrorView> {
    match response {
        Err(e) => Err(e),
        Ok(body) => match json_string_body(body) {
            Err(e) => Err(e),
            Ok(version) => if trimmed(version).len() == 0 {
                Err(RiotClientErrorView::PatchUnknown)
            } else {
                Ok(version)
            },
        },
    }
}

impl LocalRiotHttpClient {
    /// The game version, from the body (or the failure) of the request to the
    /// game-version endpoint; the body is a JSON string.
    pub fn game_version(&self, response: Result<String, RiotClientError>) -> (r: Result<String, RiotClientError>)
        ensures
            game_version_of(text_result_view(response)) == text_result_view(r),
    {
        let body = match response {
            Ok(body) => body,
            Err(e) => return Err(e),
        };
        let version = match crate::json::decode_json_string(body.as_str()) {
            Ok(v) => v,
            Err(message) => return Err(RiotClientError::RequestFailed(message)),
        };
        let blank = trim(version.as_str());
        if blank.unicode_len() == 0 {
            return Err(RiotClientError::PatchUnknown);
        }
        Ok(version)
    }
}


// ---------------------------------------------------------------- lockfile discovery

/// The file name of the lockfile inside a client installation directory.
pub fn riot_lockfile_name() -> (r: &'static str)
    ensures
        r@ == "lockfile"@,
{
    "lockfile"
}

/// Where the client usually keeps its lockfile, on Windows and macOS.
pub open spec fn default_candidates_text() -> Seq<Seq<char>> {
    seq![
        "C:\\\\Riot Games\\\\League of Legends\\\\lockfile"@,
        "C:\\\\Riot Games\\\\LeagueClient\\\\lockfile"@,
        "/Applications/League of Legends.app/Contents/LoL/lockfile"@,
        "/Applications/League of Legends.app/Contents/LeagueClient/lockfile"@,
    ]
}

/// The usual lockfile locations.
pub fn default_lockfile_candidates() -> (r: Vec<String>)
    ensures
        r.deep_view() == default_candidates_text(),
{
    let mut r: Vec<String> = Vec::new();
    r.push(String::from_str("C:\\\\Riot Games\\\\League of Legends\\\\lockfile"));
    r.push(String::from_str("C:\\\\Riot Games\\\\LeagueClient\\\\lockfile"));
    r.push(String::from_str("/Applications/League of Legends.app/Contents/LoL/lockfile"));
    r.push(String::from_str("/Applications/League of Legends.app/Contents/LeagueClient/lockfile"));
    assert(r.deep_view() =~= default_candidates_text());
    r
}

/// Candidate locations of the lockfile, tried in order.
#[derive(Debug, Clone)]
pub struct LockfileDiscoverer {
    pub candidate_paths: Vec<String>,
}

/// What the file system shows of one candidate location.
#[derive(Debug, Clone, Copy, PartialEq, Eq, Structural)]
pub struct PathProbe {
    /// The candidate file exists.
    pub exists: bool,
    /// The candidate has a parent directory and that directory exists.
    pub parent_exists: bool,
}

/// The next step of a discovery: read a candidate, or give up with an error.
#[derive(Debug, Clone, PartialEq, Eq)]
pub enum DiscoveryStep {
    ReadCandidate(usize),
    Failed(RiotClientError),
}

/// Index of the first probe whose file exists, or -1.
pub open spec fn first_existing(probes: Seq<PathProbe>) -> int
    decreases probes.len(),
{
    if probes.len() == 0 {
        -1
    } else if first_existing(probes.drop_last()) >= 0 {
        first_existing(probes.drop_last())
    } else if probes.last().exists {
        probes.len() - 1
    } else {
        -1
    }
}

/// Some probed candidate has an existing parent directory.
pub open spec fn some_parent_exists(probes: Seq<PathProbe>) -> bool {
    exists|i: int| 0 <= i < probes.len() && #[trigger] probes[i].parent_exists
}

/// The decision of a discovery: no candidates means no client; the first
/// existing candidate is read; otherwise an existing parent directory means the
/// client is installed but its lockfile is absent, and no parent means no client.
pub open spec fn discovery_decision(candidate_count: nat, probes: Seq<PathProbe>) -> Result<nat, RiotClientErrorView> {
    if candidate_count == 0 {
        Err(RiotClientErrorView::ClientAbsent)
    } else if first_existing(probes) >= 0 {
        Ok(first_existing(probes) as nat)
    } else if some_parent_exists(probes) {
        Err(RiotClientErrorView::LockfileAbsent)
    } else {
        Err(RiotClientErrorView::ClientAbsent)
    }
}

pub open spec fn step_view(step: DiscoveryStep) -> Result<nat, RiotClientErrorView> {
    match step {
        DiscoveryStep::ReadCandidate(i) => Ok(i as nat),
        DiscoveryStep::Failed(e) => Err(e@),
    }
}

proof fn lemma_first_existing(probes: Seq<PathProbe>)
    ensures
        -1 <= first_existing(probes) < probes.len(),
        first_existing(probes) >= 0 ==> probes[first_existing(probes)].exists,
        forall|k: int| 0 <= k < probes.len() && (first_existing(probes) < 0 || k < first_existing(probes)) ==> !(#[trigger] probes[k]).exists,
    decreases probes.len(),
{
    if probes.len() > 0 {
        lemma_first_existing(probes.drop_last());
        assert forall|k: int| 0 <= k < probes.len() - 1 implies #[trigger] probes[k] == probes.drop_last()[k] by {}
    }
}

/// What reading a candidate gives: a read failure makes the lockfile
/// inaccessible; otherwise its content is parsed.
pub open spec fn discovery_result(path: Seq<char>, content: Result<Seq<char>, Seq<char>>) -> Result<(Seq<char>, LockfileDataView), RiotClientErrorView> {
    match content {
        Err(reason) => Err(RiotClientErrorView::LockfileInaccessible { path, reason }),
        Ok(text) => match lockfile_parse(text) {
            Err(e) => Err(e),
            Ok(data) => Ok((path, data)),
        },
    }
}

pub open spec fn discovered_view(r: Result<(String, LockfileData), RiotClientError>) -> Result<(Seq<char>, LockfileDataView), RiotClientErrorView> {
    match r {
        Ok(found) => Ok((found.0@, found.1@)),
        Err(e) => Err(e@),
    }
}

pub open spec fn read_view(content: Result<String, String>) -> Result<Seq<char>, Seq<char>> {
    match content {
        Ok(t) => Ok(t@),
        Err(m) => Err(m@),
    }
}

impl LockfileDiscoverer {
    pub fn new(candidate_paths: Vec<String>) -> (r: Self)
        ensures
            r.candidate_paths == candidate_paths,
    {
        LockfileDiscoverer { candidate_paths }
    }

    /// A discoverer over the usual lockfile locations.
    pub fn with_default_candidates() -> (r: Self)
        ensures
            r.candidate_paths.deep_view() == default_candidates_text(),
    {
        LockfileDiscoverer { candidate_paths: default_lockfile_candidates() }
    }

    /// Decides, from what the file system shows of each candidate (in order),
    /// which candidate to read or why discovery fails.
    pub fn plan_discovery(&self, probes: &Vec<PathProbe>) -> (r: DiscoveryStep)
        requires
            probes.len() == self.candidate_paths.len(),
        ensures
            step_view(r) == discovery_decision(self.candidate_paths.len() as nat, probes@),
            r matches DiscoveryStep::ReadCandidate(i) ==> i < self.candidate_paths.len(),
    {
        proof { lemma_first_existing(probes@); }
        if self.candidate_paths.len() == 0 {
            return DiscoveryStep::Failed(RiotClientError::ClientAbsent);
        }
        let mut saw_existing_parent = false;
        for i in 0..probes.len()
            invariant
                probes.len() == self.candidate_paths.len(),
                self.candidate_paths.len() > 0,
                forall|k: int| 0 <= k < i ==> !(#[trigger] probes@[k]).exists,
                saw_existing_parent <==> exists|k: int| 0 <= k < i && #[trigger] probes@[k].parent_exists,
        {
            if probes[i].exists {
                proof {
                    lemma_first_existing(probes@);
                    let fe = first_existing(probes@);
                    if fe < 0 {
                        assert(!probes@[i as int].exists);
                    } else if fe < i {
                        assert(!probes@[fe].exists);
                    } else if fe > i {
                        assert(!probes@[i as int].exists);
                    }
                }
                return DiscoveryStep::ReadCandidate(i);
            }
            if probes[i].parent_exists {
                saw_existing_parent = true;
            }
        }
        if saw_existing_parent {
            DiscoveryStep::Failed(RiotClientError::LockfileAbsent)
        } else {
            DiscoveryStep::Failed(RiotClientError::ClientAbsent)
        }
    }

    /// Completes a discovery with what reading the chosen candidate gave
    /// (its content, or the reason it could not be read).
    pub fn finish_discovery(&self, index: usize, content: Result<String, String>) -> (r: Result<(String, LockfileData), RiotClientError>)
        requires
            index < self.candidate_paths.len(),
        ensures
            discovered_view(r) == discovery_result(self.candidate_paths@[index as int]@, read_view(content)),
    {
        let path = self.candidate_paths[index].clone();
        match content {
            Err(reason) => Err(RiotClientError::LockfileInaccessible { path, reason }),
            Ok(text) => match LockfileData::parse(text.as_str()) {
                Err(e) => Err(e),
                Ok(data) => Ok((path, data)),
            },
        }
    }
}

// ---------------------------------------------------------------- champ-select payloads

/// Resolves Riot champion ids into champions.
/// Finds the champion of a champion id. `resolution` says which champion
/// (if any) an id stands for; `resolve` returns a champion of that value.
pub trait ChampionResolver {
    /// The champion that `champion_id` stands for, if any.
    spec fn resolution(&self, champion_id: i64) -> Option<Champion>;

    fn resolve(&self, champion_id: i64) -> (r: Option<Champion>)
        ensures
            r.deep_view() == self.resolution(champion_id).deep_view(),
    ;
}

/// What a resolver answers for each member of a team, in order.
pub open spec fn resolutions<R: ChampionResolver>(resolver: &R, team: Seq<RiotTeamMemberView>) -> Seq<
    Option<ChampionView>,
> {
    team.map_values(|m: RiotTeamMemberView| resolver.resolution(m.champion_id).deep_view())
}

/// One pick or ban action of the champ-select session.
#[derive(Debug, Clone, PartialEq, Eq)]
pub struct RiotAction {
    pub actor_cell_id: i64,
    pub champion_id: i64,
    pub completed: bool,
    pub is_in_progress: bool,
    pub action_type: String,
}

pub struct RiotActionView {
    pub actor_cell_id: i64,
    pub champion_id: i64,
    pub completed: bool,
    pub is_in_progress: bool,
    pub action_type: Seq<char>,
}

impl View for RiotAction {
    type V = RiotActionView;

    open spec fn view(&self) -> RiotActionView {
        RiotActionView {
            actor_cell_id: self.actor_cell_id,
            champion_id: self.champion_id,
            completed: self.completed,
            is_in_progress: self.is_in_progress,
            action_type: self.action_type@,
        }
    }
}

impl DeepView for RiotAction {
    type V = RiotActionView;

    open spec fn deep_view(&self) -> RiotActionView {
        self@
    }
}

impl Default for RiotAction {
    fn default() -> (r: Self)
        ensures
            r@ == (RiotActionView {
                actor_cell_id: 0,
                champion_id: 0,
                completed: false,
                is_in_progress: false,
                action_type: Seq::empty(),
            }),
    {
        RiotAction {
            actor_cell_id: 0,
            champion_id: 0,
            completed: false,
            is_in_progress: false,
            action_type: String::new(),
        }
    }
}

/// One member of a team in the champ-select session.
#[derive(Debug, Clone, PartialEq, Eq)]
pub struct RiotTeamMember {
    pub cell_id: i64,
    pub champion_id: i64,
    pub assigned_position: String,
    pub champion_pick_intent: i64,
}

pub struct RiotTeamMemberView {
    pub cell_id: i64,
    pub champion_id: i64,
    pub assigned_position: Seq<char>,
    pub champion_pick_intent: i64,
}

impl View for RiotTeamMember {
    type V = RiotTeamMemberView;

    open spec fn view(&self) -> RiotTeamMemberView {
        RiotTeamMemberView {
            cell_id: self.cell_id,
            champion_id: self.champion_id,
            assigned_position: self.assigned_position@,
            champion_pick_intent: self.champion_pick_intent,
        }
    }
}

impl DeepView for RiotTeamMember {
    type V = RiotTeamMemberView;

    open spec fn deep_view(&self) -> RiotTeamMemberView {
        self@
    }
}

impl Default for RiotTeamMember {
    fn default() -> (r: Self)
        ensures
            r@ == (RiotTeamMemberView {
                cell_id: 0,
                champion_id: 0,
                assigned_position: Seq::empty(),
                champion_pick_intent: 0,
            }),
    {
        RiotTeamMember {
            cell_id: 0,
            champion_id: 0,
            assigned_position: String::new(),
            champion_pick_intent: 0,
        }
    }
}

/// The champion ids banned by each team.
#[derive(Debug, Clone, PartialEq, Eq)]
pub struct RiotBans {
    pub my_team_bans: Vec<i64>,
    pub their_team_bans: Vec<i64>,
}

impl Default for RiotBans {
    fn default() -> (r: Self)
        ensures
            r.my_team_bans@ == Seq::<i64>::empty(),
            r.their_team_bans@ == Seq::<i64>::empty(),
    {
        RiotBans { my_team_bans: Vec::new(), their_team_bans: Vec::new() }
    }
}

/// The timer of the session, whose phase names the stage of champ select.
#[derive(Debug, Clone, PartialEq, Eq)]
pub struct RiotTimer {
    pub phase: String,
}

impl Default for RiotTimer {
    fn default() -> (r: Self)
        ensures
            r.phase@ == Seq::<char>::empty(),
    {
        RiotTimer { phase: String::new() }
    }
}

/// The champ-select session payload of the local client.
#[derive(Debug, Clone, PartialEq, Eq)]
pub struct RiotChampSelectSession {
    pub local_player_cell_id: i64,
    pub actions: Vec<Vec<RiotAction>>,
    pub my_team: Vec<RiotTeamMember>,
    pub their_team: Vec<RiotTeamMember>,
    pub bans: RiotBans,
    pub timer: RiotTimer,
}

pub struct RiotChampSelectSessionView {
    pub local_player_cell_id: i64,
    pub actions: Seq<Seq<RiotActionView>>,
    pub my_team: Seq<RiotTeamMemberView>,
    pub their_team: Seq<RiotTeamMemberView>,
    pub my_team_bans: Seq<i64>,
    pub their_team_bans: Seq<i64>,
    pub timer_phase: Seq<char>,
}

impl View for RiotChampSelectSession {
    type V = RiotChampSelectSessionView;

    open spec fn view(&self) -> RiotChampSelectSessionView {
        RiotChampSelectSessionView {
            local_player_cell_id: self.local_player_cell_id,
            actions: self.actions.deep_view(),
            my_team: self.my_team.deep_view(),
            their_team: self.their_team.deep_view(),
            my_team_bans: self.bans.my_team_bans@,
            their_team_bans: self.bans.their_team_bans@,
            timer_phase: self.timer.phase@,
        }
    }
}

impl Default for RiotChampSelectSession {
    fn default() -> (r: Self)
        ensures
            r@ == (RiotChampSelectSessionView {
                local_player_cell_id: 0,
                actions: Seq::empty(),
                my_team: Seq::empty(),
                their_team: Seq::empty(),
                my_team_bans: Seq::empty(),
                their_team_bans: Seq::empty(),
                timer_phase: Seq::empty(),
            }),
    {
        let r = RiotChampSelectSession {
            local_player_cell_id: 0,
            actions: Vec::new(),
            my_team: Vec::new(),
            their_team: Vec::new(),
            bans: RiotBans::default(),
            timer: RiotTimer::default(),
        };
        assert(r@.actions =~= Seq::<Seq<RiotActionView>>::empty());
        assert(r@.my_team =~= Seq::<RiotTeamMemberView>::empty());
        assert(r@.their_team =~= Seq::<RiotTeamMemberView>::empty());
        r
    }
}


// ---------------------------------------------------------------- draft transformation

/// Why a session payload could not become a draft.
#[derive(Debug, Clone, Copy, PartialEq, Eq, Structural)]
pub enum DraftTransformError {
    EndpointChanged(RiotEndpoint),
    PatchUnknown,
}

impl DraftTransformError {
    pub open spec fn message_text(self) -> Seq<char> {
        match self {
            DraftTransformError::EndpointChanged(endpoint) => "riot payload changed for endpoint "@
                + endpoint.path_text(),
            DraftTransformError::PatchUnknown => "riot patch version is unknown"@,
        }
    }

    /// The human-readable message of this error.
    pub fn message(&self) -> (r: String)
        ensures
            r@ == self.message_text(),
    {
        match self {
            DraftTransformError::EndpointChanged(endpoint) => concat(
                "riot payload changed for endpoint ",
                endpoint.path(),
            ),
            DraftTransformError::PatchUnknown => String::from_str("riot patch version is unknown"),
        }
    }
}

/// The local player's side: cells 0 to 4 are on the blue side.
pub open spec fn side_of(session: RiotChampSelectSessionView) -> TeamSide {
    if session.local_player_cell_id <= 4 {
        TeamSide::Blue
    } else {
        TeamSide::Red
    }
}

/// Completed actions of a kind within one group of actions.
pub open spec fn completed_in(group: Seq<RiotActionView>, kind: Seq<char>) -> nat
    decreases group.len(),
{
    if group.len() == 0 {
        0
    } else {
        completed_in(group.drop_last(), kind) + if group.last().action_type == kind
            && group.last().completed {
            1nat
        } else {
            0nat
        }
    }
}

/// Completed actions of a kind over every group of actions.
pub open spec fn completed_actions(actions: Seq<Seq<RiotActionView>>, kind: Seq<char>) -> nat
    decreases actions.len(),
{
    if actions.len() == 0 {
        0
    } else {
        completed_actions(actions.drop_last(), kind) + completed_in(actions.last(), kind)
    }
}

/// The phase that the counts of completed bans and picks imply:
/// six bans, six picks, ten bans and ten picks close the four phases.
pub open spec fn phase_from_counts(bans: nat, picks: nat) -> DraftPhase {
    if bans < 6 {
        DraftPhase::BanPhaseOne
    } else if picks < 6 {
        DraftPhase::PickPhaseOne
    } else if bans < 10 {
        DraftPhase::BanPhaseTwo
    } else if picks < 10 {
        DraftPhase::PickPhaseTwo
    } else {
        DraftPhase::Complete
    }
}

/// The phase of a session: complete once the timer reaches finalization or game
/// start, otherwise read from the completed bans and picks.
pub open spec fn phase_of(session: RiotChampSelectSessionView) -> DraftPhase {
    if session.timer_phase != "BAN_PICK"@ && (session.timer_phase == "FINALIZATION"@
        || session.timer_phase == "GAME_STARTING"@) {
        DraftPhase::Complete
    } else {
        phase_from_counts(
            completed_actions(session.actions, "ban"@),
            completed_actions(session.actions, "pick"@),
        )
    }
}

/// During picks and bans the phase follows the completed actions: the first
/// ban phase until six bans are completed, the first pick phase from then on
/// until six picks are completed, and the second ban phase only once six
/// picks and fewer than ten bans are completed.
pub proof fn lemma_ban_pick_phases(session: RiotChampSelectSessionView)
    requires
        session.timer_phase == "BAN_PICK"@,
    ensures
        completed_actions(session.actions, "ban"@) < 6 ==> phase_of(session) == DraftPhase::BanPhaseOne,
        completed_actions(session.actions, "ban"@) >= 6 && completed_actions(session.actions, "pick"@) < 6
            ==> phase_of(session) == DraftPhase::PickPhaseOne,
        phase_of(session) == DraftPhase::BanPhaseTwo ==> completed_actions(session.actions, "pick"@) >= 6
            && 6 <= completed_actions(session.actions, "ban"@) < 10,
        phase_of(session) == DraftPhase::Complete ==> completed_actions(session.actions, "ban"@) >= 10
            && completed_actions(session.actions, "pick"@) >= 10,
{
}

/// The side of the local player.
pub fn infer_side(session: &RiotChampSelectSession) -> (r: TeamSide)
    ensures
        r == side_of(session@),
{
    if session.local_player_cell_id <= 4 {
        TeamSide::Blue
    } else {
        TeamSide::Red
    }
}

fn count_completed(actions: &Vec<Vec<RiotAction>>, kind: &str) -> (r: u128)
    ensures
        r == completed_actions(actions.deep_view(), kind@),
{
    let ghost av = actions.deep_view();
    let mut total: u128 = 0;
    for i in 0..actions.len()
        invariant
            av == actions.deep_view(),
            total == completed_actions(av.subrange(0, i as int), kind@),
            total <= i * 0x1_0000_0000_0000_0000int,
    {
        let group = &actions[i];
        let ghost gv = group.deep_view();
        assert(av[i as int] == gv);
        let mut count: u128 = 0;
        for j in 0..group.len()
            invariant
                gv == group.deep_view(),
                count == completed_in(gv.subrange(0, j as int), kind@),
                count <= j,
        {
            assert(gv.subrange(0, j + 1).drop_last() =~= gv.subrange(0, j as int));
            if group[j].completed && same_text(group[j].action_type.as_str(), kind) {
                count = count + 1;
            }
        }
        assert(gv.subrange(0, group.len() as int) =~= gv);
        assert(av.subrange(0, i + 1).drop_last() =~= av.subrange(0, i as int));
        assert(count < 0x1_0000_0000_0000_0000int);
        assert(total + count <= (i + 1) * 0x1_0000_0000_0000_0000int) by (nonlinear_arith)
            requires
                total <= i * 0x1_0000_0000_0000_0000int,
                count < 0x1_0000_0000_0000_0000int,
        ;
        assert(i + 1 <= 0x1_0000_0000_0000_0000int);
        assert((i + 1) * 0x1_0000_0000_0000_0000int <= 0x1_0000_0000_0000_0000_0000_0000_0000_0000int) by (nonlinear_arith)
            requires
                i + 1 <= 0x1_0000_0000_0000_0000int,
        ;
        total = total + count;
    }
    assert(av.subrange(0, actions.len() as int) =~= av);
    total
}

/// The phase implied by the completed bans and picks of the session.
pub fn classify_ban_pick(session: &RiotChampSelectSession) -> (r: DraftPhase)
    ensures
        r == phase_from_counts(
            completed_actions(session@.actions, "ban"@),
            completed_actions(session@.actions, "pick"@),
        ),
{
    let completed_bans = count_completed(&session.actions, "ban");
    let completed_picks = count_completed(&session.actions, "pick");
    if completed_bans < 6 {
        DraftPhase::BanPhaseOne
    } else if completed_picks < 6 {
        DraftPhase::PickPhaseOne
    } else if completed_bans < 10 {
        DraftPhase::BanPhaseTwo
    } else if completed_picks < 10 {
        DraftPhase::PickPhaseTwo
    } else {
        DraftPhase::Complete
    }
}

/// The phase of the session.
pub fn infer_phase(session: &RiotChampSelectSession) -> (r: DraftPhase)
    ensures
        r == phase_of(session@),
{
    let phase = session.timer.phase.as_str();
    if same_text(phase, "BAN_PICK") {
        classify_ban_pick(session)
    } else if same_text(phase, "FINALIZATION") || same_text(phase, "GAME_STARTING") {
        DraftPhase::Complete
    } else {
        classify_ban_pick(session)
    }
}

/// The role an assigned position names, if any.
pub open spec fn position_role(position: Seq<char>) -> Option<Role> {
    if position == "top"@ {
        Some(Role::Top)
    } else if position == "jungle"@ {
        Some(Role::Jungle)
    } else if position == "middle"@ || position == "mid"@ {
        Some(Role::Mid)
    } else if position == "bottom"@ {
        Some(Role::Bottom)
    } else if position == "utility"@ || position == "support"@ {
        Some(Role::Support)
    } else {
        None
    }
}

fn role_of_position(position: &str) -> (r: Option<Role>)
    ensures
        r == position_role(position@),
{
    if same_text(position, "top") {
        Some(Role::Top)
    } else if same_text(position, "jungle") {
        Some(Role::Jungle)
    } else if same_text(position, "middle") || same_text(position, "mid") {
        Some(Role::Mid)
    } else if same_text(position, "bottom") {
        Some(Role::Bottom)
    } else if same_text(position, "utility") || same_text(position, "support") {
        Some(Role::Support)
    } else {
        None
    }
}

/// How many members of a team are assigned to `role`.
pub open spec fn assigned_count(team: Seq<RiotTeamMemberView>, role: Role) -> nat
    decreases team.len(),
{
    if team.len() == 0 {
        0
    } else {
        assigned_count(team.drop_last(), role) + if position_role(team.last().assigned_position)
            == Some(role) {
            1nat
        } else {
            0nat
        }
    }
}

/// `role` once for every member beyond the first assigned to it.
pub open spec fn extra_assignments(team: Seq<RiotTeamMemberView>, role: Role) -> Seq<Role> {
    let n = assigned_count(team, role);
    Seq::new(if n > 0 { (n - 1) as nat } else { 0 }, |_i: int| role)
}

/// The contested roles of a team, in lane order: each role repeated once for
/// every member beyond the first assigned to it.
pub open spec fn contested_roles_of(team: Seq<RiotTeamMemberView>) -> Seq<Role> {
    extra_assignments(team, Role::Top) + extra_assignments(team, Role::Jungle)
        + extra_assignments(team, Role::Mid) + extra_assignments(team, Role::Bottom)
        + extra_assignments(team, Role::Support)
}

fn push_extra(out: &mut Vec<Role>, role: Role, count: usize)
    ensures
        final(out)@ == old(out)@ + Seq::new(if count > 0 { (count - 1) as nat } else { 0 }, |_i: int| role),
{
    let ghost start = out@;
    if count == 0 {
        assert(out@ =~= start + Seq::new(0, |_i: int| role));
        return;
    }
    let mut k: usize = 1;
    while k < count
        invariant
            1 <= k <= count,
            out@.len() == start.len() + k - 1,
            forall|j: int| 0 <= j < start.len() ==> out@[j] == start[j],
            forall|j: int| start.len() <= j < out@.len() ==> out@[j] == role,
        decreases count - k,
    {
        out.push(role);
        k = k + 1;
    }
    assert(out@ =~= start + Seq::new((count - 1) as nat, |_i: int| role));
}

/// Roles that two or more allied members are assigned to.
pub fn infer_contested_roles(session: &RiotChampSelectSession) -> (r: Vec<Role>)
    ensures
        r@ == contested_roles_of(session@.my_team),
{
    let team = &session.my_team;
    let ghost tv = team.deep_view();
    let mut top: usize = 0;
    let mut jungle: usize = 0;
    let mut mid: usize = 0;
    let mut bottom: usize = 0;
    let mut support: usize = 0;
    for i in 0..team.len()
        invariant
            tv == team.deep_view(),
            top == assigned_count(tv.subrange(0, i as int), Role::Top),
            jungle == assigned_count(tv.subrange(0, i as int), Role::Jungle),
            mid == assigned_count(tv.subrange(0, i as int), Role::Mid),
            bottom == assigned_count(tv.subrange(0, i as int), Role::Bottom),
            support == assigned_count(tv.subrange(0, i as int), Role::Support),
            top <= i && jungle <= i && mid <= i && bottom <= i && support <= i,
    {
        let ghost next = tv.subrange(0, i + 1);
        assert(next.drop_last() =~= tv.subrange(0, i as int));
        assert(next.last() == tv[i as int]);
        assert(tv[i as int].assigned_position == team@[i as int].assigned_position@);
        match role_of_position(team[i].assigned_position.as_str()) {
            Some(Role::Top) => top = top + 1,
            Some(Role::Jungle) => jungle = jungle + 1,
            Some(Role::Mid) => mid = mid + 1,
            Some(Role::Bottom) => bottom = bottom + 1,
            Some(Role::Support) => support = support + 1,
            None => {},
        }
    }
    assert(tv.subrange(0, team.len() as int) =~= tv);
    let mut out: Vec<Role> = Vec::new();
    push_extra(&mut out, Role::Top, top);
    push_extra(&mut out, Role::Jungle, jungle);
    push_extra(&mut out, Role::Mid, mid);
    push_extra(&mut out, Role::Bottom, bottom);
    push_extra(&mut out, Role::Support, support);
    assert(out@ =~= contested_roles_of(tv));
    out
}

/// The champions that were resolved, in order.
pub open spec fn resolved_only(resolved: Seq<Option<ChampionView>>) -> Seq<ChampionView>
    decreases resolved.len(),
{
    if resolved.len() == 0 {
        Seq::empty()
    } else {
        resolved_only(resolved.drop_last()) + match resolved.last() {
            Some(c) => seq![c],
            None => Seq::empty(),
        }
    }
}

/// The draft that a session shows for a known patch, given what the
/// resolver returned for each allied and each enemy member, in order.
pub open spec fn draft_from_session(
    patch: Seq<char>,
    session: RiotChampSelectSessionView,
    ally: Seq<Option<ChampionView>>,
    enemy: Seq<Option<ChampionView>>,
) -> DraftStateView {
    DraftStateView {
        patch,
        side: side_of(session),
        phase: phase_of(session),
        ally: resolved_only(ally),
        enemy: resolved_only(enemy),
        ally_bans: session.my_team_bans.map_values(|id: i64| signed_decimal(id as int)),
        enemy_bans: session.their_team_bans.map_values(|id: i64| signed_decimal(id as int)),
        contested_roles: contested_roles_of(session.my_team),
    }
}

fn keep_resolved(resolved: Vec<Option<Champion>>) -> (r: Vec<Champion>)
    ensures
        r.deep_view() == resolved_only(resolved.deep_view()),
{
    let ghost rv = resolved.deep_view();
    let mut out: Vec<Champion> = Vec::new();
    let mut source = resolved;
    let mut taken: Vec<Option<Champion>> = Vec::new();
    // Walk the list from its front by taking its entries one by one.
    let n = source.len();
    let mut i: usize = 0;
    while i < n
        invariant
            n == rv.len(),
            i <= n,
            source.len() == n - i,
            forall|k: int| 0 <= k < n - i ==> (#[trigger] source@[k]).deep_view() == rv[i + k],
            out.deep_view() == resolved_only(rv.subrange(0, i as int)),
        decreases n - i,
    {
        let entry = source.remove(0);
        assert(entry.deep_view() == rv[i as int]);
        assert(rv.subrange(0, i + 1).drop_last() =~= rv.subrange(0, i as int));
        let ghost before = out.deep_view();
        match entry {
            Some(c) => {
                out.push(c);
                assert(out.deep_view() =~= before.push(rv[i as int]->0));
            },
            None => {},
        }
        i = i + 1;
    }
    assert(rv.subrange(0, n as int) =~= rv);
    out
}

fn ban_labels(bans: &Vec<i64>) -> (r: Vec<String>)
    ensures
        r.deep_view() == bans@.map_values(|id: i64| signed_decimal(id as int)),
{
    let mut out: Vec<String> = Vec::new();
    for i in 0..bans.len()
        invariant
            out.len() == i,
            forall|k: int| 0 <= k < i ==> (#[trigger] out@[k])@ == signed_decimal(bans@[k] as int),
    {
        out.push(signed_decimal_string(bans[i]));
    }
    assert(out.deep_view() =~= bans@.map_values(|id: i64| signed_decimal(id as int)));
    out
}

/// Assembles the draft of a session for a known patch from what the resolver
/// returned for each allied and each enemy member, in order.
pub fn assemble_draft_state(
    patch: String,
    session: &RiotChampSelectSession,
    ally_resolved: Vec<Option<Champion>>,
    enemy_resolved: Vec<Option<Champion>>,
) -> (r: DraftState)
    ensures
        r@ == draft_from_session(patch@, session@, ally_resolved.deep_view(), enemy_resolved.deep_view()),
{
    DraftState {
        patch,
        side: infer_side(session),
        phase: infer_phase(session),
        ally: TeamDraft { champions: keep_resolved(ally_resolved) },
        enemy: TeamDraft { champions: keep_resolved(enemy_resolved) },
        ally_bans: ban_labels(&session.bans.my_team_bans),
        enemy_bans: ban_labels(&session.bans.their_team_bans),
        contested_roles: infer_contested_roles(session),
    }
}

/// The patch text, trimmed, when one is given.
pub open spec fn patch_text(patch: Option<&str>) -> Seq<char> {
    match patch {
        Some(p) => trimmed(p@),
        None => Seq::empty(),
    }
}

/// Turns champ-select payloads into drafts, resolving champion ids.
pub struct DraftStateTransformer<'resolver, R: ChampionResolver> {
    resolver: &'resolver R,
}

impl<'resolver, R: ChampionResolver> DraftStateTransformer<'resolver, R> {
    pub closed spec fn resolver_of(&self) -> &'resolver R {
        self.resolver
    }

    /// A transformer that resolves champion ids with `resolver`.
    pub fn new(resolver: &'resolver R) -> (r: Self)
        ensures
            r.resolver_of() == resolver,
    {
        DraftStateTransformer { resolver }
    }

    fn resolve_team(&self, team: &Vec<RiotTeamMember>) -> (r: Vec<Option<Champion>>)
        ensures
            r.deep_view() == resolutions(self.resolver_of(), team.deep_view()),
    {
        let mut out: Vec<Option<Champion>> = Vec::new();
        let ghost tv = team.deep_view();
        for i in 0..team.len()
            invariant
                tv == team.deep_view(),
                out.len() == i,
                forall|k: int| 0 <= k < i ==> (#[trigger] out.deep_view()[k]) == self.resolver_of().resolution(tv[k].champion_id).deep_view(),
        {
            let answer = self.resolver.resolve(team[i].champion_id);
            assert(tv[i as int].champion_id == team@[i as int].champion_id);
            let ghost before = out.deep_view();
            out.push(answer);
            assert(out.deep_view() =~= before.push(answer.deep_view()));
        }
        assert(out.deep_view() =~= resolutions(self.resolver_of(), tv));
        out
    }

    /// The draft of a session. A missing or blank patch is refused without
    /// asking the resolver; otherwise the draft is the session's for the trimmed
    /// patch, with the resolver's answer for each member's champion id.
    pub fn transform(&self, patch: Option<&str>, session: &RiotChampSelectSession) -> (r: Result<
        DraftState,
        DraftTransformError,
    >)
        ensures
            patch_text(patch).len() == 0 <==> r is Err,
            r matches Err(e) ==> e == DraftTransformError::PatchUnknown,
            r matches Ok(d) ==> d@ == draft_from_session(
                patch_text(patch),
                session@,
                resolutions(self.resolver_of(), session@.my_team),
                resolutions(self.resolver_of(), session@.their_team),
            ),
    {
        let trimmed_patch = match patch {
            Some(p) => trim(p),
            None => String::new(),
        };
        if trimmed_patch.unicode_len() == 0 {
            return Err(DraftTransformError::PatchUnknown);
        }
        let ally = self.resolve_team(&session.my_team);
        let enemy = self.resolve_team(&session.their_team);
        let ghost av = ally.deep_view();
        let ghost ev = enemy.deep_view();
        let state = assemble_draft_state(trimmed_patch, session, ally, enemy);
        assert(state@ == draft_from_session(patch_text(patch), session@, av, ev));
        Ok(state)
    }
}


// ---------------------------------------------------------------- live client

/// Reads the patch version and the current champ-select session of a client.
pub trait RiotSessionReader {
    fn fetch_patch_version(&self) -> Result<String, RiotClientError>;

    fn fetch_session(&self) -> Result<Option<RiotChampSelectSession>, RiotClientError>;
}

/// The session that a request for the champ-select session stands for: a
/// session; none, when the endpoint answers 404 (no champ select is running)
/// or the failure names a 404; otherwise the error.
pub open spec fn session_outcome_of(response: Result<RiotChampSelectSessionView, RiotClientErrorView>) -> Result<
    Option<RiotChampSelectSessionView>,
    RiotClientErrorView,
> {
    match response {
        Ok(session) => Ok(Some(session)),
        Err(e) => match e {
            RiotClientErrorView::EndpointChanged { endpoint, status_code } => if endpoint
                == RiotEndpoint::ChampSelectSession && status_code == 404 {
                Ok(None)
            } else {
                Err(e)
            },
            RiotClientErrorView::RequestFailed(reason) => if has_substring(reason, "404"@) {
                Ok(None)
            } else {
                Err(e)
            },
            _ => Err(e),
        },
    }
}

/// The value of a session response.
pub open spec fn session_response_view(r: Result<RiotChampSelectSession, RiotClientError>) -> Result<
    RiotChampSelectSessionView,
    RiotClientErrorView,
> {
    match r {
        Ok(s) => Ok(s@),
        Err(e) => Err(e@),
    }
}

/// The value of a session outcome.
pub open spec fn session_outcome_view(r: Result<Option<RiotChampSelectSession>, RiotClientError>) -> Result<
    Option<RiotChampSelectSessionView>,
    RiotClientErrorView,
> {
    match r {
        Ok(Some(s)) => Ok(Some(s@)),
        Ok(None) => Ok(None),
        Err(e) => Err(e@),
    }
}

/// The live client: reads through the local HTTP client.
#[derive(Debug, Clone)]
pub struct RiotLiveClient {
    http: LocalRiotHttpClient,
}

impl RiotLiveClient {
    pub closed spec fn http_client(self) -> LocalRiotHttpClient {
        self.http
    }

    pub fn new(http: LocalRiotHttpClient) -> (r: Self)
        ensures
            r.http_client() == http,
    {
        RiotLiveClient { http }
    }

    /// The HTTP client that the requests go through.
    pub fn http(&self) -> (r: &LocalRiotHttpClient)
        ensures
            *r == self.http_client(),
    {
        &self.http
    }

    /// The patch version, from the response of the game-version endpoint.
    pub fn patch_version_from(&self, response: Result<String, RiotClientError>) -> (r: Result<String, RiotClientError>)
        ensures
            text_result_view(r) == game_version_of(text_result_view(response)),
    {
        self.http.game_version(response)
    }

    /// The session, from the response of the champ-select session endpoint
    /// (its body already read as a session, or the failure).
    pub fn session_from(&self, response: Result<RiotChampSelectSession, RiotClientError>) -> (r: Result<
        Option<RiotChampSelectSession>,
        RiotClientError,
    >)
        ensures
            session_outcome_view(r) == session_outcome_of(session_response_view(response)),
    {
        match response {
            Ok(session) => Ok(Some(session)),
            Err(e) => {
                let absent = match &e {
                    RiotClientError::EndpointChanged { endpoint, status_code } => {
                        let same_endpoint = match endpoint {
                            RiotEndpoint::ChampSelectSession => true,
                            _ => false,
                        };
                        same_endpoint && *status_code == 404
                    },
                    RiotClientError::RequestFailed(reason) => contains(reason.as_str(), "404"),
                    _ => false,
                };
                if absent {
                    Ok(None)
                } else {
                    Err(e)
                }
            },
        }
    }
}

/// Connects live clients through lockfile discovery.
#[derive(Debug, Clone)]
pub struct RiotClientFactory {
    discoverer: LockfileDiscoverer,
}

/// The live client that a discovery result leads to: the discovery error, or
/// the error of setting up the HTTP client for the credentials found.
pub open spec fn connection_of(discovered: Result<(Seq<char>, LockfileDataView), RiotClientErrorView>) -> Result<
    LockfileDataView,
    RiotClientErrorView,
> {
    match discovered {
        Err(e) => Err(e),
        Ok((_path, credentials)) => if credentials.protocol == "https"@ {
            Ok(credentials)
        } else {
            Err(RiotClientErrorView::LocalSslInitializationFailed("riot local client must use https"@))
        },
    }
}

impl RiotClientFactory {
    pub closed spec fn discoverer_of(self) -> LockfileDiscoverer {
        self.discoverer
    }

    pub fn new(discoverer: LockfileDiscoverer) -> (r: Self)
        ensures
            r.discoverer_of() == discoverer,
    {
        RiotClientFactory { discoverer }
    }

    /// The discoverer whose result `connect` takes.
    pub fn discoverer(&self) -> (r: &LockfileDiscoverer)
        ensures
            *r == self.discoverer_of(),
    {
        &self.discoverer
    }

    /// A live client for the credentials that discovery found; discovery
    /// errors and HTTP-client errors pass through.
    pub fn connect(&self, discovered: Result<(String, LockfileData), RiotClientError>) -> (r: Result<
        RiotLiveClient,
        RiotClientError,
    >)
        ensures
            match r {
                Ok(client) => connection_of(discovered_view(discovered)) == Ok::<LockfileDataView, RiotClientErrorView>(
                    client.http_client().credentials@,
                ) && client.http_client().base_url@ == LocalRiotHttpClient::base_url_for(
                    client.http_client().credentials@,
                ),
                Err(e) => connection_of(discovered_view(discovered)) == Err::<LockfileDataView, RiotClientErrorView>(e@),
            },
    {
        let (_path, lockfile) = match discovered {
            Ok(found) => found,
            Err(e) => return Err(e),
        };
        let http = match LocalRiotHttpClient::new(lockfile) {
            Ok(h) => h,
            Err(e) => return Err(e),
        };
        Ok(RiotLiveClient::new(http))
    }
}

} // verus!

