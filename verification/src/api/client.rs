//! Fly.io GraphQL API client.
//!
//! The client does no input or output of its own. It says what to send for
//! an operation, and what the reply to it means.

use crate::envelope::EnvelopeView;
use crate::failure::{Failure, FailureView};
use crate::fields::ObjectBuilder;
use crate::json::{array, integer, json_view, parse, parsed, string, Json};
use crate::models::{App, AppView, GraphQLResponse, Machine, MachineView};
use crate::normalize::{
    listed_apps, listed_machines, read_listed_apps, read_listed_machines, read_viewer_id,
    viewer_id,
};
use crate::text::{head, prefix};
use serde_json::Value;
use vstd::prelude::*;
use vstd::string::*;

verus! {

/// Where every request goes.
pub const GRAPHQL_ENDPOINT: &'static str = "https://api.fly.io/graphql";

/// The content type of every request.
pub const CONTENT_TYPE: &'static str = "application/json";

/// Seconds after which a request is given up.
pub const REQUEST_TIMEOUT_SECS: u64 = 30;

/// Idle connections that are kept per host.
pub const POOL_MAX_IDLE_PER_HOST: usize = 5;

/// Characters of a body that a protocol failure shows.
pub const RAW_PREFIX_CHARS: usize = 300;

pub const PING_QUERY: &'static str = r#"
            query {
                viewer {
                    id
                }
            }
        "#;

pub const LIST_APPS_QUERY: &'static str = r#"
            query($first: Int) {
                apps(first: $first) {
                    nodes {
                        id
                        name
                        status
                        deployed
                        hostname
                        organization {
                            id
                            name
                            slug
                        }
                        currentRelease {
                            id
                            version
                            status
                            description
                            createdAt
                        }
                    }
                }
            }
        "#;

pub const APP_STATUS_QUERY: &'static str = r#"
            query($name: String!) {
                app(name: $name) {
                    id
                    name
                    status
                    deployed
                    hostname
                    organization {
                        id
                        name
                        slug
                    }
                    currentRelease {
                        id
                        version
                        status
                        description
                        createdAt
                    }
                    machines {
                        nodes {
                            id
                            name
                            state
                            region
                        }
                    }
                    allocations {
                        id
                        status
                        region
                        version
                    }
                }
            }
        "#;

pub const LIST_MACHINES_QUERY: &'static str = r#"
            query($name: String!) {
                app(name: $name) {
                    machines {
                        nodes {
                            id
                            name
                            state
                            region
                        }
                    }
                }
            }
        "#;

pub const USER_QUERY: &'static str = r#"
            query {
                viewer {
                    id
                    email
                    name
                    organizations {
                        nodes {
                            id
                            name
                            slug
                        }
                    }
                }
            }
        "#;

pub const REGIONS_QUERY: &'static str = r#"
            query {
                platform {
                    regions {
                        code
                        name
                        gatewayAvailable
                        requiresPaidPlan
                    }
                }
            }
        "#;

pub const LIST_SECRETS_QUERY: &'static str = r#"
            query($name: String!) {
                app(name: $name) {
                    secrets {
                        name
                        digest
                        createdAt
                    }
                }
            }
        "#;

pub const SET_SECRET_QUERY: &'static str = r#"
            mutation($input: SetSecretsInput!) {
                setSecrets(input: $input) {
                    release {
                        id
                        version
                    }
                }
            }
        "#;

pub const DELETE_SECRET_QUERY: &'static str = r#"
            mutation($input: UnsetSecretsInput!) {
                unsetSecrets(input: $input) {
                    release {
                        id
                        version
                    }
                }
            }
        "#;

pub const RESTART_APP_QUERY: &'static str = r#"
            mutation($input: RestartAppInput!) {
                restartApp(input: $input) {
                    app {
                        name
                    }
                }
            }
        "#;

/// The number of applications asked for where the caller names none.
pub const DEFAULT_APP_LIMIT: i32 = 25;

/// The length and first character of each name in a request.
pub(crate) proof fn lemma_request_names()
    ensures
        "query"@.len() == 5 && "query"@[0] == 'q',
        "variables"@.len() == 9 && "variables"@[0] == 'v',
        "appId"@.len() == 5 && "appId"@[0] == 'a',
        "secrets"@.len() == 7 && "secrets"@[0] == 's',
        "keys"@.len() == 4 && "keys"@[0] == 'k',
        "key"@.len() == 3 && "key"@[0] == 'k',
        "value"@.len() == 5 && "value"@[0] == 'v',
{
    reveal_strlit("query");
    reveal_strlit("variables");
    reveal_strlit("appId");
    reveal_strlit("secrets");
    reveal_strlit("keys");
    reveal_strlit("key");
    reveal_strlit("value");
}

/// One operation of the API, with what it is applied to.
#[derive(Debug, Clone)]
pub enum Operation {
    Ping,
    ListApps { limit: i32 },
    AppStatus { app: String },
    ListMachines { app: String },
    User,
    Regions,
    ListSecrets { app: String },
    SetSecret { app: String, key: String, value: String },
    DeleteSecret { app: String, key: String },
    Restart { app: String },
}

/// The fields of an operation as mathematical values.
pub enum OperationView {
    Ping,
    ListApps { limit: i32 },
    AppStatus { app: Seq<char> },
    ListMachines { app: Seq<char> },
    User,
    Regions,
    ListSecrets { app: Seq<char> },
    SetSecret { app: Seq<char>, key: Seq<char>, value: Seq<char> },
    DeleteSecret { app: Seq<char>, key: Seq<char> },
    Restart { app: Seq<char> },
}

impl View for Operation {
    type V = OperationView;

    open spec fn view(&self) -> OperationView {
        match self {
            Operation::Ping => OperationView::Ping,
            Operation::ListApps { limit } => OperationView::ListApps { limit: *limit },
            Operation::AppStatus { app } => OperationView::AppStatus { app: app@ },
            Operation::ListMachines { app } => OperationView::ListMachines { app: app@ },
            Operation::User => OperationView::User,
            Operation::Regions => OperationView::Regions,
            Operation::ListSecrets { app } => OperationView::ListSecrets { app: app@ },
            Operation::SetSecret { app, key, value } => OperationView::SetSecret {
                app: app@,
                key: key@,
                value: value@,
            },
            Operation::DeleteSecret { app, key } => OperationView::DeleteSecret {
                app: app@,
                key: key@,
            },
            Operation::Restart { app } => OperationView::Restart { app: app@ },
        }
    }
}

impl DeepView for Operation {
    type V = OperationView;

    open spec fn deep_view(&self) -> OperationView {
        self@
    }
}

/// An object with one member.
pub open spec fn single(key: Seq<char>, value: Json) -> Json {
    Json::Object(map![key => value])
}

/// An object with two members.
pub open spec fn pair(first: Seq<char>, a: Json, second: Seq<char>, b: Json) -> Json {
    Json::Object(map![first => a, second => b])
}

impl OperationView {
    /// The query document of the operation.
    pub open spec fn document(self) -> Seq<char> {
        match self {
            OperationView::Ping => PING_QUERY@,
            OperationView::ListApps { .. } => LIST_APPS_QUERY@,
            OperationView::AppStatus { .. } => APP_STATUS_QUERY@,
            OperationView::ListMachines { .. } => LIST_MACHINES_QUERY@,
            OperationView::User => USER_QUERY@,
            OperationView::Regions => REGIONS_QUERY@,
            OperationView::ListSecrets { .. } => LIST_SECRETS_QUERY@,
            OperationView::SetSecret { .. } => SET_SECRET_QUERY@,
            OperationView::DeleteSecret { .. } => DELETE_SECRET_QUERY@,
            OperationView::Restart { .. } => RESTART_APP_QUERY@,
        }
    }

    /// The variables that go with the document; none where the document
    /// takes none.
    pub open spec fn variables(self) -> Option<Json> {
        match self {
            OperationView::Ping => None,
            OperationView::ListApps { limit } => Some(single("first"@, Json::Int(limit as int))),
            OperationView::AppStatus { app } => Some(single("name"@, Json::Str(app))),
            OperationView::ListMachines { app } => Some(single("name"@, Json::Str(app))),
            OperationView::User => None,
            OperationView::Regions => None,
            OperationView::ListSecrets { app } => Some(single("name"@, Json::Str(app))),
            OperationView::SetSecret { app, key, value } => Some(
                single(
                    "input"@,
                    pair(
                        "appId"@,
                        Json::Str(app),
                        "secrets"@,
                        Json::Array(seq![pair("key"@, Json::Str(key), "value"@, Json::Str(value))]),
                    ),
                ),
            ),
            OperationView::DeleteSecret { app, key } => Some(
                single(
                    "input"@,
                    pair("appId"@, Json::Str(app), "keys"@, Json::Array(seq![Json::Str(key)])),
                ),
            ),
            OperationView::Restart { app } => Some(
                single("input"@, single("appId"@, Json::Str(app))),
            ),
        }
    }
}

fn single_value(key: &str, value: Value) -> (v: Value)
    ensures
        json_view(v) == single(key@, json_view(value)),
{
    ObjectBuilder::new().with(key, value).finish()
}

fn pair_value(first: &str, a: Value, second: &str, b: Value) -> (v: Value)
    requires
        first@ != second@,
    ensures
        json_view(v) == pair(first@, json_view(a), second@, json_view(b)),
{
    ObjectBuilder::new().with(first, a).with(second, b).finish()
}

fn list_of_one(item: Value) -> (v: Value)
    ensures
        json_view(v) == Json::Array(seq![json_view(item)]),
{
    let mut items: Vec<Value> = Vec::new();
    items.push(item);
    assert(crate::json::json_views(items@) =~= seq![json_view(item)]);
    array(items)
}

impl Operation {
    /// The listing of applications, of at most `limit` of them or, where
    /// none is given, of the default number.
    pub fn list_apps(limit: Option<i32>) -> (op: Operation)
        ensures
            op@ == (OperationView::ListApps {
                limit: match limit {
                    Some(n) => n,
                    None => DEFAULT_APP_LIMIT,
                },
            }),
    {
        match limit {
            Some(n) => Operation::ListApps { limit: n },
            None => Operation::ListApps { limit: DEFAULT_APP_LIMIT },
        }
    }

    /// The query document of the operation.
    pub fn document(&self) -> (text: &'static str)
        ensures
            text@ == self@.document(),
    {
        match self {
            Operation::Ping => PING_QUERY,
            Operation::ListApps { .. } => LIST_APPS_QUERY,
            Operation::AppStatus { .. } => APP_STATUS_QUERY,
            Operation::ListMachines { .. } => LIST_MACHINES_QUERY,
            Operation::User => USER_QUERY,
            Operation::Regions => REGIONS_QUERY,
            Operation::ListSecrets { .. } => LIST_SECRETS_QUERY,
            Operation::SetSecret { .. } => SET_SECRET_QUERY,
            Operation::DeleteSecret { .. } => DELETE_SECRET_QUERY,
            Operation::Restart { .. } => RESTART_APP_QUERY,
        }
    }

    /// The variables that go with the document.
    pub fn variables(&self) -> (vars: Option<Value>)
        ensures
            match vars {
                Some(v) => self@.variables() == Some(json_view(v)),
                None => self@.variables() is None,
            },
    {
        proof {
            lemma_request_names();
        }
        match self {
            Operation::Ping => None,
            Operation::ListApps { limit } => Some(single_value("first", integer(*limit as i64))),
            Operation::AppStatus { app } => Some(single_value("name", string(app.clone()))),
            Operation::ListMachines { app } => Some(single_value("name", string(app.clone()))),
            Operation::User => None,
            Operation::Regions => None,
            Operation::ListSecrets { app } => Some(single_value("name", string(app.clone()))),
            Operation::SetSecret { app, key, value } => {
                let secret = pair_value(
                    "key",
                    string(key.clone()),
                    "value",
                    string(value.clone()),
                );
                let input = pair_value(
                    "appId",
                    string(app.clone()),
                    "secrets",
                    list_of_one(secret),
                );
                Some(single_value("input", input))
            },
            Operation::DeleteSecret { app, key } => {
                let input = pair_value(
                    "appId",
                    string(app.clone()),
                    "keys",
                    list_of_one(string(key.clone())),
                );
                Some(single_value("input", input))
            },
            Operation::Restart { app } => {
                let input = single_value("appId", string(app.clone()));
                Some(single_value("input", input))
            },
        }
    }
}

/// What is sent to the upstream for one operation.
#[derive(Debug)]
pub struct HttpRequest {
    pub url: String,
    /// The value of the `Authorization` header.
    pub authorization: String,
    /// The value of the `Content-Type` header.
    pub content_type: String,
    /// The body, sent as JSON text.
    pub body: Value,
}

/// The fields of a request as mathematical values.
pub struct HttpRequestView {
    pub url: Seq<char>,
    pub authorization: Seq<char>,
    pub content_type: Seq<char>,
    pub body: Json,
}

impl View for HttpRequest {
    type V = HttpRequestView;

    open spec fn view(&self) -> HttpRequestView {
        HttpRequestView {
            url: self.url@,
            authorization: self.authorization@,
            content_type: self.content_type@,
            body: json_view(self.body),
        }
    }
}

/// What came back for a request.
#[derive(Debug)]
pub enum HttpReply {
    /// The request could not be sent, or no response came in time.
    NotSent { reason: String },
    /// A response came. `body` holds its text, or the reason why the text
    /// could not be read.
    Response { status: u16, body: Result<String, String> },
}

/// The fields of a reply as mathematical values.
pub enum HttpReplyView {
    NotSent { reason: Seq<char> },
    Response { status: u16, body: Result<Seq<char>, Seq<char>> },
}

impl View for HttpReply {
    type V = HttpReplyView;

    open spec fn view(&self) -> HttpReplyView {
        match self {
            HttpReply::NotSent { reason } => HttpReplyView::NotSent { reason: reason@ },
            HttpReply::Response { status, body } => HttpReplyView::Response {
                status: *status,
                body: match body {
                    Ok(text) => Ok(text@),
                    Err(reason) => Err(reason@),
                },
            },
        }
    }
}

/// Whether a status code is in the success class.
pub open spec fn is_success(status: u16) -> bool {
    200 <= status < 300
}

/// The body of a request: the document under `query` and, where there are
/// any, the variables under `variables`.
pub open spec fn request_body(document: Seq<char>, variables: Option<Json>) -> Json {
    match variables {
        Some(v) => pair("query"@, Json::Str(document), "variables"@, v),
        None => single("query"@, Json::Str(document)),
    }
}

/// The failure for a body that is no envelope, or for data that does not
/// have the shape that the operation gives.
pub open spec fn protocol_failure(detail: Seq<char>, body: Seq<char>) -> FailureView {
    FailureView::Protocol { detail, raw: prefix(body, RAW_PREFIX_CHARS as nat) }
}

/// What the text of a body means, given the outcome of reading it as
/// JSON: a protocol failure where the text is no JSON document or the
/// document is no envelope; else what the partial-result rule makes of the
/// envelope.
pub open spec fn body_outcome(text: Seq<char>, document: Result<Json, Seq<char>>) -> Result<
    Json,
    FailureView,
> {
    match document {
        Err(error) => Err(protocol_failure(error, text)),
        Ok(doc) => match EnvelopeView::from_json(doc) {
            None => Err(protocol_failure("response is not a GraphQL envelope"@, text)),
            Some(envelope) => envelope.outcome(),
        },
    }
}

impl HttpReplyView {
    /// The text of the body; empty where there is none.
    pub open spec fn text(self) -> Seq<char> {
        match self {
            HttpReplyView::Response { body: Ok(text), .. } => text,
            _ => Seq::empty(),
        }
    }

    /// What a reply means for a query: a transport failure where no
    /// response came, where its status is no success or where its text
    /// could not be read; a protocol failure where the text is no JSON
    /// document or the document no envelope; else what the partial-result
    /// rule makes of the envelope.
    pub open spec fn outcome(self) -> Result<Json, FailureView> {
        match self {
            HttpReplyView::NotSent { reason } => Err(
                FailureView::Connection {
                    context: "Failed to send GraphQL request"@,
                    cause: reason,
                },
            ),
            HttpReplyView::Response { status, body } => if !is_success(status) {
                Err(FailureView::Transport { status, detail: self.text() })
            } else {
                match body {
                    Err(reason) => Err(
                        FailureView::Connection {
                            context: "Failed to read response"@,
                            cause: reason,
                        },
                    ),
                    Ok(text) => body_outcome(text, parsed(text)),
                }
            },
        }
    }

    /// The failure for data of an unexpected shape, with the start of this
    /// reply's body.
    pub open spec fn unexpected(self) -> FailureView {
        protocol_failure("response data does not have the expected shape"@, self.text())
    }

    /// What a reply means for the identity query: whether the identity is
    /// not empty.
    pub open spec fn ping(self) -> Result<bool, FailureView> {
        match self.outcome() {
            Ok(data) => match viewer_id(data) {
                Some(id) => Ok(id.len() > 0),
                None => Err(self.unexpected()),
            },
            Err(f) => Err(f),
        }
    }

    /// What a reply means for the listing of applications.
    pub open spec fn apps(self) -> Result<Seq<AppView>, FailureView> {
        match self.outcome() {
            Ok(data) => match listed_apps(data) {
                Some(apps) => Ok(apps),
                None => Err(self.unexpected()),
            },
            Err(f) => Err(f),
        }
    }

    /// What a reply means for the listing of machines.
    pub open spec fn machines(self) -> Result<Seq<MachineView>, FailureView> {
        match self.outcome() {
            Ok(data) => match listed_machines(data) {
                Some(machines) => Ok(machines),
                None => Err(self.unexpected()),
            },
            Err(f) => Err(f),
        }
    }
}

impl HttpReply {
    /// The failure for data of an unexpected shape.
    fn unexpected(&self) -> (f: Failure)
        ensures
            f@ == self@.unexpected(),
    {
        let detail = String::from_str("response data does not have the expected shape");
        match self {
            HttpReply::Response { body: Ok(text), .. } => Failure::Protocol {
                detail,
                raw: head(text.as_str(), RAW_PREFIX_CHARS),
            },
            _ => {
                let raw = String::new();
                assert(raw@ =~= prefix(Seq::<char>::empty(), RAW_PREFIX_CHARS as nat));
                Failure::Protocol { detail, raw }
            },
        }
    }
}

/// Whether a result of the library stands for a result of the model.
pub open spec fn answers(r: Result<Value, Failure>, expected: Result<Json, FailureView>) -> bool {
    match r {
        Ok(v) => expected == Ok::<Json, FailureView>(json_view(v)),
        Err(f) => expected == Err::<Json, FailureView>(f@),
    }
}

/// The outcome of reading a body as JSON, as a mathematical value.
pub open spec fn reading(document: Result<Value, String>) -> Result<Json, Seq<char>> {
    match document {
        Ok(doc) => Ok(json_view(doc)),
        Err(error) => Err(error@),
    }
}

/// Judges the text of a body, given the outcome of reading it as JSON:
/// the document, or the description of the error.
pub fn interpret_body(text: &str, document: Result<Value, String>) -> (r: Result<Value, Failure>)
    ensures
        answers(r, body_outcome(text@, reading(document))),
{
    match document {
        Err(error) => Err(
            Failure::Protocol { detail: error, raw: head(text, RAW_PREFIX_CHARS) },
        ),
        Ok(doc) => match GraphQLResponse::<Value>::from_json(&doc) {
            None => Err(
                Failure::Protocol {
                    detail: String::from_str("response is not a GraphQL envelope"),
                    raw: head(text, RAW_PREFIX_CHARS),
                },
            ),
            Some(envelope) => envelope.into_result(),
        },
    }
}

/// Validates a reply and hands out the data it carries.
///
/// Data that is there is returned even where errors came with it. Only a
/// reply without data fails on its errors.
pub fn execute_query(reply: &HttpReply) -> (r: Result<Value, Failure>)
    ensures
        answers(r, reply@.outcome()),
{
    match reply {
        HttpReply::NotSent { reason } => {
            Err(
                Failure::Connection {
                    context: String::from_str("Failed to send GraphQL request"),
                    cause: reason.clone(),
                },
            )
        },
        HttpReply::Response { status, body } => {
            if !(200 <= *status && *status < 300) {
                let detail = match body {
                    Ok(text) => text.clone(),
                    Err(_) => String::new(),
                };
                return Err(Failure::Transport { status: *status, detail });
            }
            match body {
                Err(reason) => {
                    Err(
                        Failure::Connection {
                            context: String::from_str("Failed to read response"),
                            cause: reason.clone(),
                        },
                    )
                },
                Ok(text) => interpret_body(text.as_str(), parse(text.as_str())),
            }
        },
    }
}

/// Fly.io GraphQL client.
pub struct FlyClient {
    token: String,
}

impl FlyClient {
    /// The bearer token of the client.
    pub closed spec fn token(&self) -> Seq<char> {
        self.token@
    }

    /// Create a new Fly.io client.
    pub fn new(token: String) -> (client: Self)
        ensures
            client.token() == token@,
    {
        FlyClient { token }
    }

    /// The value of the `Authorization` header.
    pub fn authorization(&self) -> (header: String)
        ensures
            header@ == "Bearer "@ + self.token(),
    {
        let mut header = String::from_str("Bearer ");
        header.append(self.token.as_str());
        header
    }

    /// The request that carries a query document and its variables.
    pub fn query(&self, query: &str, variables: Option<Value>) -> (request: HttpRequest)
        ensures
            request@ == (HttpRequestView {
                url: GRAPHQL_ENDPOINT@,
                authorization: "Bearer "@ + self.token(),
                content_type: CONTENT_TYPE@,
                body: request_body(
                    query@,
                    match variables {
                        Some(v) => Some(json_view(v)),
                        None => None,
                    },
                ),
            }),
    {
        proof {
            lemma_request_names();
        }
        let document = string(String::from_str(query));
        let body = match variables {
            Some(v) => pair_value("query", document, "variables", v),
            None => single_value("query", document),
        };
        HttpRequest {
            url: String::from_str(GRAPHQL_ENDPOINT),
            authorization: self.authorization(),
            content_type: String::from_str(CONTENT_TYPE),
            body,
        }
    }

    /// The request for an operation.
    pub fn request(&self, operation: &Operation) -> (request: HttpRequest)
        ensures
            request@ == (HttpRequestView {
                url: GRAPHQL_ENDPOINT@,
                authorization: "Bearer "@ + self.token(),
                content_type: CONTENT_TYPE@,
                body: request_body(operation@.document(), operation@.variables()),
            }),
    {
        self.query(operation.document(), operation.variables())
    }

    /// Check if the client can connect to Fly.io API: whether the reply to
    /// the identity query names an identity that is not empty.
    pub fn ping(&self, reply: &HttpReply) -> (r: Result<bool, Failure>)
        ensures
            match r {
                Ok(connected) => reply@.ping() == Ok::<bool, FailureView>(connected),
                Err(f) => reply@.ping() == Err::<bool, FailureView>(f@),
            },
    {
        match execute_query(reply) {
            Ok(data) => match read_viewer_id(&data) {
                Some(id) => Ok(!id.as_str().is_empty()),
                None => Err(reply.unexpected()),
            },
            Err(f) => Err(f),
        }
    }

    /// List all apps for the authenticated user, from the reply to the
    /// listing of applications.
    pub fn list_apps(&self, reply: &HttpReply) -> (r: Result<Vec<App>, Failure>)
        ensures
            match r {
                Ok(apps) => reply@.apps() == Ok::<Seq<AppView>, FailureView>(apps.deep_view()),
                Err(f) => reply@.apps() == Err::<Seq<AppView>, FailureView>(f@),
            },
    {
        match execute_query(reply) {
            Ok(data) => match read_listed_apps(&data) {
                Some(apps) => Ok(apps),
                None => Err(reply.unexpected()),
            },
            Err(f) => Err(f),
        }
    }

    /// Get status for a specific app, from the reply to the status query.
    pub fn get_app_status(&self, reply: &HttpReply) -> (r: Result<Value, Failure>)
        ensures
            answers(r, reply@.outcome()),
    {
        execute_query(reply)
    }

    /// List machines for an app, from the reply to the listing of
    /// machines.
    pub fn list_machines(&self, reply: &HttpReply) -> (r: Result<Vec<Machine>, Failure>)
        ensures
            match r {
                Ok(machines) => reply@.machines() == Ok::<Seq<MachineView>, FailureView>(
                    machines.deep_view(),
                ),
                Err(f) => reply@.machines() == Err::<Seq<MachineView>, FailureView>(f@),
            },
    {
        match execute_query(reply) {
            Ok(data) => match read_listed_machines(&data) {
                Some(machines) => Ok(machines),
                None => Err(reply.unexpected()),
            },
            Err(f) => Err(f),
        }
    }

    /// Get current user info, from the reply to the user query.
    pub fn get_user(&self, reply: &HttpReply) -> (r: Result<Value, Failure>)
        ensures
            answers(r, reply@.outcome()),
    {
        execute_query(reply)
    }

    /// List all regions, from the reply to the regions query.
    pub fn list_regions(&self, reply: &HttpReply) -> (r: Result<Value, Failure>)
        ensures
            answers(r, reply@.outcome()),
    {
        execute_query(reply)
    }

    /// List the secrets of an app, from the reply to the secrets query.
    pub fn list_secrets(&self, reply: &HttpReply) -> (r: Result<Value, Failure>)
        ensures
            answers(r, reply@.outcome()),
    {
        execute_query(reply)
    }

    /// What setting a secret gave, from the reply to the mutation.
    pub fn set_secret(&self, reply: &HttpReply) -> (r: Result<Value, Failure>)
        ensures
            answers(r, reply@.outcome()),
    {
        execute_query(reply)
    }

    /// What deleting a secret gave, from the reply to the mutation.
    pub fn delete_secret(&self, reply: &HttpReply) -> (r: Result<Value, Failure>)
        ensures
            answers(r, reply@.outcome()),
    {
        execute_query(reply)
    }

    /// What restarting an app gave, from the reply to the mutation.
    pub fn restart_app(&self, reply: &HttpReply) -> (r: Result<Value, Failure>)
        ensures
            answers(r, reply@.outcome()),
    {
        execute_query(reply)
    }
}

impl HttpReplyView {
    /// The reply is a response with a success status whose body is the
    /// text of `envelope`.
    pub open spec fn carries(self, envelope: EnvelopeView) -> bool {
        &&& self matches HttpReplyView::Response { status, body: Ok(text) }
        &&& is_success(status)
        &&& parsed(text) matches Ok(doc)
        &&& EnvelopeView::from_json(doc) == Some(envelope)
    }
}

/// Partial success: a response with data and with errors gives the data,
/// not a failure.
pub proof fn lemma_partial_success(reply: HttpReplyView, envelope: EnvelopeView)
    requires
        reply.carries(envelope),
        envelope.data is Some,
        envelope.errors is Some,
        envelope.errors.unwrap().len() > 0,
    ensures
        reply.outcome() == Ok::<Json, FailureView>(envelope.data.unwrap()),
{
}

/// A response without data and with errors fails, and the message of the
/// failure is the messages of all its errors, in their order, separated by
/// a comma and a space.
pub proof fn lemma_errors_without_data(reply: HttpReplyView, envelope: EnvelopeView)
    requires
        reply.carries(envelope),
        envelope.data is None,
        envelope.errors is Some,
        envelope.errors.unwrap().len() > 0,
    ensures
        reply.outcome() == Err::<Json, FailureView>(
            FailureView::Upstream {
                messages: crate::text::joined(
                    crate::envelope::messages_of(envelope.errors.unwrap()),
                    ", "@,
                ),
            },
        ),
        reply.outcome() matches Err(f) && f.message() == crate::text::joined(
            crate::envelope::messages_of(envelope.errors.unwrap()),
            ", "@,
        ),
{
}

/// A response without data and without errors, or with an empty list of
/// them, fails for its missing data.
pub proof fn lemma_missing_data(reply: HttpReplyView, envelope: EnvelopeView)
    requires
        reply.carries(envelope),
        envelope.data is None,
        envelope.errors is None || envelope.errors.unwrap().len() == 0,
    ensures
        reply.outcome() == Err::<Json, FailureView>(FailureView::MissingData),
{
}

/// A response whose status is no success fails with that status and the
/// raw body, whatever the body holds.
pub proof fn lemma_status_before_body(status: u16, text: Seq<char>)
    requires
        !is_success(status),
    ensures
        (HttpReplyView::Response { status, body: Ok(text) }).outcome() == Err::<Json, FailureView>(
            FailureView::Transport { status, detail: text },
        ),
{
}

/// The body of a request always holds the document under `query`. It holds
/// the variables under `variables` where there are any, and has no such
/// member at all where there are none.
pub proof fn lemma_variables_left_out(document: Seq<char>, variables: Option<Json>)
    ensures
        request_body(document, variables).member("query"@) == Some(Json::Str(document)),
        request_body(document, variables).member("variables"@) == variables,
{
    lemma_request_names();
}

/// A protocol failure shows at most the first 300 characters of the body.
pub proof fn lemma_raw_prefix_bounded(detail: Seq<char>, body: Seq<char>)
    ensures
        protocol_failure(detail, body) matches FailureView::Protocol { raw, .. } && raw.len() <= 300
            && raw.is_prefix_of(body),
{
}

} // verus!
