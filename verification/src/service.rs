//! FGP service implementation for Fly.io.
//!
//! The service decides. It turns a method name and a bag of parameters into
//! the operation to perform, and the reply of the upstream into the result
//! of the call. Sending the request is left to the caller.

use crate::api::client::{
    answers, pair, FlyClient, HttpReply, HttpReplyView, Operation, OperationView,
    DEFAULT_APP_LIMIT,
};
use crate::failure::{Failure, FailureView};
use crate::fields::ObjectBuilder;
use crate::json::{boolean, json_view, string, unsigned, Json};
use crate::models::{
    apps_json, apps_to_json, machines_json, machines_to_json, AppView, MachineView,
};
use crate::text::str_eq;
use serde_json::Value;
use vstd::hash_map::StringHashMap;
use vstd::prelude::*;
use vstd::string::*;

verus! {

/// The name under which the service is known to its host.
pub const SERVICE_NAME: &'static str = "fly";

/// The version that the service reports.
pub const SERVICE_VERSION: &'static str = "0.1.0";

/// The name of the one subsystem whose health the service reports.
pub const HEALTH_SUBSYSTEM: &'static str = "fly_api";

/// The parameters of a call: JSON values under their names.
pub struct Params {
    entries: StringHashMap<Value>,
}

impl View for Params {
    type V = Map<Seq<char>, Json>;

    closed spec fn view(&self) -> Map<Seq<char>, Json> {
        self.entries@.map_values(|v: Value| json_view(v))
    }
}

impl Params {
    /// No parameters.
    pub fn new() -> (params: Params)
        ensures
            params@ == Map::<Seq<char>, Json>::empty(),
    {
        let params = Params { entries: StringHashMap::new() };
        assert(params@ =~= Map::<Seq<char>, Json>::empty());
        params
    }

    /// Puts `value` under `name`, in place of what was there.
    pub fn insert(&mut self, name: String, value: Value)
        ensures
            final(self)@ == old(self)@.insert(name@, json_view(value)),
    {
        self.entries.insert(name, value);
        assert(self@ =~= old(self)@.insert(name@, json_view(value)));
    }

    /// The value under `name`.
    pub fn get(&self, name: &str) -> (found: Option<&Value>)
        ensures
            match found {
                Some(v) => self@.contains_key(name@) && self@[name@] == json_view(*v),
                None => !self@.contains_key(name@),
            },
    {
        self.entries.get(name)
    }
}

/// The integer under `key`, cut to 32 bits; `default` where there is no
/// such parameter or it is no integer of 64 signed bits.
pub open spec fn param_i32(params: Map<Seq<char>, Json>, key: Seq<char>, default: i32) -> i32 {
    if params.contains_key(key) {
        match params[key] {
            Json::Int(n) => if i64::MIN <= n <= i64::MAX {
                (n as i64) as i32
            } else {
                default
            },
            _ => default,
        }
    } else {
        default
    }
}

/// The string under `key`; nothing where there is no such parameter or it
/// is no string.
pub open spec fn param_str(params: Map<Seq<char>, Json>, key: Seq<char>) -> Option<Seq<char>> {
    if params.contains_key(key) {
        match params[key] {
            Json::Str(s) => Some(s),
            _ => None,
        }
    } else {
        None
    }
}

/// The failure for a required parameter that is not there.
pub open spec fn missing(name: Seq<char>) -> FailureView {
    FailureView::Parameter { name, detail: "Missing required parameter: "@ + name }
}

/// The failure for a parameter that an action of `secrets` requires.
pub open spec fn missing_for(name: Seq<char>, action: Seq<char>) -> FailureView {
    FailureView::Parameter {
        name,
        detail: "Missing required parameter: "@ + name + " for action="@ + action,
    }
}

/// The failure for an action that `secrets` does not know.
pub open spec fn unknown_action(action: Seq<char>) -> FailureView {
    FailureView::Parameter {
        name: "action"@,
        detail: "Unknown action: "@ + action + ". Valid actions are: list, set, delete"@,
    }
}

/// The action of a `secrets` call: `list` where none is named.
pub open spec fn secrets_action(params: Map<Seq<char>, Json>) -> Seq<char> {
    match param_str(params, "action"@) {
        Some(action) => action,
        None => "list"@,
    }
}

/// What a `secrets` call asks for.
pub open spec fn secrets_plan(params: Map<Seq<char>, Json>) -> Result<OperationView, FailureView> {
    match param_str(params, "app"@) {
        None => Err(missing("app"@)),
        Some(app) => {
            let action = secrets_action(params);
            if action == "list"@ {
                Ok(OperationView::ListSecrets { app })
            } else if action == "set"@ {
                match param_str(params, "key"@) {
                    None => Err(missing_for("key"@, "set"@)),
                    Some(key) => match param_str(params, "value"@) {
                        None => Err(missing_for("value"@, "set"@)),
                        Some(value) => Ok(OperationView::SetSecret { app, key, value }),
                    },
                }
            } else if action == "delete"@ {
                match param_str(params, "key"@) {
                    None => Err(missing_for("key"@, "delete"@)),
                    Some(key) => Ok(OperationView::DeleteSecret { app, key }),
                }
            } else {
                Err(unknown_action(action))
            }
        },
    }
}

/// Whether `method` is `short` or `short` after the prefix `fly.`.
pub open spec fn names(method: Seq<char>, short: Seq<char>) -> bool {
    method == short || method == "fly."@ + short
}

/// What a call asks for: the operation to perform, or the failure that is
/// known before anything is sent.
pub open spec fn plan(method: Seq<char>, params: Map<Seq<char>, Json>) -> Result<
    OperationView,
    FailureView,
> {
    if method == "health"@ {
        Ok(OperationView::Ping)
    } else if names(method, "apps"@) {
        Ok(OperationView::ListApps { limit: param_i32(params, "limit"@, DEFAULT_APP_LIMIT) })
    } else if names(method, "status"@) {
        match param_str(params, "app"@) {
            Some(app) => Ok(OperationView::AppStatus { app }),
            None => Err(missing("app"@)),
        }
    } else if names(method, "machines"@) {
        match param_str(params, "app"@) {
            Some(app) => Ok(OperationView::ListMachines { app }),
            None => Err(missing("app"@)),
        }
    } else if names(method, "user"@) {
        Ok(OperationView::User)
    } else if names(method, "regions"@) {
        Ok(OperationView::Regions)
    } else if names(method, "secrets"@) {
        secrets_plan(params)
    } else if names(method, "restart"@) {
        match param_str(params, "app"@) {
            Some(app) => Ok(OperationView::Restart { app }),
            None => Err(missing("app"@)),
        }
    } else {
        Err(FailureView::UnknownMethod { method })
    }
}

/// Whether a result of the service stands for a result of the model.
pub open spec fn plans(r: Result<Operation, Failure>, expected: Result<OperationView, FailureView>)
    -> bool {
    match r {
        Ok(operation) => expected == Ok::<OperationView, FailureView>(operation@),
        Err(f) => expected == Err::<OperationView, FailureView>(f@),
    }
}

/// Tells whether `method` is `short`, with or without the prefix `fly.`.
fn is_named(method: &str, short: &str) -> (yes: bool)
    ensures
        yes == names(method@, short@),
{
    if str_eq(method, short) {
        true
    } else {
        let mut long = String::from_str("fly.");
        long.append(short);
        str_eq(method, long.as_str())
    }
}

fn missing_parameter(name: &str) -> (f: Failure)
    ensures
        f@ == missing(name@),
{
    let mut detail = String::from_str("Missing required parameter: ");
    detail.append(name);
    Failure::Parameter { name: String::from_str(name), detail }
}

fn missing_parameter_for(name: &str, action: &str) -> (f: Failure)
    ensures
        f@ == missing_for(name@, action@),
{
    let mut detail = String::from_str("Missing required parameter: ");
    detail.append(name);
    detail.append(" for action=");
    detail.append(action);
    Failure::Parameter { name: String::from_str(name), detail }
}

/// Puts the data of a change under `result`, beside `true` under the word
/// that says what was done. A failure stays as it is.
fn confirm(done: &str, data: Result<Value, Failure>) -> (r: Result<Value, Failure>)
    requires
        done@ != "result"@,
    ensures
        match data {
            Ok(d) => r matches Ok(v) && json_view(v) == pair(
                done@,
                Json::Bool(true),
                "result"@,
                json_view(d),
            ),
            Err(f) => r == Err::<Value, Failure>(f),
        },
{
    match data {
        Ok(d) => Ok(ObjectBuilder::new().with(done, boolean(true)).with("result", d).finish()),
        Err(f) => Err(f),
    }
}

/// FGP service for Fly.io operations.
pub struct FlyService {
    client: FlyClient,
}

impl FlyService {
    /// The bearer token of the service's client.
    pub closed spec fn token(&self) -> Seq<char> {
        self.client.token()
    }

    /// Create a new FlyService with the given API token.
    pub fn new(token: String) -> (service: Self)
        ensures
            service.token() == token@,
    {
        FlyService { client: FlyClient::new(token) }
    }

    /// The client that the service works with.
    pub fn client(&self) -> (client: &FlyClient)
        ensures
            client.token() == self.token(),
    {
        &self.client
    }

    /// Service name.
    pub fn name(&self) -> (name: &'static str)
        ensures
            name@ == SERVICE_NAME@,
    {
        SERVICE_NAME
    }

    /// Service version.
    pub fn version(&self) -> (version: &'static str)
        ensures
            version@ == SERVICE_VERSION@,
    {
        SERVICE_VERSION
    }

    /// Helper to get an integer parameter with default.
    pub fn get_param_i32(params: &Params, key: &str, default: i32) -> (n: i32)
        ensures
            n == param_i32(params@, key@, default),
    {
        match params.get(key) {
            Some(v) => match v.as_i64() {
                Some(wide) => #[verifier::truncate]
                (wide as i32),
                None => default,
            },
            None => default,
        }
    }

    /// Helper to get a string parameter.
    pub fn get_param_str<'a>(params: &'a Params, key: &str) -> (s: Option<&'a str>)
        ensures
            match s {
                Some(text) => param_str(params@, key@) == Some(text@),
                None => param_str(params@, key@) is None,
            },
    {
        match params.get(key) {
            Some(v) => v.as_str(),
            None => None,
        }
    }

    /// Secrets implementation (list/set/delete): what the call asks for.
    pub fn handle_secrets(params: &Params) -> (r: Result<Operation, Failure>)
        ensures
            plans(r, secrets_plan(params@)),
    {
        let app = match Self::get_param_str(params, "app") {
            Some(app) => String::from_str(app),
            None => {
                return Err(missing_parameter("app"));
            },
        };
        let action = match Self::get_param_str(params, "action") {
            Some(action) => action,
            None => "list",
        };
        if str_eq(action, "list") {
            Ok(Operation::ListSecrets { app })
        } else if str_eq(action, "set") {
            let key = match Self::get_param_str(params, "key") {
                Some(key) => String::from_str(key),
                None => {
                    return Err(missing_parameter_for("key", "set"));
                },
            };
            let value = match Self::get_param_str(params, "value") {
                Some(value) => String::from_str(value),
                None => {
                    return Err(missing_parameter_for("value", "set"));
                },
            };
            Ok(Operation::SetSecret { app, key, value })
        } else if str_eq(action, "delete") {
            let key = match Self::get_param_str(params, "key") {
                Some(key) => String::from_str(key),
                None => {
                    return Err(missing_parameter_for("key", "delete"));
                },
            };
            Ok(Operation::DeleteSecret { app, key })
        } else {
            let mut detail = String::from_str("Unknown action: ");
            detail.append(action);
            detail.append(". Valid actions are: list, set, delete");
            Err(Failure::Parameter { name: String::from_str("action"), detail })
        }
    }

    /// Dispatch a method call: the operation that the call asks for. A
    /// call that cannot be served fails here, before anything is sent.
    pub fn dispatch(&self, method: &str, params: &Params) -> (r: Result<Operation, Failure>)
        ensures
            plans(r, plan(method@, params@)),
    {
        if str_eq(method, "health") {
            Ok(Operation::Ping)
        } else if is_named(method, "apps") {
            Ok(
                Operation::ListApps {
                    limit: Self::get_param_i32(params, "limit", DEFAULT_APP_LIMIT),
                },
            )
        } else if is_named(method, "status") {
            match Self::get_param_str(params, "app") {
                Some(app) => Ok(Operation::AppStatus { app: String::from_str(app) }),
                None => Err(missing_parameter("app")),
            }
        } else if is_named(method, "machines") {
            match Self::get_param_str(params, "app") {
                Some(app) => Ok(Operation::ListMachines { app: String::from_str(app) }),
                None => Err(missing_parameter("app")),
            }
        } else if is_named(method, "user") {
            Ok(Operation::User)
        } else if is_named(method, "regions") {
            Ok(Operation::Regions)
        } else if is_named(method, "secrets") {
            Self::handle_secrets(params)
        } else if is_named(method, "restart") {
            match Self::get_param_str(params, "app") {
                Some(app) => Ok(Operation::Restart { app: String::from_str(app) }),
                None => Err(missing_parameter("app")),
            }
        } else {
            Err(Failure::UnknownMethod { method: String::from_str(method) })
        }
    }

    /// Health check implementation: the report for the reply to the
    /// identity query.
    pub fn health(&self, reply: &HttpReply) -> (r: Result<Value, Failure>)
        ensures
            answers(r, (OperationView::Ping).result(reply@)),
    {
        match self.client.ping(reply) {
            Ok(connected) => {
                proof {
                    lemma_result_names();
                }
                let status = if connected {
                    "healthy"
                } else {
                    "unhealthy"
                };
                Ok(
                    ObjectBuilder::new().with("status", string(String::from_str(status))).with(
                        "api_connected",
                        boolean(connected),
                    ).with("version", string(String::from_str(SERVICE_VERSION))).finish(),
                )
            },
            Err(f) => Err(f),
        }
    }

    /// List apps implementation: the applications and their number.
    pub fn list_apps(&self, reply: &HttpReply) -> (r: Result<Value, Failure>)
        ensures
            answers(r, apps_listing(reply@.apps())),
    {
        match self.client.list_apps(reply) {
            Ok(apps) => {
                proof {
                    lemma_result_names();
                }
                Ok(
                    ObjectBuilder::new().with("apps", apps_to_json(&apps)).with(
                        "count",
                        unsigned(apps.len() as u64),
                    ).finish(),
                )
            },
            Err(f) => Err(f),
        }
    }

    /// Get app status implementation: the data as it came.
    pub fn app_status(&self, reply: &HttpReply) -> (r: Result<Value, Failure>)
        ensures
            answers(r, reply@.outcome()),
    {
        self.client.get_app_status(reply)
    }

    /// List machines implementation: the machines and their number.
    pub fn list_machines(&self, reply: &HttpReply) -> (r: Result<Value, Failure>)
        ensures
            answers(r, machines_listing(reply@.machines())),
    {
        match self.client.list_machines(reply) {
            Ok(machines) => {
                proof {
                    lemma_result_names();
                }
                Ok(
                    ObjectBuilder::new().with("machines", machines_to_json(&machines)).with(
                        "count",
                        unsigned(machines.len() as u64),
                    ).finish(),
                )
            },
            Err(f) => Err(f),
        }
    }

    /// Get user info implementation: the data as it came.
    pub fn get_user(&self, reply: &HttpReply) -> (r: Result<Value, Failure>)
        ensures
            answers(r, reply@.outcome()),
    {
        self.client.get_user(reply)
    }

    /// List regions implementation: the data as it came.
    pub fn list_regions(&self, reply: &HttpReply) -> (r: Result<Value, Failure>)
        ensures
            answers(r, reply@.outcome()),
    {
        self.client.list_regions(reply)
    }

    /// Secrets implementation (list/set/delete): the result of the action
    /// that `operation` stands for. The list is the data as it came; a
    /// change is confirmed beside its result.
    pub fn secrets(&self, operation: &Operation, reply: &HttpReply) -> (r: Result<
        Value,
        Failure,
    >)
        ensures
            answers(
                r,
                match operation@ {
                    OperationView::SetSecret { .. } => confirmed("set"@, reply@.outcome()),
                    OperationView::DeleteSecret { .. } => confirmed("deleted"@, reply@.outcome()),
                    _ => reply@.outcome(),
                },
            ),
    {
        proof {
            lemma_result_names();
        }
        match operation {
            Operation::SetSecret { .. } => confirm("set", self.client.set_secret(reply)),
            Operation::DeleteSecret { .. } => confirm("deleted", self.client.delete_secret(reply)),
            _ => self.client.list_secrets(reply),
        }
    }

    /// Restart app implementation: the data under `result`, marked as
    /// restarted.
    pub fn restart_app(&self, reply: &HttpReply) -> (r: Result<Value, Failure>)
        ensures
            answers(r, confirmed("restarted"@, reply@.outcome())),
    {
        proof {
            lemma_result_names();
        }
        confirm("restarted", self.client.restart_app(reply))
    }

    /// The result of a call, from the operation that it asked for and the
    /// reply that came for it.
    pub fn complete(&self, operation: &Operation, reply: &HttpReply) -> (r: Result<Value, Failure>)
        ensures
            answers(r, operation@.result(reply@)),
    {
        proof {
            lemma_result_names();
        }
        match operation {
            Operation::Ping => self.health(reply),
            Operation::ListApps { .. } => self.list_apps(reply),
            Operation::AppStatus { .. } => self.app_status(reply),
            Operation::ListMachines { .. } => self.list_machines(reply),
            Operation::User => self.get_user(reply),
            Operation::Regions => self.list_regions(reply),
            Operation::ListSecrets { .. } => self.secrets(operation, reply),
            Operation::SetSecret { .. } => self.secrets(operation, reply),
            Operation::DeleteSecret { .. } => self.secrets(operation, reply),
            Operation::Restart { .. } => self.restart_app(reply),
        }
    }
}

/// The length and first character of each name in a result.
pub(crate) proof fn lemma_result_names()
    ensures
        "apps"@.len() == 4 && "apps"@[0] == 'a',
        "machines"@.len() == 8 && "machines"@[0] == 'm',
        "count"@.len() == 5 && "count"@[0] == 'c',
        "status"@.len() == 6 && "status"@[0] == 's',
        "api_connected"@.len() == 13 && "api_connected"@[0] == 'a',
        "version"@.len() == 7 && "version"@[0] == 'v',
        "set"@.len() == 3 && "set"@[0] == 's',
        "deleted"@.len() == 7 && "deleted"@[0] == 'd',
        "restarted"@.len() == 9 && "restarted"@[0] == 'r',
        "result"@.len() == 6 && "result"@[0] == 'r',
{
    reveal_strlit("apps");
    reveal_strlit("machines");
    reveal_strlit("count");
    reveal_strlit("status");
    reveal_strlit("api_connected");
    reveal_strlit("version");
    reveal_strlit("set");
    reveal_strlit("deleted");
    reveal_strlit("restarted");
    reveal_strlit("result");
}

/// The report of a health call.
pub open spec fn health_report(connected: bool) -> Json {
    Json::Object(
        map![
            "status"@ => Json::Str(if connected { "healthy"@ } else { "unhealthy"@ }),
            "api_connected"@ => Json::Bool(connected),
            "version"@ => Json::Str(SERVICE_VERSION@),
        ],
    )
}

/// The result of an application listing: the applications under `apps`
/// and their number under `count`.
pub open spec fn apps_listing(apps: Result<Seq<AppView>, FailureView>) -> Result<
    Json,
    FailureView,
> {
    match apps {
        Ok(list) => Ok(
            pair("apps"@, Json::Array(apps_json(list)), "count"@, Json::Int(list.len() as int)),
        ),
        Err(f) => Err(f),
    }
}

/// The result of a machine listing: the machines under `machines` and
/// their number under `count`.
pub open spec fn machines_listing(machines: Result<Seq<MachineView>, FailureView>) -> Result<
    Json,
    FailureView,
> {
    match machines {
        Ok(list) => Ok(
            pair(
                "machines"@,
                Json::Array(machines_json(list)),
                "count"@,
                Json::Int(list.len() as int),
            ),
        ),
        Err(f) => Err(f),
    }
}

/// The result of an operation that changes something: the data under
/// `result`, and `true` under the word that says what was done.
pub open spec fn confirmed(done: Seq<char>, data: Result<Json, FailureView>) -> Result<
    Json,
    FailureView,
> {
    match data {
        Ok(d) => Ok(pair(done, Json::Bool(true), "result"@, d)),
        Err(f) => Err(f),
    }
}

impl OperationView {
    /// The result of the call that asked for this operation, given the
    /// reply that came for it.
    pub open spec fn result(self, reply: HttpReplyView) -> Result<Json, FailureView> {
        match self {
            OperationView::Ping => match reply.ping() {
                Ok(connected) => Ok(health_report(connected)),
                Err(f) => Err(f),
            },
            OperationView::ListApps { .. } => apps_listing(reply.apps()),
            OperationView::AppStatus { .. } => reply.outcome(),
            OperationView::ListMachines { .. } => machines_listing(reply.machines()),
            OperationView::User => reply.outcome(),
            OperationView::Regions => reply.outcome(),
            OperationView::ListSecrets { .. } => reply.outcome(),
            OperationView::SetSecret { .. } => confirmed("set"@, reply.outcome()),
            OperationView::DeleteSecret { .. } => confirmed("deleted"@, reply.outcome()),
            OperationView::Restart { .. } => confirmed("restarted"@, reply.outcome()),
        }
    }
}

/// What tells the method names apart, and how the long names are made.
pub(crate) proof fn lemma_method_names()
    ensures
        "health"@.len() == 6 && "health"@[0] == 'h' && "health"@[2] == 'a'
            && "health"@[4] == 't',
        "apps"@.len() == 4 && "apps"@[0] == 'a' && "apps"@[2] == 'p',
        "status"@.len() == 6 && "status"@[0] == 's' && "status"@[2] == 'a'
            && "status"@[4] == 'u',
        "machines"@.len() == 8 && "machines"@[0] == 'm' && "machines"@[2] == 'c'
            && "machines"@[4] == 'i' && "machines"@[6] == 'e',
        "user"@.len() == 4 && "user"@[0] == 'u' && "user"@[2] == 'e',
        "regions"@.len() == 7 && "regions"@[0] == 'r' && "regions"@[2] == 'g'
            && "regions"@[4] == 'o' && "regions"@[6] == 's',
        "secrets"@.len() == 7 && "secrets"@[0] == 's' && "secrets"@[2] == 'c'
            && "secrets"@[4] == 'e' && "secrets"@[6] == 's',
        "restart"@.len() == 7 && "restart"@[0] == 'r' && "restart"@[2] == 's'
            && "restart"@[4] == 'a' && "restart"@[6] == 't',
        "fly.apps"@.len() == 8 && "fly.apps"@[0] == 'f' && "fly.apps"@[2] == 'y'
            && "fly.apps"@[4] == 'a' && "fly.apps"@[6] == 'p',
        "fly.status"@.len() == 10 && "fly.status"@[0] == 'f' && "fly.status"@[2] == 'y'
            && "fly.status"@[4] == 's' && "fly.status"@[6] == 'a',
        "fly.machines"@.len() == 12 && "fly.machines"@[0] == 'f' && "fly.machines"@[2] == 'y'
            && "fly.machines"@[4] == 'm' && "fly.machines"@[6] == 'c',
        "fly.user"@.len() == 8 && "fly.user"@[0] == 'f' && "fly.user"@[2] == 'y'
            && "fly.user"@[4] == 'u' && "fly.user"@[6] == 'e',
        "fly.regions"@.len() == 11 && "fly.regions"@[0] == 'f' && "fly.regions"@[2] == 'y'
            && "fly.regions"@[4] == 'r' && "fly.regions"@[6] == 'g',
        "fly.secrets"@.len() == 11 && "fly.secrets"@[0] == 'f' && "fly.secrets"@[2] == 'y'
            && "fly.secrets"@[4] == 's' && "fly.secrets"@[6] == 'c',
        "fly.restart"@.len() == 11 && "fly.restart"@[0] == 'f' && "fly.restart"@[2] == 'y'
            && "fly.restart"@[4] == 'r' && "fly.restart"@[6] == 's',
        "fly."@ + "apps"@ == "fly.apps"@,
        "fly."@ + "status"@ == "fly.status"@,
        "fly."@ + "machines"@ == "fly.machines"@,
        "fly."@ + "user"@ == "fly.user"@,
        "fly."@ + "regions"@ == "fly.regions"@,
        "fly."@ + "secrets"@ == "fly.secrets"@,
        "fly."@ + "restart"@ == "fly.restart"@,
{
    reveal_strlit("health");
    reveal_strlit("apps");
    reveal_strlit("status");
    reveal_strlit("machines");
    reveal_strlit("user");
    reveal_strlit("regions");
    reveal_strlit("secrets");
    reveal_strlit("restart");
    reveal_strlit("fly.apps");
    reveal_strlit("fly.status");
    reveal_strlit("fly.machines");
    reveal_strlit("fly.user");
    reveal_strlit("fly.regions");
    reveal_strlit("fly.secrets");
    reveal_strlit("fly.restart");
    reveal_strlit("fly.");
    assert("fly."@ + "apps"@ =~= "fly.apps"@);
    assert("fly."@ + "status"@ =~= "fly.status"@);
    assert("fly."@ + "machines"@ =~= "fly.machines"@);
    assert("fly."@ + "user"@ =~= "fly.user"@);
    assert("fly."@ + "regions"@ =~= "fly.regions"@);
    assert("fly."@ + "secrets"@ =~= "fly.secrets"@);
    assert("fly."@ + "restart"@ =~= "fly.restart"@);
}

/// Whether `method` is a name that the service knows.
pub open spec fn is_known(method: Seq<char>) -> bool {
    ||| method == "health"@
    ||| names(method, "apps"@)
    ||| names(method, "status"@)
    ||| names(method, "machines"@)
    ||| names(method, "user"@)
    ||| names(method, "regions"@)
    ||| names(method, "secrets"@)
    ||| names(method, "restart"@)
}

/// A method name that the service does not know gives an unknown-method
/// failure that holds the name as it was given.
pub proof fn lemma_unknown_method(method: Seq<char>, params: Map<Seq<char>, Json>)
    requires
        !is_known(method),
    ensures
        plan(method, params) == Err::<OperationView, FailureView>(
            FailureView::UnknownMethod { method },
        ),
        (FailureView::UnknownMethod { method }).message() == "Unknown method: "@ + method,
{
}

/// A method name that the service knows never gives an unknown-method
/// failure, whatever the parameters are.
pub proof fn lemma_known_method(method: Seq<char>, params: Map<Seq<char>, Json>)
    requires
        is_known(method),
    ensures
        !(plan(method, params) matches Err(FailureView::UnknownMethod { .. })),
{
}

/// Every failure that is known before anything is sent is an
/// unknown-method failure or a parameter failure.
pub proof fn lemma_failures_before_sending(method: Seq<char>, params: Map<Seq<char>, Json>)
    ensures
        plan(method, params) matches Err(f) ==> f is UnknownMethod || f is Parameter,
{
}

/// Setting a secret without a value fails with a parameter failure that
/// names `value`.
pub proof fn lemma_set_needs_value(method: Seq<char>, params: Map<Seq<char>, Json>)
    requires
        names(method, "secrets"@),
        param_str(params, "app"@) is Some,
        param_str(params, "action"@) == Some("set"@),
        param_str(params, "key"@) is Some,
        param_str(params, "value"@) is None,
    ensures
        plan(method, params) == Err::<OperationView, FailureView>(
            missing_for("value"@, "set"@),
        ),
        missing_for("value"@, "set"@) matches FailureView::Parameter { name, .. } && name
            == "value"@,
{
    lemma_method_names();
    reveal_strlit("set");
    reveal_strlit("list");
}

} // verus!
