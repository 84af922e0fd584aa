//! Data models for Fly.io API responses.
//!
//! Each model has a view that holds its fields as mathematical values, and
//! the views say what the JSON form of a model is.

use crate::fields::ObjectBuilder;
use crate::json::{array, boolean, integer, json_view, json_views, null, string, Json};
use serde_json::Value;
use vstd::prelude::*;

verus! {

/// The length and first character of each field name, which tell the names
/// of one model apart.
pub(crate) proof fn lemma_field_names()
    ensures
        "id"@.len() == 2 && "id"@[0] == 'i',
        "name"@.len() == 4 && "name"@[0] == 'n',
        "slug"@.len() == 4 && "slug"@[0] == 's',
        "version"@.len() == 7 && "version"@[0] == 'v',
        "status"@.len() == 6 && "status"@[0] == 's',
        "description"@.len() == 11 && "description"@[0] == 'd',
        "created_at"@.len() == 10 && "created_at"@[0] == 'c',
        "organization"@.len() == 12 && "organization"@[0] == 'o',
        "hostname"@.len() == 8 && "hostname"@[0] == 'h',
        "deployed"@.len() == 8 && "deployed"@[0] == 'd',
        "current_release"@.len() == 15 && "current_release"@[0] == 'c',
        "state"@.len() == 5 && "state"@[0] == 's',
        "region"@.len() == 6 && "region"@[0] == 'r',
        "instance_id"@.len() == 11 && "instance_id"@[0] == 'i',
        "private_ip"@.len() == 10 && "private_ip"@[0] == 'p',
        "config"@.len() == 6 && "config"@[0] == 'c',
        "size"@.len() == 4 && "size"@[0] == 's',
        "image"@.len() == 5 && "image"@[0] == 'i',
        "app"@.len() == 3 && "app"@[0] == 'a',
        "machines"@.len() == 8 && "machines"@[0] == 'm',
        "allocations"@.len() == 11 && "allocations"@[0] == 'a',
        "timestamp"@.len() == 9 && "timestamp"@[0] == 't',
        "message"@.len() == 7 && "message"@[0] == 'm',
        "level"@.len() == 5 && "level"@[0] == 'l',
        "instance"@.len() == 8 && "instance"@[0] == 'i',
{
    reveal_strlit("app");
    reveal_strlit("machines");
    reveal_strlit("allocations");
    reveal_strlit("timestamp");
    reveal_strlit("message");
    reveal_strlit("level");
    reveal_strlit("instance");
    reveal_strlit("id");
    reveal_strlit("name");
    reveal_strlit("slug");
    reveal_strlit("version");
    reveal_strlit("status");
    reveal_strlit("description");
    reveal_strlit("created_at");
    reveal_strlit("organization");
    reveal_strlit("hostname");
    reveal_strlit("deployed");
    reveal_strlit("current_release");
    reveal_strlit("state");
    reveal_strlit("region");
    reveal_strlit("instance_id");
    reveal_strlit("private_ip");
    reveal_strlit("config");
    reveal_strlit("size");
    reveal_strlit("image");
}

/// The JSON form of a text that may be absent.
pub open spec fn text_json(text: Option<Seq<char>>) -> Json {
    match text {
        Some(s) => Json::Str(s),
        None => Json::Null,
    }
}

/// The JSON form of a number that may be absent.
pub open spec fn number_json(n: Option<i32>) -> Json {
    match n {
        Some(n) => Json::Int(n as int),
        None => Json::Null,
    }
}

fn text_value(text: &Option<String>) -> (v: Value)
    ensures
        json_view(v) == text_json(text.deep_view()),
{
    match text {
        Some(s) => string(s.clone()),
        None => null(),
    }
}

fn number_value(n: &Option<i32>) -> (v: Value)
    ensures
        json_view(v) == number_json(*n),
{
    match n {
        Some(n) => integer(*n as i64),
        None => null(),
    }
}

/// Fly.io organization.
#[derive(Debug, Clone)]
pub struct Organization {
    pub id: String,
    pub name: String,
    pub slug: String,
}

/// The fields of an organization as mathematical values.
pub struct OrganizationView {
    pub id: Seq<char>,
    pub name: Seq<char>,
    pub slug: Seq<char>,
}

impl View for Organization {
    type V = OrganizationView;

    open spec fn view(&self) -> OrganizationView {
        OrganizationView { id: self.id@, name: self.name@, slug: self.slug@ }
    }
}

impl DeepView for Organization {
    type V = OrganizationView;

    open spec fn deep_view(&self) -> OrganizationView {
        self@
    }
}

impl OrganizationView {
    pub open spec fn to_json(self) -> Json {
        Json::Object(
            map![
                "id"@ => Json::Str(self.id),
                "name"@ => Json::Str(self.name),
                "slug"@ => Json::Str(self.slug),
            ],
        )
    }
}

impl Organization {
    /// The JSON form of the organization, under its internal field names.
    pub fn to_json(&self) -> (v: Value)
        ensures
            json_view(v) == self@.to_json(),
    {
        proof {
            lemma_field_names();
        }
        ObjectBuilder::new().with("id", string(self.id.clone())).with(
            "name",
            string(self.name.clone()),
        ).with("slug", string(self.slug.clone())).finish()
    }
}

/// Fly.io release.
#[derive(Debug, Clone)]
pub struct Release {
    pub id: String,
    pub version: i32,
    pub status: String,
    pub description: Option<String>,
    pub created_at: Option<String>,
}

/// The fields of a release as mathematical values.
pub struct ReleaseView {
    pub id: Seq<char>,
    pub version: i32,
    pub status: Seq<char>,
    pub description: Option<Seq<char>>,
    pub created_at: Option<Seq<char>>,
}

impl View for Release {
    type V = ReleaseView;

    open spec fn view(&self) -> ReleaseView {
        ReleaseView {
            id: self.id@,
            version: self.version,
            status: self.status@,
            description: self.description.deep_view(),
            created_at: self.created_at.deep_view(),
        }
    }
}

impl DeepView for Release {
    type V = ReleaseView;

    open spec fn deep_view(&self) -> ReleaseView {
        self@
    }
}

impl ReleaseView {
    pub open spec fn to_json(self) -> Json {
        Json::Object(
            map![
                "id"@ => Json::Str(self.id),
                "version"@ => Json::Int(self.version as int),
                "status"@ => Json::Str(self.status),
                "description"@ => text_json(self.description),
                "created_at"@ => text_json(self.created_at),
            ],
        )
    }
}

impl Release {
    /// The JSON form of the release, under its internal field names.
    pub fn to_json(&self) -> (v: Value)
        ensures
            json_view(v) == self@.to_json(),
    {
        proof {
            lemma_field_names();
        }
        ObjectBuilder::new().with("id", string(self.id.clone())).with(
            "version",
            integer(self.version as i64),
        ).with("status", string(self.status.clone())).with(
            "description",
            text_value(&self.description),
        ).with("created_at", text_value(&self.created_at)).finish()
    }
}

/// Fly.io application.
#[derive(Debug, Clone)]
pub struct App {
    pub id: String,
    pub name: String,
    pub status: String,
    pub organization: Option<Organization>,
    pub hostname: Option<String>,
    pub deployed: bool,
    pub current_release: Option<Release>,
}

/// The fields of an application as mathematical values.
pub struct AppView {
    pub id: Seq<char>,
    pub name: Seq<char>,
    pub status: Seq<char>,
    pub organization: Option<OrganizationView>,
    pub hostname: Option<Seq<char>>,
    pub deployed: bool,
    pub current_release: Option<ReleaseView>,
}

impl View for App {
    type V = AppView;

    open spec fn view(&self) -> AppView {
        AppView {
            id: self.id@,
            name: self.name@,
            status: self.status@,
            organization: self.organization.deep_view(),
            hostname: self.hostname.deep_view(),
            deployed: self.deployed,
            current_release: self.current_release.deep_view(),
        }
    }
}

impl DeepView for App {
    type V = AppView;

    open spec fn deep_view(&self) -> AppView {
        self@
    }
}

impl AppView {
    pub open spec fn organization_json(self) -> Json {
        match self.organization {
            Some(o) => o.to_json(),
            None => Json::Null,
        }
    }

    pub open spec fn release_json(self) -> Json {
        match self.current_release {
            Some(r) => r.to_json(),
            None => Json::Null,
        }
    }

    pub open spec fn to_json(self) -> Json {
        Json::Object(
            map![
                "id"@ => Json::Str(self.id),
                "name"@ => Json::Str(self.name),
                "status"@ => Json::Str(self.status),
                "organization"@ => self.organization_json(),
                "hostname"@ => text_json(self.hostname),
                "deployed"@ => Json::Bool(self.deployed),
                "current_release"@ => self.release_json(),
            ],
        )
    }
}

impl App {
    /// The JSON form of the application, under its internal field names.
    pub fn to_json(&self) -> (v: Value)
        ensures
            json_view(v) == self@.to_json(),
    {
        let organization = match &self.organization {
            Some(o) => o.to_json(),
            None => null(),
        };
        let release = match &self.current_release {
            Some(r) => r.to_json(),
            None => null(),
        };
        proof {
            lemma_field_names();
        }
        ObjectBuilder::new().with("id", string(self.id.clone())).with(
            "name",
            string(self.name.clone()),
        ).with("status", string(self.status.clone())).with("organization", organization).with(
            "hostname",
            text_value(&self.hostname),
        ).with("deployed", boolean(self.deployed)).with("current_release", release).finish()
    }
}

/// The JSON forms of a run of applications, in order.
pub open spec fn apps_json(apps: Seq<AppView>) -> Seq<Json> {
    apps.map_values(|a: AppView| a.to_json())
}

/// The JSON array of the applications, in order.
pub fn apps_to_json(apps: &Vec<App>) -> (v: Value)
    ensures
        json_view(v) == Json::Array(apps_json(apps.deep_view())),
{
    let mut items: Vec<Value> = Vec::new();
    let mut i: usize = 0;
    while i < apps.len()
        invariant
            i <= apps.len(),
            items.len() == i,
            forall|k: int| 0 <= k < i ==> json_view(#[trigger] items@[k]) == apps@[k]@.to_json(),
        decreases apps.len() - i,
    {
        items.push(apps[i].to_json());
        i += 1;
    }
    assert(json_views(items@) =~= apps_json(apps.deep_view()));
    array(items)
}

/// Machine configuration.
#[derive(Debug, Clone)]
pub struct MachineConfig {
    pub size: Option<String>,
    pub image: Option<String>,
}

/// The fields of a machine configuration as mathematical values.
pub struct MachineConfigView {
    pub size: Option<Seq<char>>,
    pub image: Option<Seq<char>>,
}

impl View for MachineConfig {
    type V = MachineConfigView;

    open spec fn view(&self) -> MachineConfigView {
        MachineConfigView { size: self.size.deep_view(), image: self.image.deep_view() }
    }
}

impl DeepView for MachineConfig {
    type V = MachineConfigView;

    open spec fn deep_view(&self) -> MachineConfigView {
        self@
    }
}

impl MachineConfigView {
    pub open spec fn to_json(self) -> Json {
        Json::Object(
            map!["size"@ => text_json(self.size), "image"@ => text_json(self.image)],
        )
    }
}

impl MachineConfig {
    /// The JSON form of the configuration.
    pub fn to_json(&self) -> (v: Value)
        ensures
            json_view(v) == self@.to_json(),
    {
        proof {
            lemma_field_names();
        }
        ObjectBuilder::new().with("size", text_value(&self.size)).with(
            "image",
            text_value(&self.image),
        ).finish()
    }
}

/// Fly.io machine (VM instance).
#[derive(Debug, Clone)]
pub struct Machine {
    pub id: String,
    pub name: String,
    pub state: String,
    pub region: String,
    pub instance_id: Option<String>,
    pub private_ip: Option<String>,
    pub config: Option<MachineConfig>,
}

/// The fields of a machine as mathematical values.
pub struct MachineView {
    pub id: Seq<char>,
    pub name: Seq<char>,
    pub state: Seq<char>,
    pub region: Seq<char>,
    pub instance_id: Option<Seq<char>>,
    pub private_ip: Option<Seq<char>>,
    pub config: Option<MachineConfigView>,
}

impl View for Machine {
    type V = MachineView;

    open spec fn view(&self) -> MachineView {
        MachineView {
            id: self.id@,
            name: self.name@,
            state: self.state@,
            region: self.region@,
            instance_id: self.instance_id.deep_view(),
            private_ip: self.private_ip.deep_view(),
            config: self.config.deep_view(),
        }
    }
}

impl DeepView for Machine {
    type V = MachineView;

    open spec fn deep_view(&self) -> MachineView {
        self@
    }
}

impl MachineView {
    pub open spec fn config_json(self) -> Json {
        match self.config {
            Some(c) => c.to_json(),
            None => Json::Null,
        }
    }

    pub open spec fn to_json(self) -> Json {
        Json::Object(
            map![
                "id"@ => Json::Str(self.id),
                "name"@ => Json::Str(self.name),
                "state"@ => Json::Str(self.state),
                "region"@ => Json::Str(self.region),
                "instance_id"@ => text_json(self.instance_id),
                "private_ip"@ => text_json(self.private_ip),
                "config"@ => self.config_json(),
            ],
        )
    }
}

impl Machine {
    /// The JSON form of the machine, under its internal field names.
    pub fn to_json(&self) -> (v: Value)
        ensures
            json_view(v) == self@.to_json(),
    {
        let config = match &self.config {
            Some(c) => c.to_json(),
            None => null(),
        };
        proof {
            lemma_field_names();
        }
        ObjectBuilder::new().with("id", string(self.id.clone())).with(
            "name",
            string(self.name.clone()),
        ).with("state", string(self.state.clone())).with(
            "region",
            string(self.region.clone()),
        ).with("instance_id", text_value(&self.instance_id)).with(
            "private_ip",
            text_value(&self.private_ip),
        ).with("config", config).finish()
    }
}

/// The JSON forms of a run of machines, in order.
pub open spec fn machines_json(machines: Seq<MachineView>) -> Seq<Json> {
    machines.map_values(|m: MachineView| m.to_json())
}

/// The JSON array of the machines, in order.
pub fn machines_to_json(machines: &Vec<Machine>) -> (v: Value)
    ensures
        json_view(v) == Json::Array(machines_json(machines.deep_view())),
{
    let mut items: Vec<Value> = Vec::new();
    let mut i: usize = 0;
    while i < machines.len()
        invariant
            i <= machines.len(),
            items.len() == i,
            forall|k: int|
                0 <= k < i ==> json_view(#[trigger] items@[k]) == machines@[k]@.to_json(),
        decreases machines.len() - i,
    {
        items.push(machines[i].to_json());
        i += 1;
    }
    assert(json_views(items@) =~= machines_json(machines.deep_view()));
    array(items)
}

/// VM allocation (legacy).
#[derive(Debug, Clone)]
pub struct Allocation {
    pub id: String,
    pub status: String,
    pub region: String,
    pub version: Option<i32>,
}

/// The fields of an allocation as mathematical values.
pub struct AllocationView {
    pub id: Seq<char>,
    pub status: Seq<char>,
    pub region: Seq<char>,
    pub version: Option<i32>,
}

impl View for Allocation {
    type V = AllocationView;

    open spec fn view(&self) -> AllocationView {
        AllocationView {
            id: self.id@,
            status: self.status@,
            region: self.region@,
            version: self.version,
        }
    }
}

impl DeepView for Allocation {
    type V = AllocationView;

    open spec fn deep_view(&self) -> AllocationView {
        self@
    }
}

impl AllocationView {
    pub open spec fn to_json(self) -> Json {
        Json::Object(
            map![
                "id"@ => Json::Str(self.id),
                "status"@ => Json::Str(self.status),
                "region"@ => Json::Str(self.region),
                "version"@ => number_json(self.version),
            ],
        )
    }
}

impl Allocation {
    /// The JSON form of the allocation.
    pub fn to_json(&self) -> (v: Value)
        ensures
            json_view(v) == self@.to_json(),
    {
        proof {
            lemma_field_names();
        }
        ObjectBuilder::new().with("id", string(self.id.clone())).with(
            "status",
            string(self.status.clone()),
        ).with("region", string(self.region.clone())).with(
            "version",
            number_value(&self.version),
        ).finish()
    }
}

/// The JSON forms of a run of allocations, in order.
pub open spec fn allocations_json(allocations: Seq<AllocationView>) -> Seq<Json> {
    allocations.map_values(|a: AllocationView| a.to_json())
}

/// The JSON array of the allocations, in order.
pub fn allocations_to_json(allocations: &Vec<Allocation>) -> (v: Value)
    ensures
        json_view(v) == Json::Array(allocations_json(allocations.deep_view())),
{
    let mut items: Vec<Value> = Vec::new();
    let mut i: usize = 0;
    while i < allocations.len()
        invariant
            i <= allocations.len(),
            items.len() == i,
            forall|k: int|
                0 <= k < i ==> json_view(#[trigger] items@[k]) == allocations@[k]@.to_json(),
        decreases allocations.len() - i,
    {
        items.push(allocations[i].to_json());
        i += 1;
    }
    assert(json_views(items@) =~= allocations_json(allocations.deep_view()));
    array(items)
}

/// Application status response.
#[derive(Debug, Clone)]
pub struct AppStatus {
    pub app: App,
    pub machines: Vec<Machine>,
    pub allocations: Vec<Allocation>,
}

/// The fields of an application status as mathematical values.
pub struct AppStatusView {
    pub app: AppView,
    pub machines: Seq<MachineView>,
    pub allocations: Seq<AllocationView>,
}

impl View for AppStatus {
    type V = AppStatusView;

    open spec fn view(&self) -> AppStatusView {
        AppStatusView {
            app: self.app@,
            machines: self.machines.deep_view(),
            allocations: self.allocations.deep_view(),
        }
    }
}

impl DeepView for AppStatus {
    type V = AppStatusView;

    open spec fn deep_view(&self) -> AppStatusView {
        self@
    }
}

impl AppStatusView {
    pub open spec fn to_json(self) -> Json {
        Json::Object(
            map![
                "app"@ => self.app.to_json(),
                "machines"@ => Json::Array(machines_json(self.machines)),
                "allocations"@ => Json::Array(allocations_json(self.allocations)),
            ],
        )
    }
}

impl AppStatus {
    /// The JSON form of the status.
    pub fn to_json(&self) -> (v: Value)
        ensures
            json_view(v) == self@.to_json(),
    {
        proof {
            lemma_field_names();
        }
        ObjectBuilder::new().with("app", self.app.to_json()).with(
            "machines",
            machines_to_json(&self.machines),
        ).with("allocations", allocations_to_json(&self.allocations)).finish()
    }
}

/// Log entry.
#[derive(Debug, Clone)]
pub struct LogEntry {
    pub timestamp: String,
    pub message: String,
    pub level: Option<String>,
    pub region: Option<String>,
    pub instance: Option<String>,
}

/// The fields of a log entry as mathematical values.
pub struct LogEntryView {
    pub timestamp: Seq<char>,
    pub message: Seq<char>,
    pub level: Option<Seq<char>>,
    pub region: Option<Seq<char>>,
    pub instance: Option<Seq<char>>,
}

impl View for LogEntry {
    type V = LogEntryView;

    open spec fn view(&self) -> LogEntryView {
        LogEntryView {
            timestamp: self.timestamp@,
            message: self.message@,
            level: self.level.deep_view(),
            region: self.region.deep_view(),
            instance: self.instance.deep_view(),
        }
    }
}

impl DeepView for LogEntry {
    type V = LogEntryView;

    open spec fn deep_view(&self) -> LogEntryView {
        self@
    }
}

impl LogEntryView {
    pub open spec fn to_json(self) -> Json {
        Json::Object(
            map![
                "timestamp"@ => Json::Str(self.timestamp),
                "message"@ => Json::Str(self.message),
                "level"@ => text_json(self.level),
                "region"@ => text_json(self.region),
                "instance"@ => text_json(self.instance),
            ],
        )
    }
}

impl LogEntry {
    /// The JSON form of the entry.
    pub fn to_json(&self) -> (v: Value)
        ensures
            json_view(v) == self@.to_json(),
    {
        proof {
            lemma_field_names();
        }
        ObjectBuilder::new().with("timestamp", string(self.timestamp.clone())).with(
            "message",
            string(self.message.clone()),
        ).with("level", text_value(&self.level)).with("region", text_value(&self.region)).with(
            "instance",
            text_value(&self.instance),
        ).finish()
    }
}

/// GraphQL error.
#[derive(Debug)]
pub struct GraphQLError {
    pub message: String,
    /// Path can be strings or integers.
    pub path: Option<Vec<Value>>,
}

/// The fields of a GraphQL error as mathematical values.
pub struct GraphQLErrorView {
    pub message: Seq<char>,
    pub path: Option<Seq<Json>>,
}

impl View for GraphQLError {
    type V = GraphQLErrorView;

    open spec fn view(&self) -> GraphQLErrorView {
        GraphQLErrorView {
            message: self.message@,
            path: match self.path {
                Some(p) => Some(json_views(p@)),
                None => None,
            },
        }
    }
}

impl DeepView for GraphQLError {
    type V = GraphQLErrorView;

    open spec fn deep_view(&self) -> GraphQLErrorView {
        self@
    }
}

/// GraphQL response wrapper.
#[derive(Debug)]
pub struct GraphQLResponse<T> {
    pub data: Option<T>,
    pub errors: Option<Vec<GraphQLError>>,
}

} // verus!
