//! The response normalizer: from the nodes that the upstream sends to the
//! models of this library.
//!
//! A node names its fields in camel case. A field that the data model
//! declares optional may be absent or null; a collection may hold null in
//! place of an item that the caller is not allowed to see.

use crate::fields::{
    read_flag_or_false, read_int32, read_optional_text, read_present, read_text,
    read_text_or_empty,
};
use crate::json::{json_view, json_views, member, Json};
use crate::models::{
    lemma_field_names, App, AppView, Machine, MachineConfig, MachineConfigView, MachineView,
    Organization, OrganizationView, Release, ReleaseView,
};
use serde_json::Value;
use vstd::prelude::*;

verus! {

impl OrganizationView {
    /// The organization that a node stands for: `id`, `name` and `slug`
    /// are strings.
    pub open spec fn from_node(node: Json) -> Option<OrganizationView> {
        match (node.text("id"@), node.text("name"@), node.text("slug"@)) {
            (Some(id), Some(name), Some(slug)) => Some(OrganizationView { id, name, slug }),
            _ => None,
        }
    }

    /// The organization under `key`, which may be absent or null. One that
    /// is there must fit.
    pub open spec fn optional(node: Json, key: Seq<char>) -> Option<Option<OrganizationView>> {
        match node.present(key) {
            None => Some(None),
            Some(inner) => match OrganizationView::from_node(inner) {
                Some(o) => Some(Some(o)),
                None => None,
            },
        }
    }
}

impl ReleaseView {
    /// The release that a node stands for: `id` and `status` are strings,
    /// `version` is an integer of 32 bits, `description` and `createdAt`
    /// are strings where they are there.
    pub open spec fn from_node(node: Json) -> Option<ReleaseView> {
        match (
            node.text("id"@),
            node.int32("version"@),
            node.text("status"@),
            node.optional_text("description"@),
            node.optional_text("createdAt"@),
        ) {
            (Some(id), Some(version), Some(status), Some(description), Some(created_at)) => Some(
                ReleaseView { id, version, status, description, created_at },
            ),
            _ => None,
        }
    }

    /// The release under `key`, which may be absent or null. One that is
    /// there must fit.
    pub open spec fn optional(node: Json, key: Seq<char>) -> Option<Option<ReleaseView>> {
        match node.present(key) {
            None => Some(None),
            Some(inner) => match ReleaseView::from_node(inner) {
                Some(r) => Some(Some(r)),
                None => None,
            },
        }
    }
}

impl AppView {
    /// The application that a node stands for: `id` and `name` are
    /// strings; `status` is a string, and empty where it is absent or
    /// null; `deployed` is a boolean, and false where it is absent or
    /// null; `hostname`, `organization` and `currentRelease` may be absent
    /// or null.
    pub open spec fn from_node(node: Json) -> Option<AppView> {
        match (
            node.text("id"@),
            node.text("name"@),
            node.text_or_empty("status"@),
            node.flag_or_false("deployed"@),
            node.optional_text("hostname"@),
            OrganizationView::optional(node, "organization"@),
            ReleaseView::optional(node, "currentRelease"@),
        ) {
            (
                Some(id),
                Some(name),
                Some(status),
                Some(deployed),
                Some(hostname),
                Some(organization),
                Some(current_release),
            ) => Some(
                AppView { id, name, status, organization, hostname, deployed, current_release },
            ),
            _ => None,
        }
    }
}

impl MachineConfigView {
    /// The configuration that a node stands for: an object whose `size`
    /// and `image` are strings where they are there.
    pub open spec fn from_node(node: Json) -> Option<MachineConfigView> {
        if node is Object {
            match (node.optional_text("size"@), node.optional_text("image"@)) {
                (Some(size), Some(image)) => Some(MachineConfigView { size, image }),
                _ => None,
            }
        } else {
            None
        }
    }

    /// The configuration under `key`, which may be absent or null. One
    /// that is there must fit.
    pub open spec fn optional(node: Json, key: Seq<char>) -> Option<Option<MachineConfigView>> {
        match node.present(key) {
            None => Some(None),
            Some(inner) => match MachineConfigView::from_node(inner) {
                Some(c) => Some(Some(c)),
                None => None,
            },
        }
    }
}

impl MachineView {
    /// The machine that a node stands for: `id`, `name`, `state` and
    /// `region` are strings; `instanceId`, `privateIp` and `config` may be
    /// absent or null.
    pub open spec fn from_node(node: Json) -> Option<MachineView> {
        match (
            node.text("id"@),
            node.text("name"@),
            node.text("state"@),
            node.text("region"@),
            node.optional_text("instanceId"@),
            node.optional_text("privateIp"@),
            MachineConfigView::optional(node, "config"@),
        ) {
            (
                Some(id),
                Some(name),
                Some(state),
                Some(region),
                Some(instance_id),
                Some(private_ip),
                Some(config),
            ) => Some(MachineView { id, name, state, region, instance_id, private_ip, config }),
            _ => None,
        }
    }
}

impl Organization {
    /// Reads an organization from its node.
    pub fn from_node(node: &Value) -> (r: Option<Organization>)
        ensures
            r.deep_view() == OrganizationView::from_node(json_view(*node)),
    {
        let id = read_text(node, "id");
        let name = read_text(node, "name");
        let slug = read_text(node, "slug");
        match (id, name, slug) {
            (Some(id), Some(name), Some(slug)) => Some(Organization { id, name, slug }),
            _ => None,
        }
    }

    /// Reads the organization under `key`, which may be absent or null.
    pub fn optional(node: &Value, key: &str) -> (r: Option<Option<Organization>>)
        ensures
            r.deep_view() == OrganizationView::optional(json_view(*node), key@),
    {
        match read_present(node, key) {
            None => Some(None),
            Some(inner) => match Organization::from_node(inner) {
                Some(o) => Some(Some(o)),
                None => None,
            },
        }
    }
}

impl Release {
    /// Reads a release from its node.
    pub fn from_node(node: &Value) -> (r: Option<Release>)
        ensures
            r.deep_view() == ReleaseView::from_node(json_view(*node)),
    {
        let id = read_text(node, "id");
        let version = read_int32(node, "version");
        let status = read_text(node, "status");
        let description = read_optional_text(node, "description");
        let created_at = read_optional_text(node, "createdAt");
        match (id, version, status, description, created_at) {
            (Some(id), Some(version), Some(status), Some(description), Some(created_at)) => Some(
                Release { id, version, status, description, created_at },
            ),
            _ => None,
        }
    }

    /// Reads the release under `key`, which may be absent or null.
    pub fn optional(node: &Value, key: &str) -> (r: Option<Option<Release>>)
        ensures
            r.deep_view() == ReleaseView::optional(json_view(*node), key@),
    {
        match read_present(node, key) {
            None => Some(None),
            Some(inner) => match Release::from_node(inner) {
                Some(release) => Some(Some(release)),
                None => None,
            },
        }
    }
}

impl App {
    /// Reads an application from its node.
    pub fn from_node(node: &Value) -> (r: Option<App>)
        ensures
            r.deep_view() == AppView::from_node(json_view(*node)),
    {
        let id = read_text(node, "id");
        let name = read_text(node, "name");
        let status = read_text_or_empty(node, "status");
        let deployed = read_flag_or_false(node, "deployed");
        let hostname = read_optional_text(node, "hostname");
        let organization = Organization::optional(node, "organization");
        let current_release = Release::optional(node, "currentRelease");
        match (id, name, status, deployed, hostname, organization, current_release) {
            (
                Some(id),
                Some(name),
                Some(status),
                Some(deployed),
                Some(hostname),
                Some(organization),
                Some(current_release),
            ) => Some(App { id, name, status, organization, hostname, deployed, current_release }),
            _ => None,
        }
    }
}

impl MachineConfig {
    /// Reads a machine configuration from its node.
    pub fn from_node(node: &Value) -> (r: Option<MachineConfig>)
        ensures
            r.deep_view() == MachineConfigView::from_node(json_view(*node)),
    {
        if !node.is_object() {
            return None;
        }
        let size = read_optional_text(node, "size");
        let image = read_optional_text(node, "image");
        match (size, image) {
            (Some(size), Some(image)) => Some(MachineConfig { size, image }),
            _ => None,
        }
    }

    /// Reads the configuration under `key`, which may be absent or null.
    pub fn optional(node: &Value, key: &str) -> (r: Option<Option<MachineConfig>>)
        ensures
            r.deep_view() == MachineConfigView::optional(json_view(*node), key@),
    {
        match read_present(node, key) {
            None => Some(None),
            Some(inner) => match MachineConfig::from_node(inner) {
                Some(config) => Some(Some(config)),
                None => None,
            },
        }
    }
}

impl Machine {
    /// Reads a machine from its node.
    pub fn from_node(node: &Value) -> (r: Option<Machine>)
        ensures
            r.deep_view() == MachineView::from_node(json_view(*node)),
    {
        let id = read_text(node, "id");
        let name = read_text(node, "name");
        let state = read_text(node, "state");
        let region = read_text(node, "region");
        let instance_id = read_optional_text(node, "instanceId");
        let private_ip = read_optional_text(node, "privateIp");
        let config = MachineConfig::optional(node, "config");
        match (id, name, state, region, instance_id, private_ip, config) {
            (
                Some(id),
                Some(name),
                Some(state),
                Some(region),
                Some(instance_id),
                Some(private_ip),
                Some(config),
            ) => Some(Machine { id, name, state, region, instance_id, private_ip, config }),
            _ => None,
        }
    }
}

/// Tells a slot that holds an item from a null slot.
pub open spec fn holds_item() -> spec_fn(Json) -> bool {
    |n: Json| !(n is Null)
}

/// The slots of a collection that hold an item, in their order.
pub open spec fn visible(nodes: Seq<Json>) -> Seq<Json> {
    nodes.filter(holds_item())
}

/// The applications of a collection: the null slots are dropped, the
/// others read in their order. Nothing where a slot holds something that
/// is no application.
pub open spec fn apps_of(nodes: Seq<Json>) -> Option<Seq<AppView>> {
    let kept = visible(nodes);
    if forall|i: int| 0 <= i < kept.len() ==> AppView::from_node(#[trigger] kept[i]) is Some {
        Some(kept.map_values(|n: Json| AppView::from_node(n).unwrap()))
    } else {
        None
    }
}

/// The machines of a collection, in their order. Nothing where a slot
/// holds something that is no machine; a null slot is no machine.
pub open spec fn machines_of(nodes: Seq<Json>) -> Option<Seq<MachineView>> {
    if forall|i: int| 0 <= i < nodes.len() ==> MachineView::from_node(#[trigger] nodes[i]) is Some {
        Some(nodes.map_values(|n: Json| MachineView::from_node(n).unwrap()))
    } else {
        None
    }
}

/// Reads the applications of a collection and drops its null slots.
pub fn normalize_apps(nodes: &Vec<Value>) -> (r: Option<Vec<App>>)
    ensures
        r.deep_view() == apps_of(json_views(nodes@)),
{
    let ghost docs = json_views(nodes@);
    let mut out: Vec<App> = Vec::new();
    let mut i: usize = 0;
    while i < nodes.len()
        invariant
            i <= nodes.len(),
            docs == json_views(nodes@),
            out.len() == visible(docs.take(i as int)).len(),
            forall|k: int|
                0 <= k < out.len() ==> AppView::from_node(visible(docs.take(i as int))[k]) == Some(
                    #[trigger] out@[k]@,
                ),
        decreases nodes.len() - i,
    {
        let node = &nodes[i];
        proof {
            reveal(Seq::filter);
            assert(docs.take(i + 1).drop_last() =~= docs.take(i as int));
            assert(docs.take(i + 1).last() == json_view(*node));
        }
        if !node.is_null() {
            match App::from_node(node) {
                Some(app) => {
                    out.push(app);
                },
                None => {
                    proof {
                        docs.lemma_filter_contains(holds_item(), i as int);
                        let j = choose|j: int|
                            0 <= j < visible(docs).len() && visible(docs)[j] == docs[i as int];
                        assert(AppView::from_node(visible(docs)[j]) is None);
                    }
                    return None;
                },
            }
        }
        i += 1;
    }
    proof {
        assert(docs.take(nodes.len() as int) =~= docs);
        let kept = visible(docs);
        assert forall|k: int| 0 <= k < kept.len() implies AppView::from_node(
            #[trigger] kept[k],
        ) is Some by {
            assert(AppView::from_node(kept[k]) == Some(out@[k]@));
        }
        assert(out.deep_view() =~= apps_of(docs).unwrap());
    }
    Some(out)
}

/// Reads the machines of a collection.
pub fn normalize_machines(nodes: &Vec<Value>) -> (r: Option<Vec<Machine>>)
    ensures
        r.deep_view() == machines_of(json_views(nodes@)),
{
    let ghost docs = json_views(nodes@);
    let mut out: Vec<Machine> = Vec::new();
    let mut i: usize = 0;
    while i < nodes.len()
        invariant
            i <= nodes.len(),
            docs == json_views(nodes@),
            out.len() == i,
            forall|k: int|
                0 <= k < i ==> MachineView::from_node(docs[k]) == Some(#[trigger] out@[k]@),
        decreases nodes.len() - i,
    {
        match Machine::from_node(&nodes[i]) {
            Some(machine) => {
                out.push(machine);
            },
            None => {
                assert(MachineView::from_node(docs[i as int]) is None);
                return None;
            },
        }
        i += 1;
    }
    proof {
        assert forall|k: int| 0 <= k < docs.len() implies MachineView::from_node(
            #[trigger] docs[k],
        ) is Some by {
            assert(MachineView::from_node(docs[k]) == Some(out@[k]@));
        }
        assert(out.deep_view() =~= machines_of(docs).unwrap());
    }
    Some(out)
}

/// The node list under `data.<first>.nodes`.
pub open spec fn nodes_under(data: Json, first: Seq<char>) -> Option<Seq<Json>> {
    match data.member(first) {
        Some(inner) => match inner.member("nodes"@) {
            Some(Json::Array(nodes)) => Some(nodes),
            _ => None,
        },
        None => None,
    }
}

/// The applications in the data of an application listing.
pub open spec fn listed_apps(data: Json) -> Option<Seq<AppView>> {
    match nodes_under(data, "apps"@) {
        Some(nodes) => apps_of(nodes),
        None => None,
    }
}

/// The machines in the data of a machine listing.
pub open spec fn listed_machines(data: Json) -> Option<Seq<MachineView>> {
    match data.member("app"@) {
        Some(app) => match nodes_under(app, "machines"@) {
            Some(nodes) => machines_of(nodes),
            None => None,
        },
        None => None,
    }
}

/// The identity in the data of an identity query.
pub open spec fn viewer_id(data: Json) -> Option<Seq<char>> {
    match data.member("viewer"@) {
        Some(viewer) => viewer.text("id"@),
        None => None,
    }
}

fn find_nodes<'a>(data: &'a Value, first: &str) -> (r: Option<&'a Vec<Value>>)
    ensures
        match nodes_under(json_view(*data), first@) {
            Some(nodes) => r is Some && json_views(r.unwrap()@) == nodes,
            None => r is None,
        },
{
    match member(data, first) {
        Some(inner) => match member(inner, "nodes") {
            Some(list) => list.as_array(),
            None => None,
        },
        None => None,
    }
}

/// Reads the data of an application listing.
pub fn read_listed_apps(data: &Value) -> (r: Option<Vec<App>>)
    ensures
        r.deep_view() == listed_apps(json_view(*data)),
{
    match find_nodes(data, "apps") {
        Some(nodes) => normalize_apps(nodes),
        None => None,
    }
}

/// Reads the data of a machine listing.
pub fn read_listed_machines(data: &Value) -> (r: Option<Vec<Machine>>)
    ensures
        r.deep_view() == listed_machines(json_view(*data)),
{
    match member(data, "app") {
        Some(app) => match find_nodes(app, "machines") {
            Some(nodes) => normalize_machines(nodes),
            None => None,
        },
        None => None,
    }
}

/// Reads the identity from the data of an identity query.
pub fn read_viewer_id(data: &Value) -> (r: Option<String>)
    ensures
        r.deep_view() == viewer_id(json_view(*data)),
{
    match member(data, "viewer") {
        Some(viewer) => read_text(viewer, "id"),
        None => None,
    }
}

impl OrganizationView {
    /// A node that holds every field of an organization.
    pub open spec fn is_full(node: Json) -> bool {
        OrganizationView::from_node(node) is Some
    }

    /// The written form `written` has the value of every field of `node`.
    pub open spec fn kept(written: Json, node: Json) -> bool {
        &&& written.member("id"@) == node.member("id"@)
        &&& written.member("name"@) == node.member("name"@)
        &&& written.member("slug"@) == node.member("slug"@)
    }
}

impl ReleaseView {
    /// A node that holds every field of a release, none of them null.
    pub open spec fn is_full(node: Json) -> bool {
        &&& ReleaseView::from_node(node) is Some
        &&& node.text("description"@) is Some
        &&& node.text("createdAt"@) is Some
    }

    /// The written form `written` has the value of every field of `node`,
    /// under the internal name of the field.
    pub open spec fn kept(written: Json, node: Json) -> bool {
        &&& written.member("id"@) == node.member("id"@)
        &&& written.member("version"@) == node.member("version"@)
        &&& written.member("status"@) == node.member("status"@)
        &&& written.member("description"@) == node.member("description"@)
        &&& written.member("created_at"@) == node.member("createdAt"@)
    }
}

impl AppView {
    /// A node that holds every field of an application, none of them
    /// null, with a full organization and a full release.
    pub open spec fn is_full(node: Json) -> bool {
        &&& node.text("id"@) is Some
        &&& node.text("name"@) is Some
        &&& node.text("status"@) is Some
        &&& node.member("deployed"@) matches Some(Json::Bool(_))
        &&& node.text("hostname"@) is Some
        &&& node.member("organization"@) matches Some(o) && OrganizationView::is_full(o)
        &&& node.member("currentRelease"@) matches Some(r) && ReleaseView::is_full(r)
    }

    /// The written form `written` has the value of every field of `node`,
    /// under the internal name of the field.
    pub open spec fn kept(written: Json, node: Json) -> bool {
        &&& written.member("id"@) == node.member("id"@)
        &&& written.member("name"@) == node.member("name"@)
        &&& written.member("status"@) == node.member("status"@)
        &&& written.member("deployed"@) == node.member("deployed"@)
        &&& written.member("hostname"@) == node.member("hostname"@)
        &&& written.member("organization"@) matches Some(o)
            && node.member("organization"@) matches Some(from)
            && OrganizationView::kept(o, from)
        &&& written.member("current_release"@) matches Some(r)
            && node.member("currentRelease"@) matches Some(from)
            && ReleaseView::kept(r, from)
    }
}

impl MachineConfigView {
    /// A node that holds every field of a machine configuration, none of
    /// them null.
    pub open spec fn is_full(node: Json) -> bool {
        &&& node.text("size"@) is Some
        &&& node.text("image"@) is Some
    }

    /// The written form `written` has the value of every field of `node`.
    pub open spec fn kept(written: Json, node: Json) -> bool {
        &&& written.member("size"@) == node.member("size"@)
        &&& written.member("image"@) == node.member("image"@)
    }
}

impl MachineView {
    /// A node that holds every field of a machine, none of them null, with
    /// a full configuration.
    pub open spec fn is_full(node: Json) -> bool {
        &&& node.text("id"@) is Some
        &&& node.text("name"@) is Some
        &&& node.text("state"@) is Some
        &&& node.text("region"@) is Some
        &&& node.text("instanceId"@) is Some
        &&& node.text("privateIp"@) is Some
        &&& node.member("config"@) matches Some(c) && MachineConfigView::is_full(c)
    }

    /// The written form `written` has the value of every field of `node`,
    /// under the internal name of the field.
    pub open spec fn kept(written: Json, node: Json) -> bool {
        &&& written.member("id"@) == node.member("id"@)
        &&& written.member("name"@) == node.member("name"@)
        &&& written.member("state"@) == node.member("state"@)
        &&& written.member("region"@) == node.member("region"@)
        &&& written.member("instance_id"@) == node.member("instanceId"@)
        &&& written.member("private_ip"@) == node.member("privateIp"@)
        &&& written.member("config"@) matches Some(c)
            && node.member("config"@) matches Some(from)
            && MachineConfigView::kept(c, from)
    }
}

/// Round trip of an organization: reading a full node and writing what was
/// read gives back the value of every field.
pub proof fn lemma_organization_round_trip(node: Json)
    requires
        OrganizationView::is_full(node),
    ensures
        OrganizationView::from_node(node) matches Some(read) && OrganizationView::kept(
            read.to_json(),
            node,
        ),
{
    lemma_field_names();
}

/// Round trip of a release: reading a full node and writing what was read
/// gives back the value of every field.
pub proof fn lemma_release_round_trip(node: Json)
    requires
        ReleaseView::is_full(node),
    ensures
        ReleaseView::from_node(node) matches Some(read) && ReleaseView::kept(read.to_json(), node),
{
    lemma_field_names();
}

/// Round trip of an application: reading a full node and writing what was
/// read gives back the value of every field, those of its organization and
/// of its release among them.
pub proof fn lemma_app_round_trip(node: Json)
    requires
        AppView::is_full(node),
    ensures
        AppView::from_node(node) matches Some(read) && AppView::kept(read.to_json(), node),
{
    lemma_field_names();
    lemma_organization_round_trip(node.member("organization"@).unwrap());
    lemma_release_round_trip(node.member("currentRelease"@).unwrap());
}

/// Round trip of a machine configuration: reading a full node and writing
/// what was read gives back the value of every field.
pub proof fn lemma_machine_config_round_trip(node: Json)
    requires
        MachineConfigView::is_full(node),
    ensures
        MachineConfigView::from_node(node) matches Some(read) && MachineConfigView::kept(
            read.to_json(),
            node,
        ),
{
    lemma_field_names();
}

/// Round trip of a machine: reading a full node and writing what was read
/// gives back the value of every field, those of its configuration among
/// them.
pub proof fn lemma_machine_round_trip(node: Json)
    requires
        MachineView::is_full(node),
    ensures
        MachineView::from_node(node) matches Some(read) && MachineView::kept(read.to_json(), node),
{
    lemma_field_names();
    lemma_machine_config_round_trip(node.member("config"@).unwrap());
}

/// The fields of an application that the upstream may null.
pub open spec fn app_field_may_be_null(key: Seq<char>) -> bool {
    ||| key == "status"@
    ||| key == "deployed"@
    ||| key == "hostname"@
    ||| key == "organization"@
    ||| key == "currentRelease"@
}

/// A field of an application that the upstream nulls counts as absent: the
/// node gives the application that it gives without the field, so that the
/// field takes its declared default. The identifier and the name are no
/// such fields.
pub proof fn lemma_nulled_app_field_counts_as_absent(fields: Map<Seq<char>, Json>, key: Seq<char>)
    requires
        app_field_may_be_null(key),
    ensures
        AppView::from_node(Json::Object(fields.insert(key, Json::Null))) == AppView::from_node(
            Json::Object(fields.remove(key)),
        ),
{
    lemma_field_names();
    reveal_strlit("currentRelease");
    assert("currentRelease"@.len() == 14);
}

/// An application whose status and deployment flag are absent or null has
/// the empty status and is not deployed.
pub proof fn lemma_app_defaults(node: Json)
    requires
        node.member("status"@) is None || node.member("status"@) == Some(Json::Null),
        node.member("deployed"@) is None || node.member("deployed"@) == Some(Json::Null),
    ensures
        AppView::from_node(node) matches Some(app) ==> app.status == Seq::<char>::empty()
            && !app.deployed,
{
}

/// A collection without null slots keeps every slot at its place.
pub proof fn lemma_without_null_slots(nodes: Seq<Json>)
    requires
        forall|i: int| 0 <= i < nodes.len() ==> !(#[trigger] nodes[i] is Null),
    ensures
        visible(nodes) == nodes,
    decreases nodes.len(),
{
    reveal(Seq::filter);
    if nodes.len() > 0 {
        lemma_without_null_slots(nodes.drop_last());
        assert(nodes.drop_last().push(nodes.last()) =~= nodes);
    }
}

/// As many applications are read as there are slots that hold an item, each
/// from its slot, and no null slot is among them.
pub proof fn lemma_apps_from_visible_slots(nodes: Seq<Json>)
    requires
        apps_of(nodes) is Some,
    ensures
        apps_of(nodes).unwrap().len() == visible(nodes).len(),
        visible(nodes).len() <= nodes.len(),
        forall|i: int|
            0 <= i < visible(nodes).len() ==> !(#[trigger] visible(nodes)[i] is Null)
                && AppView::from_node(visible(nodes)[i]) == Some(apps_of(nodes).unwrap()[i]),
{
    nodes.lemma_filter_len(holds_item());
    assert forall|i: int| 0 <= i < visible(nodes).len() implies !(#[trigger] visible(nodes)[i]
        is Null) by {
        nodes.lemma_filter_pred(holds_item(), i);
    }
}

/// Null-slot filtering: a null slot, wherever it stands, changes neither
/// the applications that are read nor their order.
pub proof fn lemma_null_slot_dropped(nodes: Seq<Json>, at: int)
    requires
        0 <= at <= nodes.len(),
    ensures
        visible(nodes.insert(at, Json::Null)) == visible(nodes),
        apps_of(nodes.insert(at, Json::Null)) == apps_of(nodes),
{
    let front = nodes.take(at);
    let back = nodes.skip(at);
    let slot = seq![Json::Null];
    assert(nodes.insert(at, Json::Null) =~= (front + slot) + back);
    assert(nodes =~= front + back);
    Seq::filter_distributes_over_add(front + slot, back, holds_item());
    Seq::filter_distributes_over_add(front, slot, holds_item());
    Seq::filter_distributes_over_add(front, back, holds_item());
    assert(slot.filter(holds_item()) =~= Seq::<Json>::empty()) by {
        reveal_with_fuel(Seq::filter, 2);
        assert(slot.drop_last() =~= Seq::<Json>::empty());
    }
    assert(front.filter(holds_item()) + Seq::<Json>::empty() =~= front.filter(holds_item()));
}

} // verus!
