//! The methods that the service offers, as it describes them to its host.

use crate::api::client::OperationView;
use crate::failure::FailureView;
use crate::json::{integer, json_view, string, Json};
use crate::service::{is_known, lemma_method_names, missing, param_str, plan, FlyService};
use serde_json::Value;
use vstd::prelude::*;
use vstd::string::*;

verus! {

/// Parameter information for method documentation.
#[derive(Debug)]
pub struct ParamInfo {
    /// Parameter name.
    pub name: String,
    /// Parameter type.
    pub param_type: String,
    /// Whether this parameter is required.
    pub required: bool,
    /// Default value (if any).
    pub default: Option<Value>,
}

/// The fields of a parameter description as mathematical values.
pub struct ParamInfoView {
    pub name: Seq<char>,
    pub param_type: Seq<char>,
    pub required: bool,
    pub default: Option<Json>,
}

impl View for ParamInfo {
    type V = ParamInfoView;

    open spec fn view(&self) -> ParamInfoView {
        ParamInfoView {
            name: self.name@,
            param_type: self.param_type@,
            required: self.required,
            default: match self.default {
                Some(v) => Some(json_view(v)),
                None => None,
            },
        }
    }
}

impl DeepView for ParamInfo {
    type V = ParamInfoView;

    open spec fn deep_view(&self) -> ParamInfoView {
        self@
    }
}

/// Method information for the `methods` response.
#[derive(Debug)]
pub struct MethodInfo {
    /// Method name.
    pub name: String,
    /// Human-readable description.
    pub description: String,
    /// Parameter definitions.
    pub params: Vec<ParamInfo>,
}

/// The fields of a method description as mathematical values.
pub struct MethodInfoView {
    pub name: Seq<char>,
    pub description: Seq<char>,
    pub params: Seq<ParamInfoView>,
}

impl View for MethodInfo {
    type V = MethodInfoView;

    open spec fn view(&self) -> MethodInfoView {
        MethodInfoView {
            name: self.name@,
            description: self.description@,
            params: self.params.deep_view(),
        }
    }
}

impl DeepView for MethodInfo {
    type V = MethodInfoView;

    open spec fn deep_view(&self) -> MethodInfoView {
        self@
    }
}

/// A string parameter that a call must name.
pub open spec fn required_string(name: Seq<char>) -> ParamInfoView {
    ParamInfoView { name, param_type: "string"@, required: true, default: None }
}

/// A parameter that a call may leave out.
pub open spec fn optional_param(name: Seq<char>, param_type: Seq<char>, default: Option<Json>)
    -> ParamInfoView {
    ParamInfoView { name, param_type, required: false, default }
}

/// The methods of the service, with their parameters.
pub open spec fn method_table() -> Seq<MethodInfoView> {
    seq![
        MethodInfoView {
            name: "fly.apps"@,
            description: "List all Fly.io apps"@,
            params: seq![optional_param("limit"@, "integer"@, Some(Json::Int(25)))],
        },
        MethodInfoView {
            name: "fly.status"@,
            description: "Get status for a specific app"@,
            params: seq![required_string("app"@)],
        },
        MethodInfoView {
            name: "fly.machines"@,
            description: "List machines for an app"@,
            params: seq![required_string("app"@)],
        },
        MethodInfoView {
            name: "fly.user"@,
            description: "Get current user info"@,
            params: Seq::empty(),
        },
        MethodInfoView {
            name: "fly.regions"@,
            description: "List all Fly.io regions"@,
            params: Seq::empty(),
        },
        MethodInfoView {
            name: "fly.secrets"@,
            description: "Manage secrets for an app"@,
            params: seq![
                required_string("app"@),
                optional_param("action"@, "string"@, Some(Json::Str("list"@))),
                optional_param("key"@, "string"@, None),
                optional_param("value"@, "string"@, None),
            ],
        },
        MethodInfoView {
            name: "fly.restart"@,
            description: "Restart all machines for an app"@,
            params: seq![required_string("app"@)],
        },
    ]
}

fn required(name: &str) -> (p: ParamInfo)
    ensures
        p@ == required_string(name@),
{
    ParamInfo {
        name: String::from_str(name),
        param_type: String::from_str("string"),
        required: true,
        default: None,
    }
}

fn optional(name: &str, param_type: &str, default: Option<Value>) -> (p: ParamInfo)
    ensures
        p@ == optional_param(
            name@,
            param_type@,
            match default {
                Some(v) => Some(json_view(v)),
                None => None,
            },
        ),
{
    ParamInfo {
        name: String::from_str(name),
        param_type: String::from_str(param_type),
        required: false,
        default,
    }
}

fn method(name: &str, description: &str, params: Vec<ParamInfo>) -> (m: MethodInfo)
    ensures
        m@ == (MethodInfoView {
            name: name@,
            description: description@,
            params: params.deep_view(),
        }),
{
    MethodInfo {
        name: String::from_str(name),
        description: String::from_str(description),
        params,
    }
}

fn one(p: ParamInfo) -> (list: Vec<ParamInfo>)
    ensures
        list.deep_view() == seq![p@],
{
    let mut list: Vec<ParamInfo> = Vec::new();
    list.push(p);
    assert(list.deep_view() =~= seq![p@]);
    list
}

fn none() -> (list: Vec<ParamInfo>)
    ensures
        list.deep_view() == Seq::<ParamInfoView>::empty(),
{
    let list: Vec<ParamInfo> = Vec::new();
    assert(list.deep_view() =~= Seq::<ParamInfoView>::empty());
    list
}

fn secrets_params() -> (list: Vec<ParamInfo>)
    ensures
        list.deep_view() == seq![
            required_string("app"@),
            optional_param("action"@, "string"@, Some(Json::Str("list"@))),
            optional_param("key"@, "string"@, None),
            optional_param("value"@, "string"@, None),
        ],
{
    let mut list: Vec<ParamInfo> = Vec::new();
    list.push(required("app"));
    list.push(optional("action", "string", Some(string(String::from_str("list")))));
    list.push(optional("key", "string", None));
    list.push(optional("value", "string", None));
    assert(list.deep_view() =~= seq![
        required_string("app"@),
        optional_param("action"@, "string"@, Some(Json::Str("list"@))),
        optional_param("key"@, "string"@, None),
        optional_param("value"@, "string"@, None),
    ]);
    list
}

impl FlyService {
    /// List of methods this service provides.
    pub fn method_list(&self) -> (methods: Vec<MethodInfo>)
        ensures
            methods.deep_view() == method_table(),
    {
        let mut methods: Vec<MethodInfo> = Vec::new();
        methods.push(
            method(
                "fly.apps",
                "List all Fly.io apps",
                one(optional("limit", "integer", Some(integer(25)))),
            ),
        );
        methods.push(method("fly.status", "Get status for a specific app", one(required("app"))));
        methods.push(method("fly.machines", "List machines for an app", one(required("app"))));
        methods.push(method("fly.user", "Get current user info", none()));
        methods.push(method("fly.regions", "List all Fly.io regions", none()));
        methods.push(method("fly.secrets", "Manage secrets for an app", secrets_params()));
        methods.push(
            method("fly.restart", "Restart all machines for an app", one(required("app"))),
        );
        assert(methods.deep_view() =~= method_table());
        methods
    }
}

/// Every method that the service lists is one that it serves: a call of it
/// never fails as an unknown method.
pub proof fn lemma_listed_methods_are_known(i: int, params: Map<Seq<char>, Json>)
    requires
        0 <= i < method_table().len(),
    ensures
        is_known(method_table()[i].name),
        !(plan(method_table()[i].name, params) matches Err(FailureView::UnknownMethod { .. })),
{
    lemma_method_names();
}

/// A parameter that the service lists as required is required: a call
/// that does not name it as a string fails, and the failure names the
/// parameter.
pub proof fn lemma_required_parameters(i: int, j: int, params: Map<Seq<char>, Json>)
    requires
        0 <= i < method_table().len(),
        0 <= j < method_table()[i].params.len(),
        method_table()[i].params[j].required,
        param_str(params, method_table()[i].params[j].name) is None,
    ensures
        plan(method_table()[i].name, params) == Err::<OperationView, FailureView>(
            missing(method_table()[i].params[j].name),
        ),
{
    lemma_method_names();
}

/// A call of a listed method that names every parameter listed for it as
/// a string, and leaves out the parameters that are not listed as
/// required, is served.
pub proof fn lemma_required_parameters_suffice(i: int, params: Map<Seq<char>, Json>)
    requires
        0 <= i < method_table().len(),
        forall|j: int|
            0 <= j < method_table()[i].params.len() ==> {
                let p = #[trigger] method_table()[i].params[j];
                if p.required {
                    param_str(params, p.name) is Some
                } else {
                    !params.contains_key(p.name)
                }
            },
    ensures
        plan(method_table()[i].name, params) is Ok,
{
    lemma_method_names();
    let listed = method_table()[i].params;
    if i == 0 {
        let limit = listed[0];
        assert(!limit.required);
    } else if listed.len() > 0 {
        let app = listed[0];
        assert(app.required && app.name == "app"@);
        assert(param_str(params, "app"@) is Some);
    }
    if i == 5 {
        let action = listed[1];
        assert(!action.required && action.name == "action"@);
        assert(param_str(params, "action"@) is None);
    }
}

} // verus!
