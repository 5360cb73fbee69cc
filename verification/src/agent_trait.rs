//! The shared blackboard records threaded through the pipeline: the project
//! fact sheet, the decoded project scope, and the API endpoint descriptors —
//! and the one capability the orchestrator asks of every concrete agent.

use vstd::prelude::*;
use crate::errors::AgentError;
use crate::events::EventFeed;

verus! {

/// The three decoded answers that frame a project, produced by the
/// Solutions Architect from the project description.
#[derive(Debug, Clone, Copy, PartialEq, Eq, Structural)]
pub struct ProjectScope {
    pub is_crud_required: bool,
    pub is_user_login_and_logout: bool,
    pub is_external_urls_required: bool,
}

/// One derived API endpoint descriptor. The open-shaped members
/// (`request_body`, `response`) are carried as their JSON text.
#[derive(Debug, PartialEq)]
pub struct RouteObject {
    pub route: String,
    pub method: String,
    pub is_route_dynamic: bool,
    pub request_body: String,
    pub response: String,
}

/// The mathematical value of a `RouteObject`.
#[verifier::ext_equal]
pub struct RouteObjectView {
    pub route: Seq<char>,
    pub method: Seq<char>,
    pub is_route_dynamic: bool,
    pub request_body: Seq<char>,
    pub response: Seq<char>,
}

impl View for RouteObject {
    type V = RouteObjectView;

    open spec fn view(&self) -> RouteObjectView {
        RouteObjectView {
            route: self.route@,
            method: self.method@,
            is_route_dynamic: self.is_route_dynamic,
            request_body: self.request_body@,
            response: self.response@,
        }
    }
}

impl DeepView for RouteObject {
    type V = RouteObjectView;

    open spec fn deep_view(&self) -> RouteObjectView {
        self.view()
    }
}

impl Clone for RouteObject {
    fn clone(&self) -> (r: Self)
        ensures
            r@ == self@,
    {
        RouteObject {
            route: self.route.clone(),
            method: self.method.clone(),
            is_route_dynamic: self.is_route_dynamic,
            request_body: self.request_body.clone(),
            response: self.response.clone(),
        }
    }
}

impl RouteObjectView {
    /// The probed subset of a schema is exactly the non-dynamic GET routes.
    pub open spec fn is_checkable(self) -> bool {
        self.method == "get"@ && !self.is_route_dynamic
    }
}

/// The project-level blackboard. Created once by the Managing Agent and
/// handed through each agent in turn; fields are set at most once per stage,
/// except that `external_urls` may shrink (URL exclusion) after its initial
/// assignment.
#[derive(Debug, PartialEq)]
pub struct FactSheet {
    pub project_description: String,
    pub project_scope: Option<ProjectScope>,
    pub external_urls: Option<Vec<String>>,
    pub backend_code: Option<String>,
    pub api_endpoint_schema: Option<Vec<RouteObject>>,
}

/// The mathematical value of a `FactSheet`.
#[verifier::ext_equal]
pub struct FactSheetView {
    pub project_description: Seq<char>,
    pub project_scope: Option<ProjectScope>,
    pub external_urls: Option<Seq<Seq<char>>>,
    pub backend_code: Option<Seq<char>>,
    pub api_endpoint_schema: Option<Seq<RouteObjectView>>,
}

impl View for FactSheet {
    type V = FactSheetView;

    open spec fn view(&self) -> FactSheetView {
        FactSheetView {
            project_description: self.project_description@,
            project_scope: self.project_scope,
            external_urls: self.external_urls.deep_view(),
            backend_code: match self.backend_code {
                Some(ref c) => Some(c@),
                None => None,
            },
            api_endpoint_schema: self.api_endpoint_schema.deep_view(),
        }
    }
}

/// What the orchestrator asks of a concrete agent: its role label, and a
/// whole run over the shared fact sheet, driven by a feed of outside
/// outcomes.
pub trait SpecialFunctions: Sized {
    fn get_agent_position(&mut self) -> String;

    fn execute(&mut self, fact_sheet: &mut FactSheet, feed: &mut EventFeed) -> Result<
        (),
        AgentError,
    >;
}

impl FactSheet {
    /// A fresh blackboard holding only the project description.
    pub fn with_description(project_description: String) -> (r: Self)
        ensures
            r@.project_description == project_description@,
            r@.project_scope is None,
            r@.external_urls is None,
            r@.backend_code is None,
            r@.api_endpoint_schema is None,
    {
        FactSheet {
            project_description,
            project_scope: None,
            external_urls: None,
            backend_code: None,
            api_endpoint_schema: None,
        }
    }
}

} // verus!
