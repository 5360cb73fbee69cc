//! The interface between the verified state machines and the world.
//!
//! A machine never performs I/O. It announces the next outside action it
//! needs (`AgentAction`) and is stepped with the action's outcome
//! (`AgentEvent`). The driver — a test with scripted outcomes, or a runtime
//! that really calls the service, the build toolchain and the network —
//! carries no decisions of its own.

use vstd::prelude::*;

verus! {

/// Outcome of one attempt to call the external text-generation service.
#[derive(Debug)]
pub enum TextOutcome {
    /// The service answered with this completion text.
    Delivered(String),
    /// The transport failed; no text was delivered.
    Failed,
}

#[verifier::ext_equal]
pub enum TextOutcomeView {
    Delivered(Seq<char>),
    Failed,
}

impl View for TextOutcome {
    type V = TextOutcomeView;

    open spec fn view(&self) -> TextOutcomeView {
        match self {
            TextOutcome::Delivered(s) => TextOutcomeView::Delivered(s@),
            TextOutcome::Failed => TextOutcomeView::Failed,
        }
    }
}

impl Clone for TextOutcome {
    fn clone(&self) -> (r: Self)
        ensures
            r@ == self@,
    {
        match self {
            TextOutcome::Delivered(s) => TextOutcome::Delivered(s.clone()),
            TextOutcome::Failed => TextOutcome::Failed,
        }
    }
}

/// Outcome of one timeout-bounded HTTP probe.
#[derive(Debug, Clone, Copy, PartialEq, Eq, Structural)]
pub enum ProbeOutcome {
    /// The endpoint answered with this HTTP status code.
    Status(u16),
    /// The probe itself failed (timeout or transport error).
    Failed,
}

/// Outcome of one invocation of the external build toolchain.
#[derive(Debug)]
pub enum BuildOutcome {
    Success,
    /// The build failed; the captured standard-error text.
    Failure(String),
}

#[verifier::ext_equal]
pub enum BuildOutcomeView {
    Success,
    Failure(Seq<char>),
}

impl View for BuildOutcome {
    type V = BuildOutcomeView;

    open spec fn view(&self) -> BuildOutcomeView {
        match self {
            BuildOutcome::Success => BuildOutcomeView::Success,
            BuildOutcome::Failure(s) => BuildOutcomeView::Failure(s@),
        }
    }
}

impl Clone for BuildOutcome {
    fn clone(&self) -> (r: Self)
        ensures
            r@ == self@,
    {
        match self {
            BuildOutcome::Success => BuildOutcome::Success,
            BuildOutcome::Failure(s) => BuildOutcome::Failure(s.clone()),
        }
    }
}

/// The outcome of the outside action a machine most recently asked for.
#[derive(Debug)]
pub enum AgentEvent {
    /// Outcome of a `RequestText` action.
    Text(TextOutcome),
    /// Contents handed back for a file-read action.
    FileRead(String),
    /// Acknowledgement of an action with no interesting outcome
    /// (a save, a server launch or kill).
    Done,
    /// Outcome of a `ProbeUrl` action.
    Probe(ProbeOutcome),
    /// Outcome of a build action.
    Built(BuildOutcome),
    /// The human confirmation gate's answer: proceed or abort.
    Confirmed(bool),
}

#[verifier::ext_equal]
pub enum AgentEventView {
    Text(TextOutcomeView),
    FileRead(Seq<char>),
    Done,
    Probe(ProbeOutcome),
    Built(BuildOutcomeView),
    Confirmed(bool),
}

impl View for AgentEvent {
    type V = AgentEventView;

    open spec fn view(&self) -> AgentEventView {
        match self {
            AgentEvent::Text(t) => AgentEventView::Text(t@),
            AgentEvent::FileRead(s) => AgentEventView::FileRead(s@),
            AgentEvent::Done => AgentEventView::Done,
            AgentEvent::Probe(p) => AgentEventView::Probe(*p),
            AgentEvent::Built(b) => AgentEventView::Built(b@),
            AgentEvent::Confirmed(c) => AgentEventView::Confirmed(*c),
        }
    }
}

impl DeepView for AgentEvent {
    type V = AgentEventView;

    open spec fn deep_view(&self) -> AgentEventView {
        self.view()
    }
}

impl Clone for AgentEvent {
    fn clone(&self) -> (r: Self)
        ensures
            r@ == self@,
    {
        match self {
            AgentEvent::Text(t) => AgentEvent::Text(t.clone()),
            AgentEvent::FileRead(s) => AgentEvent::FileRead(s.clone()),
            AgentEvent::Done => AgentEvent::Done,
            AgentEvent::Probe(p) => AgentEvent::Probe(*p),
            AgentEvent::Built(b) => AgentEvent::Built(b.clone()),
            AgentEvent::Confirmed(c) => AgentEvent::Confirmed(*c),
        }
    }
}

/// The closed catalog of generative functions an action may name. The text
/// of each prompt template is data owned by the driver; the engine only
/// identifies which one to apply.
#[derive(Debug, Clone, Copy, PartialEq, Eq, Structural)]
pub enum AiFunction {
    ConvertUserInputToGoal,
    PrintProjectScope,
    PrintSiteUrls,
    PrintBackendWebserverCode,
    PrintImprovedWebserverCode,
    PrintFixedCode,
    PrintRestApiEndpoints,
    PrintRecommendedSitePages,
    PrintRecommendedSitePagesWithApis,
    PrintRecommendedSiteMainColours,
    PrintSvgLogo,
    PrintCompletedLogoWithBrandNameReactComponent,
    PrintHeaderNavigationReactComponent,
    PrintFooterNavigationReactComponent,
    PrintReactTypescriptHookComponent,
    PrintHtmlWebpageContentWithText,
    PrintCreateReactComponentWithApiIntegration,
    PrintCreateFullReactComponent,
    PrintGiveComponentFantasticStyling,
    PrintCodeBugsResolution,
}

impl AiFunction {
    /// The function's name, as handed to the service inside the instruction
    /// and shown in progress narration.
    pub open spec fn spec_name(self) -> Seq<char> {
        match self {
            AiFunction::ConvertUserInputToGoal => "convert_user_input_to_goal"@,
            AiFunction::PrintProjectScope => "print_project_scope"@,
            AiFunction::PrintSiteUrls => "print_site_urls"@,
            AiFunction::PrintBackendWebserverCode => "print_backend_webserver_code"@,
            AiFunction::PrintImprovedWebserverCode => "print_improved_webserver_code"@,
            AiFunction::PrintFixedCode => "print_fixed_code"@,
            AiFunction::PrintRestApiEndpoints => "print_rest_api_endpoints"@,
            AiFunction::PrintRecommendedSitePages => "print_recommended_site_pages"@,
            AiFunction::PrintRecommendedSitePagesWithApis => "print_recommended_site_pages_with_apis"@,
            AiFunction::PrintRecommendedSiteMainColours => "print_recommended_site_main_colours"@,
            AiFunction::PrintSvgLogo => "print_svg_logo"@,
            AiFunction::PrintCompletedLogoWithBrandNameReactComponent => "print_completed_logo_with_brand_name_react_component"@,
            AiFunction::PrintHeaderNavigationReactComponent => "print_header_navigation_react_component"@,
            AiFunction::PrintFooterNavigationReactComponent => "print_footer_navigation_react_component"@,
            AiFunction::PrintReactTypescriptHookComponent => "print_react_typescript_hook_component"@,
            AiFunction::PrintHtmlWebpageContentWithText => "print_html_webpage_content_with_text"@,
            AiFunction::PrintCreateReactComponentWithApiIntegration => "print_create_react_component_with_API_integration"@,
            AiFunction::PrintCreateFullReactComponent => "print_create_full_react_component"@,
            AiFunction::PrintGiveComponentFantasticStyling => "print_give_component_fantastic_styling"@,
            AiFunction::PrintCodeBugsResolution => "print_code_bugs_resolution"@,
        }
    }

    pub fn name(&self) -> (r: &'static str)
        ensures
            r@ == self.spec_name(),
    {
        match self {
            AiFunction::ConvertUserInputToGoal => "convert_user_input_to_goal",
            AiFunction::PrintProjectScope => "print_project_scope",
            AiFunction::PrintSiteUrls => "print_site_urls",
            AiFunction::PrintBackendWebserverCode => "print_backend_webserver_code",
            AiFunction::PrintImprovedWebserverCode => "print_improved_webserver_code",
            AiFunction::PrintFixedCode => "print_fixed_code",
            AiFunction::PrintRestApiEndpoints => "print_rest_api_endpoints",
            AiFunction::PrintRecommendedSitePages => "print_recommended_site_pages",
            AiFunction::PrintRecommendedSitePagesWithApis => "print_recommended_site_pages_with_apis",
            AiFunction::PrintRecommendedSiteMainColours => "print_recommended_site_main_colours",
            AiFunction::PrintSvgLogo => "print_svg_logo",
            AiFunction::PrintCompletedLogoWithBrandNameReactComponent => "print_completed_logo_with_brand_name_react_component",
            AiFunction::PrintHeaderNavigationReactComponent => "print_header_navigation_react_component",
            AiFunction::PrintFooterNavigationReactComponent => "print_footer_navigation_react_component",
            AiFunction::PrintReactTypescriptHookComponent => "print_react_typescript_hook_component",
            AiFunction::PrintHtmlWebpageContentWithText => "print_html_webpage_content_with_text",
            AiFunction::PrintCreateReactComponentWithApiIntegration => "print_create_react_component_with_API_integration",
            AiFunction::PrintCreateFullReactComponent => "print_create_full_react_component",
            AiFunction::PrintGiveComponentFantasticStyling => "print_give_component_fantastic_styling",
            AiFunction::PrintCodeBugsResolution => "print_code_bugs_resolution",
        }
    }
}

/// One outside action a machine asks its driver to perform.
#[derive(Debug)]
pub enum AgentAction {
    /// Apply the named prompt template to `context`, extend it into the
    /// instruction message, and call the text-generation service once.
    RequestText { context: String, ai_function: AiFunction },
    /// Issue a 5-second-timeout GET request against the URL.
    ProbeUrl { url: String },
    /// Read the backend code template file.
    ReadCodeTemplate,
    /// Read back the persisted backend artifact source.
    ReadMainFile,
    /// Persist the backend artifact text.
    SaveBackendCode { code: String },
    /// Persist the endpoint schema JSON text.
    SaveApiSchema { json: String },
    /// Put the confirmation gate to the human operator.
    AskConfirmation,
    /// Invoke the build toolchain on the backend project.
    BuildBackend,
    /// Launch the built backend as a subprocess and wait the fixed warm-up.
    LaunchServer,
    /// Terminate the launched subprocess.
    KillServer,
    /// Read back the persisted endpoint-schema JSON text.
    ReadApiSchema,
    /// Read a frontend source file at this path.
    ReadFrontendFile { path: String },
    /// Persist a frontend artifact at this path.
    SaveFrontendFile { path: String, code: String },
    /// Invoke the build toolchain on the frontend project.
    BuildFrontend,
}

#[verifier::ext_equal]
pub enum AgentActionView {
    RequestText { context: Seq<char>, ai_function: AiFunction },
    ProbeUrl { url: Seq<char> },
    ReadCodeTemplate,
    ReadMainFile,
    SaveBackendCode { code: Seq<char> },
    SaveApiSchema { json: Seq<char> },
    AskConfirmation,
    BuildBackend,
    LaunchServer,
    KillServer,
    ReadApiSchema,
    ReadFrontendFile { path: Seq<char> },
    SaveFrontendFile { path: Seq<char>, code: Seq<char> },
    BuildFrontend,
}

impl View for AgentAction {
    type V = AgentActionView;

    open spec fn view(&self) -> AgentActionView {
        match self {
            AgentAction::RequestText { context, ai_function } => (AgentActionView::RequestText {
                context: context@,
                ai_function: *ai_function,
            }),
            AgentAction::ProbeUrl { url } => (AgentActionView::ProbeUrl { url: url@ }),
            AgentAction::ReadCodeTemplate => AgentActionView::ReadCodeTemplate,
            AgentAction::ReadMainFile => AgentActionView::ReadMainFile,
            AgentAction::SaveBackendCode { code } => (AgentActionView::SaveBackendCode {
                code: code@,
            }),
            AgentAction::SaveApiSchema { json } => (AgentActionView::SaveApiSchema { json: json@ }),
            AgentAction::AskConfirmation => AgentActionView::AskConfirmation,
            AgentAction::BuildBackend => AgentActionView::BuildBackend,
            AgentAction::LaunchServer => AgentActionView::LaunchServer,
            AgentAction::KillServer => AgentActionView::KillServer,
            AgentAction::ReadApiSchema => AgentActionView::ReadApiSchema,
            AgentAction::ReadFrontendFile { path } => (AgentActionView::ReadFrontendFile {
                path: path@,
            }),
            AgentAction::SaveFrontendFile { path, code } => (AgentActionView::SaveFrontendFile {
                path: path@,
                code: code@,
            }),
            AgentAction::BuildFrontend => AgentActionView::BuildFrontend,
        }
    }
}

/// Whether one machine step may still follow, or the agent has reached its
/// terminal state.
#[derive(Debug, Clone, Copy, PartialEq, Eq, Structural)]
pub enum StepStatus {
    Running,
    Finished,
}

/// A finite queue of scripted action outcomes, consumed in order. Tests and
/// whole-run drivers hand one to `execute`; the machine takes one event per
/// step.
#[derive(Debug)]
pub struct EventFeed {
    pub events: Vec<AgentEvent>,
    pub cursor: usize,
}

impl EventFeed {
    /// The events not yet consumed, in order.
    pub open spec fn remaining(&self) -> Seq<AgentEventView> {
        if self.cursor <= self.events.len() {
            self.events.deep_view().skip(self.cursor as int)
        } else {
            Seq::empty()
        }
    }

    pub fn new(events: Vec<AgentEvent>) -> (r: Self)
        ensures
            r.remaining() == events.deep_view(),
    {
        let r = EventFeed { events, cursor: 0 };
        proof {
            assert(r.remaining() =~= r.events.deep_view());
        }
        r
    }

    /// Hand out the next event, if one is left.
    pub fn next(&mut self) -> (r: Option<AgentEvent>)
        ensures
            old(self).remaining().len() == 0 ==> r is None && final(self).remaining()
                == old(self).remaining(),
            old(self).remaining().len() > 0 ==> r is Some && r.unwrap()@ == old(self).remaining()[0]
                && final(self).remaining() == old(self).remaining().drop_first(),
    {
        let ghost pre = *self;
        if self.cursor < self.events.len() {
            let ev = self.events[self.cursor].clone();
            self.cursor += 1;
            proof {
                assert(self.remaining() =~= pre.remaining().drop_first());
                assert(ev@ == pre.remaining()[0]);
            }
            Some(ev)
        } else {
            proof {
                assert(pre.remaining().len() == 0);
            }
            None
        }
    }
}

} // verus!
