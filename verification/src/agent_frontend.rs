//! The Frontend Developer: derives a page/route/branding plan from the
//! project description and the backend source, then runs a fixed sequence
//! of per-component generation-and-repair passes.
//!
//! Lifecycle: Discovery (page plan, API route assignments, brand colours),
//! Working (for each component of the fixed build order: run its recipe,
//! persist the artifact, build-check the whole project, and on failure
//! spend at most one repair attempt), Finished. One failure counter is
//! shared across the whole component loop; when it reaches two the run
//! aborts.

use vstd::prelude::*;
use vstd::string::StringExecFns;
use crate::agent_frontend_comp::{component_at, spec_component_at, BuildComponent};
use crate::agent_trait::{FactSheet, FactSheetView};
use crate::basic_agent::{AgentState, BasicAgent, BasicTraits};
use crate::decode::{
    page_routes_decode_of,
    pages_decode_of,
    parse_page_routes,
    parse_site_pages,
    parse_string_list,
    string_list_decode_of,
};
use crate::errors::AgentError;
use crate::events::{
    AgentAction,
    AgentActionView,
    AgentEvent,
    AgentEventView,
    AiFunction,
    EventFeed,
    StepStatus,
    TextOutcome,
    TextOutcomeView,
    BuildOutcome,
    BuildOutcomeView,
};

verus! {

/// What stage of the frontend build the sheet labels; informational, not
/// itself gating transitions.
#[derive(Debug, Clone, Copy, PartialEq, Eq, Structural)]
pub enum FrontendBuildMode {
    Infrastructure,
    PageComponents,
    Completion,
}

/// One API route assigned to a page.
#[derive(Debug, PartialEq)]
pub struct APIAssignment {
    pub api_route: String,
    pub method: String,
    pub route_type: String,
}

#[verifier::ext_equal]
pub struct APIAssignmentView {
    pub api_route: Seq<char>,
    pub method: Seq<char>,
    pub route_type: Seq<char>,
}

impl View for APIAssignment {
    type V = APIAssignmentView;

    open spec fn view(&self) -> APIAssignmentView {
        APIAssignmentView {
            api_route: self.api_route@,
            method: self.method@,
            route_type: self.route_type@,
        }
    }
}

impl DeepView for APIAssignment {
    type V = APIAssignmentView;

    open spec fn deep_view(&self) -> APIAssignmentView {
        self.view()
    }
}

impl Clone for APIAssignment {
    fn clone(&self) -> (r: Self)
        ensures
            r@ == self@,
    {
        APIAssignment {
            api_route: self.api_route.clone(),
            method: self.method.clone(),
            route_type: self.route_type.clone(),
        }
    }
}

/// The ordered route assignments of one page.
#[derive(Debug, PartialEq)]
pub struct PageAPIAssign {
    pub page: Vec<APIAssignment>,
}

impl View for PageAPIAssign {
    type V = Seq<APIAssignmentView>;

    open spec fn view(&self) -> Seq<APIAssignmentView> {
        self.page.deep_view()
    }
}

impl DeepView for PageAPIAssign {
    type V = Seq<APIAssignmentView>;

    open spec fn deep_view(&self) -> Seq<APIAssignmentView> {
        self.view()
    }
}

/// One recommended page: its name and the JSON text of its suggested
/// content sections.
#[derive(Debug, PartialEq)]
pub struct SitePages {
    pub page_name: String,
    pub suggested_content_sections: String,
}

#[verifier::ext_equal]
pub struct SitePagesView {
    pub page_name: Seq<char>,
    pub suggested_content_sections: Seq<char>,
}

impl View for SitePages {
    type V = SitePagesView;

    open spec fn view(&self) -> SitePagesView {
        SitePagesView {
            page_name: self.page_name@,
            suggested_content_sections: self.suggested_content_sections@,
        }
    }
}

impl DeepView for SitePages {
    type V = SitePagesView;

    open spec fn deep_view(&self) -> SitePagesView {
        self.view()
    }
}

/// The frontend blackboard, created and owned entirely by this agent.
#[derive(Debug)]
pub struct DesignBuildSheet {
    pub pages: Option<Vec<String>>,
    pub pages_descriptions: Option<Vec<SitePages>>,
    pub api_assignments: Option<Vec<(String, PageAPIAssign)>>,
    pub brand_colours: Option<Vec<String>>,
    pub build_mode: FrontendBuildMode,
}

#[verifier::ext_equal]
pub struct DesignBuildSheetView {
    pub pages: Option<Seq<Seq<char>>>,
    pub pages_descriptions: Option<Seq<SitePagesView>>,
    pub api_assignments: Option<Seq<(Seq<char>, Seq<APIAssignmentView>)>>,
    pub brand_colours: Option<Seq<Seq<char>>>,
    pub build_mode: FrontendBuildMode,
}

impl View for DesignBuildSheet {
    type V = DesignBuildSheetView;

    open spec fn view(&self) -> DesignBuildSheetView {
        DesignBuildSheetView {
            pages: self.pages.deep_view(),
            pages_descriptions: self.pages_descriptions.deep_view(),
            api_assignments: self.api_assignments.deep_view(),
            brand_colours: self.brand_colours.deep_view(),
            build_mode: self.build_mode,
        }
    }
}

/// A sequence, or nothing's worth of it.
pub open spec fn seq_or_empty<T>(o: Option<Seq<T>>) -> Seq<T> {
    match o {
        Some(s) => s,
        None => Seq::empty(),
    }
}

/// The elements joined with a separator between neighbours.
pub open spec fn joined_with(ss: Seq<Seq<char>>, sep: Seq<char>) -> Seq<char>
    decreases ss.len(),
{
    if ss.len() == 0 {
        Seq::empty()
    } else if ss.len() == 1 {
        ss[0]
    } else {
        ss[0] + sep + joined_with(ss.drop_first(), sep)
    }
}

proof fn lemma_joined_push(ss: Seq<Seq<char>>, sep: Seq<char>, x: Seq<char>)
    ensures
        ss.len() == 0 ==> joined_with(ss.push(x), sep) == x,
        ss.len() > 0 ==> joined_with(ss.push(x), sep) == joined_with(ss, sep) + sep + x,
    decreases ss.len(),
{
    if ss.len() == 0 {
        assert(ss.push(x)[0] == x);
    } else {
        lemma_joined_push(ss.drop_first(), sep, x);
        assert(ss.push(x).drop_first() =~= ss.drop_first().push(x));
        assert(ss.push(x)[0] == ss[0]);
        if ss.len() == 1 {
            assert(joined_with(ss.push(x), sep) == ss[0] + sep + x);
        } else {
            assert((ss[0] + sep + (joined_with(ss.drop_first(), sep) + sep + x)) =~= ((ss[0] + sep
                + joined_with(ss.drop_first(), sep)) + sep + x));
        }
    }
}

/// Join strings with a separator, executably.
fn join_strings(items: &Vec<String>, sep: &str) -> (r: String)
    ensures
        r@ == joined_with(items.deep_view(), sep@),
{
    let mut out = String::new();
    let mut i: usize = 0;
    while i < items.len()
        invariant
            i <= items.len(),
            out@ == joined_with(items.deep_view().take(i as int), sep@),
        decreases items.len() - i,
    {
        let ghost pre = out@;
        if i > 0 {
            out.append(sep);
        }
        out.append(items[i].as_str());
        proof {
            assert(items.deep_view().take(i + 1) =~= items.deep_view().take(i as int).push(
                items.deep_view()[i as int],
            ));
            lemma_joined_push(items.deep_view().take(i as int), sep@, items.deep_view()[i as int]);
            assert(items.deep_view()[i as int] == items@[i as int]@);
            if i == 0 {
                assert(out@ =~= items.deep_view()[i as int]);
            } else {
                assert(out@ =~= (pre + sep@) + items.deep_view()[i as int]);
                assert((pre + sep@) + items.deep_view()[i as int] =~= pre + sep@
                    + items.deep_view()[i as int]);
            }
        }
        i += 1;
    }
    proof {
        assert(items.deep_view().take(items.deep_view().len() as int) =~= items.deep_view());
    }
    out
}

/// Join an optional string list; nothing joins to the empty text.
fn join_opt_strings(items: &Option<Vec<String>>, sep: &str) -> (r: String)
    ensures
        r@ == joined_with(seq_or_empty(items.deep_view()), sep@),
{
    match items {
        Some(v) => join_strings(v, sep),
        None => String::new(),
    }
}

/// One page description as a line of text.
pub open spec fn site_page_line(sp: SitePagesView) -> Seq<char> {
    sp.page_name + ": "@ + sp.suggested_content_sections
}

/// All page descriptions as lines of text.
pub open spec fn site_page_lines_of(items: Seq<SitePagesView>) -> Seq<Seq<char>> {
    items.map_values(|sp: SitePagesView| site_page_line(sp))
}

fn site_page_lines(items: &Vec<SitePages>) -> (r: Vec<String>)
    ensures
        r.deep_view() == site_page_lines_of(items.deep_view()),
{
    let ghost target = site_page_lines_of(items.deep_view());
    let mut out: Vec<String> = Vec::new();
    let mut i: usize = 0;
    while i < items.len()
        invariant
            i <= items.len(),
            target == site_page_lines_of(items.deep_view()),
            target.len() == items.deep_view().len(),
            out.deep_view() == target.take(i as int),
        decreases items.len() - i,
    {
        let mut line = items[i].page_name.clone();
        line.append(": ");
        line.append(items[i].suggested_content_sections.as_str());
        proof {
            assert(items.deep_view()[i as int] == items@[i as int]@);
            assert(line@ =~= site_page_line(items.deep_view()[i as int]));
        }
        let ghost pre = out.deep_view();
        proof {
            assert(pre.len() == out@.len());
        }
        out.push(line);
        proof {
            assert(out.deep_view() =~= target.take(i + 1));
        }
        i += 1;
    }
    proof {
        assert(out.deep_view() =~= target);
    }
    out
}

/// One route assignment as a line of text.
pub open spec fn assignment_line(a: APIAssignmentView) -> Seq<char> {
    a.api_route + " "@ + a.method + " "@ + a.route_type
}

/// All route assignments as lines of text.
pub open spec fn assignment_lines_of(items: Seq<APIAssignmentView>) -> Seq<Seq<char>> {
    items.map_values(|a: APIAssignmentView| assignment_line(a))
}

fn assignment_lines(items: &Vec<APIAssignment>) -> (r: Vec<String>)
    ensures
        r.deep_view() == assignment_lines_of(items.deep_view()),
{
    let ghost target = assignment_lines_of(items.deep_view());
    let mut out: Vec<String> = Vec::new();
    let mut i: usize = 0;
    while i < items.len()
        invariant
            i <= items.len(),
            target == assignment_lines_of(items.deep_view()),
            target.len() == items.deep_view().len(),
            out.deep_view() == target.take(i as int),
        decreases items.len() - i,
    {
        let mut line = items[i].api_route.clone();
        line.append(" ");
        line.append(items[i].method.as_str());
        line.append(" ");
        line.append(items[i].route_type.as_str());
        proof {
            assert(items.deep_view()[i as int] == items@[i as int]@);
            assert(line@ =~= assignment_line(items.deep_view()[i as int]));
        }
        let ghost pre = out.deep_view();
        proof {
            assert(pre.len() == out@.len());
        }
        out.push(line);
        proof {
            assert(out.deep_view() =~= target.take(i + 1));
        }
        i += 1;
    }
    proof {
        assert(out.deep_view() =~= target);
    }
    out
}

/// The routes assigned to a page: the first table entry carrying the
/// page's name, or nothing.
pub open spec fn assignments_for(
    table: Seq<(Seq<char>, Seq<APIAssignmentView>)>,
    name: Seq<char>,
) -> Seq<APIAssignmentView>
    decreases table.len(),
{
    if table.len() == 0 {
        Seq::empty()
    } else if table[0].0 == name {
        table[0].1
    } else {
        assignments_for(table.drop_first(), name)
    }
}

fn copy_assignments(v: &Vec<APIAssignment>) -> (r: Vec<APIAssignment>)
    ensures
        r.deep_view() == v.deep_view(),
{
    let mut out: Vec<APIAssignment> = Vec::new();
    let mut i: usize = 0;
    while i < v.len()
        invariant
            i <= v.len(),
            out.deep_view() == v.deep_view().take(i as int),
        decreases v.len() - i,
    {
        let ghost pre = out.deep_view();
        proof {
            assert(pre.len() == out@.len());
        }
        out.push(v[i].clone());
        proof {
            assert(v.deep_view()[i as int] == v@[i as int]@);
            assert(out.deep_view() =~= v.deep_view().take(i + 1));
        }
        i += 1;
    }
    proof {
        assert(out.deep_view() =~= v.deep_view());
    }
    out
}

fn find_assignments(table: &Vec<(String, PageAPIAssign)>, name: &String) -> (r: Vec<APIAssignment>)
    ensures
        r.deep_view() == assignments_for(table.deep_view(), name@),
{
    proof {
        assert(table.deep_view().skip(0) =~= table.deep_view());
    }
    let mut i: usize = 0;
    while i < table.len()
        invariant
            i <= table.len(),
            assignments_for(table.deep_view(), name@) == assignments_for(
                table.deep_view().skip(i as int),
                name@,
            ),
        decreases table.len() - i,
    {
        proof {
            assert(table.deep_view()[i as int] == table@[i as int].deep_view());
            assert(table.deep_view().skip(i as int)[0] == table.deep_view()[i as int]);
        }
        if table[i].0.eq(name) {
            let found = copy_assignments(&table[i].1.page);
            return found;
        }
        proof {
            assert(table.deep_view().skip(i as int).drop_first() =~= table.deep_view().skip(i + 1));
        }
        i += 1;
    }
    proof {
        assert(table.deep_view().skip(table.deep_view().len() as int) =~= Seq::<(
            Seq<char>,
            Seq<APIAssignmentView>,
        )>::empty());
    }
    Vec::new()
}

/// The page names of a decoded page list.
pub open spec fn page_names_of(items: Seq<(Seq<char>, Seq<char>)>) -> Seq<Seq<char>> {
    items.map_values(|t: (Seq<char>, Seq<char>)| t.0)
}

/// The page records of a decoded page list.
pub open spec fn site_pages_views_of(items: Seq<(Seq<char>, Seq<char>)>) -> Seq<SitePagesView> {
    items.map_values(
        |t: (Seq<char>, Seq<char>)| SitePagesView { page_name: t.0, suggested_content_sections: t.1 },
    )
}

/// The assignment records of one decoded route list.
pub open spec fn assignments_views_of(rs: Seq<(Seq<char>, Seq<char>, Seq<char>)>) -> Seq<
    APIAssignmentView,
> {
    rs.map_values(
        |t: (Seq<char>, Seq<char>, Seq<char>)| APIAssignmentView {
            api_route: t.0,
            method: t.1,
            route_type: t.2,
        },
    )
}

/// The assignment table of a decoded route object.
pub open spec fn route_table_views_of(
    m: Seq<(Seq<char>, Seq<(Seq<char>, Seq<char>, Seq<char>)>)>,
) -> Seq<(Seq<char>, Seq<APIAssignmentView>)> {
    m.map_values(
        |e: (Seq<char>, Seq<(Seq<char>, Seq<char>, Seq<char>)>)| (e.0, assignments_views_of(e.1)),
    )
}

pub open spec fn pages_context_of(description: Seq<char>, backend_code: Seq<char>) -> Seq<char> {
    "PROJECT_DESCRIPTION: "@ + description + ", CODE_LOGIC: "@ + backend_code
}

pub open spec fn assign_context_of(
    description: Seq<char>,
    pages: Seq<char>,
    internal_routes: Seq<char>,
    external_routes: Seq<char>,
) -> Seq<char> {
    "WEBSITE SPECIFICATION: PROJECT_DESCRIPTION: "@ + description + ", PAGES: "@ + pages
        + ", INTERNAL_API_ROUTES: "@ + internal_routes + ", EXTERNAL_API_ROUTES: "@
        + external_routes
}

pub open spec fn colours_context_of(description: Seq<char>, content: Seq<char>) -> Seq<char> {
    "PROJECT_DESCRIPTION: "@ + description + ", WEBSITE_CONTENT: "@ + content
}

pub open spec fn svg_context_of(description: Seq<char>, colours: Seq<char>) -> Seq<char> {
    "PROJECT_DESCRIPTION: "@ + description + ", BRAND_COLOURS: "@ + colours
}

pub open spec fn logo_wrap_context_of(svg: Seq<char>, pages: Seq<char>) -> Seq<char> {
    "WEBSITE SPECIFICATION: SVG_LOGO: "@ + svg + ", PAGES: "@ + pages
}

pub open spec fn nav_context_of(
    description: Seq<char>,
    pages: Seq<char>,
    colours: Seq<char>,
) -> Seq<char> {
    "WEBSITE_SPECIFICATION: PROJECT_DESCRIPTION: "@ + description + ", PAGES_WHICH_NEED_LINKS: "@
        + pages + ", COLOUR_SCHEME: "@ + colours
}

pub open spec fn hook_context_of(schema_json: Seq<char>) -> Seq<char> {
    "API_ENDPOINTS_JSON_SCHEMA: "@ + schema_json
}

pub open spec fn wireframe_context_of(page: Seq<char>, suggestions: Seq<char>) -> Seq<char> {
    "WEBSITE SPECIFICATION: PAGE: "@ + page + ", CONTENT_SECTION_SUGGESTIONS: "@ + suggestions
}

pub open spec fn api_comp_context_of(routes: Seq<char>, hook: Seq<char>) -> Seq<char> {
    "API_ROUTES: API_ENDPOINTS_RELATED_TO_COMPONENT: "@ + routes + ", REACT_HOOK_API_ENDPOINTS: "@
        + hook
}

pub open spec fn merge_context_of(api_component: Seq<char>, wireframe: Seq<char>) -> Seq<char> {
    "API_COMPONENT: "@ + api_component + " HTML_WIREFRAME: "@ + wireframe
}

pub open spec fn style_context_of(component: Seq<char>) -> Seq<char> {
    "REACT_COMPONENT: "@ + component
}

pub open spec fn fix_front_context_of(code: Seq<char>, errors: Seq<char>) -> Seq<char> {
    "ORIGINAL_CODE: "@ + code + ", ERROR_MESSAGE: "@ + errors
}

/// Where the frontend developer stands between two outside actions.
#[derive(Debug)]
pub enum FrontendPhase {
    /// Awaiting the backend source, input of the page plan.
    ReadBackendMain,
    /// Awaiting the recommended pages.
    GenPages { context: String, retried: bool },
    /// Awaiting the persisted endpoint schema, input of the assignments.
    ReadSchemaForAssign,
    /// Awaiting the page-to-route assignments.
    GenAssignments { context: String, retried: bool },
    /// Awaiting the brand colours.
    GenColours { context: String, retried: bool },
    /// Awaiting the vector icon.
    GenSvg { context: String, retried: bool },
    /// Awaiting the name-bearing logo component.
    GenLogoWrap { context: String, retried: bool },
    /// Awaiting a navigation component (header or footer).
    GenNav { header: bool, context: String, retried: bool },
    /// Awaiting the persisted endpoint schema, input of the data hook.
    ReadHookSchema,
    /// Awaiting the data-access hook component.
    GenHook { context: String, retried: bool },
    /// Awaiting the hook artifact's contents, input of a page component.
    ReadHookForPage { page_index: usize },
    /// Awaiting the page's textual wireframe.
    GenWireframe { page_index: usize, hook: String, context: String, retried: bool },
    /// Awaiting the page's API-integration component.
    GenApiComponent { page_index: usize, wireframe: String, context: String, retried: bool },
    /// Awaiting the merge of wireframe and API component.
    GenMerge { page_index: usize, context: String, retried: bool },
    /// Awaiting the final styling pass.
    GenStyle { page_index: usize, context: String, retried: bool },
    /// Awaiting the acknowledgement that the artifact was persisted.
    SavingComponent { component_index: usize, code: String },
    /// Awaiting the whole-project build check's outcome.
    Testing { component_index: usize, repaired: bool },
    /// Awaiting the broken artifact's contents, input of the repair.
    ReadForFix { component_index: usize, errors: String },
    /// Awaiting the repaired artifact.
    GenFixFrontend { component_index: usize, context: String, retried: bool },
    /// Awaiting the acknowledgement that the repair was persisted.
    SavingFix { component_index: usize, code: String },
    /// No handler applies any more.
    Idle,
}

#[verifier::ext_equal]
pub enum FrontendPhaseView {
    ReadBackendMain,
    GenPages { context: Seq<char>, retried: bool },
    ReadSchemaForAssign,
    GenAssignments { context: Seq<char>, retried: bool },
    GenColours { context: Seq<char>, retried: bool },
    GenSvg { context: Seq<char>, retried: bool },
    GenLogoWrap { context: Seq<char>, retried: bool },
    GenNav { header: bool, context: Seq<char>, retried: bool },
    ReadHookSchema,
    GenHook { context: Seq<char>, retried: bool },
    ReadHookForPage { page_index: int },
    GenWireframe { page_index: int, hook: Seq<char>, context: Seq<char>, retried: bool },
    GenApiComponent { page_index: int, wireframe: Seq<char>, context: Seq<char>, retried: bool },
    GenMerge { page_index: int, context: Seq<char>, retried: bool },
    GenStyle { page_index: int, context: Seq<char>, retried: bool },
    SavingComponent { component_index: int, code: Seq<char> },
    Testing { component_index: int, repaired: bool },
    ReadForFix { component_index: int, errors: Seq<char> },
    GenFixFrontend { component_index: int, context: Seq<char>, retried: bool },
    SavingFix { component_index: int, code: Seq<char> },
    Idle,
}

impl View for FrontendPhase {
    type V = FrontendPhaseView;

    open spec fn view(&self) -> FrontendPhaseView {
        match self {
            FrontendPhase::ReadBackendMain => FrontendPhaseView::ReadBackendMain,
            FrontendPhase::GenPages { context, retried } => (FrontendPhaseView::GenPages {
                context: context@,
                retried: *retried,
            }),
            FrontendPhase::ReadSchemaForAssign => FrontendPhaseView::ReadSchemaForAssign,
            FrontendPhase::GenAssignments { context, retried } => (FrontendPhaseView::GenAssignments {
                context: context@,
                retried: *retried,
            }),
            FrontendPhase::GenColours { context, retried } => (FrontendPhaseView::GenColours {
                context: context@,
                retried: *retried,
            }),
            FrontendPhase::GenSvg { context, retried } => (FrontendPhaseView::GenSvg {
                context: context@,
                retried: *retried,
            }),
            FrontendPhase::GenLogoWrap { context, retried } => (FrontendPhaseView::GenLogoWrap {
                context: context@,
                retried: *retried,
            }),
            FrontendPhase::GenNav { header, context, retried } => (FrontendPhaseView::GenNav {
                header: *header,
                context: context@,
                retried: *retried,
            }),
            FrontendPhase::ReadHookSchema => FrontendPhaseView::ReadHookSchema,
            FrontendPhase::GenHook { context, retried } => (FrontendPhaseView::GenHook {
                context: context@,
                retried: *retried,
            }),
            FrontendPhase::ReadHookForPage { page_index } => (FrontendPhaseView::ReadHookForPage {
                page_index: *page_index as int,
            }),
            FrontendPhase::GenWireframe { page_index, hook, context, retried } => (FrontendPhaseView::GenWireframe {
                page_index: *page_index as int,
                hook: hook@,
                context: context@,
                retried: *retried,
            }),
            FrontendPhase::GenApiComponent { page_index, wireframe, context, retried } => (FrontendPhaseView::GenApiComponent {
                page_index: *page_index as int,
                wireframe: wireframe@,
                context: context@,
                retried: *retried,
            }),
            FrontendPhase::GenMerge { page_index, context, retried } => (FrontendPhaseView::GenMerge {
                page_index: *page_index as int,
                context: context@,
                retried: *retried,
            }),
            FrontendPhase::GenStyle { page_index, context, retried } => (FrontendPhaseView::GenStyle {
                page_index: *page_index as int,
                context: context@,
                retried: *retried,
            }),
            FrontendPhase::SavingComponent { component_index, code } => (FrontendPhaseView::SavingComponent {
                component_index: *component_index as int,
                code: code@,
            }),
            FrontendPhase::Testing { component_index, repaired } => (FrontendPhaseView::Testing {
                component_index: *component_index as int,
                repaired: *repaired,
            }),
            FrontendPhase::ReadForFix { component_index, errors } => (FrontendPhaseView::ReadForFix {
                component_index: *component_index as int,
                errors: errors@,
            }),
            FrontendPhase::GenFixFrontend { component_index, context, retried } => (FrontendPhaseView::GenFixFrontend {
                component_index: *component_index as int,
                context: context@,
                retried: *retried,
            }),
            FrontendPhase::SavingFix { component_index, code } => (FrontendPhaseView::SavingFix {
                component_index: *component_index as int,
                code: code@,
            }),
            FrontendPhase::Idle => FrontendPhaseView::Idle,
        }
    }
}

/// Everything the frontend developer's transition relation reads and
/// writes.
#[verifier::ext_equal]
pub struct FrontendConfig {
    pub state: AgentState,
    pub bug_count: u8,
    pub focus: BuildComponent,
    pub sheet: DesignBuildSheetView,
    pub phase: FrontendPhaseView,
    pub fact: FactSheetView,
}

/// The joined page names of the sheet.
pub open spec fn pages_joined(sheet: DesignBuildSheetView) -> Seq<char> {
    joined_with(seq_or_empty(sheet.pages), ", "@)
}

/// The joined brand colours of the sheet.
pub open spec fn colours_joined(sheet: DesignBuildSheetView) -> Seq<char> {
    joined_with(seq_or_empty(sheet.brand_colours), ", "@)
}

/// The joined page descriptions of the sheet.
pub open spec fn content_joined(sheet: DesignBuildSheetView) -> Seq<char> {
    joined_with(site_page_lines_of(seq_or_empty(sheet.pages_descriptions)), ", "@)
}

/// The joined route assignments of one page of the sheet.
pub open spec fn page_routes_joined(sheet: DesignBuildSheetView, name: Seq<char>) -> Seq<char> {
    joined_with(
        assignment_lines_of(assignments_for(seq_or_empty(sheet.api_assignments), name)),
        ", "@,
    )
}

/// The next position of the fixed build order.
pub open spec fn next_component_index(ci: int) -> int {
    if ci >= 5 {
        6
    } else {
        ci + 1
    }
}

/// Enter the component at a position of the fixed build order: the first
/// phase of its recipe, or `Finished` past the last component, or a fatal
/// error when the plan this component needs is missing from the sheet.
pub open spec fn start_component(ci: int, c: FrontendConfig) -> (FrontendConfig, Result<
    StepStatus,
    AgentError,
>) {
    if ci >= 6 {
        (
            FrontendConfig { state: AgentState::Finished, phase: FrontendPhaseView::Idle, ..c },
            Ok(StepStatus::Finished),
        )
    } else if ci == 0 {
        (
            FrontendConfig {
                focus: BuildComponent::Logo,
                phase: FrontendPhaseView::GenSvg {
                    context: svg_context_of(c.fact.project_description, colours_joined(c.sheet)),
                    retried: false,
                },
                ..c
            },
            Ok(StepStatus::Running),
        )
    } else if ci == 1 || ci == 2 {
        (
            FrontendConfig {
                focus: spec_component_at(ci),
                phase: FrontendPhaseView::GenNav {
                    header: ci == 1,
                    context: nav_context_of(
                        c.fact.project_description,
                        pages_joined(c.sheet),
                        colours_joined(c.sheet),
                    ),
                    retried: false,
                },
                ..c
            },
            Ok(StepStatus::Running),
        )
    } else if ci == 3 {
        (
            FrontendConfig {
                focus: BuildComponent::ReactHook,
                phase: FrontendPhaseView::ReadHookSchema,
                ..c
            },
            Ok(StepStatus::Running),
        )
    } else {
        let pi = ci - 4;
        if c.sheet.pages is Some && pi < seq_or_empty(c.sheet.pages).len()
            && c.sheet.pages_descriptions is Some && pi < seq_or_empty(
            c.sheet.pages_descriptions,
        ).len() && c.sheet.api_assignments is Some {
            (
                FrontendConfig {
                    focus: spec_component_at(ci),
                    phase: FrontendPhaseView::ReadHookForPage { page_index: pi },
                    ..c
                },
                Ok(StepStatus::Running),
            )
        } else {
            (c, Err(AgentError::IncompleteBlackboard))
        }
    }
}

/// The planning third of the frontend transition relation: page plan, route assignments and brand colours.
pub open spec fn frontend_plan_step(c: FrontendConfig, ev: AgentEventView) -> (FrontendConfig, Result<
    StepStatus,
    AgentError,
>) {
    match (c.phase, ev) {
        (FrontendPhaseView::ReadBackendMain, AgentEventView::FileRead(code)) => (
            FrontendConfig {
                phase: FrontendPhaseView::GenPages {
                    context: pages_context_of(c.fact.project_description, code),
                    retried: false,
                },
                ..c
            },
            Ok(StepStatus::Running),
        ),
        (FrontendPhaseView::GenPages { context, retried }, AgentEventView::Text(outcome)) => match outcome {
            TextOutcomeView::Delivered(s) => match pages_decode_of(s) {
                Some(items) => (
                    FrontendConfig {
                        sheet: DesignBuildSheetView {
                            pages: Some(page_names_of(items)),
                            pages_descriptions: Some(site_pages_views_of(items)),
                            ..c.sheet
                        },
                        phase: FrontendPhaseView::ReadSchemaForAssign,
                        ..c
                    },
                    Ok(StepStatus::Running),
                ),
                None => (c, Err(AgentError::SchemaDecode)),
            },
            TextOutcomeView::Failed => {
                if !retried {
                    (
                        FrontendConfig {
                            phase: FrontendPhaseView::GenPages { context, retried: true },
                            ..c
                        },
                        Ok(StepStatus::Running),
                    )
                } else {
                    (c, Err(AgentError::TransientService))
                }
            },
        },
        (FrontendPhaseView::ReadSchemaForAssign, AgentEventView::FileRead(schema_json)) => (
            FrontendConfig {
                phase: FrontendPhaseView::GenAssignments {
                    context: assign_context_of(
                        c.fact.project_description,
                        pages_joined(c.sheet),
                        schema_json,
                        joined_with(seq_or_empty(c.fact.external_urls), ", "@),
                    ),
                    retried: false,
                },
                ..c
            },
            Ok(StepStatus::Running),
        ),
        (FrontendPhaseView::GenAssignments { context, retried }, AgentEventView::Text(outcome)) => match outcome {
            TextOutcomeView::Delivered(s) => match page_routes_decode_of(s) {
                Some(m) => (
                    FrontendConfig {
                        sheet: DesignBuildSheetView {
                            api_assignments: Some(route_table_views_of(m)),
                            ..c.sheet
                        },
                        phase: FrontendPhaseView::GenColours {
                            context: colours_context_of(
                                c.fact.project_description,
                                content_joined(c.sheet),
                            ),
                            retried: false,
                        },
                        ..c
                    },
                    Ok(StepStatus::Running),
                ),
                None => (c, Err(AgentError::SchemaDecode)),
            },
            TextOutcomeView::Failed => {
                if !retried {
                    (
                        FrontendConfig {
                            phase: FrontendPhaseView::GenAssignments { context, retried: true },
                            ..c
                        },
                        Ok(StepStatus::Running),
                    )
                } else {
                    (c, Err(AgentError::TransientService))
                }
            },
        },
        (FrontendPhaseView::GenColours { context, retried }, AgentEventView::Text(outcome)) => match outcome {
            TextOutcomeView::Delivered(s) => match string_list_decode_of(s) {
                Some(colours) => {
                    let c2 = FrontendConfig {
                        state: AgentState::Working,
                        sheet: DesignBuildSheetView { brand_colours: Some(colours), ..c.sheet },
                        ..c
                    };
                    start_component(0, c2)
                },
                None => (c, Err(AgentError::SchemaDecode)),
            },
            TextOutcomeView::Failed => {
                if !retried {
                    (
                        FrontendConfig {
                            phase: FrontendPhaseView::GenColours { context, retried: true },
                            ..c
                        },
                        Ok(StepStatus::Running),
                    )
                } else {
                    (c, Err(AgentError::TransientService))
                }
            },
        },
        _ => (c, Err(AgentError::UnexpectedEvent)),
    }
}

/// The recipe third of the frontend transition relation: the generative stages of each component.
pub open spec fn frontend_recipe_step(c: FrontendConfig, ev: AgentEventView) -> (FrontendConfig, Result<
    StepStatus,
    AgentError,
>) {
    match (c.phase, ev) {
        (FrontendPhaseView::GenSvg { context, retried }, AgentEventView::Text(outcome)) => match outcome {
            TextOutcomeView::Delivered(svg) => (
                FrontendConfig {
                    phase: FrontendPhaseView::GenLogoWrap {
                        context: logo_wrap_context_of(svg, pages_joined(c.sheet)),
                        retried: false,
                    },
                    ..c
                },
                Ok(StepStatus::Running),
            ),
            TextOutcomeView::Failed => {
                if !retried {
                    (
                        FrontendConfig {
                            phase: FrontendPhaseView::GenSvg { context, retried: true },
                            ..c
                        },
                        Ok(StepStatus::Running),
                    )
                } else {
                    (c, Err(AgentError::TransientService))
                }
            },
        },
        (FrontendPhaseView::GenLogoWrap { context, retried }, AgentEventView::Text(outcome)) => match outcome {
            TextOutcomeView::Delivered(code) => (
                FrontendConfig {
                    phase: FrontendPhaseView::SavingComponent { component_index: 0, code },
                    ..c
                },
                Ok(StepStatus::Running),
            ),
            TextOutcomeView::Failed => {
                if !retried {
                    (
                        FrontendConfig {
                            phase: FrontendPhaseView::GenLogoWrap { context, retried: true },
                            ..c
                        },
                        Ok(StepStatus::Running),
                    )
                } else {
                    (c, Err(AgentError::TransientService))
                }
            },
        },
        (FrontendPhaseView::GenNav { header, context, retried }, AgentEventView::Text(outcome)) => match outcome {
            TextOutcomeView::Delivered(code) => (
                FrontendConfig {
                    phase: FrontendPhaseView::SavingComponent {
                        component_index: if header {
                            1
                        } else {
                            2
                        },
                        code,
                    },
                    ..c
                },
                Ok(StepStatus::Running),
            ),
            TextOutcomeView::Failed => {
                if !retried {
                    (
                        FrontendConfig {
                            phase: FrontendPhaseView::GenNav { header, context, retried: true },
                            ..c
                        },
                        Ok(StepStatus::Running),
                    )
                } else {
                    (c, Err(AgentError::TransientService))
                }
            },
        },
        (FrontendPhaseView::ReadHookSchema, AgentEventView::FileRead(schema_json)) => (
            FrontendConfig {
                phase: FrontendPhaseView::GenHook {
                    context: hook_context_of(schema_json),
                    retried: false,
                },
                ..c
            },
            Ok(StepStatus::Running),
        ),
        (FrontendPhaseView::GenHook { context, retried }, AgentEventView::Text(outcome)) => match outcome {
            TextOutcomeView::Delivered(code) => (
                FrontendConfig {
                    phase: FrontendPhaseView::SavingComponent { component_index: 3, code },
                    ..c
                },
                Ok(StepStatus::Running),
            ),
            TextOutcomeView::Failed => {
                if !retried {
                    (
                        FrontendConfig {
                            phase: FrontendPhaseView::GenHook { context, retried: true },
                            ..c
                        },
                        Ok(StepStatus::Running),
                    )
                } else {
                    (c, Err(AgentError::TransientService))
                }
            },
        },
        (FrontendPhaseView::ReadHookForPage { page_index }, AgentEventView::FileRead(hook)) => {
            if 0 <= page_index < seq_or_empty(c.sheet.pages).len() && page_index < seq_or_empty(
                c.sheet.pages_descriptions,
            ).len() {
                (
                    FrontendConfig {
                        phase: FrontendPhaseView::GenWireframe {
                            page_index,
                            hook,
                            context: wireframe_context_of(
                                seq_or_empty(c.sheet.pages)[page_index],
                                seq_or_empty(
                                    c.sheet.pages_descriptions,
                                )[page_index].suggested_content_sections,
                            ),
                            retried: false,
                        },
                        ..c
                    },
                    Ok(StepStatus::Running),
                )
            } else {
                (c, Err(AgentError::IncompleteBlackboard))
            }
        },
        (
            FrontendPhaseView::GenWireframe { page_index, hook, context, retried },
            AgentEventView::Text(outcome),
        ) => match outcome {
            TextOutcomeView::Delivered(wire) => {
                if 0 <= page_index < seq_or_empty(c.sheet.pages).len() {
                    (
                        FrontendConfig {
                            phase: FrontendPhaseView::GenApiComponent {
                                page_index,
                                wireframe: wire,
                                context: api_comp_context_of(
                                    page_routes_joined(
                                        c.sheet,
                                        seq_or_empty(c.sheet.pages)[page_index],
                                    ),
                                    hook,
                                ),
                                retried: false,
                            },
                            ..c
                        },
                        Ok(StepStatus::Running),
                    )
                } else {
                    (c, Err(AgentError::IncompleteBlackboard))
                }
            },
            TextOutcomeView::Failed => {
                if !retried {
                    (
                        FrontendConfig {
                            phase: FrontendPhaseView::GenWireframe {
                                page_index,
                                hook,
                                context,
                                retried: true,
                            },
                            ..c
                        },
                        Ok(StepStatus::Running),
                    )
                } else {
                    (c, Err(AgentError::TransientService))
                }
            },
        },
        (
            FrontendPhaseView::GenApiComponent { page_index, wireframe, context, retried },
            AgentEventView::Text(outcome),
        ) => match outcome {
            TextOutcomeView::Delivered(api) => (
                FrontendConfig {
                    phase: FrontendPhaseView::GenMerge {
                        page_index,
                        context: merge_context_of(api, wireframe),
                        retried: false,
                    },
                    ..c
                },
                Ok(StepStatus::Running),
            ),
            TextOutcomeView::Failed => {
                if !retried {
                    (
                        FrontendConfig {
                            phase: FrontendPhaseView::GenApiComponent {
                                page_index,
                                wireframe,
                                context,
                                retried: true,
                            },
                            ..c
                        },
                        Ok(StepStatus::Running),
                    )
                } else {
                    (c, Err(AgentError::TransientService))
                }
            },
        },
        (
            FrontendPhaseView::GenMerge { page_index, context, retried },
            AgentEventView::Text(outcome),
        ) => match outcome {
            TextOutcomeView::Delivered(merged) => (
                FrontendConfig {
                    phase: FrontendPhaseView::GenStyle {
                        page_index,
                        context: style_context_of(merged),
                        retried: false,
                    },
                    ..c
                },
                Ok(StepStatus::Running),
            ),
            TextOutcomeView::Failed => {
                if !retried {
                    (
                        FrontendConfig {
                            phase: FrontendPhaseView::GenMerge {
                                page_index,
                                context,
                                retried: true,
                            },
                            ..c
                        },
                        Ok(StepStatus::Running),
                    )
                } else {
                    (c, Err(AgentError::TransientService))
                }
            },
        },
        (
            FrontendPhaseView::GenStyle { page_index, context, retried },
            AgentEventView::Text(outcome),
        ) => match outcome {
            TextOutcomeView::Delivered(code) => {
                if 0 <= page_index < 2 {
                    (
                        FrontendConfig {
                            phase: FrontendPhaseView::SavingComponent {
                                component_index: 4 + page_index,
                                code,
                            },
                            ..c
                        },
                        Ok(StepStatus::Running),
                    )
                } else {
                    (c, Err(AgentError::UnexpectedEvent))
                }
            },
            TextOutcomeView::Failed => {
                if !retried {
                    (
                        FrontendConfig {
                            phase: FrontendPhaseView::GenStyle {
                                page_index,
                                context,
                                retried: true,
                            },
                            ..c
                        },
                        Ok(StepStatus::Running),
                    )
                } else {
                    (c, Err(AgentError::TransientService))
                }
            },
        },
        _ => (c, Err(AgentError::UnexpectedEvent)),
    }
}

/// The build-and-repair third of the frontend transition relation: persisting artifacts, build checks, and the bounded repair pass.
pub open spec fn frontend_build_step(c: FrontendConfig, ev: AgentEventView) -> (FrontendConfig, Result<
    StepStatus,
    AgentError,
>) {
    match (c.phase, ev) {
        (FrontendPhaseView::SavingComponent { component_index, .. }, AgentEventView::Done) => (
            FrontendConfig {
                phase: FrontendPhaseView::Testing { component_index, repaired: false },
                ..c
            },
            Ok(StepStatus::Running),
        ),
        (
            FrontendPhaseView::Testing { component_index, repaired },
            AgentEventView::Built(outcome),
        ) => match outcome {
            BuildOutcomeView::Success => {
                let c2 = FrontendConfig { bug_count: 0, ..c };
                start_component(next_component_index(component_index), c2)
            },
            BuildOutcomeView::Failure(errors) => {
                if c.bug_count >= 2 {
                    (c, Err(AgentError::TooManyBugs))
                } else {
                    let c2 = FrontendConfig { bug_count: (c.bug_count + 1) as u8, ..c };
                    if c.bug_count + 1 >= 2 {
                        (c2, Err(AgentError::TooManyBugs))
                    } else if !repaired {
                        (
                            FrontendConfig {
                                phase: FrontendPhaseView::ReadForFix { component_index, errors },
                                ..c2
                            },
                            Ok(StepStatus::Running),
                        )
                    } else {
                        start_component(next_component_index(component_index), c2)
                    }
                }
            },
        },
        (FrontendPhaseView::ReadForFix { component_index, errors }, AgentEventView::FileRead(code)) => (
            FrontendConfig {
                phase: FrontendPhaseView::GenFixFrontend {
                    component_index,
                    context: fix_front_context_of(code, errors),
                    retried: false,
                },
                ..c
            },
            Ok(StepStatus::Running),
        ),
        (
            FrontendPhaseView::GenFixFrontend { component_index, context, retried },
            AgentEventView::Text(outcome),
        ) => match outcome {
            TextOutcomeView::Delivered(code) => (
                FrontendConfig {
                    phase: FrontendPhaseView::SavingFix { component_index, code },
                    ..c
                },
                Ok(StepStatus::Running),
            ),
            TextOutcomeView::Failed => {
                if !retried {
                    (
                        FrontendConfig {
                            phase: FrontendPhaseView::GenFixFrontend {
                                component_index,
                                context,
                                retried: true,
                            },
                            ..c
                        },
                        Ok(StepStatus::Running),
                    )
                } else {
                    (c, Err(AgentError::TransientService))
                }
            },
        },
        (FrontendPhaseView::SavingFix { component_index, .. }, AgentEventView::Done) => (
            FrontendConfig {
                phase: FrontendPhaseView::Testing { component_index, repaired: true },
                ..c
            },
            Ok(StepStatus::Running),
        ),
        _ => (c, Err(AgentError::UnexpectedEvent)),
    }
}

/// The frontend developer's transition relation. Total: an event of a
/// kind the current phase did not ask for changes nothing and is an error.
pub open spec fn frontend_step(c: FrontendConfig, ev: AgentEventView) -> (FrontendConfig, Result<
    StepStatus,
    AgentError,
>) {
    match c.phase {
        FrontendPhaseView::ReadBackendMain
        | FrontendPhaseView::GenPages { .. }
        | FrontendPhaseView::ReadSchemaForAssign
        | FrontendPhaseView::GenAssignments { .. }
        | FrontendPhaseView::GenColours { .. } => frontend_plan_step(c, ev),
        FrontendPhaseView::GenSvg { .. }
        | FrontendPhaseView::GenLogoWrap { .. }
        | FrontendPhaseView::GenNav { .. }
        | FrontendPhaseView::ReadHookSchema
        | FrontendPhaseView::GenHook { .. }
        | FrontendPhaseView::ReadHookForPage { .. }
        | FrontendPhaseView::GenWireframe { .. }
        | FrontendPhaseView::GenApiComponent { .. }
        | FrontendPhaseView::GenMerge { .. }
        | FrontendPhaseView::GenStyle { .. } => frontend_recipe_step(c, ev),
        FrontendPhaseView::SavingComponent { .. }
        | FrontendPhaseView::Testing { .. }
        | FrontendPhaseView::ReadForFix { .. }
        | FrontendPhaseView::GenFixFrontend { .. }
        | FrontendPhaseView::SavingFix { .. }
        | FrontendPhaseView::Idle => frontend_build_step(c, ev),
    }
}

/// The outside action the frontend developer asks for in a configuration.
pub open spec fn frontend_action(c: FrontendConfig) -> Option<AgentActionView> {
    match c.phase {
        FrontendPhaseView::ReadBackendMain => Some(AgentActionView::ReadMainFile),
        FrontendPhaseView::GenPages { context, .. } => Some(
            AgentActionView::RequestText {
                context,
                ai_function: AiFunction::PrintRecommendedSitePages,
            },
        ),
        FrontendPhaseView::ReadSchemaForAssign => Some(AgentActionView::ReadApiSchema),
        FrontendPhaseView::GenAssignments { context, .. } => Some(
            AgentActionView::RequestText {
                context,
                ai_function: AiFunction::PrintRecommendedSitePagesWithApis,
            },
        ),
        FrontendPhaseView::GenColours { context, .. } => Some(
            AgentActionView::RequestText {
                context,
                ai_function: AiFunction::PrintRecommendedSiteMainColours,
            },
        ),
        FrontendPhaseView::GenSvg { context, .. } => Some(
            AgentActionView::RequestText { context, ai_function: AiFunction::PrintSvgLogo },
        ),
        FrontendPhaseView::GenLogoWrap { context, .. } => Some(
            AgentActionView::RequestText {
                context,
                ai_function: AiFunction::PrintCompletedLogoWithBrandNameReactComponent,
            },
        ),
        FrontendPhaseView::GenNav { header, context, .. } => Some(
            AgentActionView::RequestText {
                context,
                ai_function: if header {
                    AiFunction::PrintHeaderNavigationReactComponent
                } else {
                    AiFunction::PrintFooterNavigationReactComponent
                },
            },
        ),
        FrontendPhaseView::ReadHookSchema => Some(AgentActionView::ReadApiSchema),
        FrontendPhaseView::GenHook { context, .. } => Some(
            AgentActionView::RequestText {
                context,
                ai_function: AiFunction::PrintReactTypescriptHookComponent,
            },
        ),
        FrontendPhaseView::ReadHookForPage { .. } => Some(
            AgentActionView::ReadFrontendFile {
                path: BuildComponent::ReactHook.spec_filepath(),
            },
        ),
        FrontendPhaseView::GenWireframe { context, .. } => Some(
            AgentActionView::RequestText {
                context,
                ai_function: AiFunction::PrintHtmlWebpageContentWithText,
            },
        ),
        FrontendPhaseView::GenApiComponent { context, .. } => Some(
            AgentActionView::RequestText {
                context,
                ai_function: AiFunction::PrintCreateReactComponentWithApiIntegration,
            },
        ),
        FrontendPhaseView::GenMerge { context, .. } => Some(
            AgentActionView::RequestText {
                context,
                ai_function: AiFunction::PrintCreateFullReactComponent,
            },
        ),
        FrontendPhaseView::GenStyle { context, .. } => Some(
            AgentActionView::RequestText {
                context,
                ai_function: AiFunction::PrintGiveComponentFantasticStyling,
            },
        ),
        FrontendPhaseView::SavingComponent { component_index, code } => Some(
            AgentActionView::SaveFrontendFile {
                path: spec_component_at(component_index).spec_filepath(),
                code,
            },
        ),
        FrontendPhaseView::Testing { .. } => Some(AgentActionView::BuildFrontend),
        FrontendPhaseView::ReadForFix { component_index, .. } => Some(
            AgentActionView::ReadFrontendFile {
                path: spec_component_at(component_index).spec_filepath(),
            },
        ),
        FrontendPhaseView::GenFixFrontend { context, .. } => Some(
            AgentActionView::RequestText {
                context,
                ai_function: AiFunction::PrintCodeBugsResolution,
            },
        ),
        FrontendPhaseView::SavingFix { component_index, code } => Some(
            AgentActionView::SaveFrontendFile {
                path: spec_component_at(component_index).spec_filepath(),
                code,
            },
        ),
        FrontendPhaseView::Idle => None,
    }
}

/// One whole frontend run over a finite feed of outcomes. A configuration
/// whose phase awaits nothing but whose state is not `Finished` is
/// defensively forced to `Finished`.
pub open spec fn frontend_run(c: FrontendConfig, evs: Seq<AgentEventView>) -> (FrontendConfig, Result<
    (),
    AgentError,
>, int)
    decreases evs.len(),
{
    if c.state == AgentState::Finished {
        (c, Ok(()), 0)
    } else if c.phase is Idle {
        (FrontendConfig { state: AgentState::Finished, ..c }, Ok(()), 0)
    } else if evs.len() == 0 {
        (c, Err(AgentError::EventsExhausted), 0)
    } else {
        let (c2, res) = frontend_step(c, evs[0]);
        match res {
            Err(e) => (c2, Err(e), 1),
            Ok(_) => {
                let (c3, r3, n3) = frontend_run(c2, evs.drop_first());
                (c3, r3, 1 + n3)
            },
        }
    }
}

/// The Frontend Developer agent.
#[derive(Debug)]
pub struct AgentFrontendDeveloper {
    pub attributes: BasicAgent,
    pub buildsheet: DesignBuildSheet,
    pub bug_count: u8,
    pub operation_focus: BuildComponent,
    pub phase: FrontendPhase,
}

impl AgentFrontendDeveloper {
    /// The configuration this agent and a blackboard stand in.
    pub open spec fn config(&self, fact: FactSheetView) -> FrontendConfig {
        FrontendConfig {
            state: self.attributes.state,
            bug_count: self.bug_count,
            focus: self.operation_focus,
            sheet: self.buildsheet@,
            phase: self.phase@,
            fact,
        }
    }

    pub fn new() -> (r: Self)
        ensures
            r.attributes.state == AgentState::Discovery,
            r.bug_count == 0,
            r.operation_focus == BuildComponent::Logo,
            r.phase@ == FrontendPhaseView::ReadBackendMain,
            r.buildsheet@ == (DesignBuildSheetView {
                pages: None,
                pages_descriptions: None,
                api_assignments: None,
                brand_colours: None,
                build_mode: FrontendBuildMode::Infrastructure,
            }),
            r.attributes.objective@ == "Develops frontend code for website"@,
            r.attributes.position@ == "Frontend Developer"@,
    {
        AgentFrontendDeveloper {
            attributes: BasicAgent::new(
                String::from_str("Develops frontend code for website"),
                String::from_str("Frontend Developer"),
            ),
            buildsheet: DesignBuildSheet {
                pages: None,
                pages_descriptions: None,
                api_assignments: None,
                brand_colours: None,
                build_mode: FrontendBuildMode::Infrastructure,
            },
            bug_count: 0,
            operation_focus: BuildComponent::Logo,
            phase: FrontendPhase::ReadBackendMain,
        }
    }

    /// The agent's role label, for narration.
    pub fn get_agent_position(&mut self) -> (r: String)
        ensures
            r@ == old(self).attributes.position@,
            *final(self) == *old(self),
    {
        self.attributes.position.clone()
    }

    /// The outside action the frontend developer needs next.
    pub fn next_action(&self, fact_sheet: &FactSheet) -> (r: Option<AgentAction>)
        ensures
            r is Some <==> frontend_action(self.config(fact_sheet@)) is Some,
            r is Some ==> r.unwrap()@ == frontend_action(self.config(fact_sheet@)).unwrap(),
    {
        match &self.phase {
            FrontendPhase::ReadBackendMain => Some(AgentAction::ReadMainFile),
            FrontendPhase::GenPages { context, .. } => Some(
                AgentAction::RequestText {
                    context: context.clone(),
                    ai_function: AiFunction::PrintRecommendedSitePages,
                },
            ),
            FrontendPhase::ReadSchemaForAssign => Some(AgentAction::ReadApiSchema),
            FrontendPhase::GenAssignments { context, .. } => Some(
                AgentAction::RequestText {
                    context: context.clone(),
                    ai_function: AiFunction::PrintRecommendedSitePagesWithApis,
                },
            ),
            FrontendPhase::GenColours { context, .. } => Some(
                AgentAction::RequestText {
                    context: context.clone(),
                    ai_function: AiFunction::PrintRecommendedSiteMainColours,
                },
            ),
            FrontendPhase::GenSvg { context, .. } => Some(
                AgentAction::RequestText {
                    context: context.clone(),
                    ai_function: AiFunction::PrintSvgLogo,
                },
            ),
            FrontendPhase::GenLogoWrap { context, .. } => Some(
                AgentAction::RequestText {
                    context: context.clone(),
                    ai_function: AiFunction::PrintCompletedLogoWithBrandNameReactComponent,
                },
            ),
            FrontendPhase::GenNav { header, context, .. } => Some(
                AgentAction::RequestText {
                    context: context.clone(),
                    ai_function: if *header {
                        AiFunction::PrintHeaderNavigationReactComponent
                    } else {
                        AiFunction::PrintFooterNavigationReactComponent
                    },
                },
            ),
            FrontendPhase::ReadHookSchema => Some(AgentAction::ReadApiSchema),
            FrontendPhase::GenHook { context, .. } => Some(
                AgentAction::RequestText {
                    context: context.clone(),
                    ai_function: AiFunction::PrintReactTypescriptHookComponent,
                },
            ),
            FrontendPhase::ReadHookForPage { .. } => Some(
                AgentAction::ReadFrontendFile { path: BuildComponent::ReactHook.filepath() },
            ),
            FrontendPhase::GenWireframe { context, .. } => Some(
                AgentAction::RequestText {
                    context: context.clone(),
                    ai_function: AiFunction::PrintHtmlWebpageContentWithText,
                },
            ),
            FrontendPhase::GenApiComponent { context, .. } => Some(
                AgentAction::RequestText {
                    context: context.clone(),
                    ai_function: AiFunction::PrintCreateReactComponentWithApiIntegration,
                },
            ),
            FrontendPhase::GenMerge { context, .. } => Some(
                AgentAction::RequestText {
                    context: context.clone(),
                    ai_function: AiFunction::PrintCreateFullReactComponent,
                },
            ),
            FrontendPhase::GenStyle { context, .. } => Some(
                AgentAction::RequestText {
                    context: context.clone(),
                    ai_function: AiFunction::PrintGiveComponentFantasticStyling,
                },
            ),
            FrontendPhase::SavingComponent { component_index, code } => Some(
                AgentAction::SaveFrontendFile {
                    path: component_at(*component_index).filepath(),
                    code: code.clone(),
                },
            ),
            FrontendPhase::Testing { .. } => Some(AgentAction::BuildFrontend),
            FrontendPhase::ReadForFix { component_index, .. } => Some(
                AgentAction::ReadFrontendFile {
                    path: component_at(*component_index).filepath(),
                },
            ),
            FrontendPhase::GenFixFrontend { context, .. } => Some(
                AgentAction::RequestText {
                    context: context.clone(),
                    ai_function: AiFunction::PrintCodeBugsResolution,
                },
            ),
            FrontendPhase::SavingFix { component_index, code } => Some(
                AgentAction::SaveFrontendFile {
                    path: component_at(*component_index).filepath(),
                    code: code.clone(),
                },
            ),
            FrontendPhase::Idle => None,
        }
    }

    /// Enter the component at `ci` of the fixed build order, as
    /// `start_component` says.
    fn enter_component(&mut self, fact_sheet: &FactSheet, ci: usize) -> (r: Result<
        StepStatus,
        AgentError,
    >)
        ensures
            ({
                let (c2, res) = start_component(ci as int, old(self).config(fact_sheet@));
                &&& final(self).config(fact_sheet@) == c2
                &&& r == res
            }),
            final(self).attributes.objective == old(self).attributes.objective,
            final(self).attributes.position == old(self).attributes.position,
            final(self).attributes.memory == old(self).attributes.memory,
    {
        let ghost c = old(self).config(fact_sheet@);
        if ci >= 6 {
            self.phase = FrontendPhase::Idle;
            self.attributes.update_state(AgentState::Finished);
            proof {
                assert(self.config(fact_sheet@) =~= start_component(ci as int, c).0);
            }
            Ok(StepStatus::Finished)
        } else if ci == 0 {
            let colours = join_opt_strings(&self.buildsheet.brand_colours, ", ");
            let mut context = String::from_str("PROJECT_DESCRIPTION: ");
            context.append(fact_sheet.project_description.as_str());
            context.append(", BRAND_COLOURS: ");
            context.append(colours.as_str());
            proof {
                assert(context@ =~= svg_context_of(c.fact.project_description, colours_joined(c.sheet)));
            }
            self.operation_focus = BuildComponent::Logo;
            self.phase = FrontendPhase::GenSvg { context, retried: false };
            proof {
                assert(self.config(fact_sheet@) =~= start_component(ci as int, c).0);
            }
            Ok(StepStatus::Running)
        } else if ci == 1 || ci == 2 {
            let pages = join_opt_strings(&self.buildsheet.pages, ", ");
            let colours = join_opt_strings(&self.buildsheet.brand_colours, ", ");
            let mut context = String::from_str("WEBSITE_SPECIFICATION: PROJECT_DESCRIPTION: ");
            context.append(fact_sheet.project_description.as_str());
            context.append(", PAGES_WHICH_NEED_LINKS: ");
            context.append(pages.as_str());
            context.append(", COLOUR_SCHEME: ");
            context.append(colours.as_str());
            proof {
                assert(context@ =~= nav_context_of(
                    c.fact.project_description,
                    pages_joined(c.sheet),
                    colours_joined(c.sheet),
                ));
            }
            self.operation_focus = component_at(ci);
            self.phase = FrontendPhase::GenNav { header: ci == 1, context, retried: false };
            proof {
                assert(self.config(fact_sheet@) =~= start_component(ci as int, c).0);
            }
            Ok(StepStatus::Running)
        } else if ci == 3 {
            self.operation_focus = BuildComponent::ReactHook;
            self.phase = FrontendPhase::ReadHookSchema;
            proof {
                assert(self.config(fact_sheet@) =~= start_component(ci as int, c).0);
            }
            Ok(StepStatus::Running)
        } else {
            let pi = ci - 4;
            let pages_ok = match &self.buildsheet.pages {
                Some(ps) => pi < ps.len(),
                None => false,
            };
            let descriptions_ok = match &self.buildsheet.pages_descriptions {
                Some(ds) => pi < ds.len(),
                None => false,
            };
            let assignments_ok = self.buildsheet.api_assignments.is_some();
            if pages_ok && descriptions_ok && assignments_ok {
                self.operation_focus = component_at(ci);
                self.phase = FrontendPhase::ReadHookForPage { page_index: pi };
                proof {
                    assert(self.config(fact_sheet@) =~= start_component(ci as int, c).0);
                }
                Ok(StepStatus::Running)
            } else {
                proof {
                    assert(self.config(fact_sheet@) =~= c);
                }
                Err(AgentError::IncompleteBlackboard)
            }
        }
    }

    /// One step of the planning stage: page plan, route assignments and
    /// brand colours.
    #[verifier::rlimit(100)]
    #[verifier::spinoff_prover]
    fn plan_step(&mut self, fact_sheet: &mut FactSheet, event: AgentEvent) -> (r: Result<
        StepStatus,
        AgentError,
    >)
        ensures
            ({
                let (c2, res) = frontend_plan_step(old(self).config(old(fact_sheet)@), event@);
                &&& final(self).config(final(fact_sheet)@) == c2
                &&& r == res
            }),
            final(self).attributes.objective == old(self).attributes.objective,
            final(self).attributes.position == old(self).attributes.position,
            final(self).attributes.memory == old(self).attributes.memory,
    {
        let ghost c = old(self).config(old(fact_sheet)@);
        let mut phase = FrontendPhase::Idle;
        core::mem::swap(&mut phase, &mut self.phase);
        match (phase, event) {
            (FrontendPhase::ReadBackendMain, AgentEvent::FileRead(code)) => {
                let mut context = String::from_str("PROJECT_DESCRIPTION: ");
                context.append(fact_sheet.project_description.as_str());
                context.append(", CODE_LOGIC: ");
                context.append(code.as_str());
                proof {
                    assert(context@ =~= pages_context_of(c.fact.project_description, code@));
                }
                self.phase = FrontendPhase::GenPages { context, retried: false };
                proof {
                    assert(self.config(fact_sheet@) =~= frontend_plan_step(c, event@).0);
                }
                Ok(StepStatus::Running)
            },
            (FrontendPhase::GenPages { context, retried }, AgentEvent::Text(outcome)) => match outcome {
                TextOutcome::Delivered(s) => match parse_site_pages(s.as_str()) {
                    Some(items) => {
                        let ghost items_v = pages_decode_of(s@).unwrap();
                        let mut names: Vec<String> = Vec::new();
                        let mut descriptions: Vec<SitePages> = Vec::new();
                        let mut i: usize = 0;
                        while i < items.len()
                            invariant
                                i <= items.len(),
                                items.deep_view() == items_v,
                                names.deep_view() == page_names_of(items_v).take(i as int),
                                descriptions.deep_view() == site_pages_views_of(items_v).take(
                                    i as int,
                                ),
                        decreases items.len() - i,
                        {
                            let ghost pre_names = names.deep_view();
                            let ghost pre_descriptions = descriptions.deep_view();
                            proof {
                                assert(pre_names.len() == names@.len());
                                assert(pre_descriptions.len() == descriptions@.len());
                                assert(items.deep_view()[i as int] == items@[i as int].deep_view());
                            }
                            names.push(items[i].0.clone());
                            descriptions.push(
                                SitePages {
                                    page_name: items[i].0.clone(),
                                    suggested_content_sections: items[i].1.clone(),
                                },
                            );
                            proof {
                                assert(names.deep_view() =~= page_names_of(items_v).take(i + 1));
                                assert(descriptions.deep_view() =~= site_pages_views_of(
                                    items_v,
                                ).take(i + 1));
                            }
                            i += 1;
                        }
                        proof {
                            assert(names.deep_view() =~= page_names_of(items_v));
                            assert(descriptions.deep_view() =~= site_pages_views_of(items_v));
                        }
                        self.buildsheet.pages = Some(names);
                        self.buildsheet.pages_descriptions = Some(descriptions);
                        self.phase = FrontendPhase::ReadSchemaForAssign;
                        proof {
                            assert(self.config(fact_sheet@) =~= frontend_plan_step(c, event@).0);
                        }
                        Ok(StepStatus::Running)
                    },
                    None => {
                        self.phase = FrontendPhase::GenPages { context, retried };
                        proof {
                            assert(self.config(fact_sheet@) =~= c);
                        }
                        Err(AgentError::SchemaDecode)
                    },
                },
                TextOutcome::Failed => {
                    if !retried {
                        self.phase = FrontendPhase::GenPages { context, retried: true };
                        proof {
                            assert(self.config(fact_sheet@) =~= frontend_plan_step(c, event@).0);
                        }
                        Ok(StepStatus::Running)
                    } else {
                        self.phase = FrontendPhase::GenPages { context, retried };
                        proof {
                            assert(self.config(fact_sheet@) =~= c);
                        }
                        Err(AgentError::TransientService)
                    }
                },
            },
            (FrontendPhase::ReadSchemaForAssign, AgentEvent::FileRead(schema_json)) => {
                let pages = join_opt_strings(&self.buildsheet.pages, ", ");
                let externals = join_opt_strings(&fact_sheet.external_urls, ", ");
                let mut context = String::from_str("WEBSITE SPECIFICATION: PROJECT_DESCRIPTION: ");
                context.append(fact_sheet.project_description.as_str());
                context.append(", PAGES: ");
                context.append(pages.as_str());
                context.append(", INTERNAL_API_ROUTES: ");
                context.append(schema_json.as_str());
                context.append(", EXTERNAL_API_ROUTES: ");
                context.append(externals.as_str());
                proof {
                    assert(context@ =~= assign_context_of(
                        c.fact.project_description,
                        pages_joined(c.sheet),
                        schema_json@,
                        joined_with(seq_or_empty(c.fact.external_urls), ", "@),
                    ));
                }
                self.phase = FrontendPhase::GenAssignments { context, retried: false };
                proof {
                    assert(self.config(fact_sheet@) =~= frontend_plan_step(c, event@).0);
                }
                Ok(StepStatus::Running)
            },
            (FrontendPhase::GenAssignments { context, retried }, AgentEvent::Text(outcome)) => match outcome {
                TextOutcome::Delivered(s) => match parse_page_routes(s.as_str()) {
                    Some(table) => {
                        let ghost table_v = page_routes_decode_of(s@).unwrap();
                        let mut converted: Vec<(String, PageAPIAssign)> = Vec::new();
                        let mut i: usize = 0;
                        while i < table.len()
                            invariant
                                i <= table.len(),
                                table.deep_view() == table_v,
                                converted.deep_view() == route_table_views_of(table_v).take(
                                    i as int,
                                ),
                        decreases table.len() - i,
                        {
                            let mut routes: Vec<APIAssignment> = Vec::new();
                            let mut j: usize = 0;
                            while j < table[i].1.len()
                                invariant
                                    i < table.len(),
                                    j <= table@[i as int].1.len(),
                                    table.deep_view() == table_v,
                                    routes.deep_view() == assignments_views_of(
                                        table_v[i as int].1,
                                    ).take(j as int),
                            decreases table@[i as int].1.len() - j,
                            {
                                let ghost pre_routes = routes.deep_view();
                                proof {
                                    assert(pre_routes.len() == routes@.len());
                                    assert(table.deep_view()[i as int]
                                        == table@[i as int].deep_view());
                                    assert(table@[i as int].1.deep_view()[j as int]
                                        == table@[i as int].1@[j as int].deep_view());
                                }
                                routes.push(
                                    APIAssignment {
                                        api_route: table[i].1[j].0.clone(),
                                        method: table[i].1[j].1.clone(),
                                        route_type: table[i].1[j].2.clone(),
                                    },
                                );
                                proof {
                                    assert(routes.deep_view() =~= assignments_views_of(
                                        table_v[i as int].1,
                                    ).take(j + 1));
                                }
                                j += 1;
                            }
                            let ghost pre = converted.deep_view();
                            proof {
                                assert(pre.len() == converted@.len());
                                assert(routes.deep_view() =~= assignments_views_of(
                                    table_v[i as int].1,
                                ));
                                assert(table.deep_view()[i as int] == table@[i as int].deep_view());
                            }
                            converted.push((table[i].0.clone(), PageAPIAssign { page: routes }));
                            proof {
                                assert(converted.deep_view() =~= route_table_views_of(
                                    table_v,
                                ).take(i + 1));
                            }
                            i += 1;
                        }
                        proof {
                            assert(converted.deep_view() =~= route_table_views_of(table_v));
                        }
                        let content = match &self.buildsheet.pages_descriptions {
                            Some(items) => {
                                let lines = site_page_lines(items);
                                join_strings(&lines, ", ")
                            },
                            None => String::new(),
                        };
                        let mut colours_context = String::from_str("PROJECT_DESCRIPTION: ");
                        colours_context.append(fact_sheet.project_description.as_str());
                        colours_context.append(", WEBSITE_CONTENT: ");
                        colours_context.append(content.as_str());
                        proof {
                            assert(colours_context@ =~= colours_context_of(
                                c.fact.project_description,
                                content_joined(c.sheet),
                            ));
                        }
                        self.buildsheet.api_assignments = Some(converted);
                        self.phase = FrontendPhase::GenColours {
                            context: colours_context,
                            retried: false,
                        };
                        proof {
                            assert(self.config(fact_sheet@) =~= frontend_plan_step(c, event@).0);
                        }
                        Ok(StepStatus::Running)
                    },
                    None => {
                        self.phase = FrontendPhase::GenAssignments { context, retried };
                        proof {
                            assert(self.config(fact_sheet@) =~= c);
                        }
                        Err(AgentError::SchemaDecode)
                    },
                },
                TextOutcome::Failed => {
                    if !retried {
                        self.phase = FrontendPhase::GenAssignments { context, retried: true };
                        proof {
                            assert(self.config(fact_sheet@) =~= frontend_plan_step(c, event@).0);
                        }
                        Ok(StepStatus::Running)
                    } else {
                        self.phase = FrontendPhase::GenAssignments { context, retried };
                        proof {
                            assert(self.config(fact_sheet@) =~= c);
                        }
                        Err(AgentError::TransientService)
                    }
                },
            },
            (FrontendPhase::GenColours { context, retried }, AgentEvent::Text(outcome)) => match outcome {
                TextOutcome::Delivered(s) => match parse_string_list(s.as_str()) {
                    Some(colours) => {
                        self.buildsheet.brand_colours = Some(colours);
                        self.attributes.update_state(AgentState::Working);
                        proof {
                            assert(self.config(fact_sheet@) =~= (FrontendConfig {
                                state: AgentState::Working,
                                sheet: DesignBuildSheetView {
                                    brand_colours: Some(string_list_decode_of(s@).unwrap()),
                                    ..c.sheet
                                },
                                phase: FrontendPhaseView::Idle,
                                ..c
                            }));
                        }
                        let r = self.enter_component(fact_sheet, 0);
                        proof {
                            assert(self.config(fact_sheet@) =~= frontend_plan_step(c, event@).0);
                        }
                        r
                    },
                    None => {
                        self.phase = FrontendPhase::GenColours { context, retried };
                        proof {
                            assert(self.config(fact_sheet@) =~= c);
                        }
                        Err(AgentError::SchemaDecode)
                    },
                },
                TextOutcome::Failed => {
                    if !retried {
                        self.phase = FrontendPhase::GenColours { context, retried: true };
                        proof {
                            assert(self.config(fact_sheet@) =~= frontend_plan_step(c, event@).0);
                        }
                        Ok(StepStatus::Running)
                    } else {
                        self.phase = FrontendPhase::GenColours { context, retried };
                        proof {
                            assert(self.config(fact_sheet@) =~= c);
                        }
                        Err(AgentError::TransientService)
                    }
                },
            },
            (other_phase, _) => {
                self.phase = other_phase;
                proof {
                    assert(self.config(fact_sheet@) =~= c);
                }
                Err(AgentError::UnexpectedEvent)
            },
        }
    }

    /// One step of a component's generative recipe.
    #[verifier::rlimit(100)]
    #[verifier::spinoff_prover]
    fn recipe_step(&mut self, fact_sheet: &mut FactSheet, event: AgentEvent) -> (r: Result<
        StepStatus,
        AgentError,
    >)
        ensures
            ({
                let (c2, res) = frontend_recipe_step(old(self).config(old(fact_sheet)@), event@);
                &&& final(self).config(final(fact_sheet)@) == c2
                &&& r == res
            }),
            final(self).attributes.objective == old(self).attributes.objective,
            final(self).attributes.position == old(self).attributes.position,
            final(self).attributes.memory == old(self).attributes.memory,
    {
        let ghost c = old(self).config(old(fact_sheet)@);
        let mut phase = FrontendPhase::Idle;
        core::mem::swap(&mut phase, &mut self.phase);
        match (phase, event) {
            (FrontendPhase::GenSvg { context, retried }, AgentEvent::Text(outcome)) => match outcome {
                TextOutcome::Delivered(svg) => {
                    let pages = join_opt_strings(&self.buildsheet.pages, ", ");
                    let mut wrap_context = String::from_str("WEBSITE SPECIFICATION: SVG_LOGO: ");
                    wrap_context.append(svg.as_str());
                    wrap_context.append(", PAGES: ");
                    wrap_context.append(pages.as_str());
                    proof {
                        assert(wrap_context@ =~= logo_wrap_context_of(svg@, pages_joined(c.sheet)));
                    }
                    self.phase = FrontendPhase::GenLogoWrap { context: wrap_context, retried: false };
                    proof {
                        assert(self.config(fact_sheet@) =~= frontend_recipe_step(c, event@).0);
                    }
                    Ok(StepStatus::Running)
                },
                TextOutcome::Failed => {
                    if !retried {
                        self.phase = FrontendPhase::GenSvg { context, retried: true };
                        proof {
                            assert(self.config(fact_sheet@) =~= frontend_recipe_step(c, event@).0);
                        }
                        Ok(StepStatus::Running)
                    } else {
                        self.phase = FrontendPhase::GenSvg { context, retried };
                        proof {
                            assert(self.config(fact_sheet@) =~= c);
                        }
                        Err(AgentError::TransientService)
                    }
                },
            },
            (FrontendPhase::GenLogoWrap { context, retried }, AgentEvent::Text(outcome)) => match outcome {
                TextOutcome::Delivered(code) => {
                    self.phase = FrontendPhase::SavingComponent { component_index: 0, code };
                    proof {
                        assert(self.config(fact_sheet@) =~= frontend_recipe_step(c, event@).0);
                    }
                    Ok(StepStatus::Running)
                },
                TextOutcome::Failed => {
                    if !retried {
                        self.phase = FrontendPhase::GenLogoWrap { context, retried: true };
                        proof {
                            assert(self.config(fact_sheet@) =~= frontend_recipe_step(c, event@).0);
                        }
                        Ok(StepStatus::Running)
                    } else {
                        self.phase = FrontendPhase::GenLogoWrap { context, retried };
                        proof {
                            assert(self.config(fact_sheet@) =~= c);
                        }
                        Err(AgentError::TransientService)
                    }
                },
            },
            (FrontendPhase::GenNav { header, context, retried }, AgentEvent::Text(outcome)) => match outcome {
                TextOutcome::Delivered(code) => {
                    self.phase = FrontendPhase::SavingComponent {
                        component_index: if header {
                            1
                        } else {
                            2
                        },
                        code,
                    };
                    proof {
                        assert(self.config(fact_sheet@) =~= frontend_recipe_step(c, event@).0);
                    }
                    Ok(StepStatus::Running)
                },
                TextOutcome::Failed => {
                    if !retried {
                        self.phase = FrontendPhase::GenNav { header, context, retried: true };
                        proof {
                            assert(self.config(fact_sheet@) =~= frontend_recipe_step(c, event@).0);
                        }
                        Ok(StepStatus::Running)
                    } else {
                        self.phase = FrontendPhase::GenNav { header, context, retried };
                        proof {
                            assert(self.config(fact_sheet@) =~= c);
                        }
                        Err(AgentError::TransientService)
                    }
                },
            },
            (FrontendPhase::ReadHookSchema, AgentEvent::FileRead(schema_json)) => {
                let mut context = String::from_str("API_ENDPOINTS_JSON_SCHEMA: ");
                context.append(schema_json.as_str());
                proof {
                    assert(context@ =~= hook_context_of(schema_json@));
                }
                self.phase = FrontendPhase::GenHook { context, retried: false };
                proof {
                    assert(self.config(fact_sheet@) =~= frontend_recipe_step(c, event@).0);
                }
                Ok(StepStatus::Running)
            },
            (FrontendPhase::GenHook { context, retried }, AgentEvent::Text(outcome)) => match outcome {
                TextOutcome::Delivered(code) => {
                    self.phase = FrontendPhase::SavingComponent { component_index: 3, code };
                    proof {
                        assert(self.config(fact_sheet@) =~= frontend_recipe_step(c, event@).0);
                    }
                    Ok(StepStatus::Running)
                },
                TextOutcome::Failed => {
                    if !retried {
                        self.phase = FrontendPhase::GenHook { context, retried: true };
                        proof {
                            assert(self.config(fact_sheet@) =~= frontend_recipe_step(c, event@).0);
                        }
                        Ok(StepStatus::Running)
                    } else {
                        self.phase = FrontendPhase::GenHook { context, retried };
                        proof {
                            assert(self.config(fact_sheet@) =~= c);
                        }
                        Err(AgentError::TransientService)
                    }
                },
            },
            (FrontendPhase::ReadHookForPage { page_index }, AgentEvent::FileRead(hook)) => {
                let pages_ok = match &self.buildsheet.pages {
                    Some(ps) => page_index < ps.len(),
                    None => false,
                };
                let descriptions_ok = match &self.buildsheet.pages_descriptions {
                    Some(ds) => page_index < ds.len(),
                    None => false,
                };
                if pages_ok && descriptions_ok {
                    let page = match &self.buildsheet.pages {
                        Some(ps) => ps[page_index].clone(),
                        None => String::new(),
                    };
                    let suggestions = match &self.buildsheet.pages_descriptions {
                        Some(ds) => ds[page_index].suggested_content_sections.clone(),
                        None => String::new(),
                    };
                    let mut context = String::from_str("WEBSITE SPECIFICATION: PAGE: ");
                    context.append(page.as_str());
                    context.append(", CONTENT_SECTION_SUGGESTIONS: ");
                    context.append(suggestions.as_str());
                    proof {
                        assert(context@ =~= wireframe_context_of(
                            seq_or_empty(c.sheet.pages)[page_index as int],
                            seq_or_empty(
                                c.sheet.pages_descriptions,
                            )[page_index as int].suggested_content_sections,
                        ));
                    }
                    self.phase = FrontendPhase::GenWireframe {
                        page_index,
                        hook,
                        context,
                        retried: false,
                    };
                    proof {
                        assert(self.config(fact_sheet@) =~= frontend_recipe_step(c, event@).0);
                    }
                    Ok(StepStatus::Running)
                } else {
                    self.phase = FrontendPhase::ReadHookForPage { page_index };
                    proof {
                        assert(self.config(fact_sheet@) =~= c);
                    }
                    Err(AgentError::IncompleteBlackboard)
                }
            },
            (FrontendPhase::GenWireframe { page_index, hook, context, retried }, AgentEvent::Text(outcome)) => match outcome {
                TextOutcome::Delivered(wire) => {
                    let pages_ok = match &self.buildsheet.pages {
                        Some(ps) => page_index < ps.len(),
                        None => false,
                    };
                    if pages_ok {
                        let page = match &self.buildsheet.pages {
                            Some(ps) => ps[page_index].clone(),
                            None => String::new(),
                        };
                        let routes = match &self.buildsheet.api_assignments {
                            Some(table) => find_assignments(table, &page),
                            None => Vec::new(),
                        };
                        let lines = assignment_lines(&routes);
                        let routes_joined = join_strings(&lines, ", ");
                        let mut api_context = String::from_str(
                            "API_ROUTES: API_ENDPOINTS_RELATED_TO_COMPONENT: ",
                        );
                        api_context.append(routes_joined.as_str());
                        api_context.append(", REACT_HOOK_API_ENDPOINTS: ");
                        api_context.append(hook.as_str());
                        proof {
                            if c.sheet.api_assignments is None {
                                assert(assignments_for(
                                    seq_or_empty(c.sheet.api_assignments),
                                    seq_or_empty(c.sheet.pages)[page_index as int],
                                ) =~= Seq::<APIAssignmentView>::empty());
                                assert(routes.deep_view() =~= assignments_for(
                                    seq_or_empty(c.sheet.api_assignments),
                                    seq_or_empty(c.sheet.pages)[page_index as int],
                                ));
                            }
                            assert(api_context@ =~= api_comp_context_of(
                                page_routes_joined(
                                    c.sheet,
                                    seq_or_empty(c.sheet.pages)[page_index as int],
                                ),
                                hook@,
                            ));
                        }
                        self.phase = FrontendPhase::GenApiComponent {
                            page_index,
                            wireframe: wire,
                            context: api_context,
                            retried: false,
                        };
                        proof {
                            assert(self.config(fact_sheet@) =~= frontend_recipe_step(c, event@).0);
                        }
                        Ok(StepStatus::Running)
                    } else {
                        self.phase = FrontendPhase::GenWireframe {
                            page_index,
                            hook,
                            context,
                            retried,
                        };
                        proof {
                            assert(self.config(fact_sheet@) =~= c);
                        }
                        Err(AgentError::IncompleteBlackboard)
                    }
                },
                TextOutcome::Failed => {
                    if !retried {
                        self.phase = FrontendPhase::GenWireframe {
                            page_index,
                            hook,
                            context,
                            retried: true,
                        };
                        proof {
                            assert(self.config(fact_sheet@) =~= frontend_recipe_step(c, event@).0);
                        }
                        Ok(StepStatus::Running)
                    } else {
                        self.phase = FrontendPhase::GenWireframe {
                            page_index,
                            hook,
                            context,
                            retried,
                        };
                        proof {
                            assert(self.config(fact_sheet@) =~= c);
                        }
                        Err(AgentError::TransientService)
                    }
                },
            },
            (FrontendPhase::GenApiComponent { page_index, wireframe, context, retried }, AgentEvent::Text(outcome)) => match outcome {
                TextOutcome::Delivered(api) => {
                    let mut merge_ctx = String::from_str("API_COMPONENT: ");
                    merge_ctx.append(api.as_str());
                    merge_ctx.append(" HTML_WIREFRAME: ");
                    merge_ctx.append(wireframe.as_str());
                    proof {
                        assert(merge_ctx@ =~= merge_context_of(api@, wireframe@));
                    }
                    self.phase = FrontendPhase::GenMerge {
                        page_index,
                        context: merge_ctx,
                        retried: false,
                    };
                    proof {
                        assert(self.config(fact_sheet@) =~= frontend_recipe_step(c, event@).0);
                    }
                    Ok(StepStatus::Running)
                },
                TextOutcome::Failed => {
                    if !retried {
                        self.phase = FrontendPhase::GenApiComponent {
                            page_index,
                            wireframe,
                            context,
                            retried: true,
                        };
                        proof {
                            assert(self.config(fact_sheet@) =~= frontend_recipe_step(c, event@).0);
                        }
                        Ok(StepStatus::Running)
                    } else {
                        self.phase = FrontendPhase::GenApiComponent {
                            page_index,
                            wireframe,
                            context,
                            retried,
                        };
                        proof {
                            assert(self.config(fact_sheet@) =~= c);
                        }
                        Err(AgentError::TransientService)
                    }
                },
            },
            (FrontendPhase::GenMerge { page_index, context, retried }, AgentEvent::Text(outcome)) => match outcome {
                TextOutcome::Delivered(merged) => {
                    let mut style_ctx = String::from_str("REACT_COMPONENT: ");
                    style_ctx.append(merged.as_str());
                    proof {
                        assert(style_ctx@ =~= style_context_of(merged@));
                    }
                    self.phase = FrontendPhase::GenStyle {
                        page_index,
                        context: style_ctx,
                        retried: false,
                    };
                    proof {
                        assert(self.config(fact_sheet@) =~= frontend_recipe_step(c, event@).0);
                    }
                    Ok(StepStatus::Running)
                },
                TextOutcome::Failed => {
                    if !retried {
                        self.phase = FrontendPhase::GenMerge { page_index, context, retried: true };
                        proof {
                            assert(self.config(fact_sheet@) =~= frontend_recipe_step(c, event@).0);
                        }
                        Ok(StepStatus::Running)
                    } else {
                        self.phase = FrontendPhase::GenMerge { page_index, context, retried };
                        proof {
                            assert(self.config(fact_sheet@) =~= c);
                        }
                        Err(AgentError::TransientService)
                    }
                },
            },
            (FrontendPhase::GenStyle { page_index, context, retried }, AgentEvent::Text(outcome)) => match outcome {
                TextOutcome::Delivered(code) => {
                    if page_index < 2 {
                        self.phase = FrontendPhase::SavingComponent {
                            component_index: 4 + page_index,
                            code,
                        };
                        proof {
                            assert(self.config(fact_sheet@) =~= frontend_recipe_step(c, event@).0);
                        }
                        Ok(StepStatus::Running)
                    } else {
                        self.phase = FrontendPhase::GenStyle { page_index, context, retried };
                        proof {
                            assert(self.config(fact_sheet@) =~= c);
                        }
                        Err(AgentError::UnexpectedEvent)
                    }
                },
                TextOutcome::Failed => {
                    if !retried {
                        self.phase = FrontendPhase::GenStyle { page_index, context, retried: true };
                        proof {
                            assert(self.config(fact_sheet@) =~= frontend_recipe_step(c, event@).0);
                        }
                        Ok(StepStatus::Running)
                    } else {
                        self.phase = FrontendPhase::GenStyle { page_index, context, retried };
                        proof {
                            assert(self.config(fact_sheet@) =~= c);
                        }
                        Err(AgentError::TransientService)
                    }
                },
            },
            (other_phase, _) => {
                self.phase = other_phase;
                proof {
                    assert(self.config(fact_sheet@) =~= c);
                }
                Err(AgentError::UnexpectedEvent)
            },
        }
    }

    /// One step of persisting, build-checking and repairing a component.
    #[verifier::rlimit(100)]
    #[verifier::spinoff_prover]
    fn build_step(&mut self, fact_sheet: &mut FactSheet, event: AgentEvent) -> (r: Result<
        StepStatus,
        AgentError,
    >)
        ensures
            ({
                let (c2, res) = frontend_build_step(old(self).config(old(fact_sheet)@), event@);
                &&& final(self).config(final(fact_sheet)@) == c2
                &&& r == res
            }),
            final(self).attributes.objective == old(self).attributes.objective,
            final(self).attributes.position == old(self).attributes.position,
            final(self).attributes.memory == old(self).attributes.memory,
    {
        let ghost c = old(self).config(old(fact_sheet)@);
        let mut phase = FrontendPhase::Idle;
        core::mem::swap(&mut phase, &mut self.phase);
        match (phase, event) {
            (FrontendPhase::SavingComponent { component_index, code }, AgentEvent::Done) => {
                self.phase = FrontendPhase::Testing { component_index, repaired: false };
                proof {
                    assert(self.config(fact_sheet@) =~= frontend_build_step(c, event@).0);
                }
                Ok(StepStatus::Running)
            },
            (FrontendPhase::Testing { component_index, repaired }, AgentEvent::Built(outcome)) => match outcome {
                BuildOutcome::Success => {
                    self.bug_count = 0;
                    self.phase = FrontendPhase::Testing { component_index, repaired };
                    let next = if component_index >= 5 {
                        6
                    } else {
                        component_index + 1
                    };
                    proof {
                        assert(self.config(fact_sheet@) =~= (FrontendConfig {
                            bug_count: 0,
                            ..c
                        }));
                        assert(next as int == next_component_index(component_index as int));
                    }
                    let r = self.enter_component(fact_sheet, next);
                    proof {
                        assert(self.config(fact_sheet@) =~= frontend_build_step(c, event@).0);
                    }
                    r
                },
                BuildOutcome::Failure(errors) => {
                    if self.bug_count >= 2 {
                        self.phase = FrontendPhase::Testing { component_index, repaired };
                        proof {
                            assert(self.config(fact_sheet@) =~= c);
                        }
                        return Err(AgentError::TooManyBugs);
                    }
                    self.bug_count = self.bug_count + 1;
                    if self.bug_count >= 2 {
                        self.phase = FrontendPhase::Testing { component_index, repaired };
                        proof {
                            assert(self.config(fact_sheet@) =~= frontend_build_step(c, event@).0);
                        }
                        Err(AgentError::TooManyBugs)
                    } else if !repaired {
                        self.phase = FrontendPhase::ReadForFix { component_index, errors };
                        proof {
                            assert(self.config(fact_sheet@) =~= frontend_build_step(c, event@).0);
                        }
                        Ok(StepStatus::Running)
                    } else {
                        self.phase = FrontendPhase::Testing { component_index, repaired };
                        let next = if component_index >= 5 {
                            6
                        } else {
                            component_index + 1
                        };
                        proof {
                            assert(self.config(fact_sheet@) =~= (FrontendConfig {
                                bug_count: (c.bug_count + 1) as u8,
                                ..c
                            }));
                            assert(next as int == next_component_index(component_index as int));
                        }
                        let r = self.enter_component(fact_sheet, next);
                        proof {
                            assert(self.config(fact_sheet@) =~= frontend_build_step(c, event@).0);
                        }
                        r
                    }
                },
            },
            (FrontendPhase::ReadForFix { component_index, errors }, AgentEvent::FileRead(code)) => {
                let mut context = String::from_str("ORIGINAL_CODE: ");
                context.append(code.as_str());
                context.append(", ERROR_MESSAGE: ");
                context.append(errors.as_str());
                proof {
                    assert(context@ =~= fix_front_context_of(code@, errors@));
                }
                self.phase = FrontendPhase::GenFixFrontend {
                    component_index,
                    context,
                    retried: false,
                };
                proof {
                    assert(self.config(fact_sheet@) =~= frontend_build_step(c, event@).0);
                }
                Ok(StepStatus::Running)
            },
            (FrontendPhase::GenFixFrontend { component_index, context, retried }, AgentEvent::Text(outcome)) => match outcome {
                TextOutcome::Delivered(code) => {
                    self.phase = FrontendPhase::SavingFix { component_index, code };
                    proof {
                        assert(self.config(fact_sheet@) =~= frontend_build_step(c, event@).0);
                    }
                    Ok(StepStatus::Running)
                },
                TextOutcome::Failed => {
                    if !retried {
                        self.phase = FrontendPhase::GenFixFrontend {
                            component_index,
                            context,
                            retried: true,
                        };
                        proof {
                            assert(self.config(fact_sheet@) =~= frontend_build_step(c, event@).0);
                        }
                        Ok(StepStatus::Running)
                    } else {
                        self.phase = FrontendPhase::GenFixFrontend {
                            component_index,
                            context,
                            retried,
                        };
                        proof {
                            assert(self.config(fact_sheet@) =~= c);
                        }
                        Err(AgentError::TransientService)
                    }
                },
            },
            (FrontendPhase::SavingFix { component_index, code }, AgentEvent::Done) => {
                self.phase = FrontendPhase::Testing { component_index, repaired: true };
                proof {
                    assert(self.config(fact_sheet@) =~= frontend_build_step(c, event@).0);
                }
                Ok(StepStatus::Running)
            },
            (other_phase, _) => {
                self.phase = other_phase;
                proof {
                    assert(self.config(fact_sheet@) =~= c);
                }
                Err(AgentError::UnexpectedEvent)
            },
        }
    }

    /// Advance the machine by the outcome of the action it asked for.
    pub fn step(&mut self, fact_sheet: &mut FactSheet, event: AgentEvent) -> (r: Result<
        StepStatus,
        AgentError,
    >)
        ensures
            ({
                let (c2, res) = frontend_step(old(self).config(old(fact_sheet)@), event@);
                &&& final(self).config(final(fact_sheet)@) == c2
                &&& r == res
            }),
            final(self).attributes.objective == old(self).attributes.objective,
            final(self).attributes.position == old(self).attributes.position,
            final(self).attributes.memory == old(self).attributes.memory,
    {
        let group: u8 = match &self.phase {
            FrontendPhase::ReadBackendMain => 0,
            FrontendPhase::GenPages { .. } => 0,
            FrontendPhase::ReadSchemaForAssign => 0,
            FrontendPhase::GenAssignments { .. } => 0,
            FrontendPhase::GenColours { .. } => 0,
            FrontendPhase::GenSvg { .. } => 1,
            FrontendPhase::GenLogoWrap { .. } => 1,
            FrontendPhase::GenNav { .. } => 1,
            FrontendPhase::ReadHookSchema => 1,
            FrontendPhase::GenHook { .. } => 1,
            FrontendPhase::ReadHookForPage { .. } => 1,
            FrontendPhase::GenWireframe { .. } => 1,
            FrontendPhase::GenApiComponent { .. } => 1,
            FrontendPhase::GenMerge { .. } => 1,
            FrontendPhase::GenStyle { .. } => 1,
            FrontendPhase::SavingComponent { .. } => 2,
            FrontendPhase::Testing { .. } => 2,
            FrontendPhase::ReadForFix { .. } => 2,
            FrontendPhase::GenFixFrontend { .. } => 2,
            FrontendPhase::SavingFix { .. } => 2,
            FrontendPhase::Idle => 2,
        };
        if group == 0 {
            self.plan_step(fact_sheet, event)
        } else if group == 1 {
            self.recipe_step(fact_sheet, event)
        } else {
            self.build_step(fact_sheet, event)
        }
    }

    /// Run the agent to completion over a finite feed of scripted outcomes.
    #[verifier::loop_isolation(false)]
    pub fn execute(&mut self, fact_sheet: &mut FactSheet, feed: &mut EventFeed) -> (r: Result<
        (),
        AgentError,
    >)
        ensures
            final(self).config(final(fact_sheet)@) == frontend_run(
                old(self).config(old(fact_sheet)@),
                old(feed).remaining(),
            ).0,
            r == frontend_run(old(self).config(old(fact_sheet)@), old(feed).remaining()).1,
            final(feed).remaining() == old(feed).remaining().skip(
                frontend_run(old(self).config(old(fact_sheet)@), old(feed).remaining()).2,
            ),
    {
        let ghost c0 = self.config(fact_sheet@);
        let ghost evs0 = feed.remaining();
        loop
            invariant
                frontend_run(c0, evs0).0 == frontend_run(self.config(fact_sheet@), feed.remaining()).0,
                frontend_run(c0, evs0).1 == frontend_run(self.config(fact_sheet@), feed.remaining()).1,
                frontend_run(c0, evs0).2 == evs0.len() - feed.remaining().len() + frontend_run(
                    self.config(fact_sheet@),
                    feed.remaining(),
                ).2,
                feed.remaining().len() <= evs0.len(),
                evs0.skip(evs0.len() - feed.remaining().len()) == feed.remaining(),
            decreases feed.remaining().len(),
        {
            let ghost cur = self.config(fact_sheet@);
            let ghost rem = feed.remaining();
            let state_now = self.attributes.state;
            if state_now == AgentState::Finished {
                proof {
                    assert(frontend_run(cur, rem) == (cur, Ok::<(), AgentError>(()), 0int));
                }
                return Ok(());
            }
            let is_idle = match &self.phase {
                FrontendPhase::Idle => true,
                _ => false,
            };
            if is_idle {
                self.attributes.update_state(AgentState::Finished);
                proof {
                    assert(frontend_run(cur, rem).0 =~= self.config(fact_sheet@));
                }
                return Ok(());
            }
            let ev = match feed.next() {
                Some(ev) => ev,
                None => {
                    proof {
                        assert(rem.len() == 0);
                        assert(frontend_run(cur, rem) == (cur, Err::<(), AgentError>(
                            AgentError::EventsExhausted,
                        ), 0int));
                    }
                    return Err(AgentError::EventsExhausted);
                },
            };
            proof {
                assert(ev@ == rem[0]);
                assert(feed.remaining() == rem.drop_first());
                assert(evs0.skip(evs0.len() - rem.drop_first().len()) =~= rem.drop_first());
            }
            match self.step(fact_sheet, ev) {
                Ok(_) => {
                    proof {
                        assert(frontend_run(cur, rem).0 == frontend_run(
                            self.config(fact_sheet@),
                            feed.remaining(),
                        ).0);
                    }
                },
                Err(e) => {
                    proof {
                        assert(frontend_run(cur, rem).1 == Err::<(), AgentError>(e));
                        assert(frontend_run(cur, rem).0 == self.config(fact_sheet@));
                        assert(frontend_run(cur, rem).2 == 1int);
                    }
                    return Err(e);
                },
            }
        }
    }
}

impl crate::agent_trait::SpecialFunctions for AgentFrontendDeveloper {
    fn get_agent_position(&mut self) -> (r: String)
        ensures
            r@ == old(self).attributes.position@,
            *final(self) == *old(self),
    {
        AgentFrontendDeveloper::get_agent_position(self)
    }

    fn execute(&mut self, fact_sheet: &mut FactSheet, feed: &mut EventFeed) -> (r: Result<
        (),
        AgentError,
    >)
        ensures
            final(self).config(final(fact_sheet)@) == frontend_run(
                old(self).config(old(fact_sheet)@),
                old(feed).remaining(),
            ).0,
            r == frontend_run(old(self).config(old(fact_sheet)@), old(feed).remaining()).1,
    {
        AgentFrontendDeveloper::execute(self, fact_sheet, feed)
    }
}

} // verus!
