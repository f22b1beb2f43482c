//! The query pipeline as a state machine. The caller performs each action
//! (a lookup, a model request, a web search, a build) and hands back what
//! came of it; every decision between two actions is taken here.
//!
//! Stages follow one another strictly forward: retrieval, planning, research
//! (once per planned dependency), synthesis, validation. Nothing is retried:
//! a stage that fails ends the run.

use vstd::prelude::*;
use vstd::string::StringExecFns;
use crate::context::{bundle_sections, rendered, retrieve, KnowledgeHit, SolutionHit};
use crate::llm::{
    code_reply, generate_code_with_research, identify_required_crates,
    parsed_span, plan_reply, planning_message, planning_request, reply_text,
    synthesis_instructions, synthesis_message, synthesis_request, ChatPrompt, CodeResponseView,
    LlmCodeResponse, LlmProtocolError, ProtocolFault, PLANNING_INSTRUCTIONS,
};
use crate::research::{
    dossier_text, research_query, research_query_text, DependencyPlan, ResearchDossier,
};
use crate::sandbox::{
    build_verdict, classify_build, fault_message, manifest_text, run_in_sandbox, BuildOutcome,
    SandboxFault, SandboxResult,
};

verus! {

/// The response for an artifact without a program.
pub const NO_CODE_MESSAGE: &'static str = "LLM failed to return a valid code block.";

/// Where a run stands: what it is waiting for.
#[derive(Debug, Clone, Copy, PartialEq, Eq, Structural)]
pub enum Stage {
    /// Waiting for the three lookups.
    Retrieving,
    /// Waiting for the model's reply to the planning request.
    Planning,
    /// Waiting for the web search on the dependency at `next`.
    Researching,
    /// Waiting for the model's reply to the synthesis request.
    Synthesizing,
    /// Waiting for the build.
    Validating,
    /// The run has ended.
    Finished,
}

/// Why a run ended without a response.
#[derive(Debug)]
pub enum PipelineError {
    /// The model could not be reached.
    Model { message: String },
    /// The reply to the planning request could not be read.
    Planning { error: LlmProtocolError },
    /// The web search on one dependency failed.
    Research { dependency: String, message: String },
    /// The reply to the synthesis request could not be read.
    Synthesis { error: LlmProtocolError },
    /// The sandbox itself failed, not the build.
    Sandbox { fault: SandboxFault, message: String },
    /// An event arrived that the stage was not waiting for.
    UnexpectedEvent,
}

/// The model of a [`PipelineError`].
pub enum ErrorView {
    Model { message: Seq<char> },
    Planning { reason: ProtocolFault, raw: Seq<char> },
    Research { dependency: Seq<char>, message: Seq<char> },
    Synthesis { reason: ProtocolFault, raw: Seq<char> },
    Sandbox { fault: SandboxFault, message: Seq<char> },
    UnexpectedEvent,
}

impl View for PipelineError {
    type V = ErrorView;

    open spec fn view(&self) -> ErrorView {
        match self {
            PipelineError::Model { message } => ErrorView::Model { message: message@ },
            PipelineError::Planning { error } => ErrorView::Planning {
                reason: error.fault,
                raw: error.raw@,
            },
            PipelineError::Research { dependency, message } => ErrorView::Research {
                dependency: dependency@,
                message: message@,
            },
            PipelineError::Synthesis { error } => ErrorView::Synthesis {
                reason: error.fault,
                raw: error.raw@,
            },
            PipelineError::Sandbox { fault, message } => ErrorView::Sandbox {
                fault: *fault,
                message: message@,
            },
            PipelineError::UnexpectedEvent => ErrorView::UnexpectedEvent,
        }
    }
}

/// What a fault of the protocol says about a reply of the planning pass.
pub open spec fn planning_fault_text(reason: ProtocolFault, raw: Seq<char>) -> Seq<char> {
    match reason {
        ProtocolFault::NoText => "No text content found in LLM planning response"@,
        _ => "Failed to parse crate plan from LLM: "@ + raw,
    }
}

/// What a fault of the protocol says about a reply of the synthesis pass.
pub open spec fn synthesis_fault_text(reason: ProtocolFault, raw: Seq<char>) -> Seq<char> {
    "LLM failed to generate code in the second pass: "@ + match reason {
        ProtocolFault::NoText => "No text content found in LLM generation response"@,
        _ => "Failed to parse JSON from LLM response: "@ + raw,
    }
}

/// What an error says in words.
pub open spec fn error_text(error: ErrorView) -> Seq<char> {
    match error {
        ErrorView::Model { message } => message,
        ErrorView::Planning { reason, raw } => planning_fault_text(reason, raw),
        ErrorView::Research { dependency, message } => "Research for crate '"@ + dependency
            + "' failed: "@ + message,
        ErrorView::Synthesis { reason, raw } => synthesis_fault_text(reason, raw),
        ErrorView::Sandbox { fault, message } => message,
        ErrorView::UnexpectedEvent => "The pipeline was handed an event it was not waiting for"@,
    }
}

impl PipelineError {
    /// The error in words, with the reply's text where a reply was at fault.
    pub fn message(&self) -> (r: String)
        ensures
            r@ == error_text(self@),
    {
        match self {
            PipelineError::Model { message } => message.clone(),
            PipelineError::Planning { error } => match error.fault {
                ProtocolFault::NoText => String::from_str(
                    "No text content found in LLM planning response",
                ),
                _ => {
                    let mut out = String::from_str("Failed to parse crate plan from LLM: ");
                    out.append(error.raw.as_str());
                    out
                },
            },
            PipelineError::Research { dependency, message } => {
                let mut out = String::from_str("Research for crate '");
                out.append(dependency.as_str());
                out.append("' failed: ");
                out.append(message.as_str());
                out
            },
            PipelineError::Synthesis { error } => {
                let mut out = String::from_str("LLM failed to generate code in the second pass: ");
                match error.fault {
                    ProtocolFault::NoText => {
                        out.append("No text content found in LLM generation response");
                    },
                    _ => {
                        out.append("Failed to parse JSON from LLM response: ");
                        out.append(error.raw.as_str());
                        assert(out@ =~= synthesis_fault_text(error.fault, error.raw@));
                    },
                }
                out
            },
            PipelineError::Sandbox { fault: _, message } => message.clone(),
            PipelineError::UnexpectedEvent => String::from_str(
                "The pipeline was handed an event it was not waiting for",
            ),
        }
    }
}

/// What the caller is asked to do next.
#[derive(Debug)]
pub enum Action {
    /// Run the web lookup and the two vector-store lookups for `query`.
    Retrieve { query: String },
    /// Send one request to the model.
    AskModel { system: String, user: String },
    /// Run one web search and scrape.
    Search { query: String },
    /// Build the project made of these two files in a fresh directory.
    Build { manifest: String, source: String },
    /// Answer the caller; the run has ended.
    Respond { response: String },
    /// Report the failure; the run has ended.
    Fail { error: PipelineError },
}

/// The model of an [`Action`].
pub enum ActionView {
    Retrieve { query: Seq<char> },
    AskModel { system: Seq<char>, user: Seq<char> },
    Search { query: Seq<char> },
    Build { manifest: Seq<char>, source: Seq<char> },
    Respond { response: Seq<char> },
    Fail { error: ErrorView },
}

impl View for Action {
    type V = ActionView;

    open spec fn view(&self) -> ActionView {
        match self {
            Action::Retrieve { query } => ActionView::Retrieve { query: query@ },
            Action::AskModel { system, user } => ActionView::AskModel {
                system: system@,
                user: user@,
            },
            Action::Search { query } => ActionView::Search { query: query@ },
            Action::Build { manifest, source } => ActionView::Build {
                manifest: manifest@,
                source: source@,
            },
            Action::Respond { response } => ActionView::Respond { response: response@ },
            Action::Fail { error } => ActionView::Fail { error: error@ },
        }
    }
}

/// What came of the action that the caller performed.
#[derive(Debug)]
pub enum Event {
    /// The lookups have ended; `None` is a lookup that failed.
    Retrieved {
        web: Option<String>,
        knowledge: Option<Vec<KnowledgeHit>>,
        approved: Option<Vec<SolutionHit>>,
    },
    /// The model replied; `None` is a reply without text.
    ModelReplied { text: Option<String> },
    /// The model could not be reached.
    ModelFailed { message: String },
    /// The web search ended with this text.
    Researched { findings: String },
    /// The web search failed.
    ResearchFailed { message: String },
    /// The build tool ran and left.
    Built { exit_success: bool, stderr: Vec<u8> },
    /// The project could not be set up or the build tool not be started.
    BuildUnavailable { fault: SandboxFault, message: String },
}

/// One run of the pipeline.
#[derive(Debug)]
pub struct Pipeline {
    pub query: String,
    /// The context as written for the model; set by retrieval.
    pub context: String,
    /// The dependencies to research; set by planning.
    pub plan: DependencyPlan,
    /// While researching, the place in `plan` of the search in flight.
    pub next: usize,
    /// The findings for the dependencies before `next`.
    pub dossier: ResearchDossier,
    /// The artifact under validation; set by synthesis.
    pub artifact: Option<LlmCodeResponse>,
    pub stage: Stage,
}

/// The model of a [`Pipeline`].
pub struct PipelineView {
    pub query: Seq<char>,
    pub context: Seq<char>,
    pub plan: Seq<Seq<char>>,
    pub next: nat,
    pub dossier: Seq<(Seq<char>, Seq<char>)>,
    pub artifact: Option<CodeResponseView>,
    pub stage: Stage,
}

impl View for Pipeline {
    type V = PipelineView;

    open spec fn view(&self) -> PipelineView {
        PipelineView {
            query: self.query@,
            context: self.context@,
            plan: self.plan@,
            next: self.next as nat,
            dossier: self.dossier@,
            artifact: match self.artifact {
                Some(a) => Some(a@),
                None => None,
            },
            stage: self.stage,
        }
    }
}

/// The response for a validated artifact: the program under an OK banner
/// where the build passed, the diagnostics under a FAIL banner where not.
pub open spec fn response_text(code: Seq<char>, outcome: BuildOutcome) -> Seq<char> {
    if outcome.success {
        "OK. AI-generated code compiled successfully.\n---\n"@ + code
    } else {
        "FAIL. AI-generated code failed to compile.\n---\nErrors:\n"@ + outcome.diagnostics
    }
}

/// Writes the final response for an artifact and the verdict on its build.
pub fn format_response(artifact: &LlmCodeResponse, outcome: &SandboxResult) -> (r: String)
    ensures
        r@ == response_text(artifact@.code, outcome@),
{
    if outcome.success {
        let mut out = String::from_str("OK. AI-generated code compiled successfully.\n---\n");
        out.append(artifact.code.as_str());
        out
    } else {
        let mut out = String::from_str(
            "FAIL. AI-generated code failed to compile.\n---\nErrors:\n",
        );
        out.append(outcome.output.as_str());
        out
    }
}

/// The run for `query` before anything has happened.
pub open spec fn initial(query: Seq<char>) -> PipelineView {
    PipelineView {
        query,
        context: Seq::empty(),
        plan: Seq::empty(),
        next: 0,
        dossier: Seq::empty(),
        artifact: None,
        stage: Stage::Retrieving,
    }
}

/// The run `s` ended: whatever research had gathered is dropped.
pub open spec fn ended(s: PipelineView) -> PipelineView {
    PipelineView { dossier: Seq::empty(), artifact: None, stage: Stage::Finished, ..s }
}

/// The run `s` ends with `error`.
pub open spec fn failed(s: PipelineView, error: ErrorView) -> (PipelineView, ActionView) {
    (ended(s), ActionView::Fail { error })
}

/// The run `s` asks the model to synthesize from what research gathered.
pub open spec fn synthesizing(s: PipelineView) -> (PipelineView, ActionView) {
    (
        PipelineView { stage: Stage::Synthesizing, ..s },
        ActionView::AskModel {
            system: synthesis_instructions(dossier_text(s.dossier)),
            user: synthesis_message(s.query, s.context),
        },
    )
}

/// Retrieval ended with the bundle written out as `context`: planning begins.
pub open spec fn after_retrieval(s: PipelineView, context: Seq<char>) -> (
    PipelineView,
    ActionView,
) {
    (
        PipelineView { context, stage: Stage::Planning, ..s },
        ActionView::AskModel {
            system: PLANNING_INSTRUCTIONS@,
            user: planning_message(s.query, context),
        },
    )
}

/// Planning ended with `outcome` for a reply whose text was `raw`: a fault
/// ends the run; an empty plan goes straight to synthesis, with an empty
/// dossier; any other plan is taken as it is and researched from its first
/// dependency on.
pub open spec fn after_planning(
    s: PipelineView,
    outcome: Result<Seq<Seq<char>>, ProtocolFault>,
    raw: Seq<char>,
) -> (PipelineView, ActionView) {
    match outcome {
        Err(reason) => failed(s, ErrorView::Planning { reason, raw }),
        Ok(plan) => {
            let planned = PipelineView { plan, next: 0, dossier: Seq::empty(), ..s };
            if plan.len() == 0 {
                synthesizing(planned)
            } else {
                (
                    PipelineView { stage: Stage::Researching, ..planned },
                    ActionView::Search { query: research_query_text(plan[0]) },
                )
            }
        },
    }
}

/// The search on the dependency at `next` found `findings`: they join the
/// dossier, and research moves to the next dependency or, after the last,
/// synthesis begins.
pub open spec fn after_research(s: PipelineView, findings: Seq<char>) -> (
    PipelineView,
    ActionView,
) {
    if s.next < s.plan.len() {
        let gathered = PipelineView {
            dossier: s.dossier.push((s.plan[s.next as int], findings)),
            next: s.next + 1,
            ..s
        };
        if gathered.next < s.plan.len() {
            (gathered, ActionView::Search { query: research_query_text(s.plan[gathered.next as int]) })
        } else {
            synthesizing(gathered)
        }
    } else {
        failed(s, ErrorView::UnexpectedEvent)
    }
}

/// The search on the dependency at `next` failed: the run ends.
pub open spec fn research_failed(s: PipelineView, message: Seq<char>) -> (
    PipelineView,
    ActionView,
) {
    if s.next < s.plan.len() {
        failed(s, ErrorView::Research { dependency: s.plan[s.next as int], message })
    } else {
        failed(s, ErrorView::UnexpectedEvent)
    }
}

/// Synthesis ended with `outcome` for a reply whose text was `raw`: a fault
/// ends the run; an artifact without a program ends it with the fixed
/// response, unbuilt; any other artifact goes to the build.
pub open spec fn after_synthesis(
    s: PipelineView,
    outcome: Result<CodeResponseView, ProtocolFault>,
    raw: Seq<char>,
) -> (PipelineView, ActionView) {
    match outcome {
        Err(reason) => failed(s, ErrorView::Synthesis { reason, raw }),
        Ok(artifact) => if artifact.code.len() == 0 {
            (ended(s), ActionView::Respond { response: NO_CODE_MESSAGE@ })
        } else {
            (
                PipelineView { artifact: Some(artifact), stage: Stage::Validating, ..s },
                ActionView::Build {
                    manifest: manifest_text(artifact.dependencies),
                    source: artifact.code,
                },
            )
        },
    }
}

/// The build ended with `verdict`: a passed and a failed build both end the
/// run with a response; only a sandbox fault ends it with an error.
pub open spec fn after_build(s: PipelineView, verdict: Result<BuildOutcome, SandboxFault>) -> (
    PipelineView,
    ActionView,
) {
    match (s.artifact, verdict) {
        (Some(artifact), Ok(outcome)) => (
            ended(s),
            ActionView::Respond { response: response_text(artifact.code, outcome) },
        ),
        (Some(_), Err(fault)) => failed(
            s,
            ErrorView::Sandbox { fault, message: fault_message(fault) },
        ),
        (None, _) => failed(s, ErrorView::UnexpectedEvent),
    }
}

/// The text of an optional reply.
pub open spec fn text_view(text: Option<String>) -> Option<Seq<char>> {
    match text {
        Some(t) => Some(t@),
        None => None,
    }
}

/// The whole transition: what the run `s` becomes on `event`, and what it
/// asks for next.
pub open spec fn step_spec(s: PipelineView, event: Event) -> (PipelineView, ActionView) {
    match (s.stage, event) {
        (Stage::Retrieving, Event::Retrieved { web, knowledge, approved }) => after_retrieval(
            s,
            rendered(bundle_sections(s.query, web, knowledge, approved)),
        ),
        (Stage::Planning, Event::ModelReplied { text }) => after_planning(
            s,
            plan_reply(text_view(text), parsed_span(text_view(text))),
            reply_text(text_view(text)),
        ),
        (Stage::Planning, Event::ModelFailed { message }) => failed(
            s,
            ErrorView::Model { message: message@ },
        ),
        (Stage::Researching, Event::Researched { findings }) => after_research(s, findings@),
        (Stage::Researching, Event::ResearchFailed { message }) => research_failed(s, message@),
        (Stage::Synthesizing, Event::ModelReplied { text }) => after_synthesis(
            s,
            code_reply(text_view(text), parsed_span(text_view(text))),
            reply_text(text_view(text)),
        ),
        (Stage::Synthesizing, Event::ModelFailed { message }) => failed(
            s,
            ErrorView::Model { message: message@ },
        ),
        (Stage::Validating, Event::Built { exit_success, stderr }) => after_build(
            s,
            build_verdict(exit_success, stderr@),
        ),
        (Stage::Validating, Event::BuildUnavailable { fault, message }) => failed(
            s,
            ErrorView::Sandbox { fault, message: message@ },
        ),
        _ => failed(s, ErrorView::UnexpectedEvent),
    }
}

/// The model of the outcome of the planning pass, and the text of the reply
/// where it failed.
pub open spec fn plan_outcome(outcome: Result<DependencyPlan, LlmProtocolError>) -> (
    Result<Seq<Seq<char>>, ProtocolFault>,
    Seq<char>,
) {
    match outcome {
        Ok(plan) => (Ok(plan@), Seq::empty()),
        Err(e) => (Err(e.fault), e.raw@),
    }
}

/// The model of the outcome of the synthesis pass, and the text of the reply
/// where it failed.
pub open spec fn code_outcome(outcome: Result<LlmCodeResponse, LlmProtocolError>) -> (
    Result<CodeResponseView, ProtocolFault>,
    Seq<char>,
) {
    match outcome {
        Ok(artifact) => (Ok(artifact@), Seq::empty()),
        Err(e) => (Err(e.fault), e.raw@),
    }
}

/// The model of a classified build.
pub open spec fn verdict_view(verdict: Result<SandboxResult, SandboxFault>) -> Result<
    BuildOutcome,
    SandboxFault,
> {
    match verdict {
        Ok(outcome) => Ok(outcome@),
        Err(fault) => Err(fault),
    }
}

fn option_str(text: &Option<String>) -> (r: Option<&str>)
    ensures
        crate::llm::reply_view(r) == text_view(*text),
{
    match text {
        Some(t) => Some(t.as_str()),
        None => None,
    }
}

/// Begins the run that answers `query`: the first thing asked for is
/// retrieval. The caller performs each action and hands what came of it to
/// [`Pipeline::step`], until an action ends the run.
pub fn process_query(query: &str) -> (r: (Pipeline, Action))
    ensures
        r.0@ == initial(query@),
        r.1@ == (ActionView::Retrieve { query: query@ }),
{
    let action = Action::Retrieve { query: String::from_str(query) };
    let run = Pipeline {
        query: String::from_str(query),
        context: String::new(),
        plan: DependencyPlan { names: Vec::new() },
        next: 0,
        dossier: ResearchDossier::new(),
        artifact: None,
        stage: Stage::Retrieving,
    };
    assert(run@.plan =~= Seq::empty());
    assert(run@.dossier =~= Seq::empty());
    (run, action)
}

impl Pipeline {
    /// Whether the run has ended.
    pub fn is_finished(&self) -> (r: bool)
        ensures
            r == (self@.stage == Stage::Finished),
    {
        self.stage == Stage::Finished
    }

    fn end(self) -> (r: Pipeline)
        ensures
            r@ == ended(self@),
    {
        let Pipeline { query, context, plan, next, dossier: _, artifact: _, stage: _ } = self;
        let run = Pipeline {
            query,
            context,
            plan,
            next,
            dossier: ResearchDossier::new(),
            artifact: None,
            stage: Stage::Finished,
        };
        assert(run@.dossier =~= Seq::empty());
        run
    }

    fn fail(self, error: PipelineError) -> (r: (Pipeline, Action))
        ensures
            (r.0@, r.1@) == failed(self@, error@),
    {
        (self.end(), Action::Fail { error })
    }

    fn synthesize(self) -> (r: (Pipeline, Action))
        ensures
            (r.0@, r.1@) == synthesizing(self@),
    {
        let research = self.dossier.text();
        let ChatPrompt { system, user } = synthesis_request(
            self.query.as_str(),
            self.context.as_str(),
            research.as_str(),
        );
        let Pipeline { query, context, plan, next, dossier, artifact, stage: _ } = self;
        (
            Pipeline { query, context, plan, next, dossier, artifact, stage: Stage::Synthesizing },
            Action::AskModel { system, user },
        )
    }

    /// Takes in what the three lookups brought and asks for the planning pass.
    /// No outcome of the lookups ends the run.
    pub fn retrieved(
        self,
        web: &Option<String>,
        knowledge: &Option<Vec<KnowledgeHit>>,
        approved: &Option<Vec<SolutionHit>>,
    ) -> (r: (Pipeline, Action))
        ensures
            (r.0@, r.1@) == after_retrieval(
                self@,
                rendered(bundle_sections(self@.query, *web, *knowledge, *approved)),
            ),
    {
        let bundle = retrieve(self.query.as_str(), web, knowledge, approved);
        let written = bundle.render();
        let ChatPrompt { system, user } = planning_request(self.query.as_str(), written.as_str());
        let Pipeline { query, context: _, plan, next, dossier, artifact, stage: _ } = self;
        (
            Pipeline {
                query,
                context: written,
                plan,
                next,
                dossier,
                artifact,
                stage: Stage::Planning,
            },
            Action::AskModel { system, user },
        )
    }

    /// Takes in the outcome of the planning pass; the plan as it is.
    pub fn planned(self, outcome: Result<DependencyPlan, LlmProtocolError>) -> (r: (
        Pipeline,
        Action,
    ))
        ensures
            (r.0@, r.1@) == after_planning(self@, plan_outcome(outcome).0, plan_outcome(outcome).1),
    {
        match outcome {
            Err(error) => self.fail(PipelineError::Planning { error }),
            Ok(plan) => {
                let Pipeline { query, context, plan: _, next: _, dossier: _, artifact, stage } =
                    self;
                let planned = Pipeline {
                    query,
                    context,
                    plan,
                    next: 0,
                    dossier: ResearchDossier::new(),
                    artifact,
                    stage,
                };
                assert(planned@.dossier =~= Seq::empty());
                if planned.plan.len() == 0 {
                    planned.synthesize()
                } else {
                    let search = research_query(planned.plan.names[0].as_str());
                    let Pipeline { query, context, plan, next, dossier, artifact, stage: _ } =
                        planned;
                    (
                        Pipeline {
                            query,
                            context,
                            plan,
                            next,
                            dossier,
                            artifact,
                            stage: Stage::Researching,
                        },
                        Action::Search { query: search },
                    )
                }
            },
        }
    }

    /// Takes in the findings of the search in flight.
    pub fn researched(self, findings: String) -> (r: (Pipeline, Action))
        ensures
            (r.0@, r.1@) == after_research(self@, findings@),
    {
        if self.next < self.plan.len() {
            let Pipeline { query, context, plan, next, mut dossier, artifact, stage } = self;
            dossier.record(plan.names[next].clone(), findings);
            let gathered = Pipeline {
                query,
                context,
                plan,
                next: next + 1,
                dossier,
                artifact,
                stage,
            };
            if gathered.next < gathered.plan.len() {
                let search = research_query(gathered.plan.names[gathered.next].as_str());
                (gathered, Action::Search { query: search })
            } else {
                gathered.synthesize()
            }
        } else {
            self.fail(PipelineError::UnexpectedEvent)
        }
    }

    /// Takes in the failure of the search in flight: the run ends, and what
    /// research had gathered is dropped.
    pub fn research_failed(self, message: String) -> (r: (Pipeline, Action))
        ensures
            (r.0@, r.1@) == research_failed(self@, message@),
    {
        if self.next < self.plan.len() {
            let dependency = self.plan.names[self.next].clone();
            self.fail(PipelineError::Research { dependency, message })
        } else {
            self.fail(PipelineError::UnexpectedEvent)
        }
    }

    /// Takes in the outcome of the synthesis pass. An artifact without a
    /// program is answered at once and never built.
    pub fn synthesized(self, outcome: Result<LlmCodeResponse, LlmProtocolError>) -> (r: (
        Pipeline,
        Action,
    ))
        ensures
            (r.0@, r.1@) == after_synthesis(self@, code_outcome(outcome).0, code_outcome(outcome).1),
    {
        match outcome {
            Err(error) => self.fail(PipelineError::Synthesis { error }),
            Ok(artifact) => {
                if !artifact.has_code() {
                    (self.end(), Action::Respond { response: String::from_str(NO_CODE_MESSAGE) })
                } else {
                    let project = run_in_sandbox(
                        artifact.code.as_str(),
                        artifact.dependencies.as_slice(),
                    );
                    let Pipeline { query, context, plan, next, dossier, artifact: _, stage: _ } =
                        self;
                    (
                        Pipeline {
                            query,
                            context,
                            plan,
                            next,
                            dossier,
                            artifact: Some(artifact),
                            stage: Stage::Validating,
                        },
                        Action::Build { manifest: project.manifest, source: project.source },
                    )
                }
            },
        }
    }

    /// Takes in the verdict on the build and writes the response.
    pub fn validated(self, verdict: Result<SandboxResult, SandboxFault>) -> (r: (Pipeline, Action))
        ensures
            (r.0@, r.1@) == after_build(self@, verdict_view(verdict)),
    {
        match &self.artifact {
            None => self.fail(PipelineError::UnexpectedEvent),
            Some(artifact) => match verdict {
                Ok(outcome) => {
                    let response = format_response(artifact, &outcome);
                    (self.end(), Action::Respond { response })
                },
                Err(fault) => {
                    let message = String::from_str(fault.message());
                    self.fail(PipelineError::Sandbox { fault, message })
                },
            },
        }
    }

    /// Moves the run on by one event. Every event is answered: one that the
    /// stage was not waiting for ends the run.
    pub fn step(self, event: Event) -> (r: (Pipeline, Action))
        ensures
            (r.0@, r.1@) == step_spec(self@, event),
    {
        match event {
            Event::Retrieved { web, knowledge, approved } => {
                if self.stage == Stage::Retrieving {
                    self.retrieved(&web, &knowledge, &approved)
                } else {
                    self.fail(PipelineError::UnexpectedEvent)
                }
            },
            Event::ModelReplied { text } => {
                if self.stage == Stage::Planning {
                    let outcome = identify_required_crates(option_str(&text));
                    self.planned(outcome)
                } else if self.stage == Stage::Synthesizing {
                    let outcome = generate_code_with_research(option_str(&text));
                    self.synthesized(outcome)
                } else {
                    self.fail(PipelineError::UnexpectedEvent)
                }
            },
            Event::ModelFailed { message } => {
                if self.stage == Stage::Planning || self.stage == Stage::Synthesizing {
                    self.fail(PipelineError::Model { message })
                } else {
                    self.fail(PipelineError::UnexpectedEvent)
                }
            },
            Event::Researched { findings } => {
                if self.stage == Stage::Researching {
                    self.researched(findings)
                } else {
                    self.fail(PipelineError::UnexpectedEvent)
                }
            },
            Event::ResearchFailed { message } => {
                if self.stage == Stage::Researching {
                    self.research_failed(message)
                } else {
                    self.fail(PipelineError::UnexpectedEvent)
                }
            },
            Event::Built { exit_success, stderr } => {
                if self.stage == Stage::Validating {
                    let verdict = classify_build(exit_success, stderr);
                    self.validated(verdict)
                } else {
                    self.fail(PipelineError::UnexpectedEvent)
                }
            },
            Event::BuildUnavailable { fault, message } => {
                if self.stage == Stage::Validating {
                    self.fail(PipelineError::Sandbox { fault, message })
                } else {
                    self.fail(PipelineError::UnexpectedEvent)
                }
            },
        }
    }
}

/// The place of a stage in the order of the run.
pub open spec fn stage_rank(stage: Stage) -> int {
    match stage {
        Stage::Retrieving => 0,
        Stage::Planning => 1,
        Stage::Researching => 2,
        Stage::Synthesizing => 3,
        Stage::Validating => 4,
        Stage::Finished => 5,
    }
}

/// A build is asked for in one situation only: the synthesis reply was read
/// as an artifact whose program is not empty. The project is then made of
/// exactly that artifact: its program verbatim, and the manifest of its
/// dependencies. So a reply that cannot be read, and an artifact without a
/// program, never reach the build tool.
pub proof fn lemma_build_needs_program(s: PipelineView, event: Event)
    requires
        step_spec(s, event).1 is Build,
    ensures
        s.stage == Stage::Synthesizing,
        event is ModelReplied,
        code_reply(
            text_view(event->ModelReplied_text),
            parsed_span(text_view(event->ModelReplied_text)),
        ) matches Ok(artifact) && artifact.code.len() > 0 && step_spec(s, event).1 == (
            ActionView::Build {
                manifest: manifest_text(artifact.dependencies),
                source: artifact.code,
            }
        ) && step_spec(s, event).0.artifact == Some(artifact),
{
}

/// An artifact without a program ends the run with the fixed response.
pub proof fn lemma_empty_program_is_answered(
    s: PipelineView,
    artifact: CodeResponseView,
    raw: Seq<char>,
)
    requires
        artifact.code.len() == 0,
    ensures
        after_synthesis(s, Ok(artifact), raw).0.stage == Stage::Finished,
        after_synthesis(s, Ok(artifact), raw).1 == (ActionView::Respond {
            response: NO_CODE_MESSAGE@,
        }),
{
}

/// A run that has ended stays ended: every further event is refused, and
/// nothing is asked for any more.
pub proof fn lemma_finished_is_final(s: PipelineView, event: Event)
    requires
        s.stage == Stage::Finished,
    ensures
        step_spec(s, event) == failed(s, ErrorView::UnexpectedEvent),
        step_spec(s, event).0.stage == Stage::Finished,
{
}

/// No event takes a run back to an earlier stage, and only research stays in
/// its stage, moving on to the next dependency.
pub proof fn lemma_stages_go_forward(s: PipelineView, event: Event)
    ensures
        stage_rank(s.stage) <= stage_rank(step_spec(s, event).0.stage),
        step_spec(s, event).0.stage == s.stage ==> s.stage == Stage::Finished || (s.stage
            == Stage::Researching && step_spec(s, event).0.next == s.next + 1),
        step_spec(s, event).1 is Respond || step_spec(s, event).1 is Fail <==> step_spec(
            s,
            event,
        ).0.stage == Stage::Finished,
{
}

/// A build that ran always ends the run with a response, passed or failed,
/// as long as its diagnostics can be read: a failed build is no error.
pub proof fn lemma_failed_build_is_a_response(
    s: PipelineView,
    artifact: CodeResponseView,
    outcome: BuildOutcome,
)
    requires
        s.artifact == Some(artifact),
    ensures
        after_build(s, Ok(outcome)).1 == (ActionView::Respond {
            response: response_text(artifact.code, outcome),
        }),
        after_build(s, Ok(outcome)).0.stage == Stage::Finished,
{
}

/// A plan without dependencies is not researched: synthesis is asked for at
/// once, with an empty dossier.
pub proof fn lemma_empty_plan_skips_research(s: PipelineView, raw: Seq<char>)
    ensures
        after_planning(s, Ok(Seq::empty()), raw).0.stage == Stage::Synthesizing,
        after_planning(s, Ok(Seq::empty()), raw).1 == (ActionView::AskModel {
            system: synthesis_instructions(Seq::empty()),
            user: synthesis_message(s.query, s.context),
        }),
{
    assert(dossier_text(Seq::empty()) =~= Seq::<char>::empty());
}

/// The run `s` after the searches from `s.next` on have found `findings`, one
/// after another.
pub open spec fn after_findings(s: PipelineView, findings: Seq<Seq<char>>) -> PipelineView
    decreases findings.len(),
{
    if findings.len() == 0 {
        s
    } else {
        after_research(after_findings(s, findings.drop_last()), findings.last()).0
    }
}

/// The dossier entries for the dependencies of `plan` from `from` on, each
/// with its findings.
pub open spec fn entries_from(plan: Seq<Seq<char>>, from: int, findings: Seq<Seq<char>>) -> Seq<
    (Seq<char>, Seq<char>),
> {
    Seq::new(findings.len(), |i: int| (plan[from + i], findings[i]))
}

/// Research gathers one entry per dependency, in plan order: after the
/// searches from `s.next` on have found `findings`, the dossier has grown by
/// exactly those findings, each under the name of its dependency, and the run
/// waits for the next search or, after the last dependency, for the model.
pub proof fn lemma_research_gathers_in_plan_order(s: PipelineView, findings: Seq<Seq<char>>)
    requires
        s.stage == Stage::Researching,
        s.next + findings.len() <= s.plan.len(),
        s.next < s.plan.len(),
    ensures
        after_findings(s, findings).dossier == s.dossier + entries_from(
            s.plan,
            s.next as int,
            findings,
        ),
        after_findings(s, findings).next == s.next + findings.len(),
        after_findings(s, findings).plan == s.plan,
        after_findings(s, findings).query == s.query,
        after_findings(s, findings).context == s.context,
        after_findings(s, findings).stage == if s.next + findings.len() < s.plan.len() {
            Stage::Researching
        } else {
            Stage::Synthesizing
        },
    decreases findings.len(),
{
    if findings.len() == 0 {
        assert(s.dossier + entries_from(s.plan, s.next as int, findings) =~= s.dossier);
    } else {
        let earlier = findings.drop_last();
        lemma_research_gathers_in_plan_order(s, earlier);
        let before = after_findings(s, earlier);
        assert(before.dossier.push((s.plan[before.next as int], findings.last())) =~= s.dossier
            + entries_from(s.plan, s.next as int, findings));
    }
}

/// Each dependency is searched for once, under its own name: while research
/// goes on, the search asked for after `findings` is the one for the
/// dependency that follows them in the plan; after the last dependency the
/// model is asked to synthesize from the whole dossier.
pub proof fn lemma_research_asks_in_plan_order(
    s: PipelineView,
    findings: Seq<Seq<char>>,
    last: Seq<char>,
)
    requires
        s.stage == Stage::Researching,
        s.next + findings.len() < s.plan.len(),
    ensures
        after_research(after_findings(s, findings), last).1 == if s.next + findings.len() + 1
            < s.plan.len() {
            ActionView::Search {
                query: research_query_text(s.plan[(s.next + findings.len() + 1) as int]),
            }
        } else {
            ActionView::AskModel {
                system: synthesis_instructions(
                    dossier_text(
                        s.dossier + entries_from(s.plan, s.next as int, findings.push(last)),
                    ),
                ),
                user: synthesis_message(s.query, s.context),
            }
        },
{
    lemma_research_gathers_in_plan_order(s, findings);
    let before = after_findings(s, findings);
    assert(before.dossier.push((s.plan[before.next as int], last)) =~= s.dossier + entries_from(
        s.plan,
        s.next as int,
        findings.push(last),
    ));
}

/// The sections of a researched dossier are distinctly labeled: a plan
/// without repetitions gives entries whose names differ pairwise.
pub proof fn lemma_dossier_names_differ(
    plan: Seq<Seq<char>>,
    findings: Seq<Seq<char>>,
    i: int,
    j: int,
)
    requires
        plan.no_duplicates(),
        findings.len() <= plan.len(),
        0 <= i < j < findings.len(),
    ensures
        entries_from(plan, 0, findings)[i].0 != entries_from(plan, 0, findings)[j].0,
        entries_from(plan, 0, findings)[i].0 == plan[i],
        entries_from(plan, 0, findings)[j].0 == plan[j],
{
}

} // verus!
