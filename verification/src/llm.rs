//! The two model passes: what is asked of the model, and how its replies are
//! framed, parsed and checked for shape.

use vstd::prelude::*;
use vstd::string::StringExecFns;
use crate::json::{as_text, as_text_list, field, json_document, parse_json, JsonTree, JsonValue};
use crate::research::{deduplicated, DependencyPlan};
use crate::text::{find_first, find_last, substring, texts};

verus! {

/// One external dependency of a generated program, with its enabled features.
#[derive(Debug)]
pub struct Dependency {
    pub name: String,
    pub features: Vec<String>,
}

/// The model's structured answer: a program and the dependencies it declares.
#[derive(Debug)]
pub struct LlmCodeResponse {
    pub dependencies: Vec<Dependency>,
    pub code: String,
}

/// The model of a [`Dependency`].
pub struct DependencyView {
    pub name: Seq<char>,
    pub features: Seq<Seq<char>>,
}

/// The model of an [`LlmCodeResponse`].
pub struct CodeResponseView {
    pub dependencies: Seq<DependencyView>,
    pub code: Seq<char>,
}

impl View for Dependency {
    type V = DependencyView;

    open spec fn view(&self) -> DependencyView {
        DependencyView { name: self.name@, features: texts(self.features@) }
    }
}

/// The models of a list of dependencies.
pub open spec fn dependency_views(deps: Seq<Dependency>) -> Seq<DependencyView> {
    Seq::new(deps.len(), |i: int| deps[i]@)
}

impl View for LlmCodeResponse {
    type V = CodeResponseView;

    open spec fn view(&self) -> CodeResponseView {
        CodeResponseView { dependencies: dependency_views(self.dependencies@), code: self.code@ }
    }
}

impl LlmCodeResponse {
    /// Whether there is a program to build at all.
    pub fn has_code(&self) -> (r: bool)
        ensures
            r == (self@.code.len() > 0),
    {
        !self.code.as_str().is_empty()
    }
}

/// Why a reply of the model could not be read.
#[derive(Debug, Clone, Copy, PartialEq, Eq, Structural)]
pub enum ProtocolFault {
    /// The reply carried no text.
    NoText,
    /// No `{` comes before a later `}` in the text.
    NoJsonObject,
    /// The text between the braces is not JSON.
    InvalidJson,
    /// The JSON lacks a field, or a field has another type than asked for.
    WrongShape,
}

/// A reply that does not follow the protocol, kept with its text for diagnosis.
#[derive(Debug)]
pub struct LlmProtocolError {
    pub fault: ProtocolFault,
    /// The reply as the model gave it; empty where it gave no text.
    pub raw: String,
}

/// The candidate JSON object inside a reply: from the first `{` to the last
/// `}`, both included, where the first `{` stands before the last `}`.
pub open spec fn json_span(raw: Seq<char>) -> Option<Seq<char>> {
    match (raw.index_of_first('{'), raw.index_of_last('}')) {
        (Some(open), Some(close)) => if open < close {
            Some(raw.subrange(open, close + 1))
        } else {
            None
        },
        _ => None,
    }
}

/// Cuts the candidate JSON object out of a reply, dropping whatever the model
/// wrote around it.
pub fn extract_json_span(raw: &str) -> (r: Option<String>)
    ensures
        match r {
            Some(span) => json_span(raw@) == Some(span@),
            None => json_span(raw@) is None,
        },
{
    let open = find_first(raw, '{');
    let close = find_last(raw, '}');
    proof {
        raw@.index_of_first_ensures('{');
        raw@.index_of_last_ensures('}');
    }
    match (open, close) {
        (Some(i), Some(k)) => {
            if i < k {
                Some(substring(raw, i, k + 1))
            } else {
                None
            }
        },
        _ => None,
    }
}

/// The text of a reply; empty where there is none.
pub open spec fn reply_text(reply: Option<Seq<char>>) -> Seq<char> {
    match reply {
        Some(raw) => raw,
        None => Seq::empty(),
    }
}

/// The JSON document that a reply holds. `parsed` is what the JSON parser
/// makes of the candidate object.
pub open spec fn document_of(reply: Option<Seq<char>>, parsed: Option<JsonTree>) -> Result<
    JsonTree,
    ProtocolFault,
> {
    match reply {
        None => Err(ProtocolFault::NoText),
        Some(raw) => match json_span(raw) {
            None => Err(ProtocolFault::NoJsonObject),
            Some(_) => match parsed {
                None => Err(ProtocolFault::InvalidJson),
                Some(doc) => Ok(doc),
            },
        },
    }
}

/// What the JSON parser makes of the candidate object of a reply.
pub open spec fn parsed_span(reply: Option<Seq<char>>) -> Option<JsonTree> {
    match reply {
        Some(raw) => match json_span(raw) {
            Some(span) => json_document(span),
            None => None,
        },
        None => None,
    }
}

/// The view of an optional reply.
pub open spec fn reply_view(reply: Option<&str>) -> Option<Seq<char>> {
    match reply {
        Some(raw) => Some(raw@),
        None => None,
    }
}

/// Extracts and strictly parses the JSON object of a reply.
pub fn read_reply(reply: Option<&str>) -> (r: Result<JsonValue, LlmProtocolError>)
    ensures
        match r {
            Ok(doc) => document_of(reply_view(reply), parsed_span(reply_view(reply))) == Ok::<
                JsonTree,
                ProtocolFault,
            >(doc@),
            Err(e) => document_of(reply_view(reply), parsed_span(reply_view(reply))) == Err::<
                JsonTree,
                ProtocolFault,
            >(e.fault) && e.raw@ == reply_text(reply_view(reply)),
        },
{
    match reply {
        None => Err(LlmProtocolError { fault: ProtocolFault::NoText, raw: String::new() }),
        Some(raw) => match extract_json_span(raw) {
            None => Err(
                LlmProtocolError { fault: ProtocolFault::NoJsonObject, raw: String::from_str(raw) },
            ),
            Some(span) => match parse_json(span.as_str()) {
                None => Err(
                    LlmProtocolError {
                        fault: ProtocolFault::InvalidJson,
                        raw: String::from_str(raw),
                    },
                ),
                Some(doc) => Ok(doc),
            },
        },
    }
}

/// The dependency plan of a planning document: the strings of the array
/// under `crates`, each once, in the order of their first occurrence.
pub open spec fn plan_of(doc: JsonTree) -> Option<Seq<Seq<char>>> {
    match field(doc, "crates"@) {
        Some(list) => match as_text_list(list) {
            Some(names) => Some(deduplicated(names)),
            None => None,
        },
        None => None,
    }
}

/// Reads the dependency plan out of a planning document. A name that the
/// document repeats is planned once.
pub fn crate_plan(doc: &JsonValue) -> (r: Option<DependencyPlan>)
    ensures
        match r {
            Some(plan) => plan_of(doc@) == Some(plan@) && plan.wf(),
            None => plan_of(doc@) is None,
        },
{
    match doc.get("crates") {
        Some(list) => match list.as_string_list() {
            Some(names) => Some(DependencyPlan::from_names(names)),
            None => None,
        },
        None => None,
    }
}

/// The dependency that one item of `dependencies` declares: an object with a
/// string under `name` and an array of strings under `features`.
pub open spec fn dependency_of(item: JsonTree) -> Option<DependencyView> {
    match (field(item, "name"@), field(item, "features"@)) {
        (Some(name), Some(features)) => match (as_text(name), as_text_list(features)) {
            (Some(name), Some(features)) => Some(DependencyView { name, features }),
            _ => None,
        },
        _ => None,
    }
}

/// The dependencies that an array declares, where every item declares one.
pub open spec fn dependencies_of(list: JsonTree) -> Option<Seq<DependencyView>> {
    match list {
        JsonTree::Array(items) => if forall|i: int|
            0 <= i < items.len() ==> dependency_of(#[trigger] items[i]) is Some {
            Some(Seq::new(items.len(), |i: int| dependency_of(items[i]).unwrap()))
        } else {
            None
        },
        _ => None,
    }
}

/// The artifact of a synthesis document: the dependencies under
/// `dependencies` and the string under `code`.
pub open spec fn artifact_of(doc: JsonTree) -> Option<CodeResponseView> {
    match (field(doc, "dependencies"@), field(doc, "code"@)) {
        (Some(list), Some(code)) => match (dependencies_of(list), as_text(code)) {
            (Some(dependencies), Some(code)) => Some(CodeResponseView { dependencies, code }),
            _ => None,
        },
        _ => None,
    }
}

fn dependency_from(item: &JsonValue) -> (r: Option<Dependency>)
    ensures
        match r {
            Some(dep) => dependency_of(item@) == Some(dep@),
            None => dependency_of(item@) is None,
        },
{
    let name = match item.get("name") {
        Some(v) => match v.as_str() {
            Some(s) => String::from_str(s),
            None => {
                return None;
            },
        },
        None => {
            return None;
        },
    };
    let features = match item.get("features") {
        Some(v) => match v.as_string_list() {
            Some(list) => list,
            None => {
                return None;
            },
        },
        None => {
            return None;
        },
    };
    Some(Dependency { name, features })
}

fn dependencies_from(list: &JsonValue) -> (r: Option<Vec<Dependency>>)
    ensures
        match r {
            Some(deps) => dependencies_of(list@) == Some(dependency_views(deps@)),
            None => dependencies_of(list@) is None,
        },
{
    match list {
        JsonValue::Array(items) => {
            let mut out: Vec<Dependency> = Vec::new();
            let mut i: usize = 0;
            while i < items.len()
                invariant
                    i <= items.len(),
                    list@ is Array,
                    list@->Array_0.len() == items.len(),
                    forall|j: int|
                        0 <= j < items.len() ==> #[trigger] (list@->Array_0)[j] == items[j]@,
                    out.len() == i,
                    forall|j: int|
                        0 <= j < i ==> dependency_of((list@->Array_0)[j]) == Some(
                            #[trigger] out[j]@,
                        ),
                decreases items.len() - i,
            {
                match dependency_from(&items[i]) {
                    Some(dep) => {
                        out.push(dep);
                    },
                    None => {
                        assert(dependency_of((list@->Array_0)[i as int]) is None);
                        return None;
                    },
                }
                i = i + 1;
            }
            assert forall|j: int| 0 <= j < items.len() implies dependency_of(
                #[trigger] (list@->Array_0)[j],
            ) is Some by {
                assert(dependency_of((list@->Array_0)[j]) == Some(out[j]@));
            }
            assert(dependency_views(out@) =~= Seq::new(
                (list@->Array_0).len(),
                |i: int| dependency_of((list@->Array_0)[i]).unwrap(),
            ));
            Some(out)
        },
        _ => None,
    }
}

/// Checks a synthesis document for its shape and reads the artifact out of it.
/// An empty `code` string is a valid artifact.
pub fn code_response(doc: &JsonValue) -> (r: Option<LlmCodeResponse>)
    ensures
        match r {
            Some(artifact) => artifact_of(doc@) == Some(artifact@),
            None => artifact_of(doc@) is None,
        },
{
    let dependencies = match doc.get("dependencies") {
        Some(list) => match dependencies_from(list) {
            Some(deps) => deps,
            None => {
                return None;
            },
        },
        None => {
            return None;
        },
    };
    let code = match doc.get("code") {
        Some(v) => match v.as_str() {
            Some(s) => String::from_str(s),
            None => {
                return None;
            },
        },
        None => {
            return None;
        },
    };
    Some(LlmCodeResponse { dependencies, code })
}

/// The outcome of the planning pass for a reply whose candidate object the
/// JSON parser read as `parsed`.
pub open spec fn plan_reply(reply: Option<Seq<char>>, parsed: Option<JsonTree>) -> Result<
    Seq<Seq<char>>,
    ProtocolFault,
> {
    match document_of(reply, parsed) {
        Err(fault) => Err(fault),
        Ok(doc) => match plan_of(doc) {
            Some(names) => Ok(names),
            None => Err(ProtocolFault::WrongShape),
        },
    }
}

/// The outcome of the synthesis pass for a reply whose candidate object the
/// JSON parser read as `parsed`.
pub open spec fn code_reply(reply: Option<Seq<char>>, parsed: Option<JsonTree>) -> Result<
    CodeResponseView,
    ProtocolFault,
> {
    match document_of(reply, parsed) {
        Err(fault) => Err(fault),
        Ok(doc) => match artifact_of(doc) {
            Some(artifact) => Ok(artifact),
            None => Err(ProtocolFault::WrongShape),
        },
    }
}

/// First pass: reads the dependency plan out of the model's reply to the
/// planning request: the names it gives, each once. Nothing is retried; a
/// reply that cannot be read comes back as the error, with its text.
pub fn identify_required_crates(reply: Option<&str>) -> (r: Result<
    DependencyPlan,
    LlmProtocolError,
>)
    ensures
        match r {
            Ok(plan) => plan_reply(reply_view(reply), parsed_span(reply_view(reply))) == Ok::<
                Seq<Seq<char>>,
                ProtocolFault,
            >(plan@) && plan.wf(),
            Err(e) => plan_reply(reply_view(reply), parsed_span(reply_view(reply))) == Err::<
                Seq<Seq<char>>,
                ProtocolFault,
            >(e.fault) && e.raw@ == reply_text(reply_view(reply)),
        },
{
    match read_reply(reply) {
        Err(e) => Err(e),
        Ok(doc) => match crate_plan(&doc) {
            Some(plan) => Ok(plan),
            None => Err(
                LlmProtocolError { fault: ProtocolFault::WrongShape, raw: owned_reply(reply) },
            ),
        },
    }
}

/// Second pass: reads the program and its declared dependencies out of the
/// model's reply to the synthesis request.
pub fn generate_code_with_research(reply: Option<&str>) -> (r: Result<
    LlmCodeResponse,
    LlmProtocolError,
>)
    ensures
        match r {
            Ok(artifact) => code_reply(reply_view(reply), parsed_span(reply_view(reply))) == Ok::<
                CodeResponseView,
                ProtocolFault,
            >(artifact@),
            Err(e) => code_reply(reply_view(reply), parsed_span(reply_view(reply))) == Err::<
                CodeResponseView,
                ProtocolFault,
            >(e.fault) && e.raw@ == reply_text(reply_view(reply)),
        },
{
    match read_reply(reply) {
        Err(e) => Err(e),
        Ok(doc) => match code_response(&doc) {
            Some(artifact) => Ok(artifact),
            None => Err(
                LlmProtocolError { fault: ProtocolFault::WrongShape, raw: owned_reply(reply) },
            ),
        },
    }
}

fn owned_reply(reply: Option<&str>) -> (r: String)
    ensures
        r@ == reply_text(reply_view(reply)),
{
    match reply {
        Some(raw) => String::from_str(raw),
        None => String::new(),
    }
}

/// Extraction is idempotent: the candidate object of a candidate object is
/// that object itself.
pub proof fn lemma_json_span_idempotent(raw: Seq<char>)
    requires
        json_span(raw) is Some,
    ensures
        json_span(json_span(raw).unwrap()) == json_span(raw),
{
    raw.index_of_first_ensures('{');
    raw.index_of_last_ensures('}');
    let open = raw.index_of_first('{').unwrap();
    let close = raw.index_of_last('}').unwrap();
    let span = raw.subrange(open, close + 1);
    span.index_of_first_ensures('{');
    span.index_of_last_ensures('}');
    assert(span[0] == '{');
    assert(span[close - open] == '}');
    assert(span.contains('{'));
    assert(span.contains('}'));
    assert(span.index_of_first('{') == Some(0int));
    assert(span.index_of_last('}') == Some(close - open));
    assert(span.subrange(0, close - open + 1) =~= span);
}

/// Reading a reply is repeatable: replies with the same text are read alike
/// by both passes, down to the fault where they fail.
pub proof fn lemma_reading_is_repeatable(first: Option<Seq<char>>, second: Option<Seq<char>>)
    requires
        first == second,
    ensures
        json_span(reply_text(first)) == json_span(reply_text(second)),
        plan_reply(first, parsed_span(first)) == plan_reply(second, parsed_span(second)),
        code_reply(first, parsed_span(first)) == code_reply(second, parsed_span(second)),
{
}

/// Reading the candidate object of a reply in place of the reply changes
/// nothing: both passes make of it what they make of the whole reply.
pub proof fn lemma_reading_span_again(raw: Seq<char>)
    requires
        json_span(raw) is Some,
    ensures
        plan_reply(Some(json_span(raw).unwrap()), parsed_span(Some(json_span(raw).unwrap())))
            == plan_reply(Some(raw), parsed_span(Some(raw))),
        code_reply(Some(json_span(raw).unwrap()), parsed_span(Some(json_span(raw).unwrap())))
            == code_reply(Some(raw), parsed_span(Some(raw))),
{
    lemma_json_span_idempotent(raw);
}

/// A plan that was read out of a reply names no dependency twice, whatever
/// the reply repeated: each name feeds one research lookup.
pub proof fn lemma_plan_has_no_repeats(reply: Option<Seq<char>>, parsed: Option<JsonTree>)
    ensures
        plan_reply(reply, parsed) matches Ok(plan) ==> plan.no_duplicates(),
        parsed matches Some(doc) ==> (plan_of(doc) matches Some(plan) ==> plan.no_duplicates()),
{
    match parsed {
        Some(doc) => match field(doc, "crates"@) {
            Some(list) => match as_text_list(list) {
                Some(names) => {
                    crate::research::lemma_deduplicated(names);
                },
                None => {},
            },
            None => {},
        },
        None => {},
    }
}

/// The instructions of the planning pass.
pub const PLANNING_INSTRUCTIONS: &'static str =
    "You are a Rust project planning expert. Your task is to analyze a user's query and the provided context, and determine which external crates from crates.io are necessary to solve the problem.\n\nRespond with a single JSON object containing one key: `\"crates\"`, which should be an array of strings. The strings should be the real, kebab-case names of the required crates as they appear on crates.io.\n\nEXAMPLE:\n{\n  \"crates\": [\"linfa\", \"linfa-trees\", \"linfa-datasets\"]\n}";

/// The instructions of the synthesis pass up to the research dossier.
pub const SYNTHESIS_PREAMBLE: &'static str =
    "You are an expert Rust programmer. You will be given context, a user query, and up-to-date research on real crates from crates.io. Your task is to provide a single, high-quality JSON object.\n\n# UP-TO-DATE CRATE RESEARCH\n";

/// The instructions of the synthesis pass after the research dossier.
pub const SYNTHESIS_RULES: &'static str =
    "\n\n# RULES\n1.  **CRITICAL**: You MUST include a `use` statement for any TRAITS that provide methods you are using. For example, to use the `.forward()` method in the `candle` crate, you MUST include `use candle_core::Module;`. This is the most important rule.\n2.  The code you generate MUST be pure Rust and depend ONLY on real crates from crates.io as detailed in the research. It CANNOT require any external programs or libraries from other languages.\n3.  You MUST write code that is compatible with the latest crate versions found in the research provided.\n4.  The JSON object you provide MUST contain two keys:\n    a. `\"dependencies\"`: An array of objects. Each object must have a `\"name\"` (string, kebab-case) and a `\"features\"` (array of strings) key.\n    b. `\"code\"`: A string containing the complete, runnable Rust code, self-contained in a `main` function.\n5.  When printing a struct or other complex type, you MUST use the debug formatter `{:?}`.\n";

/// One request to the model: its instructions and the user's message.
#[derive(Debug)]
pub struct ChatPrompt {
    pub system: String,
    pub user: String,
}

/// The user message of the planning pass.
pub open spec fn planning_message(query: Seq<char>, context: Seq<char>) -> Seq<char> {
    "CONTEXT:\n"@ + context
        + "\n\n---\n\nTASK: Based on the context, identify the crates needed to answer this query:\n"@
        + query
}

/// The instructions of the synthesis pass around a research dossier.
pub open spec fn synthesis_instructions(research: Seq<char>) -> Seq<char> {
    SYNTHESIS_PREAMBLE@ + research + SYNTHESIS_RULES@
}

/// The user message of the synthesis pass.
pub open spec fn synthesis_message(query: Seq<char>, context: Seq<char>) -> Seq<char> {
    "CONTEXT:\n---\n"@ + context
        + "\n---\n\nTASK: Based on all provided context and research, generate a JSON response that answers the following query.\n\nQUERY: "@
        + query
}

/// The request of the planning pass for a query and its context.
pub fn planning_request(query: &str, context: &str) -> (r: ChatPrompt)
    ensures
        r.system@ == PLANNING_INSTRUCTIONS@,
        r.user@ == planning_message(query@, context@),
{
    let mut user = String::from_str("CONTEXT:\n");
    user.append(context);
    user.append(
        "\n\n---\n\nTASK: Based on the context, identify the crates needed to answer this query:\n",
    );
    user.append(query);
    ChatPrompt { system: String::from_str(PLANNING_INSTRUCTIONS), user }
}

/// The request of the synthesis pass for a query, its context and the
/// research dossier. An empty dossier leaves its section empty.
pub fn synthesis_request(query: &str, context: &str, research: &str) -> (r: ChatPrompt)
    ensures
        r.system@ == synthesis_instructions(research@),
        r.user@ == synthesis_message(query@, context@),
{
    let mut system = String::from_str(SYNTHESIS_PREAMBLE);
    system.append(research);
    system.append(SYNTHESIS_RULES);
    let mut user = String::from_str("CONTEXT:\n---\n");
    user.append(context);
    user.append(
        "\n---\n\nTASK: Based on all provided context and research, generate a JSON response that answers the following query.\n\nQUERY: ",
    );
    user.append(query);
    ChatPrompt { system, user }
}

} // verus!
