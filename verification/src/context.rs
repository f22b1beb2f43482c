//! Context retrieval: merging what the web lookup and the two vector-store
//! lookups brought into one bundle, and writing the bundle out as the text
//! that grounds the model. A lookup that failed contributes nothing.

use vstd::prelude::*;
use vstd::string::StringExecFns;
use crate::text::{join, joined, texts};

verus! {

/// Name of the collection of ingested knowledge.
pub const KNOWLEDGE_BASE_COLLECTION: &'static str = "knowledge_base";

/// Name of the collection of approved solutions.
pub const APPROVED_SOLUTIONS_COLLECTION: &'static str = "approved_solutions";

/// Dimension of the vectors in both collections.
pub const VECTOR_SIZE: u64 = 384;

/// The payload field under which ingestion stores the text of a chunk.
pub const TEXT_FIELD: &'static str = "text";

/// The payload field under which older points hold the text of a chunk.
pub const CHUNK_FIELD: &'static str = "chunk";

/// The payload field that holds the query of an approved solution.
pub const QUERY_FIELD: &'static str = "query";

/// The payload field that holds the code of an approved solution.
pub const CODE_FIELD: &'static str = "code";

/// How many hits the knowledge lookup asks for.
pub const KNOWLEDGE_TOP_K: u64 = 2;

/// How many hits the approved-solutions lookup asks for.
pub const SOLUTIONS_TOP_K: u64 = 1;

/// Where a section of context comes from.
#[derive(Debug, Clone, Copy, PartialEq, Eq, Structural)]
pub enum SectionLabel {
    Web,
    Documentation,
    GoldenExample,
}

/// One labeled piece of context. `provenance` is the query that the piece
/// answers, where that is known.
#[derive(Debug)]
pub struct ContextSection {
    pub label: SectionLabel,
    pub provenance: Option<String>,
    pub text: String,
}

/// The context of one request: its sections in a fixed order, web first, then
/// documentation, then golden examples.
#[derive(Debug)]
pub struct ContextBundle {
    pub sections: Vec<ContextSection>,
}

/// One hit of the knowledge lookup: the text of the chunk that its payload
/// holds, where it holds one.
#[derive(Debug)]
pub struct KnowledgeHit {
    pub chunk: Option<String>,
}

/// One hit of the approved-solutions lookup: the query and the code that its
/// payload holds, each where it holds one.
#[derive(Debug)]
pub struct SolutionHit {
    pub query: Option<String>,
    pub code: Option<String>,
}

/// The fields of a payload, names and values as sequences of characters.
pub open spec fn fields(payload: Seq<(String, String)>) -> Seq<(Seq<char>, Seq<char>)> {
    Seq::new(payload.len(), |i: int| (payload[i].0@, payload[i].1@))
}

/// The value of the first field named `name`.
pub open spec fn field_value(payload: Seq<(Seq<char>, Seq<char>)>, name: Seq<char>) -> Option<
    Seq<char>,
>
    decreases payload.len(),
{
    if payload.len() == 0 {
        None
    } else if payload[0].0 == name {
        Some(payload[0].1)
    } else {
        field_value(payload.drop_first(), name)
    }
}

/// The text of the chunk that a payload holds: what stands under
/// [`TEXT_FIELD`], else what stands under [`CHUNK_FIELD`].
pub open spec fn chunk_of(payload: Seq<(Seq<char>, Seq<char>)>) -> Option<Seq<char>> {
    match field_value(payload, TEXT_FIELD@) {
        Some(text) => Some(text),
        None => field_value(payload, CHUNK_FIELD@),
    }
}

/// The payload under which the text of a chunk is stored.
pub open spec fn chunk_payload(chunk: Seq<char>) -> Seq<(Seq<char>, Seq<char>)> {
    seq![(TEXT_FIELD@, chunk)]
}

/// The payload under which an approved solution is stored.
pub open spec fn solution_payload(query: Seq<char>, code: Seq<char>) -> Seq<(Seq<char>, Seq<char>)> {
    seq![(QUERY_FIELD@, query), (CODE_FIELD@, code)]
}

/// The model of an optional text.
pub open spec fn optional_text(text: Option<String>) -> Option<Seq<char>> {
    match text {
        Some(t) => Some(t@),
        None => None,
    }
}

/// Reads the field `name` of a payload. `payload` holds the fields whose
/// values are strings.
pub fn payload_field(payload: &Vec<(String, String)>, name: &str) -> (r: Option<String>)
    ensures
        optional_text(r) == field_value(fields(payload@), name@),
{
    let wanted = String::from_str(name);
    let ghost all = fields(payload@);
    let mut i: usize = 0;
    assert(all.skip(0) =~= all);
    while i < payload.len()
        invariant
            i <= payload.len(),
            wanted@ == name@,
            all == fields(payload@),
            field_value(all, name@) == field_value(all.skip(i as int), name@),
        decreases payload.len() - i,
    {
        let ghost rest = all.skip(i as int);
        assert(rest[0] == all[i as int]);
        assert(rest.drop_first() =~= all.skip(i + 1));
        if payload[i].0 == wanted {
            return Some(payload[i].1.clone());
        }
        i = i + 1;
    }
    None
}

/// Reads a hit of the knowledge lookup out of its payload. `payload` holds
/// the fields whose values are strings.
pub fn knowledge_hit(payload: &Vec<(String, String)>) -> (r: KnowledgeHit)
    ensures
        optional_text(r.chunk) == chunk_of(fields(payload@)),
{
    match payload_field(payload, TEXT_FIELD) {
        Some(text) => KnowledgeHit { chunk: Some(text) },
        None => KnowledgeHit { chunk: payload_field(payload, CHUNK_FIELD) },
    }
}

/// Reads a hit of the approved-solutions lookup out of its payload.
/// `payload` holds the fields whose values are strings.
pub fn solution_hit(payload: &Vec<(String, String)>) -> (r: SolutionHit)
    ensures
        optional_text(r.query) == field_value(fields(payload@), QUERY_FIELD@),
        optional_text(r.code) == field_value(fields(payload@), CODE_FIELD@),
{
    SolutionHit {
        query: payload_field(payload, QUERY_FIELD),
        code: payload_field(payload, CODE_FIELD),
    }
}

/// The payload to store for the text of one chunk.
pub fn payload_of_chunk(chunk: &str) -> (r: Vec<(String, String)>)
    ensures
        fields(r@) == chunk_payload(chunk@),
{
    let mut payload: Vec<(String, String)> = Vec::new();
    payload.push((String::from_str(TEXT_FIELD), String::from_str(chunk)));
    assert(fields(payload@) =~= chunk_payload(chunk@));
    payload
}

/// The payload to store for an approved solution.
pub fn payload_of_solution(query: &str, code: &str) -> (r: Vec<(String, String)>)
    ensures
        fields(r@) == solution_payload(query@, code@),
{
    let mut payload: Vec<(String, String)> = Vec::new();
    payload.push((String::from_str(QUERY_FIELD), String::from_str(query)));
    payload.push((String::from_str(CODE_FIELD), String::from_str(code)));
    assert(fields(payload@) =~= solution_payload(query@, code@));
    payload
}

/// The model of a [`ContextSection`].
pub struct SectionView {
    pub label: SectionLabel,
    pub provenance: Option<Seq<char>>,
    pub text: Seq<char>,
}

impl View for ContextSection {
    type V = SectionView;

    open spec fn view(&self) -> SectionView {
        SectionView {
            label: self.label,
            provenance: match self.provenance {
                Some(p) => Some(p@),
                None => None,
            },
            text: self.text@,
        }
    }
}

impl View for ContextBundle {
    type V = Seq<SectionView>;

    open spec fn view(&self) -> Seq<SectionView> {
        Seq::new(self.sections@.len(), |i: int| self.sections@[i]@)
    }
}

/// The section that the web lookup contributes for `query`.
pub open spec fn web_sections(query: Seq<char>, web: Option<String>) -> Seq<SectionView> {
    match web {
        Some(text) => seq![
            SectionView { label: SectionLabel::Web, provenance: Some(query), text: text@ },
        ],
        None => Seq::empty(),
    }
}

/// One documentation section for each hit that has a chunk, in hit order.
pub open spec fn documentation_of(hits: Seq<KnowledgeHit>) -> Seq<SectionView>
    decreases hits.len(),
{
    if hits.len() == 0 {
        Seq::empty()
    } else {
        let earlier = documentation_of(hits.drop_last());
        match hits.last().chunk {
            Some(chunk) => earlier.push(
                SectionView {
                    label: SectionLabel::Documentation,
                    provenance: None,
                    text: chunk@,
                },
            ),
            None => earlier,
        }
    }
}

/// One golden-example section for each hit that has both a query and a code,
/// in hit order.
pub open spec fn golden_of(hits: Seq<SolutionHit>) -> Seq<SectionView>
    decreases hits.len(),
{
    if hits.len() == 0 {
        Seq::empty()
    } else {
        let earlier = golden_of(hits.drop_last());
        match (hits.last().query, hits.last().code) {
            (Some(query), Some(code)) => earlier.push(
                SectionView {
                    label: SectionLabel::GoldenExample,
                    provenance: Some(query@),
                    text: code@,
                },
            ),
            _ => earlier,
        }
    }
}

/// The sections that the knowledge lookup contributes.
pub open spec fn documentation_sections(knowledge: Option<Vec<KnowledgeHit>>) -> Seq<SectionView> {
    match knowledge {
        Some(hits) => documentation_of(hits@),
        None => Seq::empty(),
    }
}

/// The sections that the approved-solutions lookup contributes.
pub open spec fn golden_sections(approved: Option<Vec<SolutionHit>>) -> Seq<SectionView> {
    match approved {
        Some(hits) => golden_of(hits@),
        None => Seq::empty(),
    }
}

/// The bundle for the outcomes of the three lookups; `None` is a lookup that
/// failed.
pub open spec fn bundle_sections(
    query: Seq<char>,
    web: Option<String>,
    knowledge: Option<Vec<KnowledgeHit>>,
    approved: Option<Vec<SolutionHit>>,
) -> Seq<SectionView> {
    web_sections(query, web) + documentation_sections(knowledge) + golden_sections(approved)
}

/// Merges the outcomes of the three lookups into the bundle. No outcome makes
/// this fail: a lookup that failed is left out, the others still count.
pub fn retrieve(
    query: &str,
    web: &Option<String>,
    knowledge: &Option<Vec<KnowledgeHit>>,
    approved: &Option<Vec<SolutionHit>>,
) -> (r: ContextBundle)
    ensures
        r@ == bundle_sections(query@, *web, *knowledge, *approved),
        web is None && knowledge is None && approved is None ==> r@.len() == 0,
{
    let mut sections: Vec<ContextSection> = Vec::new();
    let ghost mut model: Seq<SectionView> = Seq::empty();
    match web {
        Some(text) => {
            sections.push(
                ContextSection {
                    label: SectionLabel::Web,
                    provenance: Some(String::from_str(query)),
                    text: text.clone(),
                },
            );
            proof {
                model = model.push(sections@[0]@);
            }
        },
        None => {},
    }
    assert(model =~= web_sections(query@, *web));
    match knowledge {
        Some(hits) => {
            let mut i: usize = 0;
            while i < hits.len()
                invariant
                    i <= hits.len(),
                    sections@.len() == model.len(),
                    forall|j: int| 0 <= j < model.len() ==> sections@[j]@ == model[j],
                    model == web_sections(query@, *web) + documentation_of(hits@.take(i as int)),
                decreases hits.len() - i,
            {
                assert(hits@.take(i + 1).drop_last() =~= hits@.take(i as int));
                match &hits[i].chunk {
                    Some(chunk) => {
                        sections.push(
                            ContextSection {
                                label: SectionLabel::Documentation,
                                provenance: None,
                                text: chunk.clone(),
                            },
                        );
                        proof {
                            model = model.push(sections@[sections@.len() - 1]@);
                        }
                    },
                    None => {},
                }
                assert(model =~= web_sections(query@, *web) + documentation_of(
                    hits@.take(i + 1),
                ));
                i = i + 1;
            }
            assert(hits@.take(hits.len() as int) =~= hits@);
        },
        None => {},
    }
    assert(model =~= web_sections(query@, *web) + documentation_sections(*knowledge));
    let ghost before = model;
    match approved {
        Some(hits) => {
            let mut i: usize = 0;
            while i < hits.len()
                invariant
                    i <= hits.len(),
                    sections@.len() == model.len(),
                    forall|j: int| 0 <= j < model.len() ==> sections@[j]@ == model[j],
                    model == before + golden_of(hits@.take(i as int)),
                decreases hits.len() - i,
            {
                assert(hits@.take(i + 1).drop_last() =~= hits@.take(i as int));
                match (&hits[i].query, &hits[i].code) {
                    (Some(asked), Some(code)) => {
                        sections.push(
                            ContextSection {
                                label: SectionLabel::GoldenExample,
                                provenance: Some(asked.clone()),
                                text: code.clone(),
                            },
                        );
                        proof {
                            model = model.push(sections@[sections@.len() - 1]@);
                        }
                    },
                    _ => {},
                }
                assert(model =~= before + golden_of(hits@.take(i + 1)));
                i = i + 1;
            }
            assert(hits@.take(hits.len() as int) =~= hits@);
        },
        None => {},
    }
    assert(model =~= bundle_sections(query@, *web, *knowledge, *approved));
    let bundle = ContextBundle { sections };
    assert(bundle@ =~= model);
    bundle
}

/// The text of `provenance`; empty where there is none.
pub open spec fn provenance_text(provenance: Option<Seq<char>>) -> Seq<char> {
    match provenance {
        Some(p) => p,
        None => Seq::empty(),
    }
}

/// What a section contributes to the written context: a golden example is
/// introduced by the query it answered and fenced as code, any other section
/// is its text.
pub open spec fn entry_text(section: SectionView) -> Seq<char> {
    match section.label {
        SectionLabel::GoldenExample => "Previously approved solution for a similar query ('"@
            + provenance_text(section.provenance) + "'):\n```rust\n"@ + section.text + "\n```"@,
        _ => section.text,
    }
}

/// The entries of the sections labeled `label`, in bundle order.
pub open spec fn entries(sections: Seq<SectionView>, label: SectionLabel) -> Seq<Seq<char>>
    decreases sections.len(),
{
    if sections.len() == 0 {
        Seq::empty()
    } else {
        let earlier = entries(sections.drop_last(), label);
        if sections.last().label == label {
            earlier.push(entry_text(sections.last()))
        } else {
            earlier
        }
    }
}

/// The entries labeled `label`, separated by a rule.
pub open spec fn body(sections: Seq<SectionView>, label: SectionLabel) -> Seq<char> {
    joined(entries(sections, label), "\n---\n"@)
}

/// `heading` and `body` as one part of the internal knowledge; nothing where
/// the body is empty.
pub open spec fn part(heading: Seq<char>, body: Seq<char>) -> Seq<Seq<char>> {
    if body.len() == 0 {
        Seq::empty()
    } else {
        seq![heading + body]
    }
}

/// What the two vector-store lookups contribute, written out: the
/// documentation part, then the golden-example part, a blank line between.
pub open spec fn internal_knowledge(sections: Seq<SectionView>) -> Seq<char> {
    joined(
        part("Relevant Documentation:\n"@, body(sections, SectionLabel::Documentation)) + part(
            "Golden Example:\n"@,
            body(sections, SectionLabel::GoldenExample),
        ),
        "\n\n"@,
    )
}

/// The whole bundle written out as the context of a model request.
pub open spec fn rendered(sections: Seq<SectionView>) -> Seq<char> {
    "Live Web Context:\n"@ + body(sections, SectionLabel::Web) + "\n\nInternal Knowledge:\n"@
        + internal_knowledge(sections)
}

fn entry_of(section: &ContextSection) -> (r: String)
    ensures
        r@ == entry_text(section@),
{
    match section.label {
        SectionLabel::GoldenExample => {
            let mut out = String::from_str("Previously approved solution for a similar query ('");
            match &section.provenance {
                Some(p) => {
                    out.append(p.as_str());
                },
                None => {
                    assert(out@ + Seq::<char>::empty() =~= out@);
                },
            }
            out.append("'):\n```rust\n");
            out.append(section.text.as_str());
            out.append("\n```");
            out
        },
        _ => section.text.clone(),
    }
}

impl ContextBundle {
    /// Whether no lookup contributed anything.
    pub fn is_empty(&self) -> (r: bool)
        ensures
            r == (self@.len() == 0),
    {
        self.sections.len() == 0
    }

    fn body_of(&self, label: SectionLabel) -> (r: String)
        ensures
            r@ == body(self@, label),
    {
        let mut found: Vec<String> = Vec::new();
        let mut i: usize = 0;
        while i < self.sections.len()
            invariant
                i <= self.sections.len(),
                texts(found@) == entries(self@.take(i as int), label),
            decreases self.sections.len() - i,
        {
            assert(self@.take(i + 1).drop_last() =~= self@.take(i as int));
            assert(self@.take(i + 1).last() == self.sections@[i as int]@);
            if self.sections[i].label == label {
                let entry = entry_of(&self.sections[i]);
                found.push(entry);
            }
            assert(texts(found@) =~= entries(self@.take(i + 1), label));
            i = i + 1;
        }
        assert(self@.take(self.sections.len() as int) =~= self@);
        join(&found, "\n---\n")
    }

    /// Writes out what the vector-store lookups contributed.
    pub fn internal_knowledge(&self) -> (r: String)
        ensures
            r@ == internal_knowledge(self@),
    {
        let mut parts: Vec<String> = Vec::new();
        let documentation = self.body_of(SectionLabel::Documentation);
        if !documentation.as_str().is_empty() {
            let mut text = String::from_str("Relevant Documentation:\n");
            text.append(documentation.as_str());
            parts.push(text);
        }
        assert(texts(parts@) =~= part(
            "Relevant Documentation:\n"@,
            body(self@, SectionLabel::Documentation),
        ));
        let golden = self.body_of(SectionLabel::GoldenExample);
        if !golden.as_str().is_empty() {
            let mut text = String::from_str("Golden Example:\n");
            text.append(golden.as_str());
            parts.push(text);
        }
        assert(texts(parts@) =~= part(
            "Relevant Documentation:\n"@,
            body(self@, SectionLabel::Documentation),
        ) + part("Golden Example:\n"@, body(self@, SectionLabel::GoldenExample)));
        join(&parts, "\n\n")
    }

    /// Writes the bundle out as the context of a model request: the web part
    /// under its heading, then the internal knowledge under its own.
    pub fn render(&self) -> (r: String)
        ensures
            r@ == rendered(self@),
    {
        let mut out = String::from_str("Live Web Context:\n");
        let web = self.body_of(SectionLabel::Web);
        out.append(web.as_str());
        out.append("\n\nInternal Knowledge:\n");
        let internal = self.internal_knowledge();
        out.append(internal.as_str());
        out
    }
}

/// Writes out what the knowledge lookup and the approved-solutions lookup
/// brought; `None` is a lookup that failed and contributes nothing.
pub fn search_for_context(
    knowledge: &Option<Vec<KnowledgeHit>>,
    approved: &Option<Vec<SolutionHit>>,
) -> (r: String)
    ensures
        r@ == internal_knowledge(documentation_sections(*knowledge) + golden_sections(*approved)),
{
    let bundle = retrieve("", &None, knowledge, approved);
    assert(bundle@ =~= documentation_sections(*knowledge) + golden_sections(*approved));
    bundle.internal_knowledge()
}

/// When all three lookups fail the bundle is empty, whatever the query.
pub proof fn lemma_all_lookups_failed(query: Seq<char>)
    ensures
        bundle_sections(query, None, None, None) == Seq::<SectionView>::empty(),
{
    assert(bundle_sections(query, None, None, None) =~= Seq::<SectionView>::empty());
}

/// The bundle keeps the fixed order of its sources: every web section stands
/// before every documentation section, and those before every golden example.
pub proof fn lemma_bundle_order(
    query: Seq<char>,
    web: Option<String>,
    knowledge: Option<Vec<KnowledgeHit>>,
    approved: Option<Vec<SolutionHit>>,
    i: int,
    j: int,
)
    requires
        0 <= i < j < bundle_sections(query, web, knowledge, approved).len(),
    ensures
        rank(bundle_sections(query, web, knowledge, approved)[i].label) <= rank(
            bundle_sections(query, web, knowledge, approved)[j].label,
        ),
{
    match knowledge {
        Some(hits) => lemma_documentation_labels(hits@),
        None => {},
    }
    match approved {
        Some(hits) => lemma_golden_labels(hits@),
        None => {},
    }
}

/// The place of a label in the fixed order of sources.
pub open spec fn rank(label: SectionLabel) -> int {
    match label {
        SectionLabel::Web => 0,
        SectionLabel::Documentation => 1,
        SectionLabel::GoldenExample => 2,
    }
}

proof fn lemma_documentation_labels(hits: Seq<KnowledgeHit>)
    ensures
        forall|i: int|
            0 <= i < documentation_of(hits).len() ==> (#[trigger] documentation_of(hits)[i]).label
                == SectionLabel::Documentation,
    decreases hits.len(),
{
    if hits.len() > 0 {
        lemma_documentation_labels(hits.drop_last());
    }
}

proof fn lemma_golden_labels(hits: Seq<SolutionHit>)
    ensures
        forall|i: int|
            0 <= i < golden_of(hits).len() ==> (#[trigger] golden_of(hits)[i]).label
                == SectionLabel::GoldenExample,
    decreases hits.len(),
{
    if hits.len() > 0 {
        lemma_golden_labels(hits.drop_last());
    }
}

/// A hit with a chunk is in the documentation, under its text.
pub proof fn lemma_chunk_is_kept(hits: Seq<KnowledgeHit>, i: int)
    requires
        0 <= i < hits.len(),
        hits[i].chunk is Some,
    ensures
        documentation_of(hits).contains(
            SectionView {
                label: SectionLabel::Documentation,
                provenance: None,
                text: hits[i].chunk->Some_0@,
            },
        ),
    decreases hits.len(),
{
    let wanted = SectionView {
        label: SectionLabel::Documentation,
        provenance: None,
        text: hits[i].chunk->Some_0@,
    };
    let front = hits.drop_last();
    let earlier = documentation_of(front);
    if i < hits.len() - 1 {
        lemma_chunk_is_kept(front, i);
        let k = choose|k: int| 0 <= k < earlier.len() && earlier[k] == wanted;
        assert(documentation_of(hits)[k] == wanted);
    } else {
        assert(documentation_of(hits)[earlier.len() as int] == wanted);
    }
}

/// A hit with both a query and a code is among the golden examples, its code
/// under the query that it answered.
pub proof fn lemma_solution_is_kept(hits: Seq<SolutionHit>, i: int)
    requires
        0 <= i < hits.len(),
        hits[i].query is Some,
        hits[i].code is Some,
    ensures
        golden_of(hits).contains(
            SectionView {
                label: SectionLabel::GoldenExample,
                provenance: Some(hits[i].query->Some_0@),
                text: hits[i].code->Some_0@,
            },
        ),
    decreases hits.len(),
{
    let wanted = SectionView {
        label: SectionLabel::GoldenExample,
        provenance: Some(hits[i].query->Some_0@),
        text: hits[i].code->Some_0@,
    };
    let front = hits.drop_last();
    let earlier = golden_of(front);
    if i < hits.len() - 1 {
        lemma_solution_is_kept(front, i);
        let k = choose|k: int| 0 <= k < earlier.len() && earlier[k] == wanted;
        assert(golden_of(hits)[k] == wanted);
    } else {
        assert(golden_of(hits)[earlier.len() as int] == wanted);
    }
}

/// A web lookup that survived populates the bundle, whatever became of the
/// others: its text is the first section.
pub proof fn lemma_web_lookup_populates(
    query: Seq<char>,
    text: String,
    knowledge: Option<Vec<KnowledgeHit>>,
    approved: Option<Vec<SolutionHit>>,
)
    ensures
        bundle_sections(query, Some(text), knowledge, approved).len() > 0,
        bundle_sections(query, Some(text), knowledge, approved)[0] == (SectionView {
            label: SectionLabel::Web,
            provenance: Some(query),
            text: text@,
        }),
{
}

/// A knowledge lookup that survived populates the bundle, whatever became of
/// the others: every hit with a chunk has its section.
pub proof fn lemma_knowledge_lookup_populates(
    query: Seq<char>,
    web: Option<String>,
    hits: Vec<KnowledgeHit>,
    approved: Option<Vec<SolutionHit>>,
    i: int,
)
    requires
        0 <= i < hits@.len(),
        hits@[i].chunk is Some,
    ensures
        bundle_sections(query, web, Some(hits), approved).contains(
            SectionView {
                label: SectionLabel::Documentation,
                provenance: None,
                text: hits@[i].chunk->Some_0@,
            },
        ),
{
    let bundle = bundle_sections(query, web, Some(hits), approved);
    let before = web_sections(query, web);
    let middle = documentation_of(hits@);
    let wanted = SectionView {
        label: SectionLabel::Documentation,
        provenance: None,
        text: hits@[i].chunk->Some_0@,
    };
    lemma_chunk_is_kept(hits@, i);
    let k = choose|k: int| 0 <= k < middle.len() && middle[k] == wanted;
    assert(bundle[before.len() + k] == wanted);
}

/// An approved-solutions lookup that survived populates the bundle, whatever
/// became of the others: every hit with a query and a code has its section.
pub proof fn lemma_solutions_lookup_populates(
    query: Seq<char>,
    web: Option<String>,
    knowledge: Option<Vec<KnowledgeHit>>,
    hits: Vec<SolutionHit>,
    i: int,
)
    requires
        0 <= i < hits@.len(),
        hits@[i].query is Some,
        hits@[i].code is Some,
    ensures
        bundle_sections(query, web, knowledge, Some(hits)).contains(
            SectionView {
                label: SectionLabel::GoldenExample,
                provenance: Some(hits@[i].query->Some_0@),
                text: hits@[i].code->Some_0@,
            },
        ),
{
    let bundle = bundle_sections(query, web, knowledge, Some(hits));
    let before = web_sections(query, web);
    let middle = documentation_sections(knowledge);
    let after = golden_of(hits@);
    let wanted = SectionView {
        label: SectionLabel::GoldenExample,
        provenance: Some(hits@[i].query->Some_0@),
        text: hits@[i].code->Some_0@,
    };
    lemma_solution_is_kept(hits@, i);
    let k = choose|k: int| 0 <= k < after.len() && after[k] == wanted;
    assert(bundle[before.len() + middle.len() + k] == wanted);
}

/// What is stored is what is read back: the payload of a chunk is read as
/// that chunk, and the payload of an approved solution as its query and code.
pub proof fn lemma_stored_payloads_are_read_back(chunk: Seq<char>, query: Seq<char>, code: Seq<char>)
    ensures
        chunk_of(chunk_payload(chunk)) == Some(chunk),
        field_value(solution_payload(query, code), QUERY_FIELD@) == Some(query),
        field_value(solution_payload(query, code), CODE_FIELD@) == Some(code),
{
    reveal_strlit("text");
    reveal_strlit("chunk");
    reveal_strlit("query");
    reveal_strlit("code");
    let stored = solution_payload(query, code);
    assert(QUERY_FIELD@ != CODE_FIELD@) by {
        assert(QUERY_FIELD@[0] == 'q');
        assert(CODE_FIELD@[0] == 'c');
    }
    assert(stored.drop_first() =~= seq![(CODE_FIELD@, code)]);
    reveal_with_fuel(field_value, 3);
}

/// A stored chunk that the knowledge lookup finds, alone, is the
/// documentation of the context, word for word.
pub proof fn lemma_stored_chunk_is_the_documentation(hit: KnowledgeHit, chunk: Seq<char>)
    requires
        optional_text(hit.chunk) == chunk_of(chunk_payload(chunk)),
        chunk.len() > 0,
    ensures
        internal_knowledge(documentation_of(seq![hit]) + golden_of(Seq::empty()))
            == "Relevant Documentation:\n"@ + chunk,
{
    lemma_stored_payloads_are_read_back(chunk, Seq::empty(), Seq::empty());
    reveal_with_fuel(documentation_of, 3);
    reveal_with_fuel(entries, 3);
    let hits = seq![hit];
    assert(hit.chunk is Some && hit.chunk->Some_0@ == chunk);
    assert(hits.last() == hit);
    assert(hits.drop_last() =~= Seq::<KnowledgeHit>::empty());
    let section = SectionView {
        label: SectionLabel::Documentation,
        provenance: None,
        text: chunk,
    };
    assert(documentation_of(hits) =~= seq![section]);
    let sections = documentation_of(hits) + golden_of(Seq::empty());
    assert(sections =~= seq![section]);
    assert(sections.drop_last() =~= Seq::<SectionView>::empty());
    assert(entries(sections, SectionLabel::Documentation) =~= seq![chunk]);
    assert(entries(sections, SectionLabel::GoldenExample) =~= Seq::<Seq<char>>::empty());
    assert(body(sections, SectionLabel::Documentation) == chunk);
    assert(body(sections, SectionLabel::GoldenExample) =~= Seq::<char>::empty());
    assert(part("Relevant Documentation:\n"@, chunk) + part(
        "Golden Example:\n"@,
        Seq::<char>::empty(),
    ) =~= seq!["Relevant Documentation:\n"@ + chunk]);
}

/// The distance by which the vectors of a collection are compared.
#[derive(Debug, Clone, Copy, PartialEq, Eq, Structural)]
pub enum Distance {
    Cosine,
}

/// A collection to create in the vector store.
#[derive(Debug)]
pub struct CollectionSpec {
    pub name: String,
    pub vector_size: u64,
    pub distance: Distance,
}

/// The names of the collections that are still to create.
pub open spec fn missing_names(knowledge_exists: bool, solutions_exists: bool) -> Seq<Seq<char>> {
    (if knowledge_exists {
        Seq::<Seq<char>>::empty()
    } else {
        seq![KNOWLEDGE_BASE_COLLECTION@]
    }) + (if solutions_exists {
        Seq::<Seq<char>>::empty()
    } else {
        seq![APPROVED_SOLUTIONS_COLLECTION@]
    })
}

/// The collections to create so that both exist, given which of them the
/// store already has: the knowledge base first. Each takes vectors of
/// [`VECTOR_SIZE`] compared by cosine.
pub fn ensure_collections_exist(knowledge_exists: bool, solutions_exists: bool) -> (r: Vec<
    CollectionSpec,
>)
    ensures
        r.len() == missing_names(knowledge_exists, solutions_exists).len(),
        forall|i: int|
            0 <= i < r.len() ==> (#[trigger] r[i]).name@ == missing_names(
                knowledge_exists,
                solutions_exists,
            )[i] && r[i].vector_size == VECTOR_SIZE && r[i].distance == Distance::Cosine,
{
    let mut out: Vec<CollectionSpec> = Vec::new();
    if !knowledge_exists {
        out.push(
            CollectionSpec {
                name: String::from_str(KNOWLEDGE_BASE_COLLECTION),
                vector_size: VECTOR_SIZE,
                distance: Distance::Cosine,
            },
        );
    }
    if !solutions_exists {
        out.push(
            CollectionSpec {
                name: String::from_str(APPROVED_SOLUTIONS_COLLECTION),
                vector_size: VECTOR_SIZE,
                distance: Distance::Cosine,
            },
        );
    }
    out
}

} // verus!
