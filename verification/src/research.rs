//! The dependency plan and its research: which names are looked up, with
//! which search query, and how the findings add up to the dossier that the
//! synthesis pass reads.

use vstd::prelude::*;
use vstd::string::StringExecFns;
use crate::text::{contains_text, texts};

verus! {

/// `names` without repetitions: of equal names the first stays, and the rest
/// keep their order.
pub open spec fn deduplicated(names: Seq<Seq<char>>) -> Seq<Seq<char>>
    decreases names.len(),
{
    if names.len() == 0 {
        Seq::empty()
    } else {
        let earlier = deduplicated(names.drop_last());
        if earlier.contains(names.last()) {
            earlier
        } else {
            earlier.push(names.last())
        }
    }
}

/// The names of the dependencies to research, each once.
#[derive(Debug)]
pub struct DependencyPlan {
    pub names: Vec<String>,
}

impl View for DependencyPlan {
    type V = Seq<Seq<char>>;

    open spec fn view(&self) -> Seq<Seq<char>> {
        texts(self.names@)
    }
}

impl DependencyPlan {
    /// No name occurs twice.
    pub open spec fn wf(&self) -> bool {
        self@.no_duplicates()
    }

    /// The plan for the names that the planning pass gave: the same names,
    /// each once, in the order of their first occurrence.
    pub fn from_names(names: Vec<String>) -> (r: DependencyPlan)
        ensures
            r@ == deduplicated(texts(names@)),
            r.wf(),
    {
        let mut kept: Vec<String> = Vec::new();
        let mut i: usize = 0;
        while i < names.len()
            invariant
                i <= names.len(),
                texts(kept@) == deduplicated(texts(names@).take(i as int)),
            decreases names.len() - i,
        {
            assert(texts(names@).take(i + 1).drop_last() =~= texts(names@).take(i as int));
            assert(texts(names@).take(i + 1).last() == names@[i as int]@);
            if !contains_text(&kept, &names[i]) {
                kept.push(names[i].clone());
            }
            assert(texts(kept@) =~= deduplicated(texts(names@).take(i + 1)));
            i = i + 1;
        }
        assert(texts(names@).take(names.len() as int) =~= texts(names@));
        proof {
            lemma_deduplicated(texts(names@));
        }
        DependencyPlan { names: kept }
    }

    /// How many dependencies there are to research.
    pub fn len(&self) -> (r: usize)
        ensures
            r == self@.len(),
    {
        self.names.len()
    }
}

/// Deduplication keeps exactly the names that occur, and none of them twice.
pub proof fn lemma_deduplicated(names: Seq<Seq<char>>)
    ensures
        deduplicated(names).no_duplicates(),
        forall|name: Seq<char>| deduplicated(names).contains(name) <==> names.contains(name),
        deduplicated(names).len() <= names.len(),
    decreases names.len(),
{
    if names.len() > 0 {
        let front = names.drop_last();
        lemma_deduplicated(front);
        let earlier = deduplicated(front);
        let result = deduplicated(names);
        assert forall|name: Seq<char>| result.contains(name) <==> names.contains(name) by {
            if names.contains(name) {
                let k = choose|k: int| 0 <= k < names.len() && names[k] == name;
                if k < names.len() - 1 {
                    assert(front[k] == name);
                    assert(front.contains(name));
                    assert(earlier.contains(name));
                    let m = choose|m: int| 0 <= m < earlier.len() && earlier[m] == name;
                    assert(result[m] == name);
                } else if earlier.contains(name) {
                    let m = choose|m: int| 0 <= m < earlier.len() && earlier[m] == name;
                    assert(result[m] == name);
                } else {
                    assert(result[earlier.len() as int] == name);
                }
                assert(result.contains(name));
            }
            if result.contains(name) {
                let m = choose|m: int| 0 <= m < result.len() && result[m] == name;
                if m < earlier.len() {
                    assert(earlier[m] == name);
                    assert(earlier.contains(name));
                    assert(front.contains(name));
                    let k = choose|k: int| 0 <= k < front.len() && front[k] == name;
                    assert(names[k] == name);
                } else {
                    assert(names[names.len() - 1] == name);
                }
                assert(names.contains(name));
            }
        }
    }
}

/// A plan that has no repetitions is left as it is.
pub proof fn lemma_deduplicated_fixpoint(names: Seq<Seq<char>>)
    requires
        names.no_duplicates(),
    ensures
        deduplicated(names) == names,
    decreases names.len(),
{
    if names.len() > 0 {
        let front = names.drop_last();
        lemma_deduplicated_fixpoint(front);
        lemma_deduplicated(front);
        if front.contains(names.last()) {
            let k = choose|k: int| 0 <= k < front.len() && front[k] == names.last();
            assert(names[k] == names[names.len() - 1]);
        }
        assert(front.push(names.last()) =~= names);
    } else {
        assert(names =~= Seq::empty());
    }
}

/// The web search that researches one dependency.
pub open spec fn research_query_text(name: Seq<char>) -> Seq<char> {
    "crates.io rust crate "@ + name + " latest API examples"@
}

/// The search query that researches the dependency `name`.
pub fn research_query(name: &str) -> (r: String)
    ensures
        r@ == research_query_text(name@),
{
    let mut out = String::from_str("crates.io rust crate ");
    out.append(name);
    out.append(" latest API examples");
    out
}

/// The dossier's section for one dependency: a header that names it, then
/// what the search found.
pub open spec fn dossier_section(name: Seq<char>, findings: Seq<char>) -> Seq<char> {
    "\n--- Research for crate '"@ + name + "': ---\n"@ + findings + "\n"@
}

/// The sections of `entries`, one after another in the order given.
pub open spec fn dossier_text(entries: Seq<(Seq<char>, Seq<char>)>) -> Seq<char>
    decreases entries.len(),
{
    if entries.len() == 0 {
        Seq::empty()
    } else {
        dossier_text(entries.drop_last()) + dossier_section(entries.last().0, entries.last().1)
    }
}

/// What research has found so far: for each dependency looked up, its name
/// and the findings, in plan order. Entries are only ever added.
#[derive(Debug)]
pub struct ResearchDossier {
    pub entries: Vec<(String, String)>,
}

impl View for ResearchDossier {
    type V = Seq<(Seq<char>, Seq<char>)>;

    open spec fn view(&self) -> Seq<(Seq<char>, Seq<char>)> {
        Seq::new(self.entries@.len(), |i: int| (self.entries@[i].0@, self.entries@[i].1@))
    }
}

impl ResearchDossier {
    /// The dossier before any research.
    pub fn new() -> (r: ResearchDossier)
        ensures
            r@.len() == 0,
    {
        ResearchDossier { entries: Vec::new() }
    }

    /// Adds the findings for one dependency after those already there.
    pub fn record(&mut self, name: String, findings: String)
        ensures
            final(self)@ == old(self)@.push((name@, findings@)),
    {
        self.entries.push((name, findings));
        assert(self@ =~= old(self)@.push((name@, findings@)));
    }

    /// The dossier as one text: its sections in the order of recording. An
    /// empty dossier is the empty text.
    pub fn text(&self) -> (r: String)
        ensures
            r@ == dossier_text(self@),
    {
        let mut out = String::new();
        let mut i: usize = 0;
        while i < self.entries.len()
            invariant
                i <= self.entries.len(),
                out@ == dossier_text(self@.take(i as int)),
            decreases self.entries.len() - i,
        {
            assert(self@.take(i + 1).drop_last() =~= self@.take(i as int));
            assert(self@.take(i + 1).last() == (self.entries@[i as int].0@, self.entries@[i as int].1@));
            out.append("\n--- Research for crate '");
            out.append(self.entries[i].0.as_str());
            out.append("': ---\n");
            out.append(self.entries[i].1.as_str());
            out.append("\n");
            assert(out@ =~= dossier_text(self@.take(i + 1)));
            i = i + 1;
        }
        assert(self@.take(self.entries.len() as int) =~= self@);
        out
    }
}

} // verus!
