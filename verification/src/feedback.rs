//! Approved solutions on their way into the vector store.

use vstd::prelude::*;
use vstd::string::StringExecFns;
use crate::context::{fields, payload_of_solution, solution_payload};

verus! {

/// What is stored for one approved solution.
#[derive(Debug)]
pub struct SolutionRecord {
    /// The text that is embedded: query and code together, so that the vector
    /// holds how they relate.
    pub embedding_text: String,
    /// The payload's `query`.
    pub query: String,
    /// The payload's `code`.
    pub code: String,
}

/// The text that is embedded for a query and the code that answered it.
pub open spec fn embedding_text(query: Seq<char>, code: Seq<char>) -> Seq<char> {
    "Query: "@ + query + "\n---\nCode:\n"@ + code
}

/// The record to embed and store for an upvoted solution.
pub fn process_upvoted_solution(query: String, code: String) -> (r: SolutionRecord)
    ensures
        r.embedding_text@ == embedding_text(query@, code@),
        r.query@ == query@,
        r.code@ == code@,
{
    let mut text = String::from_str("Query: ");
    text.append(query.as_str());
    text.append("\n---\nCode:\n");
    text.append(code.as_str());
    SolutionRecord { embedding_text: text, query, code }
}

impl SolutionRecord {
    /// The payload that is stored with the solution's vector.
    pub fn payload(&self) -> (r: Vec<(String, String)>)
        ensures
            fields(r@) == solution_payload(self.query@, self.code@),
    {
        payload_of_solution(self.query.as_str(), self.code.as_str())
    }
}

/// Whether feedback leads to a stored solution: an upvote does, a downvote
/// changes nothing.
pub fn stores_solution(upvoted: bool) -> (r: bool)
    ensures
        r == upvoted,
{
    upvoted
}

} // verus!
