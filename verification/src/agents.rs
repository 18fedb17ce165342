//! The game master's helper agents: the memory tools of the archivist, the
//! cruncher call of the strategist, and the documents of the rules' vector store.
//! What an agent answers comes from the model; these are the parts that shape the
//! requests and read the answers.
use vstd::prelude::*;

use crate::text::{concat, concat3, owned};

verus! {

broadcast use vstd::string::group_string_axioms;

/// One atomic memory of the game master: a title, one fact, and tags.
#[derive(Debug, Clone)]
pub struct Memory {
    pub title: String,
    pub content: String,
    pub tags: Vec<String>,
}

/// The error of the memory tools.
#[derive(Debug, Clone, Copy, PartialEq, Eq, Structural)]
pub struct MemoryError;

impl MemoryError {
    /// The message shown for the error.
    pub fn message(&self) -> (m: String)
        ensures
            m@ == "Memory error"@,
    {
        owned("Memory error")
    }
}

/// The tool that adds a memory.
#[derive(Debug, Clone, Copy, PartialEq, Eq, Structural)]
pub struct AddMemory;

/// The tool that removes a memory by its title.
#[derive(Debug, Clone, Copy, PartialEq, Eq, Structural)]
pub struct RemoveMemory;

/// What std's pretty `Debug` format (`{:#?}`) writes for a list of strings.
pub uninterp spec fn spec_pretty_debug(items: Seq<Seq<char>>) -> Seq<char>;

/// The characters of each string.
pub open spec fn texts(items: Seq<String>) -> Seq<Seq<char>> {
    items.map_values(|s: String| s@)
}

/// Formats a list of strings with std's pretty `Debug` format (`{:#?}`). The
/// contract names the result, which depends on the strings alone.
#[verifier::external_body]
fn pretty_debug(items: &Vec<String>) -> (r: String)
    ensures
        r@ == spec_pretty_debug(texts(items@)),
{
    format!("{:#?}", items)
}

impl AddMemory {
    /// The name the model calls the tool by.
    pub fn name(&self) -> (s: String)
        ensures
            s@ == "add_memory"@,
    {
        owned("add_memory")
    }

    /// What adding a memory answers: its title, its tags and its content.
    pub fn call(&self, args: Memory) -> (r: Result<String, MemoryError>)
        ensures
            r is Ok,
            r->Ok_0@ == "Title:\n"@ + args.title@ + "\nTags:"@ + spec_pretty_debug(texts(args.tags@))
                + "\nContent:\n"@ + args.content@,
    {
        let tags = pretty_debug(&args.tags);
        let mut out = concat3("Title:\n", args.title.as_str(), "\nTags:");
        out.append(tags.as_str());
        out.append("\nContent:\n");
        out.append(args.content.as_str());
        Ok(out)
    }
}

impl RemoveMemory {
    /// The name the model calls the tool by.
    pub fn name(&self) -> (s: String)
        ensures
            s@ == "remove_memory"@,
    {
        owned("remove_memory")
    }

    /// What removing a memory answers: the title removed.
    pub fn call(&self, args: String) -> (r: Result<String, MemoryError>)
        ensures
            r is Ok,
            r->Ok_0@ == "Memory removed: "@ + args@,
    {
        Ok(concat("Memory removed: ", args.as_str()))
    }
}

/// The tool that hands a task to a helper agent.
#[derive(Debug, Clone)]
pub struct CrunchCall {
    pub name: String,
    pub description: String,
    pub agent_preamble: String,
}

/// The arguments of a cruncher call: the task, and optional context.
#[derive(Debug, Clone)]
pub struct CrunchCallParams {
    pub query: String,
    pub context: Option<String>,
}

/// The answer of a cruncher call.
#[derive(Debug, Clone)]
pub struct CrunchCallResult {
    pub response: String,
    pub success: bool,
    pub metadata: Option<String>,
}

/// The note attached to a successful cruncher call.
pub const CRUNCH_SUCCESS_NOTE: &'static str = "Agent call completed successfully, but the tool hasn't yet been implemented, simulate the response result to continue the test.";

impl CrunchCall {
    /// The prompt sent to the helper agent: the query, after the context when
    /// there is one.
    pub fn full_query(params: &CrunchCallParams) -> (q: String)
        ensures
            q@ == match params.context {
                Some(c) => "Context: "@ + c@ + "\n\nQuery: "@ + params.query@,
                None => params.query@,
            },
    {
        match &params.context {
            Some(c) => {
                let mut q = concat3("Context: ", c.as_str(), "\n\nQuery: ");
                q.append(params.query.as_str());
                q
            },
            None => params.query.clone(),
        }
    }

    /// The answer of the call for what the helper agent replied: its response on
    /// success, the error's text otherwise.
    pub fn call_result(reply: Result<String, String>) -> (r: CrunchCallResult)
        ensures
            match reply {
                Ok(response) => {
                    &&& r.response@ == response@
                    &&& r.success
                    &&& r.metadata is Some && r.metadata->0@ == CRUNCH_SUCCESS_NOTE@
                },
                Err(e) => {
                    &&& r.response@ == "Error: "@ + e@
                    &&& !r.success
                    &&& r.metadata is Some && r.metadata->0@ == "Agent call failed"@
                },
            },
    {
        match reply {
            Ok(response) => CrunchCallResult {
                response,
                success: true,
                metadata: Some(owned(CRUNCH_SUCCESS_NOTE)),
            },
            Err(e) => CrunchCallResult {
                response: concat("Error: ", e.as_str()),
                success: false,
                metadata: Some(owned("Agent call failed")),
            },
        }
    }
}

/// A pipeline step that calls the cruncher and keeps failures as errors.
#[derive(Debug, Clone)]
pub struct AgentCallOp {
    pub agent_tool: CrunchCall,
}

/// A pipeline step that calls the cruncher and reports failures as text.
#[derive(Debug, Clone)]
pub struct CrunchCallOp {
    pub agent_tool: CrunchCall,
}

/// The arguments a pipeline step gives the cruncher: its input, no context.
pub fn step_params(input: String) -> (p: CrunchCallParams)
    ensures
        p.query == input,
        p.context is None,
{
    CrunchCallParams { query: input, context: None }
}

impl AgentCallOp {
    /// The step's output for the cruncher's answer (or the text of its error).
    pub fn output(result: Result<CrunchCallResult, String>) -> (r: Result<String, String>)
        ensures
            match result {
                Ok(c) => if c.success {
                    r is Ok && r->Ok_0@ == c.response@
                } else {
                    r is Err && r->Err_0@ == "Agent call failed: "@ + c.response@
                },
                Err(e) => r is Err && r->Err_0@ == "Agent call error: "@ + e@,
            },
    {
        match result {
            Ok(c) => if c.success {
                Ok(c.response)
            } else {
                Err(concat("Agent call failed: ", c.response.as_str()))
            },
            Err(e) => Err(concat("Agent call error: ", e.as_str())),
        }
    }
}

impl CrunchCallOp {
    /// The step's output for the cruncher's answer (or the text of its error).
    pub fn output(result: Result<CrunchCallResult, String>) -> (r: String)
        ensures
            r@ == match result {
                Ok(c) => if c.success {
                    c.response@
                } else {
                    "Agent call failed: "@ + c.response@
                },
                Err(e) => "Agent call error: "@ + e@,
            },
    {
        match result {
            Ok(c) => if c.success {
                c.response
            } else {
                concat("Agent call failed: ", c.response.as_str())
            },
            Err(e) => concat("Agent call error: ", e.as_str()),
        }
    }
}

/// A chunk of the rules, stored with its identifier.
#[derive(Debug, Clone)]
pub struct Document {
    id: String,
    content: String,
}

impl Document {
    /// A chunk with its identifier and text.
    pub fn new(id: String, content: String) -> (d: Self)
        ensures
            d.stored_id() == id,
            d.text() == content,
    {
        Document { id, content }
    }

    /// The identifier.
    pub closed spec fn stored_id(self) -> String {
        self.id
    }

    /// The text.
    pub closed spec fn text(self) -> String {
        self.content
    }

    /// The identifier, under which the chunk is stored.
    pub fn id(&self) -> (s: String)
        ensures
            s == self.stored_id(),
    {
        self.id.clone()
    }

    /// The text that is embedded.
    pub fn content(&self) -> (s: &String)
        ensures
            *s == self.text(),
    {
        &self.content
    }

    /// The table the chunks are stored in.
    pub fn name() -> (s: &'static str)
        ensures
            s@ == "documents"@,
    {
        "documents"
    }

    /// The values of the chunk's columns, by column name.
    pub fn column_values(&self) -> (v: Vec<(&'static str, String)>)
        ensures
            v@.len() == 2,
            v@[0].0@ == "id"@ && v@[0].1@ == self.stored_id()@,
            v@[1].0@ == "content"@ && v@[1].1@ == self.text()@,
    {
        let mut v: Vec<(&'static str, String)> = Vec::new();
        v.push(("id", owned(self.id.as_str())));
        v.push(("content", owned(self.content.as_str())));
        v
    }

    /// The columns of the table: names and SQL types.
    pub fn schema() -> (c: Vec<(String, String)>)
        ensures
            c@.len() == 2,
            c@[0].0@ == "id"@ && c@[0].1@ == "TEXT PRIMARY KEY"@,
            c@[1].0@ == "content"@ && c@[1].1@ == "TEXT"@,
    {
        let mut c: Vec<(String, String)> = Vec::new();
        c.push((owned("id"), owned("TEXT PRIMARY KEY")));
        c.push((owned("content"), owned("TEXT")));
        c
    }
}

} // verus!
