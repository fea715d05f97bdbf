//! Model Context Protocol servers: their descriptions, tools, resources
//! and results, and the in-memory client the tests and stubs use.

use vstd::prelude::*;

use crate::outside::{json_text, parse_json_or_null, parsed_json, to_json_text, ExJsonValue};

verus! {

/// How an MCP server is reached.
#[derive(Debug, Clone)]
pub enum McpTransport {
    Stdio,
    Sse { url: String },
    StreamableHttp { url: String },
}

/// An MCP server to connect to.
#[derive(Debug, Clone)]
pub struct McpServer {
    pub name: String,
    pub transport: McpTransport,
    pub command: Option<String>,
    pub args: Vec<String>,
    /// Environment variables for the server process, as (name, value) pairs.
    pub env: Vec<(String, String)>,
}

/// A tool an MCP server offers.
#[derive(Debug, Clone)]
pub struct McpToolDescriptor {
    pub name: String,
    pub description: String,
    pub input_schema: serde_json::Value,
    pub server: String,
}

/// A resource an MCP server offers.
#[derive(Debug, Clone)]
pub struct McpResource {
    pub uri: String,
    pub name: String,
    pub mime_type: Option<String>,
    pub description: Option<String>,
}

/// Content an MCP server returns.
#[derive(Debug, Clone)]
pub enum McpContent {
    Text { text: String },
    Image { data: String, mime_type: String },
    Resource { uri: String },
}

/// The result of invoking an MCP tool.
#[derive(Debug, Clone)]
pub struct McpToolResult {
    pub is_error: bool,
    pub content: Vec<McpContent>,
}

/// An MCP tool as plain values: name, description, schema and server.
pub open spec fn tool_view(t: McpToolDescriptor) -> (Seq<char>, Seq<char>, serde_json::Value, Seq<char>) {
    (t.name@, t.description@, t.input_schema, t.server@)
}

/// The tools the in-memory client offers: `search` and `read_file` of
/// `test-server`.
pub open spec fn mock_tools() -> Seq<(Seq<char>, Seq<char>, serde_json::Value, Seq<char>)> {
    seq![
        (
            "search"@,
            "Search the codebase"@,
            parsed_json("{\"type\":\"object\",\"properties\":{\"query\":{\"type\":\"string\"}}}"@),
            "test-server"@,
        ),
        (
            "read_file"@,
            "Read a file"@,
            parsed_json("{\"type\":\"object\",\"properties\":{\"path\":{\"type\":\"string\"}}}"@),
            "test-server"@,
        ),
    ]
}

/// The resource the in-memory client offers: the project readme.
pub open spec fn mock_resource_matches(r: McpResource) -> bool {
    &&& r.uri@ == "file:///README.md"@
    &&& r.name@ == "README"@
    &&& r.mime_type matches Some(m) && m@ == "text/markdown"@
    &&& r.description matches Some(d) && d@ == "Project readme"@
}

/// An MCP client that answers from memory.
pub struct MockMcpClient {
    tools: Vec<McpToolDescriptor>,
    resources: Vec<McpResource>,
}

fn copy_opt_string(o: &Option<String>) -> (r: Option<String>)
    ensures
        r == *o,
{
    match o {
        Some(s) => Some(s.clone()),
        None => None,
    }
}

impl MockMcpClient {
    pub closed spec fn tools_view(&self) -> Seq<(Seq<char>, Seq<char>, serde_json::Value, Seq<char>)> {
        self.tools@.map_values(|t: McpToolDescriptor| tool_view(t))
    }

    pub closed spec fn resources_view(&self) -> Seq<McpResource> {
        self.resources@
    }

    /// The client with its two tools and its one resource.
    pub fn new() -> (c: MockMcpClient)
        ensures
            c.tools_view() == mock_tools(),
            c.resources_view().len() == 1,
            mock_resource_matches(c.resources_view()[0]),
    {
        let mut tools: Vec<McpToolDescriptor> = Vec::new();
        tools.push(
            McpToolDescriptor {
                name: String::from_str("search"),
                description: String::from_str("Search the codebase"),
                input_schema: parse_json_or_null(
                    "{\"type\":\"object\",\"properties\":{\"query\":{\"type\":\"string\"}}}",
                ),
                server: String::from_str("test-server"),
            },
        );
        tools.push(
            McpToolDescriptor {
                name: String::from_str("read_file"),
                description: String::from_str("Read a file"),
                input_schema: parse_json_or_null(
                    "{\"type\":\"object\",\"properties\":{\"path\":{\"type\":\"string\"}}}",
                ),
                server: String::from_str("test-server"),
            },
        );
        let mut resources: Vec<McpResource> = Vec::new();
        resources.push(
            McpResource {
                uri: String::from_str("file:///README.md"),
                name: String::from_str("README"),
                mime_type: Some(String::from_str("text/markdown")),
                description: Some(String::from_str("Project readme")),
            },
        );
        let c = MockMcpClient { tools, resources };
        assert(c.tools_view() =~= mock_tools());
        c
    }

    /// The tools of a server: the client's tools, whatever the server.
    pub fn list_tools(&self, server: &str) -> (r: Vec<McpToolDescriptor>)
        ensures
            r@.map_values(|t: McpToolDescriptor| tool_view(t)) == self.tools_view(),
    {
        let mut r: Vec<McpToolDescriptor> = Vec::new();
        let mut i: usize = 0;
        while i < self.tools.len()
            invariant
                i <= self.tools@.len(),
                r@.map_values(|t: McpToolDescriptor| tool_view(t)) == self.tools_view().take(i as int),
            decreases self.tools.len() - i,
        {
            let t = &self.tools[i];
            let ghost before = r@.map_values(|t: McpToolDescriptor| tool_view(t));
            r.push(
                McpToolDescriptor {
                    name: t.name.clone(),
                    description: t.description.clone(),
                    input_schema: t.input_schema.clone(),
                    server: t.server.clone(),
                },
            );
            proof {
                assert(r@.map_values(|t: McpToolDescriptor| tool_view(t)) =~= before.push(
                    tool_view(*t),
                ));
                assert(self.tools_view().take(i + 1) =~= self.tools_view().take(i as int).push(
                    tool_view(self.tools@[i as int]),
                ));
            }
            i = i + 1;
        }
        assert(self.tools_view().take(i as int) =~= self.tools_view());
        r
    }

    /// Invoke a tool: one text answer, `result of <tool>(<args as JSON>)`.
    pub fn invoke(&self, server: &str, tool: &str, args: serde_json::Value) -> (r: McpToolResult)
        ensures
            !r.is_error,
            r.content@.len() == 1,
            r.content@[0] matches McpContent::Text { text } && text@ == "result of "@ + tool@ + "("@
                + (match json_text(args) {
                Some(t) => t,
                None => Seq::<char>::empty(),
            }) + ")"@,
    {
        let args_text = match to_json_text(&args) {
            Some(t) => t,
            None => String::new(),
        };
        let text = String::from_str("result of ").concat(tool).concat("(").concat(args_text.as_str()).concat(
            ")",
        );
        let mut content: Vec<McpContent> = Vec::new();
        content.push(McpContent::Text { text });
        McpToolResult { is_error: false, content }
    }

    /// The resources of a server: the client's resources, whatever the
    /// server.
    pub fn list_resources(&self, server: &str) -> (r: Vec<McpResource>)
        ensures
            r@ == self.resources_view(),
    {
        let mut r: Vec<McpResource> = Vec::new();
        let mut i: usize = 0;
        while i < self.resources.len()
            invariant
                i <= self.resources@.len(),
                r@ == self.resources@.take(i as int),
            decreases self.resources.len() - i,
        {
            let x = &self.resources[i];
            r.push(
                McpResource {
                    uri: x.uri.clone(),
                    name: x.name.clone(),
                    mime_type: copy_opt_string(&x.mime_type),
                    description: copy_opt_string(&x.description),
                },
            );
            i = i + 1;
            proof {
                assert(self.resources@.take(i as int) =~= self.resources@.take(i - 1).push(
                    self.resources@[i - 1],
                ));
            }
        }
        assert(self.resources@.take(i as int) =~= self.resources@);
        r
    }

    /// Read a resource: `content of <uri>`.
    pub fn read_resource(&self, server: &str, uri: &str) -> (c: McpContent)
        ensures
            c matches McpContent::Text { text } && text@ == "content of "@ + uri@,
    {
        McpContent::Text { text: String::from_str("content of ").concat(uri) }
    }

    /// Whether a server answers: always.
    pub fn ping(&self, server: &str) -> (b: bool)
        ensures
            b,
    {
        true
    }
}


impl Default for MockMcpClient {
    /// The client with its two tools and one resource.
    fn default() -> (c: MockMcpClient)
        ensures
            c.tools_view() == mock_tools(),
            c.resources_view().len() == 1,
            mock_resource_matches(c.resources_view()[0]),
    {
        MockMcpClient::new()
    }
}

} // verus!
