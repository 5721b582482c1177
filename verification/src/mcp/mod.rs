//! MCP servers: the protocol check on connection and the routing of tool
//! calls to the server that offers each tool.

use vstd::prelude::*;
use crate::json::{deep_copy, field, str_of, Json, JsonView};
use crate::provider::ToolDefinition;
use crate::tools::ToolOutput;
use crate::text::{cat, cat3, chars_eq, chars_of, owned, str_eq};

pub mod transport;

use transport::McpTool;

verus! {

/// Whether a server's `initialize` result is acceptable: a `protocolVersion`
/// string, when there is one, must be the version this client speaks.
pub fn check_protocol(server: &str, init_result: &Json) -> (r: Result<(), String>)
    ensures
        match str_of(field(init_result@, "protocolVersion"@)) {
            Some(v) => if v == transport::protocol_version() {
                r is Ok
            } else {
                r matches Err(e) && e@ == "MCP server '"@ + server@ + "' returned protocol version '"@
                    + v + "', expected '2024-11-05'"@
            },
            None => r is Ok,
        },
{
    match init_result.get("protocolVersion") {
        Some(v) => match v.as_str() {
            Some(s) => if str_eq(s, "2024-11-05") {
                Ok(())
            } else {
                let mut e = cat3("MCP server '", server, "' returned protocol version '");
                e.append(s);
                e.append("', expected '2024-11-05'");
                Err(e)
            },
            None => Ok(()),
        },
        None => Ok(()),
    }
}

/// The definition under which an MCP tool is offered to the model.
pub fn tool_definition(tool: &McpTool) -> (r: ToolDefinition)
    ensures
        r.name@ == tool.name@,
        r.description@ == match tool.description {
            Some(d) => d@,
            None => Seq::empty(),
        },
        r.parameters@ == tool.input_schema@,
{
    ToolDefinition {
        name: owned(tool.name.as_str()),
        description: match &tool.description {
            Some(d) => owned(d.as_str()),
            None => String::new(),
        },
        parameters: deep_copy(&tool.input_schema),
    }
}

/// Which server serves which tool.
pub struct ToolRouter {
    routes: Vec<(String, String)>,
}

/// No tool name occurs twice among the routes.
pub open spec fn unique_tools(routes: Seq<(String, String)>) -> bool {
    forall|i: int, j: int| 0 <= i < j < routes.len() ==> routes[i].0@ != routes[j].0@
}

/// The server of each tool among the routes.
pub open spec fn route_map(routes: Seq<(String, String)>) -> Map<Seq<char>, Seq<char>> {
    Map::new(
        |t: Seq<char>| exists|i: int| 0 <= i < routes.len() && routes[i].0@ == t,
        |t: Seq<char>| routes[choose|i: int| 0 <= i < routes.len() && routes[i].0@ == t].1@,
    )
}

fn position_in(routes: &Vec<(String, String)>, tool: &str) -> (r: Option<usize>)
    ensures
        match r {
            Some(i) => i < routes@.len() && routes@[i as int].0@ == tool@,
            None => forall|i: int| 0 <= i < routes@.len() ==> routes@[i].0@ != tool@,
        },
{
    let t = chars_of(tool);
    let mut i: usize = 0;
    while i < routes.len()
        invariant
            i <= routes@.len(),
            t@ == tool@,
            forall|k: int| 0 <= k < i ==> routes@[k].0@ != tool@,
        decreases routes@.len() - i,
    {
        let name = chars_of(routes[i].0.as_str());
        if chars_eq(&name, &t) {
            return Some(i);
        }
        i += 1;
    }
    None
}

/// Replacing the route of a tool that has one keeps the names unique and
/// maps that tool to the new server.
proof fn lemma_route_replaced(
    before: Seq<(String, String)>,
    after: Seq<(String, String)>,
    i: int,
    tool: Seq<char>,
    server: Seq<char>,
)
    requires
        unique_tools(before),
        0 <= i < before.len(),
        before[i].0@ == tool,
        after.len() == before.len(),
        after[i].0@ == tool,
        after[i].1@ == server,
        forall|k: int| 0 <= k < before.len() && k != i ==> after[k] == before[k],
    ensures
        unique_tools(after),
        route_map(after) == route_map(before).insert(tool, server),
{
    let new_routes = route_map(after);
    let target = route_map(before).insert(tool, server);
    assert forall|t: Seq<char>| #[trigger] new_routes.contains_key(t) <==> target.contains_key(t) by {
        if t == tool {
            assert(after[i].0@ == tool);
        } else {
            if new_routes.contains_key(t) {
                let k = choose|k: int| 0 <= k < after.len() && after[k].0@ == t;
                assert(k != i);
                assert(before[k] == after[k]);
            }
            if route_map(before).contains_key(t) {
                let k = choose|k: int| 0 <= k < before.len() && before[k].0@ == t;
                assert(k != i);
                assert(after[k] == before[k]);
            }
        }
    }
    assert forall|t: Seq<char>| #[trigger] new_routes.contains_key(t) implies new_routes[t]
        == target[t] by {
        let k = choose|k: int| 0 <= k < after.len() && after[k].0@ == t;
        if t == tool {
            if k != i {
                assert(after[k] == before[k]);
            }
            assert(k == i);
        } else {
            assert(k != i);
            assert(after[k] == before[k]);
            let k2 = choose|k: int| 0 <= k < before.len() && before[k].0@ == t;
            assert(k2 == k);
        }
    }
    assert(new_routes =~= target);
}

/// Adding the route of a tool that has none keeps the names unique and maps
/// that tool to its server.
proof fn lemma_route_added(before: Seq<(String, String)>, entry: (String, String))
    requires
        unique_tools(before),
        forall|i: int| 0 <= i < before.len() ==> before[i].0@ != entry.0@,
    ensures
        unique_tools(before.push(entry)),
        route_map(before.push(entry)) == route_map(before).insert(entry.0@, entry.1@),
{
    let after = before.push(entry);
    let n = before.len() as int;
    let tv = entry.0@;
    let sv = entry.1@;
    assert forall|t: Seq<char>| #[trigger] route_map(after).contains_key(t) <==> route_map(
        before,
    ).insert(tv, sv).contains_key(t) by {
        if t != tv && route_map(before).contains_key(t) {
            let k = choose|k: int| 0 <= k < before.len() && before[k].0@ == t;
            assert(after[k] == before[k]);
        }
        if t == tv {
            assert(after[n].0@ == tv);
        }
    }
    assert forall|t: Seq<char>| #[trigger] route_map(after).contains_key(t) implies route_map(
        after,
    )[t] == route_map(before).insert(tv, sv)[t] by {
        let k = choose|k: int| 0 <= k < after.len() && after[k].0@ == t;
        if t == tv {
            assert(k == n);
        } else {
            assert(after[k] == before[k]);
            let k2 = choose|k: int| 0 <= k < before.len() && before[k].0@ == t;
            assert(k2 == k);
        }
    }
    assert(route_map(after) =~= route_map(before).insert(tv, sv));
}

impl ToolRouter {
    /// No tool is routed twice.
    #[verifier::type_invariant]
    spec fn unique(&self) -> bool {
        unique_tools(self.routes@)
    }

    /// The server of each routed tool.
    pub closed spec fn routes(&self) -> Map<Seq<char>, Seq<char>> {
        route_map(self.routes@)
    }

    /// A router that knows no tool.
    pub fn new() -> (r: Self)
        ensures
            r.routes() == Map::<Seq<char>, Seq<char>>::empty(),
    {
        let r = ToolRouter { routes: Vec::new() };
        proof {
            assert(r.routes() =~= Map::<Seq<char>, Seq<char>>::empty());
        }
        r
    }

    /// Forgets every route.
    pub fn clear(&mut self)
        ensures
            final(self).routes() == Map::<Seq<char>, Seq<char>>::empty(),
    {
        self.routes = Vec::new();
        proof {
            assert(self.routes() =~= Map::<Seq<char>, Seq<char>>::empty());
        }
    }

    /// Routes `tool` to `server`, replacing any earlier route of that tool.
    pub fn register(&mut self, tool: String, server: String)
        ensures
            final(self).routes() == old(self).routes().insert(tool@, server@),
    {
        proof {
            use_type_invariant(&*self);
        }
        let mut routes: Vec<(String, String)> = Vec::new();
        std::mem::swap(&mut routes, &mut self.routes);
        let ghost before = routes@;
        let ghost tv = tool@;
        let ghost sv = server@;
        match position_in(&routes, tool.as_str()) {
            Some(i) => {
                routes.set(i, (tool, server));
                proof {
                    lemma_route_replaced(before, routes@, i as int, tv, sv);
                }
            },
            None => {
                let entry = (tool, server);
                proof {
                    lemma_route_added(before, entry);
                }
                routes.push(entry);
            },
        }
        self.routes = routes;
    }

    /// The server of `tool`, or the error for a tool no server offers.
    pub fn server_for(&self, tool: &str) -> (r: Result<String, String>)
        ensures
            self.routes().contains_key(tool@) ==> (r matches Ok(s) && s@ == self.routes()[tool@]),
            !self.routes().contains_key(tool@) ==> (r matches Err(e) && e@
                == "No MCP server found for tool '"@ + tool@ + "'"@),
    {
        proof {
            use_type_invariant(self);
        }
        match position_in(&self.routes, tool) {
            Some(i) => {
                proof {
                    let k = choose|k: int| 0 <= k < self.routes@.len() && self.routes@[k].0@ == tool@;
                    assert(k == i);
                }
                Ok(owned(self.routes[i].1.as_str()))
            },
            None => Err(cat3("No MCP server found for tool '", tool, "'")),
        }
    }
}

/// The error for a route to a server that is not connected.
pub fn missing_server(server: &str) -> (r: String)
    ensures
        r@ == "MCP server '"@ + server@ + "' not found"@,
{
    cat3("MCP server '", server, "' not found")
}

/// Registering a route and reading it back gives the registered server, and
/// leaves every other tool's route as it was.
pub proof fn lemma_route_read_back(
    routes: Map<Seq<char>, Seq<char>>,
    tool: Seq<char>,
    server: Seq<char>,
    other: Seq<char>,
)
    requires
        other != tool,
    ensures
        routes.insert(tool, server).contains_key(tool),
        routes.insert(tool, server)[tool] == server,
        routes.insert(tool, server).contains_key(other) == routes.contains_key(other),
        routes.contains_key(other) ==> routes.insert(tool, server)[other] == routes[other],
{
}

/// The answer of an MCP tool: the text the server returned, or the error.
pub fn mcp_answer(reply: Result<String, String>) -> (r: ToolOutput)
    ensures
        match reply {
            Ok(t) => r.content@ == t@ && !r.is_error,
            Err(e) => r.content@ == e@ && r.is_error,
        },
{
    match reply {
        Ok(t) => ToolOutput { content: t, is_error: false },
        Err(e) => ToolOutput { content: e, is_error: true },
    }
}

} // verus!
