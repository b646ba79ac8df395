//! The route table and its single source of truth, the tool catalog. Both
//! the invocation routes and the capability manifest are derived from the
//! catalog, so the advertised tools and the routable tools cannot drift
//! apart; the lemma at the end states that correspondence.

use crate::model::Method;
use crate::text::str_eq;
use vstd::prelude::*;

verus! {

/// Which handler a route binds.
#[derive(Clone, Copy, PartialEq, Eq, Structural, Debug)]
pub enum HandlerId {
    Liveness,
    Discover,
    InvokeScraper,
    QueryDatavault,
}

/// One advertised tool: its invocation path, its human-readable summary and
/// description, its operation identifier, the name of the one string field
/// its JSON request body must carry, and the handler behind it.
pub struct ToolSpec {
    pub path: String,
    pub summary: String,
    pub description: String,
    pub operation_id: String,
    pub body_field: String,
    pub handler: HandlerId,
}

/// The mathematical shape of a tool entry.
#[verifier::ext_equal]
pub struct ToolV {
    pub path: Seq<char>,
    pub summary: Seq<char>,
    pub description: Seq<char>,
    pub operation_id: Seq<char>,
    pub body_field: Seq<char>,
    pub handler: HandlerId,
}

impl View for ToolSpec {
    type V = ToolV;

    open spec fn view(&self) -> ToolV {
        ToolV {
            path: self.path@,
            summary: self.summary@,
            description: self.description@,
            operation_id: self.operation_id@,
            body_field: self.body_field@,
            handler: self.handler,
        }
    }
}

impl DeepView for ToolSpec {
    type V = ToolV;

    open spec fn deep_view(&self) -> ToolV {
        self.view()
    }
}

/// The tool catalog, the one place the gateway's tools are written down.
pub open spec fn spec_catalog() -> Seq<ToolV> {
    seq![
        ToolV {
            path: "/api/invoke/scraper"@,
            summary: "Isabella Web Scraper"@,
            description: "Fetches the page at the given URL and returns a rewritten version of its content."@,
            operation_id: "invoke_isabella_scraper"@,
            body_field: "url"@,
            handler: HandlerId::InvokeScraper,
        },
        ToolV {
            path: "/api/query-datavault"@,
            summary: "Query Sovereign DataVault"@,
            description: "Runs a vector search over the Sovereign DataVault and returns scored results."@,
            operation_id: "query_datavault"@,
            body_field: "query"@,
            handler: HandlerId::QueryDatavault,
        },
    ]
}

/// Builds the tool catalog, exactly as `spec_catalog` says.
pub fn catalog() -> (r: Vec<ToolSpec>)
    ensures
        r.deep_view() == spec_catalog(),
{
    let mut r: Vec<ToolSpec> = Vec::new();
    r.push(
        ToolSpec {
            path: String::from_str("/api/invoke/scraper"),
            summary: String::from_str("Isabella Web Scraper"),
            description: String::from_str(
                "Fetches the page at the given URL and returns a rewritten version of its content.",
            ),
            operation_id: String::from_str("invoke_isabella_scraper"),
            body_field: String::from_str("url"),
            handler: HandlerId::InvokeScraper,
        },
    );
    r.push(
        ToolSpec {
            path: String::from_str("/api/query-datavault"),
            summary: String::from_str("Query Sovereign DataVault"),
            description: String::from_str(
                "Runs a vector search over the Sovereign DataVault and returns scored results.",
            ),
            operation_id: String::from_str("query_datavault"),
            body_field: String::from_str("query"),
            handler: HandlerId::QueryDatavault,
        },
    );
    proof {
        assert(r.deep_view() =~~= spec_catalog());
    }
    r
}

/// One binding of the route table.
pub struct RouteBinding {
    pub method: Method,
    pub path: String,
    pub handler: HandlerId,
}

/// The mathematical shape of a route binding.
#[verifier::ext_equal]
pub struct BindingV {
    pub method: Method,
    pub path: Seq<char>,
    pub handler: HandlerId,
}

impl View for RouteBinding {
    type V = BindingV;

    open spec fn view(&self) -> BindingV {
        BindingV { method: self.method, path: self.path@, handler: self.handler }
    }
}

impl DeepView for RouteBinding {
    type V = BindingV;

    open spec fn deep_view(&self) -> BindingV {
        self.view()
    }
}

/// The fixed, ordered route table: the two base routes, then one POST route
/// per catalog entry, in catalog order.
pub open spec fn spec_route_table() -> Seq<BindingV> {
    seq![
        BindingV { method: Method::Get, path: "/"@, handler: HandlerId::Liveness },
        BindingV { method: Method::Post, path: "/"@, handler: HandlerId::Discover },
    ] + spec_catalog().map_values(
        |t: ToolV| BindingV { method: Method::Post, path: t.path, handler: t.handler },
    )
}

/// Builds the route table, exactly as `spec_route_table` says.
pub fn route_table() -> (r: Vec<RouteBinding>)
    ensures
        r.deep_view() == spec_route_table(),
{
    let mut r: Vec<RouteBinding> = Vec::new();
    r.push(
        RouteBinding {
            method: Method::Get,
            path: String::from_str("/"),
            handler: HandlerId::Liveness,
        },
    );
    r.push(
        RouteBinding {
            method: Method::Post,
            path: String::from_str("/"),
            handler: HandlerId::Discover,
        },
    );
    let tools = catalog();
    let mut i: usize = 0;
    while i < tools.len()
        invariant
            i <= tools.len(),
            tools.deep_view() == spec_catalog(),
            r@.len() == 2 + i,
            r.deep_view() =~~= spec_route_table().take(2 + i),
        decreases tools.len() - i,
    {
        let t = &tools[i];
        r.push(
            RouteBinding {
                method: Method::Post,
                path: t.path.clone(),
                handler: t.handler,
            },
        );
        proof {
            assert(r@.len() == 2 + i + 1);
            assert(tools.deep_view()[i as int] == spec_catalog()[i as int]);
            assert(r@[2 + i].deep_view() == BindingV {
                method: Method::Post,
                path: spec_catalog()[i as int].path,
                handler: spec_catalog()[i as int].handler,
            });
            assert(spec_route_table()[2 + i] == BindingV {
                method: Method::Post,
                path: spec_catalog()[i as int].path,
                handler: spec_catalog()[i as int].handler,
            });
            assert forall|k: int| 0 <= k < r@.len() implies r.deep_view()[k]
                == spec_route_table().take(2 + i + 1)[k] by {
                if k < 2 + i {
                    assert(r.deep_view()[k] == r@[k].deep_view());
                }
            }
            assert(r.deep_view() =~~= spec_route_table().take(2 + i + 1));
        }
        i += 1;
    }
    proof {
        assert(spec_route_table().take(2 + tools.len()) =~= spec_route_table());
    }
    r
}

/// The first binding whose method and path match exactly, in table order.
pub open spec fn spec_match(table: Seq<BindingV>, m: Method, p: Seq<char>) -> Option<HandlerId>
    decreases table.len(),
{
    if table.len() == 0 {
        None
    } else if table[0].method == m && table[0].path == p {
        Some(table[0].handler)
    } else {
        spec_match(table.drop_first(), m, p)
    }
}

/// Scans the route table in registration order and returns the first exact
/// match, exactly as `spec_match` says.
pub fn match_route(table: &Vec<RouteBinding>, m: Method, path: &str) -> (r: Option<HandlerId>)
    ensures
        r == spec_match(table.deep_view(), m, path@),
{
    let n = table.len();
    proof {
        assert(table.deep_view().skip(0) =~= table.deep_view());
    }
    let mut i: usize = 0;
    while i < n
        invariant
            i <= n,
            n == table.deep_view().len(),
            spec_match(table.deep_view(), m, path@) == spec_match(
                table.deep_view().skip(i as int),
                m,
                path@,
            ),
        decreases n - i,
    {
        proof {
            assert(table.deep_view().skip(i as int).drop_first() =~= table.deep_view().skip(
                i + 1,
            ));
            assert(table.deep_view().skip(i as int)[0] == table.deep_view()[i as int]);
        }
        let b = &table[i];
        if b.method == m && str_eq(b.path.as_str(), path) {
            return Some(b.handler);
        }
        i += 1;
    }
    proof {
        assert(table.deep_view().skip(n as int) =~= Seq::<BindingV>::empty());
    }
    None
}

/// `p` begins with `pre`.
pub open spec fn starts_with(p: Seq<char>, pre: Seq<char>) -> bool {
    p.len() >= pre.len() && p.take(pre.len() as int) == pre
}

/// `p` lies under one of the two tool-invocation prefixes.
pub open spec fn is_invocation_path(p: Seq<char>) -> bool {
    starts_with(p, "/api/invoke/"@) || starts_with(p, "/api/query-"@)
}

/// A binding at position `j` of the route table routes POST requests for
/// path `p`.
pub open spec fn table_matches_at(j: int, p: Seq<char>) -> bool {
    &&& 0 <= j < spec_route_table().len()
    &&& spec_route_table()[j].method == Method::Post
    &&& spec_route_table()[j].path == p
}

/// Manifest/route correspondence: every catalog entry, and so every path the
/// capability manifest advertises, lies under an invocation prefix and has
/// exactly one POST binding in the route table; and every invocation-path
/// binding in the table is the POST binding of exactly one catalog entry.
pub proof fn lemma_manifest_route_correspondence()
    ensures
        forall|i: int|
            0 <= i < spec_catalog().len() ==> is_invocation_path(
                #[trigger] spec_catalog()[i].path,
            ),
        forall|i: int|
            0 <= i < spec_catalog().len() ==> table_matches_at(
                i + 2,
                #[trigger] spec_catalog()[i].path,
            ),
        forall|i: int, j: int|
            0 <= i < spec_catalog().len() && #[trigger] table_matches_at(
                j,
                spec_catalog()[i].path,
            ) ==> j == i + 2,
        forall|j: int|
            0 <= j < spec_route_table().len() && is_invocation_path(
                #[trigger] spec_route_table()[j].path,
            ) ==> 2 <= j && spec_route_table()[j].method == Method::Post
                && spec_route_table()[j].path == spec_catalog()[j - 2].path,
{
    reveal_strlit("/");
    reveal_strlit("/api/invoke/");
    reveal_strlit("/api/query-");
    reveal_strlit("/api/invoke/scraper");
    reveal_strlit("/api/query-datavault");
    let scraper = "/api/invoke/scraper"@;
    let vault = "/api/query-datavault"@;
    let root = "/"@;
    assert(scraper.take(12) =~= "/api/invoke/"@);
    assert(vault.take(11) =~= "/api/query-"@);
    assert(is_invocation_path(scraper));
    assert(is_invocation_path(vault));
    assert(!is_invocation_path(root));
    assert(scraper.len() != vault.len());
    assert(root.len() != scraper.len());
    assert(root.len() != vault.len());
    assert(spec_route_table().len() == 4);
    assert(spec_route_table()[2] == BindingV {
        method: Method::Post,
        path: scraper,
        handler: HandlerId::InvokeScraper,
    });
    assert(spec_route_table()[3] == BindingV {
        method: Method::Post,
        path: vault,
        handler: HandlerId::QueryDatavault,
    });
    assert forall|i: int, j: int|
        0 <= i < spec_catalog().len() && #[trigger] table_matches_at(
            j,
            spec_catalog()[i].path,
        ) implies j == i + 2 by {
        if i == 0 {
            assert(spec_route_table()[0].method == Method::Get);
            assert(spec_route_table()[1].path == root);
            assert(spec_route_table()[3].path == vault);
        } else {
            assert(spec_route_table()[0].method == Method::Get);
            assert(spec_route_table()[1].path == root);
            assert(spec_route_table()[2].path == scraper);
        }
    }
    assert forall|j: int|
        0 <= j < spec_route_table().len() && is_invocation_path(
            #[trigger] spec_route_table()[j].path,
        ) implies 2 <= j && spec_route_table()[j].method == Method::Post
        && spec_route_table()[j].path == spec_catalog()[j - 2].path by {
        if j < 2 {
            assert(spec_route_table()[j].path == root);
            assert(!is_invocation_path(root));
        }
    }
}

} // verus!
