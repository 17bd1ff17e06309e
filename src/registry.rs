//! The shared set of structural queries, and the parses that run them.
//!
//! Markdown bodies are parsed with the block and inline grammars of
//! tree-sitter-md, metadata headers with the YAML grammar. What a parse and a
//! query yield is named here by an uninterpreted function of the parsed text.
use crate::link::{
    capture_view, captures_view, match_view, matches_view, opt_view, CaptureView, LinkCapture,
    LinkMatch, MatchView,
};
use tree_sitter::{Language, Parser, Query, QueryCursor, QueryError};
use tree_sitter_md::MarkdownParser;
use vstd::prelude::*;

verus! {

#[verifier::external_type_specification]
#[verifier::external_body]
pub struct ExLanguage(Language);

#[verifier::external_type_specification]
#[verifier::external_body]
pub struct ExQuery(Query);

#[verifier::external_type_specification]
#[verifier::external_body]
pub struct ExQueryError(QueryError);

/// The kind and text of the first top-level node of the markdown block tree
/// of a text (the root itself when it has no child); `None` when no tree
/// comes out of the parse.
pub uninterp spec fn first_block_of(src: Seq<char>) -> Option<(Seq<char>, Seq<char>)>;

/// For every link match, over every inline region of a markdown text, in the
/// order the query engine yields them: the destination and label captures and
/// the kinds of the nodes beside the link node.
pub uninterp spec fn link_captures_of(src: Seq<char>) -> Seq<MatchView>;

/// For every match of the alias query over a YAML text, the captured scalars.
pub uninterp spec fn alias_captures_of(src: Seq<char>) -> Seq<Seq<Seq<char>>>;

/// For every match of the quoted-scalar query over a YAML text, the last
/// captured double-quoted scalar (quotes included), if the match has one.
pub uninterp spec fn quoted_scalars_of(src: Seq<char>) -> Seq<Option<Seq<char>>>;

pub open spec fn block_view(b: Option<(String, String)>) -> Option<(Seq<char>, Seq<char>)> {
    match b {
        Some((k, t)) => Some((k@, t@)),
        None => None,
    }
}

pub open spec fn strings_view(v: Seq<String>) -> Seq<Seq<char>> {
    v.map_values(|s: String| s@)
}

pub open spec fn nested_strings_view(v: Seq<Vec<String>>) -> Seq<Seq<Seq<char>>> {
    v.map_values(|s: Vec<String>| strings_view(s@))
}

pub open spec fn opt_strings_view(v: Seq<Option<String>>) -> Seq<Option<Seq<char>>> {
    v.map_values(|s: Option<String>| opt_view(s))
}

/// The compiled queries: links in markdown inline trees, aliases and quoted
/// scalars in YAML trees, with the YAML grammar that metadata is parsed with.
/// Built once, only by `new`, and read-only afterwards; every value of this
/// type holds the same grammar and the same three queries.
pub struct QueryCache {
    metadata_grammar: Language,
    body_query: Query,
    alias_query: Query,
    frontmatter_links: Query,
}

/// The link query: a node whose children are a destination and a label, in
/// either order, or only one of them.
pub const LINK_QUERY: &'static str = "[
    ((_ (link_destination) @destination . (link_text) @text) @link)
    ((_ (link_text) @text . (link_destination) @destination) @link)
    ((_ . (link_text) @text .) @link)
    ((_ . (link_destination) @destination .) @link)
]";

/// The alias query: each scalar of a sequence under a key matching `aliases`.
pub const ALIAS_QUERY: &'static str = "(
    (block_mapping_pair
        key: ((flow_node) @key (#match? @key \"aliases\"))
        value: (block_node
            (block_sequence
                (block_sequence_item
                    (flow_node
                        (plain_scalar
                            (string_scalar)+ @aliases))))))
)";

/// The quoted-scalar query: every double-quoted scalar.
pub const QUOTED_SCALAR_QUERY: &'static str = "((double_quote_scalar) @scalar)";

/// Whether a query text compiles against the markdown inline grammar.
pub uninterp spec fn inline_query_compiles(source: Seq<char>) -> bool;

/// Whether a query text compiles against the YAML grammar.
pub uninterp spec fn metadata_query_compiles(source: Seq<char>) -> bool;

/// Relies on `tree_sitter::Query::new` with `tree_sitter_md::inline_language`:
/// whether it succeeds depends on the query text alone.
#[verifier::external_body]
fn compile_inline_query(source: &str) -> (r: Result<Query, QueryError>)
    ensures
        r is Ok <==> inline_query_compiles(source@),
{
    Query::new(&tree_sitter_md::inline_language(), source)
}

/// Relies on `tree_sitter::Query::new` with `tree_sitter_yaml::language`:
/// whether it succeeds depends on the query text alone.
#[verifier::external_body]
fn compile_metadata_query(source: &str) -> (r: Result<Query, QueryError>)
    ensures
        r is Ok <==> metadata_query_compiles(source@),
{
    Query::new(&tree_sitter_yaml::language(), source)
}

/// Relies on `tree_sitter_yaml::language`: the YAML grammar.
#[verifier::external_body]
fn metadata_grammar() -> (r: Language) {
    tree_sitter_yaml::language()
}


impl QueryCache {
    /// Compiles the three queries; any compilation failure is reported as
    /// `RegistryCompilation`.
    pub fn new() -> (r: Result<QueryCache, crate::link::ExtractError>)
        ensures
            r is Ok <==> (inline_query_compiles(LINK_QUERY@) && metadata_query_compiles(
                ALIAS_QUERY@,
            ) && metadata_query_compiles(QUOTED_SCALAR_QUERY@)),
            r matches Err(e) ==> e == crate::link::ExtractError::RegistryCompilation,
    {
        let body_query = match compile_inline_query(LINK_QUERY) {
            Ok(q) => q,
            Err(_) => return Err(crate::link::ExtractError::RegistryCompilation),
        };
        let alias_query = match compile_metadata_query(ALIAS_QUERY) {
            Ok(q) => q,
            Err(_) => return Err(crate::link::ExtractError::RegistryCompilation),
        };
        let frontmatter_links = match compile_metadata_query(QUOTED_SCALAR_QUERY) {
            Ok(q) => q,
            Err(_) => return Err(crate::link::ExtractError::RegistryCompilation),
        };
        Ok(QueryCache { metadata_grammar: metadata_grammar(), body_query, alias_query, frontmatter_links })
    }
}

/// Relies on `tree_sitter_md::MarkdownParser::parse` and `MarkdownCursor::goto_first_child`:
/// the kind and text of the first top-level node of the block tree of `src`.
#[verifier::external_body]
pub(crate) fn first_block(src: &str) -> (r: Option<(String, String)>)
    ensures
        block_view(r) == first_block_of(src@),
{
    let tree = MarkdownParser::default().parse(src.as_bytes(), None)?;
    let mut cursor = tree.walk();
    cursor.goto_first_child();
    let node = cursor.node();
    Some((node.kind().to_string(), src[node.byte_range()].to_string()))
}

/// The destination and label captures of each link match.
pub open spec fn match_captures(ms: Seq<MatchView>) -> Seq<CaptureView> {
    ms.map_values(|m: MatchView| (m.0, m.1))
}

/// The kinds of the nodes beside the link node of each link match.
pub open spec fn match_sides(ms: Seq<MatchView>) -> Seq<CaptureView> {
    ms.map_values(|m: MatchView| (m.2, m.3))
}

/// Relies on `tree_sitter_md::MarkdownParser::parse` and `tree_sitter::QueryCursor::matches`
/// with the link query: the destination (capture 0) and label (capture 1) of
/// each match over each inline tree of `src`.
#[verifier::external_body]
fn link_captures(registry: &QueryCache, src: &str) -> (r: Vec<LinkCapture>)
    ensures
        captures_view(r@) == match_captures(link_captures_of(src@)),
{
    let tree = MarkdownParser::default().parse(src.as_bytes(), None);
    let mut found = Vec::new();
    for inline in tree.iter().flat_map(|t| t.inline_trees()) {
        for m in QueryCursor::new().matches(&registry.body_query, inline.root_node(), src.as_bytes()) {
            let text = |i| m.nodes_for_capture_index(i).last().map(|n| src[n.byte_range()].to_string());
            found.push((text(0), text(1)));
        }
    }
    found
}

/// Relies on `tree_sitter_md::MarkdownParser::parse`, `tree_sitter::QueryCursor::matches`
/// with the link query and `Node::prev_sibling` / `next_sibling`: for each match
/// over each inline tree of `src`, the kinds of the siblings of the link node
/// (capture 2).
#[verifier::external_body]
fn link_sides(registry: &QueryCache, src: &str) -> (r: Vec<(Option<String>, Option<String>)>)
    ensures
        captures_view(r@) == match_sides(link_captures_of(src@)),
{
    let tree = MarkdownParser::default().parse(src.as_bytes(), None);
    let mut found = Vec::new();
    for inline in tree.iter().flat_map(|t| t.inline_trees()) {
        for m in QueryCursor::new().matches(&registry.body_query, inline.root_node(), src.as_bytes()) {
            let node = m.nodes_for_capture_index(2).last();
            let before = node.and_then(|n| n.prev_sibling()).map(|n| n.kind().to_string());
            let after = node.and_then(|n| n.next_sibling()).map(|n| n.kind().to_string());
            found.push((before, after));
        }
    }
    found
}

/// Every match of the link query over `src`: its captures with the kinds of
/// the nodes beside the link node.
pub(crate) fn link_matches(registry: &QueryCache, src: &str) -> (r: Vec<LinkMatch>)
    ensures
        matches_view(r@) == link_captures_of(src@),
{
    let ghost ms = link_captures_of(src@);
    let mut captures = link_captures(registry, src);
    let mut sides = link_sides(registry, src);
    proof {
        assert(captures_view(captures@).len() == match_captures(ms).len());
        assert(captures_view(sides@).len() == match_sides(ms).len());
        assert forall|j: int| 0 <= j < captures.len() implies capture_view(
            #[trigger] captures@[j],
        ) == (ms[j].0, ms[j].1) by {
            assert(captures_view(captures@)[j] == match_captures(ms)[j]);
        }
        assert forall|j: int| 0 <= j < sides.len() implies capture_view(#[trigger] sides@[j]) == (
            ms[j].2,
            ms[j].3,
        ) by {
            assert(captures_view(sides@)[j] == match_sides(ms)[j]);
        }
    }
    let n = captures.len();
    let mut found: Vec<LinkMatch> = Vec::new();
    let mut i: usize = 0;
    while captures.len() > 0
        invariant
            i + captures.len() == n,
            captures.len() == sides.len(),
            n == ms.len(),
            forall|j: int|
                0 <= j < captures.len() ==> capture_view(#[trigger] captures@[j]) == (
                    ms[i + j].0,
                    ms[i + j].1,
                ),
            forall|j: int|
                0 <= j < sides.len() ==> capture_view(#[trigger] sides@[j]) == (
                    ms[i + j].2,
                    ms[i + j].3,
                ),
            matches_view(found@) =~= ms.take(i as int),
        decreases captures.len(),
    {
        let (d, t) = captures.remove(0);
        let (b, a) = sides.remove(0);
        let ghost before = found@;
        found.push((d, t, b, a));
        proof {
            assert(ms.take(i + 1) =~= ms.take(i as int).push(ms[i as int]));
            assert(matches_view(found@) =~= matches_view(before).push(ms[i as int]));
        }
        i = i + 1;
    }
    assert(ms.take(i as int) =~= ms);
    found
}

/// Relies on `tree_sitter::Parser::parse` with the registry's YAML grammar and
/// `tree_sitter::QueryCursor::matches` with the alias query: the scalars
/// captured under `aliases` (capture 1) by each match over `src`.
#[verifier::external_body]
pub(crate) fn alias_captures(registry: &QueryCache, src: &str) -> (r: Vec<Vec<String>>)
    ensures
        nested_strings_view(r@) == alias_captures_of(src@),
{
    let mut parser = Parser::new();
    let tree = match parser.set_language(&registry.metadata_grammar) {
        Ok(()) => parser.parse(src, None),
        Err(_) => None,
    };
    let tree = match tree {
        Some(t) => t,
        None => return Vec::new(),
    };
    let mut cursor = QueryCursor::new();
    cursor.matches(&registry.alias_query, tree.root_node(), src.as_bytes())
        .map(|m| m.nodes_for_capture_index(1).map(|n| src[n.byte_range()].to_string()).collect())
        .collect()
}

/// Relies on `tree_sitter::Parser::parse` with the registry's YAML grammar and
/// `tree_sitter::QueryCursor::matches` with the quoted-scalar query: the last
/// node of capture 0 of each match over `src`, as text.
#[verifier::external_body]
pub(crate) fn quoted_scalars(registry: &QueryCache, src: &str) -> (r: Vec<Option<String>>)
    ensures
        opt_strings_view(r@) == quoted_scalars_of(src@),
{
    let mut parser = Parser::new();
    let tree = match parser.set_language(&registry.metadata_grammar) {
        Ok(()) => parser.parse(src, None),
        Err(_) => None,
    };
    let tree = match tree {
        Some(t) => t,
        None => return Vec::new(),
    };
    let mut cursor = QueryCursor::new();
    cursor.matches(&registry.frontmatter_links, tree.root_node(), src.as_bytes())
        .map(|m| m.nodes_for_capture_index(0).last().map(|n| src[n.byte_range()].to_string()))
        .collect()
}

} // verus!
