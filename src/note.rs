//! One note of the vault: its name, its metadata header, aliases, links and targets.
use crate::link::{
    captures_ok, links_from_captures, links_of, links_view, opt_view, ExtractError, Link,
    LinkView,
};
use crate::registry::{
    alias_captures, alias_captures_of, first_block, first_block_of, link_matches,
    link_captures_of, nested_strings_view, opt_strings_view, quoted_scalars, quoted_scalars_of,
    strings_view, block_view, QueryCache,
};
use std::sync::Arc;
use vstd::prelude::*;

verus! {

/// The base name of a path without its extension, as `std::path::Path` computes it.
pub uninterp spec fn stem_of(path: Seq<char>) -> Option<Seq<char>>;

/// The node kind that tree-sitter-md gives a leading `---` metadata block.
pub open spec fn metadata_kind() -> Seq<char> {
    "minus_metadata"@
}

/// The metadata header of a note: the text of its first top-level node when
/// that node is a metadata block.
pub open spec fn metadata_of(content: Seq<char>) -> Option<Seq<char>> {
    match first_block_of(content) {
        Some((kind, text)) => if kind == metadata_kind() {
            Some(text)
        } else {
            None
        },
        None => None,
    }
}

/// Every scalar declared under `aliases` in the header, in match order.
pub open spec fn aliases_of(content: Seq<char>) -> Seq<Seq<char>> {
    match metadata_of(content) {
        Some(m) => alias_captures_of(m).flatten(),
        None => Seq::empty(),
    }
}

/// The compound target of an alias: the note's name, a bar, the alias.
pub open spec fn compound(name: Seq<char>, alias: Seq<char>) -> Seq<char> {
    name + "|"@ + alias
}

pub open spec fn compounds(name: Seq<char>, aliases: Seq<Seq<char>>) -> Seq<Seq<char>> {
    aliases.map_values(|a: Seq<char>| compound(name, a))
}

/// Every quoted scalar was captured and its text, read as markdown, gives
/// well-formed link matches.
pub open spec fn scalars_ok(scalars: Seq<Option<Seq<char>>>) -> bool {
    forall|i: int|
        0 <= i < scalars.len() ==> (#[trigger] scalars[i]) is Some && captures_ok(
            link_captures_of(scalars[i]->0),
        )
}

/// The links of the quoted scalars, each scalar read as a markdown text.
pub open spec fn scalar_links(scalars: Seq<Option<Seq<char>>>) -> Seq<LinkView>
    decreases scalars.len(),
{
    if scalars.len() == 0 {
        Seq::empty()
    } else {
        let last = match scalars.last() {
            Some(s) => links_of(link_captures_of(s)),
            None => Seq::empty(),
        };
        scalar_links(scalars.drop_last()) + last
    }
}

pub open spec fn frontmatter_ok(content: Seq<char>) -> bool {
    match metadata_of(content) {
        Some(m) => scalars_ok(quoted_scalars_of(m)),
        None => true,
    }
}

/// The links found in the quoted values of the header.
pub open spec fn frontmatter_links_of(content: Seq<char>) -> Seq<LinkView> {
    match metadata_of(content) {
        Some(m) => scalar_links(quoted_scalars_of(m)),
        None => Seq::empty(),
    }
}

/// Link extraction from a note succeeds: no match lacks both halves.
pub open spec fn links_ok(content: Seq<char>) -> bool {
    frontmatter_ok(content) && captures_ok(link_captures_of(content))
}

/// Header links first, then the links of the whole text.
pub open spec fn note_links_of(content: Seq<char>) -> Seq<LinkView> {
    frontmatter_links_of(content) + links_of(link_captures_of(content))
}

pub open spec fn destinations(links: Seq<LinkView>) -> Seq<Seq<char>> {
    links.map_values(|l: LinkView| l.0)
}

/// The name, then each alias target, then each link destination.
pub open spec fn targets_of(name: Seq<char>, content: Seq<char>) -> Seq<Seq<char>> {
    seq![name] + compounds(name, aliases_of(content)) + destinations(note_links_of(content))
}

/// Relies on `std::path::Path::file_stem`: the base name of `path` without its extension.
#[verifier::external_body]
fn file_stem(path: &str) -> (r: Option<String>)
    ensures
        opt_view(r) == stem_of(path@),
{
    std::path::Path::new(path).file_stem().and_then(|s| s.to_str()).map(|s| s.to_string())
}

/// Relies on `Arc::clone`: a second handle on the same registry.
#[verifier::external_body]
pub(crate) fn share(registry: &Arc<QueryCache>) -> (r: Arc<QueryCache>)
    ensures
        r == *registry,
{
    Arc::clone(registry)
}

/// A note: where it was read from, its derived name and its raw text, with the
/// shared query registry.
pub struct Note {
    path: String,
    name: String,
    content: String,
    query_cache: Arc<QueryCache>,
}

impl Note {
    /// The name was derived from the path and is not empty.
    #[verifier::type_invariant]
    spec fn name_from_path(&self) -> bool {
        stem_of(self.path@) == Some(self.name@) && self.name@.len() > 0
    }

    /// The path the note was read from.
    pub closed spec fn path_view(&self) -> Seq<char> {
        self.path@
    }
}

impl View for Note {
    /// The note's name and its text.
    type V = (Seq<char>, Seq<char>);

    closed spec fn view(&self) -> (Seq<char>, Seq<char>) {
        (self.name@, self.content@)
    }
}

/// A path gives a note when it has a non-empty base name.
pub open spec fn name_ok(path: Seq<char>) -> bool {
    stem_of(path) matches Some(s) && s.len() > 0
}

/// The metadata header when the first block is one (the text of that block).
pub fn metadata_from_block(block: Option<(String, String)>) -> (r: Option<String>)
    ensures
        opt_view(r) == match block_view(block) {
            Some((kind, text)) => if kind == metadata_kind() {
                Some(text)
            } else {
                None
            },
            None => None,
        },
{
    match block {
        Some((kind, text)) => {
            let expected = String::from_str("minus_metadata");
            if kind == expected {
                Some(text)
            } else {
                None
            }
        },
        None => None,
    }
}

/// Joins the scalars of every alias match into one list, match by match.
pub fn aliases_from_captures(captures: Vec<Vec<String>>) -> (r: Vec<String>)
    ensures
        strings_view(r@) == nested_strings_view(captures@).flatten(),
{
    let ghost cs = nested_strings_view(captures@);
    let mut aliases: Vec<String> = Vec::new();
    let mut rest = captures;
    let mut i: usize = 0;
    let n = rest.len();
    while rest.len() > 0
        invariant
            i + rest.len() == n,
            n == cs.len(),
            cs == nested_strings_view(captures@),
            forall|j: int| 0 <= j < rest.len() ==> strings_view((#[trigger] rest@[j])@) == cs[i + j],
            strings_view(aliases@) == cs.take(i as int).flatten(),
        decreases rest.len(),
    {
        let mut group = rest.remove(0);
        let ghost before = aliases@;
        let ghost g = group@;
        aliases.append(&mut group);
        proof {
            assert(cs.take(i + 1) =~= cs.take(i as int).push(cs[i as int]));
            cs.take(i as int).lemma_flatten_push(cs[i as int]);
            assert(strings_view(aliases@) =~= strings_view(before) + strings_view(g));
        }
        i = i + 1;
    }
    assert(cs.take(i as int) =~= cs);
    aliases
}

/// Prefixes each alias with the note's name and a bar, keeping their order.
pub fn compound_targets(name: &String, aliases: &Vec<String>) -> (r: Vec<String>)
    ensures
        strings_view(r@) == compounds(name@, strings_view(aliases@)),
{
    let mut targets: Vec<String> = Vec::new();
    let mut i: usize = 0;
    while i < aliases.len()
        invariant
            i <= aliases.len(),
            strings_view(targets@) =~= compounds(name@, strings_view(aliases@.take(i as int))),
        decreases aliases.len() - i,
    {
        let mut t = name.clone();
        t.append("|");
        t.append(aliases[i].as_str());
        let ghost before = targets@;
        targets.push(t);
        proof {
            let prefix = aliases@.take(i as int);
            assert(aliases@.take(i + 1) =~= prefix.push(aliases@[i as int]));
            assert(strings_view(aliases@.take(i + 1)) =~= strings_view(prefix).push(
                aliases@[i as int]@,
            ));
            assert(strings_view(targets@) =~= strings_view(before).push(t@));
            assert(t@ == compound(name@, aliases@[i as int]@));
        }
        i = i + 1;
    }
    assert(aliases@.take(i as int) =~= aliases@);
    targets
}

/// The name, then the alias targets, then the destination of each link.
pub fn assemble_targets(name: &String, alias_targets: Vec<String>, links: &Vec<Link>) -> (r: Vec<
    String,
>)
    ensures
        strings_view(r@) == seq![name@] + strings_view(alias_targets@) + destinations(
            links_view(links@),
        ),
{
    let mut targets: Vec<String> = Vec::new();
    targets.push(name.clone());
    let mut rest = alias_targets;
    targets.append(&mut rest);
    let ghost start = targets@;
    let mut i: usize = 0;
    while i < links.len()
        invariant
            i <= links.len(),
            start.len() <= targets@.len(),
            strings_view(targets@) =~= strings_view(start) + destinations(
                links_view(links@.take(i as int)),
            ),
        decreases links.len() - i,
    {
        let ghost before = targets@;
        let d = links[i].destination.clone();
        targets.push(d);
        proof {
            let prefix = links@.take(i as int);
            assert(links@.take(i + 1) =~= prefix.push(links@[i as int]));
            assert(links_view(links@.take(i + 1)) =~= links_view(prefix).push(links@[i as int]@));
            assert(destinations(links_view(links@.take(i + 1))) =~= destinations(
                links_view(prefix),
            ).push(d@));
            assert(strings_view(targets@) =~= strings_view(before).push(d@));
        }
        i = i + 1;
    }
    assert(links@.take(i as int) =~= links@);
    targets
}

impl Note {
    /// Builds a note from the path it was read from and its text; the name is
    /// the path's base name without extension, and a path without one is refused.
    pub fn new(path: String, content: String, query_cache: Arc<QueryCache>) -> (r: Result<
        Note,
        ExtractError,
    >)
        ensures
            name_ok(path@) <==> r is Ok,
            r matches Err(e) ==> e == ExtractError::InvalidDocument,
            r matches Ok(n) ==> n@ == (stem_of(path@)->0, content@) && n.path_view() == path@,
    {
        match file_stem(path.as_str()) {
            Some(name) => {
                let empty = String::new();
                if name == empty {
                    Err(ExtractError::InvalidDocument)
                } else {
                    assert(name@.len() == 0 ==> name@ =~= Seq::<char>::empty());
                    Ok(Note { path, name, content, query_cache })
                }
            },
            None => Err(ExtractError::InvalidDocument),
        }
    }
}

impl Note {
    /// The note's name: its path's base name without extension.
    pub fn name(&self) -> (r: String)
        ensures
            r@ == self@.0,
            r@.len() > 0,
    {
        proof {
            use_type_invariant(self);
        }
        self.name.clone()
    }

    /// The path the note was read from.
    pub fn path(&self) -> (r: &str)
        ensures
            r@ == self.path_view(),
            stem_of(r@) == Some(self@.0),
    {
        proof {
            use_type_invariant(self);
        }
        self.path.as_str()
    }

    /// The note's raw text.
    pub fn content(&self) -> (r: &str)
        ensures
            r@ == self@.1,
    {
        self.content.as_str()
    }

    /// The metadata header: the text of the first top-level node when that
    /// node is a `---` metadata block, else `None`.
    pub fn frontmatter(&self) -> (r: Option<String>)
        ensures
            opt_view(r) == metadata_of(self@.1),
    {
        metadata_from_block(first_block(self.content.as_str()))
    }

    /// The aliases declared under `aliases` in the header, in match order.
    pub fn aliases(&self) -> (r: Vec<String>)
        ensures
            strings_view(r@) == aliases_of(self@.1),
    {
        match self.frontmatter() {
            Some(header) => aliases_from_captures(alias_captures(&self.query_cache, header.as_str())),
            None => Vec::new(),
        }
    }

    /// One `name|alias` target per alias, in alias order.
    pub fn alias_targets(&self) -> (r: Vec<String>)
        ensures
            strings_view(r@) == compounds(self@.0, aliases_of(self@.1)),
    {
        let aliases = self.aliases();
        compound_targets(&self.name, &aliases)
    }

    /// The links of a markdown text, over all its inline regions, in match order.
    pub fn body_links(&self, src: &str) -> (r: Result<Vec<Link>, ExtractError>)
        ensures
            captures_ok(link_captures_of(src@)) <==> r is Ok,
            r matches Err(e) ==> e == ExtractError::MalformedMatch,
            r matches Ok(ls) ==> links_view(ls@) == links_of(link_captures_of(src@)),
    {
        links_from_captures(link_matches(&self.query_cache, src))
    }

    /// The links of the header's double-quoted values, each value read as a
    /// markdown text of its own.
    pub fn frontmatter_links(&self) -> (r: Result<Vec<Link>, ExtractError>)
        ensures
            frontmatter_ok(self@.1) <==> r is Ok,
            r matches Err(e) ==> e == ExtractError::MalformedMatch,
            r matches Ok(ls) ==> links_view(ls@) == frontmatter_links_of(self@.1),
    {
        let header = match self.frontmatter() {
            Some(h) => h,
            None => return Ok(Vec::new()),
        };
        let scalars = quoted_scalars(&self.query_cache, header.as_str());
        let ghost sc = opt_strings_view(scalars@);
        let mut links: Vec<Link> = Vec::new();
        let mut i: usize = 0;
        while i < scalars.len()
            invariant
                i <= scalars.len(),
                sc == opt_strings_view(scalars@),
                sc == quoted_scalars_of(header@),
                metadata_of(self@.1) == Some(header@),
                scalars_ok(sc.take(i as int)),
                links_view(links@) == scalar_links(sc.take(i as int)),
            decreases scalars.len() - i,
        {
            let ghost prefix = sc.take(i as int);
            assert(sc.take(i + 1) =~= prefix.push(sc[i as int]));
            assert(sc.take(i + 1).drop_last() =~= prefix);
            match &scalars[i] {
                Some(scalar) => {
                    match self.body_links(scalar.as_str()) {
                        Ok(found) => {
                            let ghost before = links@;
                            let ghost added = found@;
                            let mut found = found;
                            links.append(&mut found);
                            proof {
                                assert(links_view(links@) =~= links_view(before) + links_view(
                                    added,
                                ));
                                assert(scalars_ok(sc.take(i + 1)));
                            }
                        },
                        Err(e) => {
                            assert(!scalars_ok(sc));
                            return Err(e);
                        },
                    }
                },
                None => {
                    assert(!scalars_ok(sc));
                    return Err(ExtractError::MalformedMatch);
                },
            }
            i = i + 1;
        }
        assert(sc.take(i as int) =~= sc);
        Ok(links)
    }

    /// The header's links followed by the links of the whole text.
    pub fn links(&self) -> (r: Result<Vec<Link>, ExtractError>)
        ensures
            links_ok(self@.1) <==> r is Ok,
            r matches Err(e) ==> e == ExtractError::MalformedMatch,
            r matches Ok(ls) ==> links_view(ls@) == note_links_of(self@.1),
    {
        let mut links = self.frontmatter_links()?;
        let mut body = self.body_links(self.content.as_str())?;
        let ghost front = links@;
        let ghost added = body@;
        links.append(&mut body);
        assert(links_view(links@) =~= links_view(front) + links_view(added));
        Ok(links)
    }

    /// The note's name, its alias targets, then the destination of every link;
    /// repeats are kept.
    pub fn targets(&self) -> (r: Result<Vec<String>, ExtractError>)
        ensures
            links_ok(self@.1) <==> r is Ok,
            r matches Err(e) ==> e == ExtractError::MalformedMatch,
            r matches Ok(ts) ==> strings_view(ts@) == targets_of(self@.0, self@.1),
    {
        let links = self.links()?;
        let alias_targets = self.alias_targets();
        Ok(assemble_targets(&self.name, alias_targets, &links))
    }
}

} // verus!
