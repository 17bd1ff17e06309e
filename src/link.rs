//! Links and the rule that completes a link whose destination or label is missing.
use vstd::prelude::*;

verus! {

/// A fault raised while building notes or extracting their links.
#[derive(Clone, Copy, Debug, PartialEq, Eq, Structural)]
pub enum ExtractError {
    /// The note's path has no usable base name.
    InvalidDocument,
    /// A link match carried neither a destination nor a label.
    MalformedMatch,
    /// One of the fixed structural queries failed to compile.
    RegistryCompilation,
}

/// One reference found in a note: where it points and how it is labelled.
#[derive(Clone, Debug, PartialEq, Eq)]
pub struct Link {
    pub destination: String,
    pub text: String,
}

/// The captured destination and label of one link match; either may be absent.
pub type LinkCapture = (Option<String>, Option<String>);

/// One match of the link query: its destination and label captures, and the
/// kinds of the syntax nodes just before and just after the link node.
pub type LinkMatch = (Option<String>, Option<String>, Option<String>, Option<String>);

/// A link match as character sequences.
pub type MatchView = (Option<Seq<char>>, Option<Seq<char>>, Option<Seq<char>>, Option<Seq<char>>);

/// A link as a (destination, label) pair of character sequences.
pub type LinkView = (Seq<char>, Seq<char>);

/// The captured halves of one link match, as character sequences.
pub type CaptureView = (Option<Seq<char>>, Option<Seq<char>>);

impl View for Link {
    type V = LinkView;

    open spec fn view(&self) -> LinkView {
        (self.destination@, self.text@)
    }
}

pub open spec fn opt_view(o: Option<String>) -> Option<Seq<char>> {
    match o {
        Some(s) => Some(s@),
        None => None,
    }
}

pub open spec fn capture_view(c: LinkCapture) -> CaptureView {
    (opt_view(c.0), opt_view(c.1))
}

pub open spec fn captures_view(cs: Seq<LinkCapture>) -> Seq<CaptureView> {
    cs.map_values(|c: LinkCapture| capture_view(c))
}

pub open spec fn match_view(m: LinkMatch) -> MatchView {
    (opt_view(m.0), opt_view(m.1), opt_view(m.2), opt_view(m.3))
}

pub open spec fn matches_view(ms: Seq<LinkMatch>) -> Seq<MatchView> {
    ms.map_values(|m: LinkMatch| match_view(m))
}

pub open spec fn links_view(ls: Seq<Link>) -> Seq<LinkView> {
    ls.map_values(|l: Link| l@)
}

/// A match can be turned into a link when at least one half was captured.
pub open spec fn capture_ok(c: CaptureView) -> bool {
    c.0.is_some() || c.1.is_some()
}

/// A missing destination is the label; a missing label is the destination.
pub open spec fn resolved(c: CaptureView) -> LinkView {
    match c {
        (Some(d), Some(t)) => (d, t),
        (Some(d), None) => (d, d),
        (None, Some(t)) => (t, t),
        (None, None) => (Seq::empty(), Seq::empty()),
    }
}

/// A label split at its first bar: the part before it and the part after it.
pub open spec fn bar_split(t: Seq<char>) -> Option<(Seq<char>, Seq<char>)> {
    if t.contains('|') {
        let k = choose|k: int|
            0 <= k < t.len() && t[k] == '|' && forall|j: int| 0 <= j < k ==> t[j] != '|';
        Some((t.take(k), t.skip(k + 1)))
    } else {
        None
    }
}

/// The link node stands between a `[` and a `]`: the link was written `[[...]]`.
pub open spec fn bracketed(m: MatchView) -> bool {
    m.2 == Some("["@) && m.3 == Some("]"@)
}

/// A label-only match written `[[destination|label]]` is a wiki link with both
/// halves; any other match keeps its captures as they are.
pub open spec fn wiki_split(m: MatchView) -> CaptureView {
    match (m.0, m.1) {
        (None, Some(t)) => if bracketed(m) {
            match bar_split(t) {
                Some((d, l)) => (Some(d), Some(l)),
                None => (m.0, m.1),
            }
        } else {
            (m.0, m.1)
        },
        _ => (m.0, m.1),
    }
}

/// Relies on `str::split_once`: splits at the first `|`, or gives `None`
/// when there is none.
#[verifier::external_body]
fn split_at_bar(s: &str) -> (r: Option<(String, String)>)
    ensures
        match r {
            Some((a, b)) => bar_split(s@) == Some((a@, b@)),
            None => bar_split(s@) is None,
        },
{
    s.split_once('|').map(|(a, b)| (a.to_string(), b.to_string()))
}

fn is_kind(kind: &Option<String>, expected: &str) -> (r: bool)
    ensures
        r == (opt_view(*kind) == Some(expected@)),
{
    match kind {
        Some(k) => *k == String::from_str(expected),
        None => false,
    }
}

/// Reads a label-only match written `[[destination|label]]` as a link with
/// both halves; the captures of other matches are returned unchanged.
pub fn split_wiki_label(m: LinkMatch) -> (r: LinkCapture)
    ensures
        capture_view(r) == wiki_split(match_view(m)),
{
    let bracketed = is_kind(&m.2, "[") && is_kind(&m.3, "]");
    match (m.0, m.1) {
        (None, Some(t)) => {
            if bracketed {
                match split_at_bar(t.as_str()) {
                    Some((d, l)) => (Some(d), Some(l)),
                    None => (None, Some(t)),
                }
            } else {
                (None, Some(t))
            }
        },
        (d, t) => (d, t),
    }
}

/// A link match carries a destination or a label.
pub open spec fn match_ok(m: MatchView) -> bool {
    m.0.is_some() || m.1.is_some()
}

pub open spec fn captures_ok(cs: Seq<MatchView>) -> bool {
    forall|i: int| 0 <= i < cs.len() ==> #[trigger] match_ok(cs[i])
}

pub open spec fn links_of(cs: Seq<MatchView>) -> Seq<LinkView> {
    cs.map_values(|c: MatchView| resolved(wiki_split(c)))
}

/// Completes one link match: the absent half takes the value of the present one.
pub fn resolve(destination: Option<String>, text: Option<String>) -> (r: Result<Link, ExtractError>)
    ensures
        capture_ok((opt_view(destination), opt_view(text))) <==> r is Ok,
        !capture_ok((opt_view(destination), opt_view(text))) ==> r == Err::<Link, ExtractError>(
            ExtractError::MalformedMatch,
        ),
        r matches Ok(l) ==> l@ == resolved((opt_view(destination), opt_view(text))),
{
    match (destination, text) {
        (Some(d), Some(t)) => Ok(Link { destination: d, text: t }),
        (Some(d), None) => {
            let t = d.clone();
            Ok(Link { destination: d, text: t })
        },
        (None, Some(t)) => {
            let d = t.clone();
            Ok(Link { destination: d, text: t })
        },
        (None, None) => Err(ExtractError::MalformedMatch),
    }
}

/// Turns the matches of the link query into links, in match order, reading
/// `destination|label` labels as wiki links; fails if a match carries neither half.
pub fn links_from_captures(captures: Vec<LinkMatch>) -> (r: Result<Vec<Link>, ExtractError>)
    ensures
        captures_ok(matches_view(captures@)) <==> r is Ok,
        !captures_ok(matches_view(captures@)) ==> r == Err::<Vec<Link>, ExtractError>(
            ExtractError::MalformedMatch,
        ),
        r matches Ok(ls) ==> links_view(ls@) == links_of(matches_view(captures@)),
{
    let ghost cs = matches_view(captures@);
    let mut links: Vec<Link> = Vec::new();
    let mut rest = captures;
    let mut i: usize = 0;
    let n = rest.len();
    while rest.len() > 0
        invariant
            i + rest.len() == n,
            n == cs.len(),
            cs == matches_view(captures@),
            forall|j: int| 0 <= j < rest.len() ==> match_view(#[trigger] rest@[j]) == cs[i + j],
            forall|j: int| 0 <= j < i ==> #[trigger] match_ok(cs[j]),
            links_view(links@) == links_of(cs.take(i as int)),
        decreases rest.len(),
    {
        let m = rest.remove(0);
        assert(match_view(m) == cs[i as int]);
        let c = split_wiki_label(m);
        assert(capture_view(c) == wiki_split(cs[i as int]));
        match resolve(c.0, c.1) {
            Ok(l) => {
                let ghost old_links = links;
                links.push(l);
                assert(cs.take(i + 1) =~= cs.take(i as int).push(cs[i as int]));
                assert(l@ == resolved(wiki_split(cs[i as int])));
                assert(links_view(links@) =~= links_view(old_links@).push(l@));
                assert(links_view(links@) =~= links_of(cs.take(i + 1)));
            },
            Err(e) => {
                assert(!match_ok(cs[i as int]));
                assert(!captures_ok(cs));
                return Err(e);
            },
        }
        i = i + 1;
    }
    assert(cs.take(i as int) =~= cs);
    assert(captures_ok(cs));
    Ok(links)
}

} // verus!
