//! The vault: every note found under a directory, with the links and the
//! deduplicated targets of all of them.
use crate::link::{links_view, ExtractError, Link, LinkView};
use crate::note::{links_ok, name_ok, note_links_of, share, stem_of, targets_of, Note};
use crate::registry::{strings_view, QueryCache};
use itertools::Itertools;
use std::sync::Arc;
use vstd::prelude::*;

verus! {

/// A note as its name and its text.
pub type NoteView = (Seq<char>, Seq<char>);

/// Keeps the first occurrence of each string, in order.
pub open spec fn dedup_first(s: Seq<Seq<char>>) -> Seq<Seq<char>>
    decreases s.len(),
{
    if s.len() == 0 {
        Seq::empty()
    } else if s.drop_last().contains(s.last()) {
        dedup_first(s.drop_last())
    } else {
        dedup_first(s.drop_last()).push(s.last())
    }
}

/// The notes that a list of (path, text) pairs gives: one per path with a
/// usable name, in input order.
pub open spec fn documents_of(files: Seq<(Seq<char>, Seq<char>)>) -> Seq<NoteView>
    decreases files.len(),
{
    if files.len() == 0 {
        Seq::empty()
    } else if name_ok(files.last().0) {
        documents_of(files.drop_last()).push((stem_of(files.last().0)->0, files.last().1))
    } else {
        documents_of(files.drop_last())
    }
}

/// The paths of the files that give a note, in input order.
pub open spec fn kept_paths(files: Seq<(Seq<char>, Seq<char>)>) -> Seq<Seq<char>>
    decreases files.len(),
{
    if files.len() == 0 {
        Seq::empty()
    } else if name_ok(files.last().0) {
        kept_paths(files.drop_last()).push(files.last().0)
    } else {
        kept_paths(files.drop_last())
    }
}

/// The paths of the files skipped for want of a usable name, in input order.
pub open spec fn skipped_paths(files: Seq<(Seq<char>, Seq<char>)>) -> Seq<Seq<char>>
    decreases files.len(),
{
    if files.len() == 0 {
        Seq::empty()
    } else if name_ok(files.last().0) {
        skipped_paths(files.drop_last())
    } else {
        skipped_paths(files.drop_last()).push(files.last().0)
    }
}

pub open spec fn note_paths(notes: Seq<Note>) -> Seq<Seq<char>> {
    notes.map_values(|n: Note| n.path_view())
}

pub open spec fn files_view(files: Seq<(String, String)>) -> Seq<(Seq<char>, Seq<char>)> {
    files.map_values(|f: (String, String)| (f.0@, f.1@))
}

pub open spec fn notes_view(notes: Seq<Note>) -> Seq<NoteView> {
    notes.map_values(|n: Note| n@)
}

/// Link extraction succeeds on every note.
pub open spec fn vault_ok(docs: Seq<NoteView>) -> bool {
    forall|i: int| 0 <= i < docs.len() ==> #[trigger] links_ok(docs[i].1)
}

/// The links of every note, note after note.
pub open spec fn vault_links(docs: Seq<NoteView>) -> Seq<LinkView> {
    docs.map_values(|d: NoteView| note_links_of(d.1)).flatten()
}

/// The target lists of every note, note after note, repeats kept.
pub open spec fn all_targets(docs: Seq<NoteView>) -> Seq<Seq<char>> {
    docs.map_values(|d: NoteView| targets_of(d.0, d.1)).flatten()
}

/// The vault's targets: every note's targets, each string once.
pub open spec fn vault_targets(docs: Seq<NoteView>) -> Seq<Seq<char>> {
    dedup_first(all_targets(docs))
}

/// Relies on `itertools::Itertools::unique`: the first occurrence of each
/// string is kept, in the order of the input.
#[verifier::external_body]
fn unique(items: Vec<String>) -> (r: Vec<String>)
    ensures
        strings_view(r@) == dedup_first(strings_view(items@)),
{
    items.into_iter().unique().collect()
}

/// The notes of a vault, and the paths that gave no note.
pub struct Vault {
    notes: Vec<Note>,
    skipped: Vec<String>,
}

impl View for Vault {
    type V = Seq<NoteView>;

    closed spec fn view(&self) -> Seq<NoteView> {
        notes_view(self.notes@)
    }
}

impl Vault {
    /// The paths of the vault's notes, in order.
    pub closed spec fn paths(&self) -> Seq<Seq<char>> {
        note_paths(self.notes@)
    }

    /// The paths that were skipped because they give no usable name.
    pub closed spec fn skipped_view(&self) -> Seq<Seq<char>> {
        strings_view(self.skipped@)
    }

    /// Builds one note per (path, text) pair; a path without a usable name
    /// is skipped and recorded, and the others are kept, in order.
    pub fn new(files: Vec<(String, String)>, query_cache: Arc<QueryCache>) -> (r: Vault)
        ensures
            r@ == documents_of(files_view(files@)),
            r.paths() == kept_paths(files_view(files@)),
            r.skipped_view() == skipped_paths(files_view(files@)),
    {
        let ghost fs = files_view(files@);
        let mut notes: Vec<Note> = Vec::new();
        let mut skipped: Vec<String> = Vec::new();
        let mut rest = files;
        let mut i: usize = 0;
        let n = rest.len();
        while rest.len() > 0
            invariant
                i + rest.len() == n,
                n == fs.len(),
                fs == files_view(files@),
                forall|j: int|
                    0 <= j < rest.len() ==> ((#[trigger] rest@[j]).0@, rest@[j].1@) == fs[i + j],
                notes_view(notes@) == documents_of(fs.take(i as int)),
                note_paths(notes@) == kept_paths(fs.take(i as int)),
                strings_view(skipped@) == skipped_paths(fs.take(i as int)),
            decreases rest.len(),
        {
            let (path, content) = rest.remove(0);
            let ghost prefix = fs.take(i as int);
            assert(fs.take(i + 1) =~= prefix.push(fs[i as int]));
            assert(fs.take(i + 1).drop_last() =~= prefix);
            let kept_path = path.clone();
            match Note::new(path, content, share(&query_cache)) {
                Ok(note) => {
                    notes.push(note);
                    assert(notes_view(notes@) =~= documents_of(fs.take(i + 1)));
                    assert(note_paths(notes@) =~= kept_paths(fs.take(i + 1)));
                    assert(strings_view(skipped@) =~= skipped_paths(fs.take(i + 1)));
                },
                Err(_) => {
                    skipped.push(kept_path);
                    assert(notes_view(notes@) =~= documents_of(fs.take(i + 1)));
                    assert(note_paths(notes@) =~= kept_paths(fs.take(i + 1)));
                    assert(strings_view(skipped@) =~= skipped_paths(fs.take(i + 1)));
                },
            }
            i = i + 1;
        }
        assert(fs.take(i as int) =~= fs);
        Vault { notes, skipped }
    }

    /// The notes, in the order they were given.
    pub fn notes(&self) -> (r: &Vec<Note>)
        ensures
            notes_view(r@) == self@,
            note_paths(r@) == self.paths(),
    {
        &self.notes
    }

    /// The paths that gave no note, in the order they were given.
    pub fn skipped(&self) -> (r: &Vec<String>)
        ensures
            strings_view(r@) == self.skipped_view(),
    {
        &self.skipped
    }

    /// The links of every note, note after note.
    pub fn links(&self) -> (r: Result<Vec<Link>, ExtractError>)
        ensures
            vault_ok(self@) <==> r is Ok,
            r matches Err(e) ==> e == ExtractError::MalformedMatch,
            r matches Ok(ls) ==> links_view(ls@) == vault_links(self@),
    {
        let ghost docs = self@;
        let ghost per = docs.map_values(|d: NoteView| note_links_of(d.1));
        let mut links: Vec<Link> = Vec::new();
        let mut i: usize = 0;
        while i < self.notes.len()
            invariant
                i <= self.notes.len(),
                docs == notes_view(self.notes@),
                per == docs.map_values(|d: NoteView| note_links_of(d.1)),
                forall|j: int| 0 <= j < i ==> #[trigger] links_ok(docs[j].1),
                links_view(links@) == per.take(i as int).flatten(),
            decreases self.notes.len() - i,
        {
            let mut found = match self.notes[i].links() {
                Ok(ls) => ls,
                Err(e) => {
                    assert(!links_ok(docs[i as int].1));
                    return Err(e);
                },
            };
            let ghost before = links@;
            let ghost added = found@;
            links.append(&mut found);
            proof {
                assert(per.take(i + 1) =~= per.take(i as int).push(per[i as int]));
                per.take(i as int).lemma_flatten_push(per[i as int]);
                assert(links_view(links@) =~= links_view(before) + links_view(added));
            }
            i = i + 1;
        }
        assert(per.take(i as int) =~= per);
        Ok(links)
    }

    /// Every note's targets, each distinct string once, in first-seen order.
    pub fn targets(&self) -> (r: Result<Vec<String>, ExtractError>)
        ensures
            vault_ok(self@) <==> r is Ok,
            r matches Err(e) ==> e == ExtractError::MalformedMatch,
            r matches Ok(ts) ==> strings_view(ts@) == vault_targets(self@),
    {
        let ghost docs = self@;
        let ghost per = docs.map_values(|d: NoteView| targets_of(d.0, d.1));
        let mut targets: Vec<String> = Vec::new();
        let mut i: usize = 0;
        while i < self.notes.len()
            invariant
                i <= self.notes.len(),
                docs == notes_view(self.notes@),
                per == docs.map_values(|d: NoteView| targets_of(d.0, d.1)),
                forall|j: int| 0 <= j < i ==> #[trigger] links_ok(docs[j].1),
                strings_view(targets@) == per.take(i as int).flatten(),
            decreases self.notes.len() - i,
        {
            let mut found = match self.notes[i].targets() {
                Ok(ts) => ts,
                Err(e) => {
                    assert(!links_ok(docs[i as int].1));
                    return Err(e);
                },
            };
            let ghost before = targets@;
            let ghost added = found@;
            targets.append(&mut found);
            proof {
                assert(per.take(i + 1) =~= per.take(i as int).push(per[i as int]));
                per.take(i as int).lemma_flatten_push(per[i as int]);
                assert(strings_view(targets@) =~= strings_view(before) + strings_view(added));
            }
            i = i + 1;
        }
        assert(per.take(i as int) =~= per);
        Ok(unique(targets))
    }
}

} // verus!
