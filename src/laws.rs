//! What holds of every note and every vault, proved over the models of
//! `note` and `vault`.
use crate::note::{
    aliases_of, compound, compounds, frontmatter_links_of, metadata_kind, metadata_of, targets_of,
};
use crate::registry::first_block_of;
use crate::note::{name_ok, stem_of};
use crate::vault::{all_targets, dedup_first, documents_of, vault_targets, NoteView};
use vstd::prelude::*;

verus! {

/// A note's own name is its first target.
pub proof fn lemma_name_is_target(name: Seq<char>, content: Seq<char>)
    ensures
        targets_of(name, content)[0] == name,
        targets_of(name, content).contains(name),
{
    assert(targets_of(name, content)[0] == name);
}

/// For every alias a note declares, `name|alias` is among its targets.
pub proof fn lemma_alias_is_target(name: Seq<char>, content: Seq<char>, alias: Seq<char>)
    requires
        aliases_of(content).contains(alias),
    ensures
        targets_of(name, content).contains(compound(name, alias)),
{
    let aliases = aliases_of(content);
    let k = choose|k: int| 0 <= k < aliases.len() && aliases[k] == alias;
    let all = targets_of(name, content);
    assert(compounds(name, aliases)[k] == compound(name, alias));
    assert(all[1 + k] == compound(name, alias));
}

/// A note whose first top-level node is not a metadata block has no header,
/// no aliases and no header links.
pub proof fn lemma_no_header(content: Seq<char>)
    requires
        !(first_block_of(content) matches Some((kind, _)) && kind == metadata_kind()),
    ensures
        metadata_of(content) is None,
        aliases_of(content) == Seq::<Seq<char>>::empty(),
        frontmatter_links_of(content) == Seq::<(Seq<char>, Seq<char>)>::empty(),
{
}

/// Keeping first occurrences leaves no repeats and the same strings.
proof fn lemma_dedup_first(s: Seq<Seq<char>>)
    ensures
        dedup_first(s).no_duplicates(),
        forall|t: Seq<char>| dedup_first(s).contains(t) <==> s.contains(t),
    decreases s.len(),
{
    if s.len() > 0 {
        let init = s.drop_last();
        lemma_dedup_first(init);
        assert(s =~= init.push(s.last()));
        assert forall|t: Seq<char>| s.contains(t) <==> (init.contains(t) || t == s.last()) by {
            if s.contains(t) {
                let k = choose|k: int| 0 <= k < s.len() && s[k] == t;
                if k < s.len() - 1 {
                    assert(init[k] == t);
                }
            }
            if init.contains(t) {
                let k = choose|k: int| 0 <= k < init.len() && init[k] == t;
                assert(s[k] == t);
            }
            if t == s.last() {
                assert(s[s.len() - 1] == t);
            }
        }
        if !init.contains(s.last()) {
            let d = dedup_first(init);
            assert forall|t: Seq<char>| d.push(s.last()).contains(t) <==> (d.contains(t) || t
                == s.last()) by {
                if d.push(s.last()).contains(t) {
                    let k = choose|k: int| 0 <= k < d.len() + 1 && d.push(s.last())[k] == t;
                    if k < d.len() {
                        assert(d[k] == t);
                    }
                }
                if d.contains(t) {
                    let k = choose|k: int| 0 <= k < d.len() && d[k] == t;
                    assert(d.push(s.last())[k] == t);
                }
                if t == s.last() {
                    assert(d.push(s.last())[d.len() as int] == t);
                }
            }
            assert forall|i: int, j: int|
                0 <= i < d.len() + 1 && 0 <= j < d.len() + 1 && i != j implies d.push(
                s.last(),
            )[i] != d.push(s.last())[j] by {
                if i == d.len() {
                    assert(d.contains(d[j]));
                } else if j == d.len() {
                    assert(d.contains(d[i]));
                }
            }
        }
    }
}

/// A string is in a flattened list exactly when one of the lists holds it.
proof fn lemma_flatten_contains(ss: Seq<Seq<Seq<char>>>, t: Seq<char>)
    ensures
        ss.flatten().contains(t) <==> exists|i: int| 0 <= i < ss.len() && #[trigger] ss[i].contains(
            t,
        ),
    decreases ss.len(),
{
    if ss.len() > 0 {
        let init = ss.drop_last();
        lemma_flatten_contains(init, t);
        assert(ss =~= init.push(ss.last()));
        init.lemma_flatten_push(ss.last());
        let f = init.flatten();
        let l = ss.last();
        if ss.flatten().contains(t) {
            let k = choose|k: int| 0 <= k < f.len() + l.len() && (f + l)[k] == t;
            if k < f.len() {
                assert(f[k] == t);
                let i = choose|i: int| 0 <= i < init.len() && #[trigger] init[i].contains(t);
                assert(ss[i] == init[i]);
            } else {
                assert(l[k - f.len()] == t);
                assert(ss[ss.len() - 1].contains(t));
            }
        }
        if exists|i: int| 0 <= i < ss.len() && #[trigger] ss[i].contains(t) {
            let i = choose|i: int| 0 <= i < ss.len() && #[trigger] ss[i].contains(t);
            if i < ss.len() - 1 {
                assert(init[i] == ss[i]);
                let k = choose|k: int| 0 <= k < f.len() && f[k] == t;
                assert((f + l)[k] == t);
            } else {
                let k = choose|k: int| 0 <= k < l.len() && l[k] == t;
                assert((f + l)[f.len() + k] == t);
            }
        }
    }
}

/// The vault's targets hold no repeats, and a string is among them exactly
/// when it is a target of one of the notes.
pub proof fn lemma_vault_targets_union(docs: Seq<NoteView>)
    ensures
        vault_targets(docs).no_duplicates(),
        forall|t: Seq<char>|
            vault_targets(docs).contains(t) <==> exists|i: int|
                0 <= i < docs.len() && #[trigger] targets_of(docs[i].0, docs[i].1).contains(t),
{
    let per = docs.map_values(|d: NoteView| targets_of(d.0, d.1));
    lemma_dedup_first(all_targets(docs));
    assert forall|t: Seq<char>|
        vault_targets(docs).contains(t) <==> exists|i: int|
            0 <= i < docs.len() && #[trigger] targets_of(docs[i].0, docs[i].1).contains(t) by {
        lemma_flatten_contains(per, t);
        if exists|i: int| 0 <= i < docs.len() && #[trigger] targets_of(docs[i].0, docs[i].1).contains(t) {
            let i = choose|i: int| 0 <= i < docs.len() && #[trigger] targets_of(docs[i].0, docs[i].1).contains(t);
            assert(per[i].contains(t));
        }
        if exists|i: int| 0 <= i < per.len() && #[trigger] per[i].contains(t) {
            let i = choose|i: int| 0 <= i < per.len() && #[trigger] per[i].contains(t);
            assert(targets_of(docs[i].0, docs[i].1).contains(t));
        }
    }
}

/// The set of a vault's targets depends on which notes it holds, not on the
/// order in which they are listed or processed.
pub proof fn lemma_targets_order_independent(a: Seq<NoteView>, b: Seq<NoteView>)
    requires
        a.to_multiset() == b.to_multiset(),
    ensures
        vault_targets(a).to_set() == vault_targets(b).to_set(),
{
    broadcast use vstd::seq_lib::to_multiset_contains;

    lemma_vault_targets_union(a);
    lemma_vault_targets_union(b);
    assert forall|t: Seq<char>| vault_targets(a).contains(t) ==> vault_targets(b).contains(t) by {
        if vault_targets(a).contains(t) {
            let i = choose|i: int| 0 <= i < a.len() && #[trigger] targets_of(a[i].0, a[i].1).contains(t);
            assert(a.contains(a[i]));
            assert(a.to_multiset().count(a[i]) > 0);
            assert(b.contains(a[i]));
            let j = choose|j: int| 0 <= j < b.len() && b[j] == a[i];
            assert(targets_of(b[j].0, b[j].1).contains(t));
        }
    }
    assert forall|t: Seq<char>| vault_targets(b).contains(t) ==> vault_targets(a).contains(t) by {
        if vault_targets(b).contains(t) {
            let i = choose|i: int| 0 <= i < b.len() && #[trigger] targets_of(b[i].0, b[i].1).contains(t);
            assert(b.contains(b[i]));
            assert(b.to_multiset().count(b[i]) > 0);
            assert(a.contains(b[i]));
            let j = choose|j: int| 0 <= j < a.len() && a[j] == b[i];
            assert(targets_of(a[j].0, a[j].1).contains(t));
        }
    }
    assert(vault_targets(a).to_set() =~= vault_targets(b).to_set());
}

/// The note that a (path, text) pair gives, when its path has a usable name.
pub open spec fn document_of(f: (Seq<char>, Seq<char>)) -> NoteView {
    (stem_of(f.0)->0, f.1)
}

/// A note stands among those built from a list of files exactly when some
/// file with a usable name gives it.
proof fn lemma_documents_of_contains(files: Seq<(Seq<char>, Seq<char>)>, d: NoteView)
    ensures
        documents_of(files).contains(d) <==> exists|i: int|
            0 <= i < files.len() && name_ok(files[i].0) && #[trigger] document_of(files[i]) == d,
    decreases files.len(),
{
    if files.len() > 0 {
        let init = files.drop_last();
        lemma_documents_of_contains(init, d);
        let ds = documents_of(init);
        let last = files.last();
        if documents_of(files).contains(d) {
            let k = choose|k: int| 0 <= k < documents_of(files).len() && documents_of(files)[k] == d;
            if name_ok(last.0) && k == ds.len() {
                assert(document_of(files[files.len() - 1]) == d);
            } else {
                assert(ds[k] == d);
                let i = choose|i: int|
                    0 <= i < init.len() && name_ok(init[i].0) && #[trigger] document_of(init[i]) == d;
                assert(files[i] == init[i]);
            }
        }
        if exists|i: int|
            0 <= i < files.len() && name_ok(files[i].0) && #[trigger] document_of(files[i]) == d {
            let i = choose|i: int|
                0 <= i < files.len() && name_ok(files[i].0) && #[trigger] document_of(files[i]) == d;
            if i == files.len() - 1 {
                assert(documents_of(files)[ds.len() as int] == d);
            } else {
                assert(init[i] == files[i]);
                assert(ds.contains(d));
                let k = choose|k: int| 0 <= k < ds.len() && ds[k] == d;
                if name_ok(last.0) {
                    assert(documents_of(files)[k] == d);
                }
            }
        }
    }
}

/// A target of the vault built from a list of files is a target of the note
/// of some file there.
proof fn lemma_file_targets(files: Seq<(Seq<char>, Seq<char>)>, t: Seq<char>)
    ensures
        vault_targets(documents_of(files)).contains(t) <==> exists|f: (Seq<char>, Seq<char>)|
            files.contains(f) && name_ok(f.0) && #[trigger] targets_of(
                document_of(f).0,
                document_of(f).1,
            ).contains(t),
{
    let docs = documents_of(files);
    lemma_vault_targets_union(docs);
    if vault_targets(docs).contains(t) {
        let i = choose|i: int| 0 <= i < docs.len() && #[trigger] targets_of(docs[i].0, docs[i].1).contains(t);
        assert(docs.contains(docs[i]));
        lemma_documents_of_contains(files, docs[i]);
        let j = choose|j: int|
            0 <= j < files.len() && name_ok(files[j].0) && #[trigger] document_of(files[j]) == docs[i];
        assert(files.contains(files[j]));
        assert(targets_of(document_of(files[j]).0, document_of(files[j]).1).contains(t));
    }
    if exists|f: (Seq<char>, Seq<char>)|
        files.contains(f) && name_ok(f.0) && #[trigger] targets_of(
            document_of(f).0,
            document_of(f).1,
        ).contains(t) {
        let f = choose|f: (Seq<char>, Seq<char>)|
            files.contains(f) && name_ok(f.0) && #[trigger] targets_of(
                document_of(f).0,
                document_of(f).1,
            ).contains(t);
        let j = choose|j: int| 0 <= j < files.len() && files[j] == f;
        lemma_documents_of_contains(files, document_of(f));
        assert(document_of(files[j]) == document_of(f));
        let k = choose|k: int| 0 <= k < docs.len() && docs[k] == document_of(f);
        assert(targets_of(docs[k].0, docs[k].1).contains(t));
    }
}

/// Reading the same files in any order, as parallel discovery may, gives a
/// vault with the same set of targets.
pub proof fn lemma_file_order_independent(
    a: Seq<(Seq<char>, Seq<char>)>,
    b: Seq<(Seq<char>, Seq<char>)>,
)
    requires
        a.to_multiset() == b.to_multiset(),
    ensures
        vault_targets(documents_of(a)).to_set() == vault_targets(documents_of(b)).to_set(),
{
    broadcast use vstd::seq_lib::to_multiset_contains;

    assert forall|f: (Seq<char>, Seq<char>)| a.contains(f) <==> b.contains(f) by {
        assert(a.contains(f) <==> a.to_multiset().count(f) > 0);
        assert(b.contains(f) <==> b.to_multiset().count(f) > 0);
    }
    assert forall|t: Seq<char>|
        vault_targets(documents_of(a)).contains(t) <==> vault_targets(documents_of(b)).contains(t) by {
        lemma_file_targets(a, t);
        lemma_file_targets(b, t);
    }
    assert(vault_targets(documents_of(a)).to_set() =~= vault_targets(documents_of(b)).to_set());
}

} // verus!
