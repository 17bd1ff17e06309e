use std::sync::Arc;
use vault_targets::link::{links_from_captures, resolve, split_wiki_label, ExtractError, Link};
use vault_targets::note::{
    aliases_from_captures, assemble_targets, compound_targets, metadata_from_block, Note,
};
use vault_targets::registry::QueryCache;
use vault_targets::vault::Vault;

fn s(x: &str) -> String {
    x.to_string()
}

fn registry() -> Arc<QueryCache> {
    Arc::new(QueryCache::new().expect("queries compile"))
}

fn note(path: &str, content: &str) -> Note {
    Note::new(s(path), s(content), registry()).expect("valid note")
}

fn link(d: &str, t: &str) -> Link {
    Link { destination: s(d), text: s(t) }
}

#[test]
fn resolve_label_only_uses_label_for_destination() {
    assert_eq!(resolve(None, Some(s("Foo"))), Ok(link("Foo", "Foo")));
}

#[test]
fn resolve_destination_only_uses_destination_for_label() {
    assert_eq!(resolve(Some(s("Foo")), None), Ok(link("Foo", "Foo")));
}

#[test]
fn resolve_keeps_both_halves() {
    assert_eq!(resolve(Some(s("Foo")), Some(s("Bar"))), Ok(link("Foo", "Bar")));
}

#[test]
fn resolve_without_either_half_is_malformed() {
    assert_eq!(resolve(None, None), Err(ExtractError::MalformedMatch));
}

fn plain(d: Option<&str>, t: Option<&str>) -> (Option<String>, Option<String>, Option<String>, Option<String>) {
    (d.map(s), t.map(s), None, None)
}

fn wiki(t: &str) -> (Option<String>, Option<String>, Option<String>, Option<String>) {
    (None, Some(s(t)), Some(s("[")), Some(s("]")))
}

#[test]
fn links_from_captures_keeps_match_order() {
    let caps = vec![plain(None, Some("A")), plain(Some("B"), Some("C")), plain(Some("D"), None)];
    assert_eq!(
        links_from_captures(caps),
        Ok(vec![link("A", "A"), link("B", "C"), link("D", "D")])
    );
}

#[test]
fn split_wiki_label_splits_bracketed_labels_at_first_bar() {
    assert_eq!(split_wiki_label(wiki("Foo|Bar")), (Some(s("Foo")), Some(s("Bar"))));
    assert_eq!(split_wiki_label(wiki("a|b|c")), (Some(s("a")), Some(s("b|c"))));
    assert_eq!(split_wiki_label(wiki("Foo")), (None, Some(s("Foo"))));
}

#[test]
fn split_wiki_label_leaves_other_matches() {
    assert_eq!(split_wiki_label(plain(None, Some("a|b"))), (None, Some(s("a|b"))));
    assert_eq!(
        split_wiki_label((None, Some(s("a|b")), Some(s("[")), None)),
        (None, Some(s("a|b")))
    );
    assert_eq!(
        split_wiki_label((Some(s("u")), Some(s("x|y")), Some(s("[")), Some(s("]")))),
        (Some(s("u")), Some(s("x|y")))
    );
}

#[test]
fn links_from_captures_reads_wiki_labels() {
    let caps = vec![wiki("Beta|B2"), wiki("Beta"), plain(None, Some("x|y"))];
    assert_eq!(
        links_from_captures(caps),
        Ok(vec![link("Beta", "B2"), link("Beta", "Beta"), link("x|y", "x|y")])
    );
}

#[test]
fn body_inline_link_pairs_label_and_destination() {
    let n = note("A.md", "");
    assert_eq!(
        n.body_links("See [x](y) and [z].\n"),
        Ok(vec![link("y", "x"), link("z", "z")])
    );
}

#[test]
fn body_single_bracket_label_keeps_its_bar() {
    let n = note("A.md", "");
    assert_eq!(n.body_links("x [a|b] y\n"), Ok(vec![link("a|b", "a|b")]));
}

#[test]
fn body_image_and_full_reference_links() {
    let n = note("A.md", "");
    assert_eq!(
        n.body_links("![img](p.png) [a][ref]\n\n[ref]: u\n"),
        Ok(vec![link("p.png", "p.png"), link("a", "a")])
    );
}

#[test]
fn links_from_captures_rejects_an_empty_match() {
    let caps = vec![plain(None, Some("A")), plain(None, None)];
    assert_eq!(links_from_captures(caps), Err(ExtractError::MalformedMatch));
}

#[test]
fn metadata_from_block_needs_metadata_kind() {
    assert_eq!(metadata_from_block(Some((s("minus_metadata"), s("---\na: b\n---\n")))), Some(s("---\na: b\n---\n")));
    assert_eq!(metadata_from_block(Some((s("paragraph"), s("text")))), None);
    assert_eq!(metadata_from_block(None), None);
}

#[test]
fn aliases_from_captures_joins_groups() {
    let caps = vec![vec![s("a"), s("b")], vec![], vec![s("c")]];
    assert_eq!(aliases_from_captures(caps), vec![s("a"), s("b"), s("c")]);
}

#[test]
fn compound_targets_prefix_the_name() {
    assert_eq!(
        compound_targets(&s("Note"), &vec![s("x"), s("y z")]),
        vec![s("Note|x"), s("Note|y z")]
    );
}

#[test]
fn assemble_targets_orders_name_aliases_destinations() {
    let links = vec![link("D1", "t"), link("D2", "u")];
    assert_eq!(
        assemble_targets(&s("N"), vec![s("N|a")], &links),
        vec![s("N"), s("N|a"), s("D1"), s("D2")]
    );
}

#[test]
fn note_name_is_base_name_without_extension() {
    let n = note("vault/sub/Alpha.md", "");
    assert_eq!(n.name(), "Alpha");
    assert_eq!(n.path(), "vault/sub/Alpha.md");
}

#[test]
fn note_without_base_name_is_invalid() {
    let r = Note::new(s("/"), s("text"), registry());
    assert!(matches!(r, Err(ExtractError::InvalidDocument)));
    let r = Note::new(s(""), s("text"), registry());
    assert!(matches!(r, Err(ExtractError::InvalidDocument)));
}

#[test]
fn body_wiki_link_label_only() {
    let n = note("A.md", "[[Foo]]\n");
    assert_eq!(n.body_links("[[Foo]]\n"), Ok(vec![link("Foo", "Foo")]));
}

#[test]
fn body_wiki_link_with_label() {
    let n = note("A.md", "[[Foo|Bar]]\n");
    assert_eq!(n.body_links("[[Foo|Bar]]\n"), Ok(vec![link("Foo", "Bar")]));
}

#[test]
fn quoted_header_value_contributes_link() {
    let n = note("A.md", "---\nrelated: \"[[Foo]]\"\n---\nBody text.\n");
    let links = n.frontmatter_links().expect("links");
    assert!(links.iter().any(|l| l.destination == "Foo"));
    assert!(n.links().expect("links").iter().any(|l| l.destination == "Foo"));
    assert!(n.targets().expect("targets").contains(&s("Foo")));
}

#[test]
fn targets_contain_name() {
    let n = note("dir/Gamma.md", "Plain text with [[Delta]].\n");
    let t = n.targets().expect("targets");
    assert_eq!(t[0], "Gamma");
    assert!(t.contains(&s("Delta")));
}

#[test]
fn alias_targets_are_in_targets() {
    let n = note("Alpha.md", "---\naliases:\n  - A1\n  - Second\n---\ntext\n");
    assert_eq!(n.aliases(), vec![s("A1"), s("Second")]);
    assert_eq!(n.alias_targets(), vec![s("Alpha|A1"), s("Alpha|Second")]);
    let t = n.targets().expect("targets");
    assert!(t.contains(&s("Alpha|A1")));
    assert!(t.contains(&s("Alpha|Second")));
}

#[test]
fn header_without_aliases_key_gives_no_aliases() {
    let n = note("Alpha.md", "---\ntitle: Something\ntags:\n  - x\n---\ntext\n");
    assert!(n.frontmatter().is_some());
    assert_eq!(n.aliases(), Vec::<String>::new());
    let t = n.targets().expect("targets");
    assert!(t.iter().all(|x| !x.contains('|')));
}

#[test]
fn no_leading_header_means_no_metadata() {
    let n = note("Alpha.md", "# Title\n\n---\naliases:\n  - A1\n---\n");
    assert_eq!(n.frontmatter(), None);
    assert_eq!(n.frontmatter_links(), Ok(vec![]));
    assert_eq!(n.aliases(), Vec::<String>::new());
}

#[test]
fn header_is_a_prefix_of_the_note() {
    let content = "---\naliases:\n  - A1\n---\nSee [[Beta]].\n";
    let n = note("Alpha.md", content);
    let header = n.frontmatter().expect("header");
    assert!(content.starts_with(&header));
    assert!(header.starts_with("---"));
}

fn end_to_end_vault() -> Vault {
    let files = vec![
        (s("vault/Alpha.md"), s("---\naliases:\n  - A1\n---\nSee [[Beta]] and [[Beta|B2]].\n")),
        (s("vault/Beta.md"), s("")),
    ];
    Vault::new(files, registry())
}

#[test]
fn end_to_end_two_notes() {
    let vault = end_to_end_vault();
    assert_eq!(vault.notes().len(), 2);
    let mut targets = vault.targets().expect("targets");
    targets.sort();
    assert_eq!(targets, vec![s("Alpha"), s("Alpha|A1"), s("Beta")]);
}

#[test]
fn vault_links_in_note_order() {
    let vault = end_to_end_vault();
    let links = vault.links().expect("links");
    assert_eq!(links, vec![link("Beta", "Beta"), link("Beta", "B2")]);
}

#[test]
fn vault_targets_have_no_duplicates() {
    let files = vec![
        (s("One.md"), s("[[Two]] [[Two]] [[One]]\n")),
        (s("Two.md"), s("[[One]]\n")),
    ];
    let targets = Vault::new(files, registry()).targets().expect("targets");
    assert_eq!(targets, vec![s("One"), s("Two")]);
}

#[test]
fn vault_targets_do_not_depend_on_note_order() {
    let a = (s("One.md"), s("---\naliases:\n  - Uno\n---\n[[Three]]\n"));
    let b = (s("Two.md"), s("[[One|first]]\n"));
    let mut x = Vault::new(vec![a.clone(), b.clone()], registry()).targets().expect("targets");
    let mut y = Vault::new(vec![b, a], registry()).targets().expect("targets");
    x.sort();
    y.sort();
    assert_eq!(x, y);
    assert_eq!(x, vec![s("One"), s("One|Uno"), s("Three"), s("Two")]);
}

#[test]
fn vault_skips_notes_without_a_name() {
    let files = vec![(s("/"), s("[[Lost]]\n")), (s("Kept.md"), s(""))];
    let vault = Vault::new(files, registry());
    assert_eq!(vault.notes().len(), 1);
    assert_eq!(vault.notes()[0].path(), "Kept.md");
    assert_eq!(vault.skipped(), &vec![s("/")]);
    assert_eq!(vault.targets().expect("targets"), vec![s("Kept")]);
}

#[test]
fn repeated_extraction_is_identical() {
    let first = end_to_end_vault().targets().expect("targets");
    let second = end_to_end_vault().targets().expect("targets");
    assert_eq!(first, second);
}

#[test]
fn note_targets_in_order_name_aliases_header_links_body_links() {
    let n = note("Alpha.md", "---\naliases:\n  - A1\nrelated: \"[[H]]\"\n---\nSee [[B|b]].\n");
    assert_eq!(n.links(), Ok(vec![link("H", "H"), link("B", "b")]));
    assert_eq!(
        n.targets(),
        Ok(vec![s("Alpha"), s("Alpha|A1"), s("H"), s("B")])
    );
}

#[test]
fn registry_compiles() {
    assert!(QueryCache::new().is_ok());
}
