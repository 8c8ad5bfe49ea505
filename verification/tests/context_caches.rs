use zngur_autozng::ctx::{docs_for, copy_docs, Attribute, AutoZngContext, AutoZngTyMetadata, DocLine, Visibility};

fn line(text: &str, lo: u32) -> DocLine {
    DocLine { text: text.to_string(), lo, hi: lo + 1 }
}

fn texts(docs: &[DocLine]) -> Vec<String> {
    docs.iter().map(|d| d.text.clone()).collect()
}

#[test]
fn visibility_is_cached_after_first_lookup() {
    let mut ctx = AutoZngContext::new();
    assert_eq!(ctx.cached_visibility(3), None);
    assert!(!ctx.is_public_vis(3, Some(Visibility::Restricted(0))));
    assert_eq!(ctx.cached_visibility(3), Some(false));
    // A second lookup answers from the cache, whatever it is offered.
    assert!(!ctx.is_public_vis(3, Some(Visibility::Public)));
}

#[test]
fn foreign_definition_is_public() {
    let mut ctx = AutoZngContext::new();
    assert!(ctx.is_public_vis(9, None));
    assert_eq!(ctx.cached_visibility(9), Some(true));
}

#[test]
fn local_public_definition() {
    let mut ctx = AutoZngContext::new();
    assert!(ctx.is_public_vis(1, Some(Visibility::Public)));
    assert!(Visibility::Public.is_public());
    assert!(!Visibility::Restricted(4).is_public());
}

#[test]
fn docs_are_fetched_once() {
    let mut ctx = AutoZngContext::new();
    assert!(ctx.cached_docs(5).is_none());
    let first = ctx.docs_for(5, vec![line("one", 0), line("two", 4)]);
    assert_eq!(texts(&first), vec!["one", "two"]);
    let again = ctx.docs_for(5, vec![line("other", 9)]);
    assert_eq!(texts(&again), vec!["one", "two"]);
    let cached = ctx.cached_docs(5).unwrap();
    assert_eq!(cached[1].lo, 4);
    assert_eq!(cached[1].hi, 5);
}

#[test]
fn owner_docs_only_for_impl_members() {
    let mut ctx = AutoZngContext::new();
    assert!(ctx.docs_for_owner(None, vec![line("x", 0)]).is_none());
    assert!(ctx.cached_owner_docs(2).is_none());
    let first = ctx.docs_for_owner(Some(2), vec![line("main impl block", 0)]).unwrap();
    assert_eq!(texts(&first), vec!["main impl block"]);
    let again = ctx.docs_for_owner(Some(2), Vec::new()).unwrap();
    assert_eq!(texts(&again), vec!["main impl block"]);
    assert_eq!(texts(&ctx.cached_owner_docs(2).unwrap()), vec!["main impl block"]);
}

#[test]
fn docs_for_keeps_doc_comments_in_order() {
    let attrs = vec![
        Attribute::DocComment(line(" Docs for Example type", 0)),
        Attribute::Other,
        Attribute::Unparsed,
        Attribute::DocComment(line("   multiple lines", 30)),
    ];
    let docs = docs_for(&attrs);
    assert_eq!(texts(&docs), vec![" Docs for Example type", "   multiple lines"]);
    assert_eq!(docs[1].lo, 30);
    assert!(docs_for(&vec![Attribute::Other]).is_empty());
}

#[test]
fn copies_keep_every_line() {
    let docs = vec![line("a", 1), line("b", 2)];
    let c = copy_docs(&docs);
    assert_eq!(texts(&c), vec!["a", "b"]);
    assert_eq!(c[0].lo, 1);
}

#[test]
fn metadata_starts_without_docs() {
    let m = AutoZngTyMetadata::new();
    let d = AutoZngTyMetadata::default();
    assert_eq!(format!("{:?}", m), format!("{:?}", d));
    assert_eq!(format!("{:?}", m), "AutoZngTyMetadata { docs: Missing }");
}
