use std::pin::Pin;
use std::rc::Rc;
use std::sync::Arc;

use zngur_autozng::example::{Alias, Example};

fn named(name: &str) -> Example {
    Example::from(name.to_string())
}

#[test]
fn by_ref_reports_source_and_inner() {
    let e = named("Hello");
    assert_eq!(e.by_ref("src"), "src: Hello");
}

#[test]
fn by_ref_with_empty_inner() {
    let e = Example::default();
    assert_eq!(e.by_ref("empty"), "empty: ");
}

#[test]
fn by_value_reports_by_val() {
    assert_eq!(named("Hello").by_value(), "by_val: Hello");
}

#[test]
fn by_ref_mut_overwrites_inner() {
    let mut e = Example::default();
    assert_eq!(e.by_ref_mut(), "mut: by_ref_mut");
    assert_eq!(e.by_ref("after"), "after: by_ref_mut");
}

#[test]
fn by_box_reports_twice() {
    let boxed = Box::new(named("boxed"));
    assert_eq!(boxed.by_box(), vec!["by_box: boxed".to_string(), "by_val: boxed".to_string()]);
}

#[test]
fn by_rc_and_by_arc() {
    assert_eq!(Rc::new(named("r")).by_rc(), "by_rc: r");
    assert_eq!(Arc::new(named("a")).by_arc(), "by_arc: a");
    assert_eq!(Arc::new(named("x")).explicit_type(), "explicit: x");
}

#[test]
fn by_pin_reports_pinned_value() {
    let e = named("pinned");
    assert_eq!(Pin::new(&e).by_pin(), "by_pin: pinned");
}

#[test]
fn with_lifetime_and_projection() {
    let e = named("life");
    assert_eq!(e.with_lifetime(), "lifetime: life");
    assert_eq!(named("proj").via_projection(), "via_projection: proj");
}

#[test]
fn nested_reports_through_all_pointers() {
    let inner: Arc<Rc<Box<Alias>>> = Arc::new(Rc::new(Box::new(named("deep"))));
    let mut r = &inner;
    assert_eq!(Example::nested(&mut r), "nested: deep");
}
