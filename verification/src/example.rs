//! The example type that the analyser is exercised on: every method reports
//! one line, `<source>: <inner>`, through `by_ref`.

use std::pin::Pin;
use std::rc::Rc;
use std::sync::Arc;
use vstd::prelude::*;
use vstd::string::StringExecFns;

verus! {

/// `std::pin::Pin`, carried opaquely: the example's pinned receiver.
#[verifier::external_type_specification]
#[verifier::external_body]
#[verifier::reject_recursive_types(Ptr)]
pub struct ExPin<Ptr>(Pin<Ptr>);

/// The contents of the example behind a pinned shared reference.
pub uninterp spec fn pinned_view(p: Pin<&Example>) -> Seq<char>;

/// `Pin::<&T>::get_ref`, which hands back the shared reference the pin was
/// made from: its contents are the pinned example's contents.
#[verifier::external_body]
fn pinned_ref<'a>(p: Pin<&'a Example>) -> (r: &'a Example)
    ensures
        r@ == pinned_view(p),
{
    p.get_ref()
}

/// The line that `by_ref` reports for `source` on an example holding `inner`.
pub open spec fn report_line(source: Seq<char>, inner: Seq<char>) -> Seq<char> {
    source + ": "@ + inner
}

/// A report is the source, a colon, a space and the contents.
pub proof fn lemma_report_line_chars(source: Seq<char>, inner: Seq<char>)
    ensures
        report_line(source, inner).len() == source.len() + 2 + inner.len(),
        report_line(source, inner).take(source.len() as int) == source,
        report_line(source, inner)[source.len() as int] == ':',
        report_line(source, inner)[source.len() as int + 1] == ' ',
        report_line(source, inner).skip(source.len() as int + 2) == inner,
{
    reveal_strlit(": ");
    let l = report_line(source, inner);
    assert(l.take(source.len() as int) =~= source);
    assert(l.skip(source.len() as int + 2) =~= inner);
}

/// Docs for Example type
///   multiple lines
///     multiple attrs
#[derive(Debug)]
pub struct Example {
    inner: String,
}

/// Alias of Example
pub type Alias = Example;

/// a Trait
///   multiline doc comment
pub trait Trait {
    type Output;
}

/// trait impl
impl Trait for Example {
    type Output = Example;
}

impl View for Example {
    type V = Seq<char>;

    closed spec fn view(&self) -> Seq<char> {
        self.inner@
    }
}

impl Default for Example {
    fn default() -> (e: Self)
        ensures
            e@ == Seq::<char>::empty(),
    {
        Example { inner: String::new() }
    }
}

/// main impl block
impl Example {
    /// by value fn
    pub fn by_value(self: Self) -> (line: String)
        ensures
            line@ == report_line("by_val"@, self@),
    {
        self.by_ref("by_val")
    }

    /// by ref fn
    pub fn by_ref(self: &Self, source: &str) -> (line: String)
        ensures
            line@ == report_line(source@, self@),
    {
        let mut line = String::from_str(source);
        line.append(": ");
        line.append(self.inner.as_str());
        line
    }

    /// by ref mut fn
    pub fn by_ref_mut(self: &mut Self) -> (line: String)
        ensures
            final(self)@ == "by_ref_mut"@,
            line@ == report_line("mut"@, "by_ref_mut"@),
    {
        self.inner = String::from_str("by_ref_mut");
        self.by_ref("mut")
    }

    /// by box fn
    pub fn by_box(self: Box<Self>) -> (lines: Vec<String>)
        ensures
            lines.deep_view() == seq![report_line("by_box"@, self@), report_line("by_val"@, self@)],
    {
        let first = self.by_ref("by_box");
        let second = (*self).by_value();
        let mut lines = Vec::new();
        lines.push(first);
        lines.push(second);
        proof {
            assert(lines.deep_view() =~= seq![report_line("by_box"@, self@), report_line("by_val"@, self@)]);
        }
        lines
    }

    /// by rc fn
    pub fn by_rc(self: Rc<Self>) -> (line: String)
        ensures
            line@ == report_line("by_rc"@, self@),
    {
        self.by_ref("by_rc")
    }

    /// by arc fn
    pub fn by_arc(self: Arc<Self>) -> (line: String)
        ensures
            line@ == report_line("by_arc"@, self@),
    {
        self.by_ref("by_arc")
    }

    /// by pin fn
    pub fn by_pin(self: Pin<&Self>) -> (line: String)
        ensures
            line@ == report_line("by_pin"@, pinned_view(self)),
    {
        pinned_ref(self).by_ref("by_pin")
    }

    /// by explicit type fn
    pub fn explicit_type(self: Arc<Example>) -> (line: String)
        ensures
            line@ == report_line("explicit"@, self@),
    {
        self.by_ref("explicit")
    }

    /// fn with lifetime
    pub fn with_lifetime<'a>(self: &'a Self) -> (line: String)
        ensures
            line@ == report_line("lifetime"@, self@),
    {
        self.by_ref("lifetime")
    }

    /// fn with nested type
    pub fn nested<'a>(self: &mut &'a Arc<Rc<Box<Alias>>>) -> (line: String)
        ensures
            line@ == report_line("nested"@, (**old(self))@),
            *final(self) == *old(self),
    {
        self.by_ref("nested")
    }

    /// fn with type by projection
    pub fn via_projection(self: <Example as Trait>::Output) -> (line: String)
        ensures
            line@ == report_line("via_projection"@, self@),
    {
        self.by_ref("via_projection")
    }

    /// from ctor
    pub fn from(name: String) -> (e: Self)
        ensures
            e@ == name@,
    {
        Example { inner: name }
    }
}

} // verus!
