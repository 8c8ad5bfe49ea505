//! Per-definition caches of the analyser: visibility and doc comments are
//! looked up in the compiler at most once per definition and then kept.
//!
//! Definitions are named by their index (`u64`). The compiler queries stay
//! with the caller: a method that may need a queried value takes it as an
//! argument, and the matching `cached_*` method tells beforehand whether it
//! will be used.

use std::collections::HashMap;
use vstd::prelude::*;
use vstd::string::StringExecFns;

verus! {

broadcast use vstd::std_specs::hash::group_hash_axioms;

/// Visibility of a definition: public, or restricted to a module.
#[derive(Debug, Clone, Copy, PartialEq, Eq, Structural)]
pub enum Visibility {
    Public,
    Restricted(u64),
}

impl Visibility {
    pub fn is_public(&self) -> (b: bool)
        ensures
            b == (*self is Public),
    {
        match self {
            Visibility::Public => true,
            Visibility::Restricted(_) => false,
        }
    }
}

/// The visibility recorded for a definition, given the compiler's answer
/// for a local definition (`Some`) or nothing for a foreign one: a foreign
/// definition is public, since the crate could not name it otherwise.
pub open spec fn resolved_visibility(local: Option<Visibility>) -> Visibility {
    match local {
        Some(v) => v,
        None => Visibility::Public,
    }
}

/// The cache `m` after a lookup of `key`: a recorded entry is kept,
/// otherwise `fresh` is recorded.
pub open spec fn recorded<V>(m: Map<u64, V>, key: u64, fresh: V) -> Map<u64, V> {
    if m.contains_key(key) {
        m
    } else {
        m.insert(key, fresh)
    }
}

/// A lookup never changes what the cache already holds: every entry
/// recorded before it is still there, with the same value.
pub proof fn lemma_lookup_keeps_entries<V>(m: Map<u64, V>, key: u64, fresh: V, other: u64)
    requires
        m.contains_key(other),
    ensures
        recorded(m, key, fresh).contains_key(other),
        recorded(m, key, fresh)[other] == m[other],
{
}

/// After a lookup the key is recorded, and a second lookup of the same key
/// leaves the cache as the first one left it, whatever it is offered.
pub proof fn lemma_lookup_idempotent<V>(m: Map<u64, V>, key: u64, first: V, second: V)
    ensures
        recorded(m, key, first).contains_key(key),
        recorded(recorded(m, key, first), key, second) == recorded(m, key, first),
        !m.contains_key(key) ==> recorded(m, key, first)[key] == first,
{
}

/// A definition of another crate, looked up for the first time, is public.
pub proof fn lemma_foreign_definition_public(m: Map<u64, Visibility>, def_id: u64)
    requires
        !m.contains_key(def_id),
    ensures
        recorded(m, def_id, resolved_visibility(None))[def_id] is Public,
{
}

/// A first lookup records exactly what it is offered, and nothing else
/// changes.
pub proof fn lemma_first_lookup_records_fresh<V>(m: Map<u64, V>, key: u64, fresh: V)
    requires
        !m.contains_key(key),
    ensures
        recorded(m, key, fresh) == m.insert(key, fresh),
{
}

/// A local definition looked up for the first time records exactly the
/// visibility the compiler declared for it, and is public exactly when that
/// visibility is `Public`: a restricted definition, whatever module it is
/// restricted to, is never public.
pub proof fn lemma_first_lookup_records_local(m: Map<u64, Visibility>, def_id: u64, v: Visibility)
    requires
        !m.contains_key(def_id),
    ensures
        recorded(m, def_id, resolved_visibility(Some(v))) == m.insert(def_id, v),
        (recorded(m, def_id, resolved_visibility(Some(v)))[def_id] is Public) <==> (v is Public),
{
}

/// One line of a doc comment and the byte range it was read from.
#[derive(Debug)]
pub struct DocLine {
    pub text: String,
    pub lo: u32,
    pub hi: u32,
}

pub type DocView = (Seq<char>, u32, u32);

pub open spec fn doc_view(d: DocLine) -> DocView {
    (d.text@, d.lo, d.hi)
}

pub open spec fn docs_view(docs: Seq<DocLine>) -> Seq<DocView> {
    docs.map_values(|d: DocLine| doc_view(d))
}

/// A copy of one doc line.
pub fn copy_doc_line(d: &DocLine) -> (c: DocLine)
    ensures
        doc_view(c) == doc_view(*d),
{
    DocLine { text: d.text.clone(), lo: d.lo, hi: d.hi }
}

/// A copy of a list of doc lines.
pub fn copy_docs(docs: &Vec<DocLine>) -> (c: Vec<DocLine>)
    ensures
        docs_view(c@) == docs_view(docs@),
{
    let mut c: Vec<DocLine> = Vec::new();
    let n = docs.len();
    let mut i: usize = 0;
    while i < n
        invariant
            n == docs.len(),
            i <= n,
            c@.len() == i,
            docs_view(c@) == docs_view(docs@.take(i as int)),
        decreases n - i,
    {
        let ghost before = c@;
        c.push(copy_doc_line(&docs[i]));
        assert forall|j: int| 0 <= j < i implies #[trigger] doc_view(c@[j]) == doc_view(docs@[j]) by {
            assert(c@[j] == before[j]);
            assert(docs_view(before)[j] == docs_view(docs@.take(i as int))[j]);
        }
        assert(docs_view(c@) =~= docs_view(docs@.take(i + 1)));
        i = i + 1;
    }
    assert(docs@.take(n as int) =~= docs@);
    c
}

/// An attribute of a definition, as far as the doc collector reads it.
#[derive(Debug)]
pub enum Attribute {
    /// A parsed doc comment line.
    DocComment(DocLine),
    /// An attribute the compiler did not parse.
    Unparsed,
    /// Any other parsed attribute.
    Other,
}

/// The doc comment lines among `attrs`, in order.
pub open spec fn doc_comments(attrs: Seq<Attribute>) -> Seq<DocView>
    decreases attrs.len(),
{
    if attrs.len() == 0 {
        Seq::empty()
    } else {
        let rest = doc_comments(attrs.drop_last());
        match attrs.last() {
            Attribute::DocComment(d) => rest.push(doc_view(d)),
            _ => rest,
        }
    }
}

/// Viewing doc lines keeps one entry per line, in order, with the line's
/// text and byte range.
pub proof fn lemma_docs_view_lines(docs: Seq<DocLine>)
    ensures
        docs_view(docs).len() == docs.len(),
        forall|k: int|
            0 <= k < docs.len() ==> #[trigger] docs_view(docs)[k] == (
                docs[k].text@,
                docs[k].lo,
                docs[k].hi,
            ),
{
}

/// The doc lines collected from attributes are exactly the doc comment
/// attributes, each giving its own line, in their order; every other
/// attribute gives nothing.
pub proof fn lemma_doc_comments_are_the_doc_attributes(attrs: Seq<Attribute>)
    ensures
        doc_comments(attrs) == attrs.filter(|a: Attribute| a is DocComment).map_values(
            |a: Attribute| doc_view(a->0),
        ),
        doc_comments(attrs).len() == attrs.filter(|a: Attribute| a is DocComment).len(),
    decreases attrs.len(),
{
    let pred = |a: Attribute| a is DocComment;
    let f = |a: Attribute| doc_view(a->0);
    reveal(Seq::filter);
    if attrs.len() == 0 {
        assert(attrs.filter(pred) =~= Seq::<Attribute>::empty());
        assert(attrs.filter(pred).map_values(f) =~= Seq::<DocView>::empty());
    } else {
        lemma_doc_comments_are_the_doc_attributes(attrs.drop_last());
        let rest = attrs.drop_last().filter(pred);
        if pred(attrs.last()) {
            assert(attrs.filter(pred) == rest.push(attrs.last()));
            assert(rest.push(attrs.last()).map_values(f) =~= rest.map_values(f).push(
                f(attrs.last()),
            ));
        } else {
            assert(attrs.filter(pred) == rest);
        }
    }
}

/// Collects the doc comment lines of a definition from its attributes.
pub fn docs_for(attrs: &Vec<Attribute>) -> (docs: Vec<DocLine>)
    ensures
        docs_view(docs@) == doc_comments(attrs@),
{
    let mut docs: Vec<DocLine> = Vec::new();
    let n = attrs.len();
    let mut i: usize = 0;
    while i < n
        invariant
            n == attrs.len(),
            i <= n,
            docs_view(docs@) == doc_comments(attrs@.take(i as int)),
        decreases n - i,
    {
        assert(attrs@.take(i + 1).drop_last() =~= attrs@.take(i as int));
        match &attrs[i] {
            Attribute::DocComment(d) => {
                docs.push(copy_doc_line(d));
                assert(docs_view(docs@) =~= doc_comments(attrs@.take(i + 1)));
            },
            Attribute::Unparsed => {},
            Attribute::Other => {},
        }
        i = i + 1;
    }
    assert(attrs@.take(n as int) =~= attrs@);
    docs
}

/// A value that is fetched once and then kept.
#[derive(Debug)]
pub enum Cached<T> {
    Missing,
    Fetched(T),
}

/// What the analyser keeps about one definition.
#[derive(Debug)]
pub struct AutoZngTyMetadata {
    docs: Cached<Vec<DocLine>>,
}

impl AutoZngTyMetadata {
    /// The doc lines kept for the definition, if fetched already.
    pub closed spec fn fetched_docs(self) -> Option<Seq<DocView>> {
        match self.docs {
            Cached::Missing => None,
            Cached::Fetched(d) => Some(docs_view(d@)),
        }
    }

    pub fn new() -> (m: Self)
        ensures
            m.fetched_docs() is None,
    {
        AutoZngTyMetadata { docs: Cached::Missing }
    }
}

impl Default for AutoZngTyMetadata {
    fn default() -> (m: Self)
        ensures
            m.fetched_docs() is None,
    {
        AutoZngTyMetadata::new()
    }
}

/// The analyser's caches.
pub struct AutoZngContext {
    vis_cache: HashMap<u64, Visibility>,
    meta_cache: HashMap<u64, AutoZngTyMetadata>,
    owner_docs_cache: HashMap<u64, Vec<DocLine>>,
}

impl AutoZngContext {
    /// The visibility recorded for each definition looked up so far.
    pub closed spec fn visibilities(self) -> Map<u64, Visibility> {
        self.vis_cache@
    }

    /// The doc lines recorded for each definition looked up so far.
    pub closed spec fn docs(self) -> Map<u64, Seq<DocView>> {
        Map::new(
            |k: u64| self.meta_cache@.contains_key(k) && self.meta_cache@[k].fetched_docs() is Some,
            |k: u64| self.meta_cache@[k].fetched_docs()->0,
        )
    }

    /// The doc lines recorded for each impl block looked up so far.
    pub closed spec fn owner_docs(self) -> Map<u64, Seq<DocView>> {
        Map::new(
            |k: u64| self.owner_docs_cache@.contains_key(k),
            |k: u64| docs_view(self.owner_docs_cache@[k]@),
        )
    }

    /// An analyser context with nothing looked up yet.
    pub fn new() -> (ctx: Self)
        ensures
            ctx.visibilities() == Map::<u64, Visibility>::empty(),
            ctx.docs() == Map::<u64, Seq<DocView>>::empty(),
            ctx.owner_docs() == Map::<u64, Seq<DocView>>::empty(),
    {
        let ctx = AutoZngContext {
            vis_cache: HashMap::new(),
            meta_cache: HashMap::new(),
            owner_docs_cache: HashMap::new(),
        };
        assert(ctx.docs() =~= Map::<u64, Seq<DocView>>::empty());
        assert(ctx.owner_docs() =~= Map::<u64, Seq<DocView>>::empty());
        ctx
    }

    /// Whether the definition is public, if its visibility is recorded.
    pub fn cached_visibility(&self, def_id: u64) -> (r: Option<bool>)
        ensures
            r == (if self.visibilities().contains_key(def_id) {
                Some(self.visibilities()[def_id] is Public)
            } else {
                None
            }),
    {
        match self.vis_cache.get(&def_id) {
            Some(v) => Some(v.is_public()),
            None => None,
        }
    }

    /// Whether the definition's recorded visibility is `Public`. A recorded
    /// visibility is answered from the cache; otherwise the visibility it is
    /// handed in `local` (the declared visibility of a local definition, or
    /// `None` for a foreign one; see `resolved_visibility`) is recorded and
    /// answered. It does not itself decide reachability from outside the
    /// crate: it keeps whatever visibility the caller reads.
    pub fn is_public_vis(&mut self, def_id: u64, local: Option<Visibility>) -> (b: bool)
        ensures
            final(self).visibilities() == recorded(
                old(self).visibilities(),
                def_id,
                resolved_visibility(local),
            ),
            b == (final(self).visibilities()[def_id] is Public),
            final(self).docs() == old(self).docs(),
            final(self).owner_docs() == old(self).owner_docs(),
    {
        match self.vis_cache.get(&def_id) {
            Some(v) => v.is_public(),
            None => {
                let v = match local {
                    Some(v) => v,
                    None => Visibility::Public,
                };
                self.vis_cache.insert(def_id, v);
                v.is_public()
            },
        }
    }

    /// The doc lines of the definition, if recorded.
    pub fn cached_docs(&self, def_id: u64) -> (r: Option<Vec<DocLine>>)
        ensures
            self.docs().contains_key(def_id) <==> r is Some,
            r matches Some(d) ==> docs_view(d@) == self.docs()[def_id],
    {
        match self.meta_cache.get(&def_id) {
            Some(meta) => match &meta.docs {
                Cached::Fetched(d) => Some(copy_docs(d)),
                Cached::Missing => None,
            },
            None => None,
        }
    }

    /// The doc lines of the definition. Recorded lines are answered from
    /// the cache; otherwise `fetched` is recorded and answered.
    pub fn docs_for(&mut self, def_id: u64, fetched: Vec<DocLine>) -> (docs: Vec<DocLine>)
        ensures
            final(self).docs() == recorded(old(self).docs(), def_id, docs_view(fetched@)),
            docs_view(docs@) == final(self).docs()[def_id],
            final(self).visibilities() == old(self).visibilities(),
            final(self).owner_docs() == old(self).owner_docs(),
    {
        let recorded = self.cached_docs(def_id);
        match recorded {
            Some(d) => d,
            None => {
                let kept = copy_docs(&fetched);
                let meta = AutoZngTyMetadata { docs: Cached::Fetched(kept) };
                self.meta_cache.insert(def_id, meta);
                assert(self.docs() =~= old(self).docs().insert(def_id, docs_view(fetched@)));
                fetched
            },
        }
    }

    /// The doc lines of an impl block, if recorded.
    pub fn cached_owner_docs(&self, impl_id: u64) -> (r: Option<Vec<DocLine>>)
        ensures
            self.owner_docs().contains_key(impl_id) <==> r is Some,
            r matches Some(d) ==> docs_view(d@) == self.owner_docs()[impl_id],
    {
        match self.owner_docs_cache.get(&impl_id) {
            Some(d) => Some(copy_docs(d)),
            None => None,
        }
    }

    /// The doc lines of the impl block that owns a definition, given the
    /// block (`None` for a definition outside any impl). Recorded lines are
    /// answered from the cache; otherwise `fetched` is recorded and answered.
    pub fn docs_for_owner(&mut self, owner: Option<u64>, fetched: Vec<DocLine>) -> (docs: Option<
        Vec<DocLine>,
    >)
        ensures
            owner is None ==> docs is None && final(self).owner_docs() == old(self).owner_docs(),
            owner matches Some(i) ==> {
                &&& final(self).owner_docs() == recorded(
                    old(self).owner_docs(),
                    i,
                    docs_view(fetched@),
                )
                &&& docs matches Some(d) && docs_view(d@) == final(self).owner_docs()[i]
            },
            final(self).visibilities() == old(self).visibilities(),
            final(self).docs() == old(self).docs(),
    {
        match owner {
            None => None,
            Some(impl_id) => {
                let recorded = self.cached_owner_docs(impl_id);
                match recorded {
                    Some(d) => Some(d),
                    None => {
                        let kept = copy_docs(&fetched);
                        self.owner_docs_cache.insert(impl_id, kept);
                        assert(self.owner_docs() =~= old(self).owner_docs().insert(
                            impl_id,
                            docs_view(fetched@),
                        ));
                        Some(fetched)
                    },
                }
            },
        }
    }
}

} // verus!
