//! The analyser's report: one line of text per fact about the crate, in the
//! order the analyser prints them. The compiler is read elsewhere; here the
//! facts arrive as plain values and every line is built with a contract.

use crate::text::{decimal, joined, push_decimal, trim_start_matches, trimmed};
use vstd::prelude::*;
use vstd::string::StringExecFns;

verus! {

/// What kind of algebraic data type a definition is.
#[derive(Debug, Clone, Copy, PartialEq, Eq, Structural)]
pub enum AdtKind {
    Enum,
    Union,
    Struct,
}

/// What kind of item a local definition is.
#[derive(Debug, Clone, Copy, PartialEq, Eq, Structural)]
pub enum ItemKind {
    Fn,
    Static,
    Const,
    CtorConst,
    CtorFn,
}

/// A field of a variant.
#[derive(Debug)]
pub struct FieldReport {
    /// The field's path as the compiler trims it (`Type::Variant::field`).
    pub trimmed_name: String,
    pub is_pub: bool,
    /// The field's type, as the compiler displays it.
    pub ty: String,
}

/// A variant of an algebraic data type (a struct has one).
#[derive(Debug)]
pub struct VariantReport {
    pub name: String,
    /// The compiler's debug rendering of the variant's fields.
    pub fields_debug: String,
    pub fields: Vec<FieldReport>,
}

/// An algebraic data type of the crate.
#[derive(Debug)]
pub struct AdtReport {
    pub name: String,
    /// The compiler's debug rendering of the definition's span.
    pub span: String,
    pub size: u64,
    pub align: u64,
    pub tool_attrs: Vec<String>,
    pub docs: Vec<String>,
    pub kind: AdtKind,
    pub num_variants: u64,
    /// The compiler's debug rendering of the layout's field shape.
    pub layout_fields: String,
    /// The field offsets, when the layout places fields arbitrarily.
    pub offsets: Option<Vec<u64>>,
    pub variants: Vec<VariantReport>,
}

/// A trait impl of the crate and the names of its associated items.
#[derive(Debug)]
pub struct ImplReport {
    pub name: String,
    pub assoc: Vec<String>,
}

/// The signature of a function item, each type displayed by the compiler.
#[derive(Debug)]
pub struct SigReport {
    pub inputs: Vec<String>,
    pub output: String,
}

/// A local item of the crate.
#[derive(Debug)]
pub struct ItemReport {
    /// The doc lines of the impl block that owns the item, if any.
    pub owner_docs: Option<Vec<String>>,
    pub is_pub: bool,
    pub name: String,
    /// The compiler's debug rendering of the item's span.
    pub span: String,
    pub docs: Vec<String>,
    pub kind: ItemKind,
    pub sig: Option<SigReport>,
}

/// Everything the analyser reports about a crate.
#[derive(Debug)]
pub struct CrateReport {
    pub name: String,
    pub adts: Vec<AdtReport>,
    pub impls: Vec<ImplReport>,
    pub items: Vec<ItemReport>,
}

// ---------------------------------------------------------------------
// The lines, as sequences of characters.
// ---------------------------------------------------------------------

/// `prefix + x + suffix` for each `x`.
pub open spec fn framed(prefix: Seq<char>, xs: Seq<Seq<char>>, suffix: Seq<char>) -> Seq<Seq<char>> {
    xs.map_values(|x: Seq<char>| prefix + x + suffix)
}

/// The groups of lines, one after the other.
pub open spec fn flat(groups: Seq<Seq<Seq<char>>>) -> Seq<Seq<char>>
    decreases groups.len(),
{
    if groups.len() == 0 {
        Seq::empty()
    } else {
        flat(groups.drop_last()) + groups.last()
    }
}

pub open spec fn pub_prefix(is_pub: bool) -> Seq<char> {
    if is_pub {
        "pub "@
    } else {
        Seq::empty()
    }
}

pub open spec fn adt_kind_name(k: AdtKind) -> Seq<char> {
    match k {
        AdtKind::Enum => "Enum"@,
        AdtKind::Union => "Union"@,
        AdtKind::Struct => "Struct"@,
    }
}

pub open spec fn item_kind_name(k: ItemKind) -> Seq<char> {
    match k {
        ItemKind::Fn => "Fn"@,
        ItemKind::Static => "Static"@,
        ItemKind::Const => "Const"@,
        ItemKind::CtorConst => "Ctor(Const)"@,
        ItemKind::CtorFn => "Ctor(Fn)"@,
    }
}

pub open spec fn crate_header(name: Seq<char>) -> Seq<char> {
    "--- Analyzing crate: "@ + name
}

pub open spec fn adt_header(a: AdtReport) -> Seq<char> {
    "  - "@ + a.name@ + " @"@ + a.span@ + " @Layout{ size: "@ + decimal(a.size as nat)
        + ", align: "@ + decimal(a.align as nat) + " }"@
}

pub open spec fn adt_kind_line(a: AdtReport) -> Seq<char> {
    "    - "@ + adt_kind_name(a.kind) + " ("@ + decimal(a.num_variants as nat) + " variants) {"@
}

/// The field's own name: its trimmed path without the leading
/// `Type::` and then `Variant::` parts.
pub open spec fn field_name_of(adt: Seq<char>, variant: Seq<char>, path: Seq<char>) -> Seq<char> {
    trimmed(trimmed(path, adt + "::"@), variant + "::"@)
}

/// A struct field's path `<Type>::<field>` reports the field's own name,
/// when that name does not itself start with `<Type>::`.
pub proof fn lemma_struct_field_name(adt: Seq<char>, name: Seq<char>)
    requires
        !((adt + "::"@).len() <= name.len() && name.take((adt + "::"@).len() as int) == adt
            + "::"@),
    ensures
        field_name_of(adt, adt, adt + "::"@ + name) == name,
{
    reveal_strlit("::");
    let p = adt + "::"@;
    assert(p.len() > 0);
    crate::text::lemma_trimmed_leading_copy(p, name);
    assert(adt + "::"@ + name =~= p + name);
}

/// The offset reported for the field at `index`: the layout's offset when
/// it has one for that index, else 0.
pub open spec fn offset_of(offsets: Option<Vec<u64>>, index: int) -> nat {
    match offsets {
        Some(o) => if 0 <= index < o@.len() {
            o@[index] as nat
        } else {
            0
        },
        None => 0,
    }
}

pub open spec fn field_line_of(a: AdtReport, v: VariantReport, index: int) -> Seq<char> {
    let f = v.fields@[index];
    "        "@ + pub_prefix(f.is_pub) + field_name_of(a.name@, v.name@, f.trimmed_name@) + ": "@
        + f.ty@ + ", @offset("@ + decimal(offset_of(a.offsets, index)) + ")"@
}

pub open spec fn variant_lines(a: AdtReport, v: VariantReport) -> Seq<Seq<char>> {
    seq!["      "@ + v.name@ + " {"@, "      FIELDS: "@ + v.fields_debug@] + Seq::new(
        v.fields@.len(),
        |i: int| field_line_of(a, v, i),
    ) + seq!["      },"@]
}

pub open spec fn adt_lines(a: AdtReport) -> Seq<Seq<char>> {
    seq![adt_header(a)] + framed("    - TOOL_ATTR: "@, a.tool_attrs.deep_view(), Seq::empty())
        + framed("    - Docs: "@, a.docs.deep_view(), Seq::empty()) + seq![
        adt_kind_line(a),
        "      FIELDS: "@ + a.layout_fields@,
    ] + flat(a.variants@.map_values(|v: VariantReport| variant_lines(a, v))) + seq!["    }"@]
}

pub open spec fn impl_lines(i: ImplReport) -> Seq<Seq<char>> {
    seq!["  Impl: "@ + i.name@] + framed("    - assoc: "@, i.assoc.deep_view(), Seq::empty())
}

pub open spec fn owner_docs_lines(docs: Option<Vec<String>>) -> Seq<Seq<char>> {
    match docs {
        Some(d) => seq!["  Owner Docs: "@] + framed("    - Docs: "@, d.deep_view(), " "@),
        None => Seq::empty(),
    }
}

pub open spec fn item_header(it: ItemReport) -> Seq<char> {
    "  - "@ + pub_prefix(it.is_pub) + "fn "@ + it.name@ + " @"@ + it.span@
}

pub open spec fn item_kind_line(k: ItemKind) -> Seq<char> {
    "    - Kind: "@ + item_kind_name(k) + " "@
}

pub open spec fn sig_line_of(s: SigReport) -> Seq<char> {
    "    - @Sig ("@ + joined(s.inputs.deep_view(), ", "@) + ") -> "@ + s.output@ + " "@
}

pub open spec fn sig_lines(sig: Option<SigReport>) -> Seq<Seq<char>> {
    match sig {
        Some(s) => seq![sig_line_of(s)],
        None => Seq::empty(),
    }
}

pub open spec fn item_lines(it: ItemReport) -> Seq<Seq<char>> {
    owner_docs_lines(it.owner_docs) + seq![item_header(it)] + framed(
        "   - Docs: "@,
        it.docs.deep_view(),
        Seq::empty(),
    ) + seq![item_kind_line(it.kind)] + sig_lines(it.sig)
}

/// Every line the analyser prints for the crate, in order.
pub open spec fn crate_lines(r: CrateReport) -> Seq<Seq<char>> {
    seq![crate_header(r.name@)] + flat(r.adts@.map_values(|a: AdtReport| adt_lines(a))) + flat(
        r.impls@.map_values(|i: ImplReport| impl_lines(i)),
    ) + flat(r.items@.map_values(|it: ItemReport| item_lines(it)))
}

// ---------------------------------------------------------------------
// Laws of the report.
// ---------------------------------------------------------------------

/// Framing keeps one line per part, in order: line `k` is the prefix, the
/// `k`-th part and the suffix.
pub proof fn lemma_framed_lines(prefix: Seq<char>, xs: Seq<Seq<char>>, suffix: Seq<char>)
    ensures
        framed(prefix, xs, suffix).len() == xs.len(),
        forall|k: int|
            0 <= k < xs.len() ==> #[trigger] framed(prefix, xs, suffix)[k] == prefix + xs[k]
                + suffix,
{
}

/// Flattening keeps every group whole and in order: no groups give no
/// lines, one group gives its own lines, and the lines of two runs of
/// groups follow one another.
pub proof fn lemma_flat_concat(a: Seq<Seq<Seq<char>>>, b: Seq<Seq<Seq<char>>>)
    ensures
        flat(Seq::<Seq<Seq<char>>>::empty()) == Seq::<Seq<char>>::empty(),
        flat(a + b) == flat(a) + flat(b),
    decreases b.len(),
{
    if b.len() == 0 {
        assert(a + b =~= a);
        assert(flat(a) + flat(b) =~= flat(a));
    } else {
        lemma_flat_concat(a, b.drop_last());
        assert((a + b).drop_last() =~= a + b.drop_last());
        assert((a + b).last() == b.last());
        assert(flat(a + b) =~= flat(a) + flat(b));
    }
}

/// A single group flattens to its own lines.
pub proof fn lemma_flat_single(g: Seq<Seq<char>>)
    ensures
        flat(seq![g]) == g,
{
    assert(seq![g].drop_last() =~= Seq::<Seq<Seq<char>>>::empty());
    assert(flat(Seq::<Seq<Seq<char>>>::empty()) + g =~= g);
}

/// The line of field `index` reports that field: its pub marker, its own
/// name, its type, and the layout's offset at that same index (0 when
/// the layout gives no offset for it).
pub proof fn lemma_field_line_reports_its_offset(a: AdtReport, v: VariantReport, index: int)
    requires
        0 <= index < v.fields@.len(),
    ensures
        ({
            let f = v.fields@[index];
            let off: nat = match a.offsets {
                Some(o) => if index < o@.len() {
                    o@[index] as nat
                } else {
                    0
                },
                None => 0,
            };
            let suffix = "@offset("@ + decimal(off) + ")"@;
            let line = field_line_of(a, v, index);
            &&& line == "        "@ + (if f.is_pub {
                "pub "@
            } else {
                Seq::empty()
            }) + field_name_of(a.name@, v.name@, f.trimmed_name@) + ": "@ + f.ty@ + ", "@
                + suffix
            &&& suffix.len() <= line.len()
            &&& line.skip(line.len() - suffix.len()) == suffix
        }),
{
    let f = v.fields@[index];
    let off = offset_of(a.offsets, index);
    reveal_strlit(", @offset(");
    reveal_strlit(", ");
    reveal_strlit("@offset(");
    let head = "        "@ + pub_prefix(f.is_pub) + field_name_of(a.name@, v.name@, f.trimmed_name@)
        + ": "@ + f.ty@;
    let suffix = "@offset("@ + decimal(off) + ")"@;
    assert(", @offset("@ =~= ", "@ + "@offset("@);
    assert(field_line_of(a, v, index) =~= head + ", "@ + suffix);
    let line = field_line_of(a, v, index);
    assert(line.skip(line.len() - suffix.len()) =~= suffix);
}

/// The kind names the report prints.
pub proof fn lemma_kind_names()
    ensures
        adt_kind_name(AdtKind::Enum) == "Enum"@,
        adt_kind_name(AdtKind::Union) == "Union"@,
        adt_kind_name(AdtKind::Struct) == "Struct"@,
        item_kind_name(ItemKind::Fn) == "Fn"@,
        item_kind_name(ItemKind::Static) == "Static"@,
        item_kind_name(ItemKind::Const) == "Const"@,
        item_kind_name(ItemKind::CtorConst) == "Ctor(Const)"@,
        item_kind_name(ItemKind::CtorFn) == "Ctor(Fn)"@,
{
}

/// An enum variant field's path `<Type>::<Variant>::<field>` reports the
/// field's own name, when neither prefix is repeated after it.
pub proof fn lemma_variant_field_name(adt: Seq<char>, variant: Seq<char>, name: Seq<char>)
    requires
        !((adt + "::"@).len() <= (variant + "::"@ + name).len() && (variant + "::"@ + name).take(
            (adt + "::"@).len() as int,
        ) == adt + "::"@),
        !((variant + "::"@).len() <= name.len() && name.take((variant + "::"@).len() as int)
            == variant + "::"@),
    ensures
        field_name_of(adt, variant, adt + "::"@ + variant + "::"@ + name) == name,
{
    reveal_strlit("::");
    let p = adt + "::"@;
    let q = variant + "::"@;
    crate::text::lemma_trimmed_leading_copy(p, q + name);
    assert(adt + "::"@ + variant + "::"@ + name =~= p + (q + name));
    assert(q + name =~= variant + "::"@ + name);
    crate::text::lemma_trimmed_leading_copy(q, name);
}

/// The lines of the whole report: the crate header first, then the lines
/// of every data type, then of every trait impl, then of every item, each
/// run in the report's order.
pub proof fn lemma_crate_lines_sections(r: CrateReport)
    ensures
        crate_lines(r)[0] == "--- Analyzing crate: "@ + r.name@,
        crate_lines(r) == seq![crate_lines(r)[0]] + flat(
            r.adts@.map_values(|a: AdtReport| adt_lines(a)),
        ) + flat(r.impls@.map_values(|i: ImplReport| impl_lines(i))) + flat(
            r.items@.map_values(|it: ItemReport| item_lines(it)),
        ),
{
}

/// The lines of a variant: its header, its fields' debug line, one line
/// per field in order, and the closing line.
pub proof fn lemma_variant_lines_layout(a: AdtReport, v: VariantReport)
    ensures
        variant_lines(a, v).len() == 3 + v.fields@.len(),
        variant_lines(a, v)[0] == "      "@ + v.name@ + " {"@,
        variant_lines(a, v)[1] == "      FIELDS: "@ + v.fields_debug@,
        forall|k: int|
            0 <= k < v.fields@.len() ==> #[trigger] variant_lines(a, v)[2 + k] == field_line_of(
                a,
                v,
                k,
            ),
        variant_lines(a, v).last() == "      },"@,
{
}

/// The lines of a data type begin with its header, one line per tool
/// attribute and then one per doc line, in order, then its kind line and
/// its layout's fields line; they end with the closing line.
pub proof fn lemma_adt_lines_layout(a: AdtReport)
    ensures
        ({
            let lines = adt_lines(a);
            let t = a.tool_attrs@.len() as int;
            let d = a.docs@.len() as int;
            &&& lines.len() >= 4 + t + d
            &&& lines[0] == "  - "@ + a.name@ + " @"@ + a.span@ + " @Layout{ size: "@ + decimal(
                a.size as nat,
            ) + ", align: "@ + decimal(a.align as nat) + " }"@
            &&& forall|k: int|
                0 <= k < t ==> #[trigger] lines[1 + k] == "    - TOOL_ATTR: "@
                    + a.tool_attrs@[k]@
            &&& forall|k: int|
                0 <= k < d ==> #[trigger] lines[1 + t + k] == "    - Docs: "@ + a.docs@[k]@
            &&& lines[1 + t + d] == "    - "@ + adt_kind_name(a.kind) + " ("@ + decimal(
                a.num_variants as nat,
            ) + " variants) {"@
            &&& lines[2 + t + d] == "      FIELDS: "@ + a.layout_fields@
            &&& lines.subrange(3 + t + d, lines.len() - 1) == flat(
                a.variants@.map_values(|v: VariantReport| variant_lines(a, v)),
            )
            &&& lines.last() == "    }"@
        }),
{
    lemma_framed_lines("    - TOOL_ATTR: "@, a.tool_attrs.deep_view(), Seq::empty());
    lemma_framed_lines("    - Docs: "@, a.docs.deep_view(), Seq::empty());
    let t = a.tool_attrs@.len() as int;
    let d = a.docs@.len() as int;
    let lines = adt_lines(a);
    let vl = flat(a.variants@.map_values(|v: VariantReport| variant_lines(a, v)));
    assert(lines.subrange(3 + t + d, lines.len() - 1) =~= vl);
    assert forall|k: int| 0 <= k < t implies #[trigger] lines[1 + k] == "    - TOOL_ATTR: "@
        + a.tool_attrs@[k]@ by {
        assert(a.tool_attrs.deep_view()[k] == a.tool_attrs@[k]@);
        assert("    - TOOL_ATTR: "@ + a.tool_attrs@[k]@ + Seq::<char>::empty() =~= "    - TOOL_ATTR: "@
            + a.tool_attrs@[k]@);
    }
    assert forall|k: int| 0 <= k < d implies #[trigger] lines[1 + t + k] == "    - Docs: "@
        + a.docs@[k]@ by {
        assert(a.docs.deep_view()[k] == a.docs@[k]@);
        assert("    - Docs: "@ + a.docs@[k]@ + Seq::<char>::empty() =~= "    - Docs: "@
            + a.docs@[k]@);
    }
}

/// The lines of a trait impl: its header, then exactly one line per
/// associated item, in order.
pub proof fn lemma_impl_lines_layout(i: ImplReport)
    ensures
        impl_lines(i).len() == 1 + i.assoc@.len(),
        impl_lines(i)[0] == "  Impl: "@ + i.name@,
        forall|k: int|
            0 <= k < i.assoc@.len() ==> #[trigger] impl_lines(i)[1 + k] == "    - assoc: "@
                + i.assoc@[k]@,
{
    lemma_framed_lines("    - assoc: "@, i.assoc.deep_view(), Seq::empty());
    assert forall|k: int| 0 <= k < i.assoc@.len() implies #[trigger] impl_lines(i)[1 + k]
        == "    - assoc: "@ + i.assoc@[k]@ by {
        assert(i.assoc.deep_view()[k] == i.assoc@[k]@);
        assert("    - assoc: "@ + i.assoc@[k]@ + Seq::<char>::empty() =~= "    - assoc: "@
            + i.assoc@[k]@);
    }
}

/// The lines of a local item, whatever its kind: the owner's doc block
/// (a header and one line per owner doc line) when it has an owner, its
/// own header, exactly one line per doc line in order, its kind line, and
/// its signature line when it has a signature.
pub proof fn lemma_item_lines_layout(it: ItemReport)
    ensures
        ({
            let lines = item_lines(it);
            let o: int = match it.owner_docs {
                Some(d) => 1 + d@.len() as int,
                None => 0,
            };
            let n = it.docs@.len() as int;
            let s: int = if it.sig is Some {
                1
            } else {
                0
            };
            &&& lines.len() == o + 1 + n + 1 + s
            &&& it.owner_docs matches Some(d) ==> {
                &&& lines[0] == "  Owner Docs: "@
                &&& forall|k: int|
                    0 <= k < d@.len() ==> #[trigger] lines[1 + k] == "    - Docs: "@ + d@[k]@
                        + " "@
            }
            &&& lines[o] == "  - "@ + (if it.is_pub {
                "pub "@
            } else {
                Seq::empty()
            }) + "fn "@ + it.name@ + " @"@ + it.span@
            &&& forall|k: int|
                0 <= k < n ==> #[trigger] lines[o + 1 + k] == "   - Docs: "@ + it.docs@[k]@
            &&& lines[o + 1 + n] == "    - Kind: "@ + item_kind_name(it.kind) + " "@
            &&& it.sig matches Some(sig) ==> lines[o + 2 + n] == "    - @Sig ("@ + joined(
                sig.inputs.deep_view(),
                ", "@,
            ) + ") -> "@ + sig.output@ + " "@
        }),
{
    let lines = item_lines(it);
    let n = it.docs@.len() as int;
    lemma_framed_lines("   - Docs: "@, it.docs.deep_view(), Seq::empty());
    let o: int = match it.owner_docs {
        Some(d) => 1 + d@.len() as int,
        None => 0,
    };
    match it.owner_docs {
        Some(d) => {
            lemma_framed_lines("    - Docs: "@, d.deep_view(), " "@);
            assert forall|k: int| 0 <= k < d@.len() implies #[trigger] lines[1 + k]
                == "    - Docs: "@ + d@[k]@ + " "@ by {
                assert(d.deep_view()[k] == d@[k]@);
            }
        },
        None => {},
    }
    assert(owner_docs_lines(it.owner_docs).len() == o);
    assert forall|k: int| 0 <= k < n implies #[trigger] lines[o + 1 + k] == "   - Docs: "@
        + it.docs@[k]@ by {
        assert(it.docs.deep_view()[k] == it.docs@[k]@);
        assert("   - Docs: "@ + it.docs@[k]@ + Seq::<char>::empty() =~= "   - Docs: "@
            + it.docs@[k]@);
    }
}

// ---------------------------------------------------------------------
// Building the lines.
// ---------------------------------------------------------------------

fn push_line(out: &mut Vec<String>, line: String)
    ensures
        final(out).deep_view() == old(out).deep_view().push(line@),
{
    out.push(line);
    assert(out.deep_view() =~= old(out).deep_view().push(line@));
}

fn concat3(a: &str, b: &str, c: &str) -> (s: String)
    ensures
        s@ == a@ + b@ + c@,
{
    let mut s = String::from_str(a);
    s.append(b);
    s.append(c);
    s
}

/// Appends `prefix + x + suffix` for each `x` of `xs`.
fn push_framed(out: &mut Vec<String>, prefix: &str, xs: &Vec<String>, suffix: &str)
    ensures
        final(out).deep_view() == old(out).deep_view() + framed(prefix@, xs.deep_view(), suffix@),
{
    let n = xs.len();
    let mut i: usize = 0;
    while i < n
        invariant
            n == xs.len(),
            i <= n,
            out.deep_view() == old(out).deep_view() + framed(
                prefix@,
                xs.deep_view().take(i as int),
                suffix@,
            ),
        decreases n - i,
    {
        let line = concat3(prefix, xs[i].as_str(), suffix);
        push_line(out, line);
        assert(framed(prefix@, xs.deep_view().take(i + 1), suffix@) =~= framed(
            prefix@,
            xs.deep_view().take(i as int),
            suffix@,
        ).push(prefix@ + xs.deep_view()[i as int] + suffix@));
        i = i + 1;
    }
    assert(xs.deep_view().take(n as int) =~= xs.deep_view());
}

fn pub_prefix_str(is_pub: bool) -> (s: &'static str)
    ensures
        s@ == pub_prefix(is_pub),
{
    if is_pub {
        "pub "
    } else {
        proof { reveal_strlit(""); }
        ""
    }
}

fn adt_kind_str(k: AdtKind) -> (s: &'static str)
    ensures
        s@ == adt_kind_name(k),
{
    match k {
        AdtKind::Enum => "Enum",
        AdtKind::Union => "Union",
        AdtKind::Struct => "Struct",
    }
}

fn item_kind_str(k: ItemKind) -> (s: &'static str)
    ensures
        s@ == item_kind_name(k),
{
    match k {
        ItemKind::Fn => "Fn",
        ItemKind::Static => "Static",
        ItemKind::Const => "Const",
        ItemKind::CtorConst => "Ctor(Const)",
        ItemKind::CtorFn => "Ctor(Fn)",
    }
}

/// `--- Analyzing crate: <name>`
pub fn crate_header_line(name: &str) -> (line: String)
    ensures
        line@ == crate_header(name@),
{
    let mut line = String::from_str("--- Analyzing crate: ");
    line.append(name);
    line
}

/// `  - <name> @<span> @Layout{ size: <size>, align: <align> }`
pub fn adt_header_line(a: &AdtReport) -> (line: String)
    ensures
        line@ == adt_header(*a),
{
    let mut line = String::from_str("  - ");
    line.append(a.name.as_str());
    line.append(" @");
    line.append(a.span.as_str());
    line.append(" @Layout{ size: ");
    push_decimal(&mut line, a.size);
    line.append(", align: ");
    push_decimal(&mut line, a.align);
    line.append(" }");
    line
}

/// `    - <kind> (<n> variants) {`
pub fn adt_kind_line_of(a: &AdtReport) -> (line: String)
    ensures
        line@ == adt_kind_line(*a),
{
    let mut line = String::from_str("    - ");
    line.append(adt_kind_str(a.kind));
    line.append(" (");
    push_decimal(&mut line, a.num_variants);
    line.append(" variants) {");
    line
}

/// The field's own name: `path` without the leading `<adt>::` and then
/// `<variant>::` parts.
pub fn field_name(adt: &str, variant: &str, path: &str) -> (name: String)
    ensures
        name@ == field_name_of(adt@, variant@, path@),
{
    let adt_prefix = concat3(adt, "::", "");
    let variant_prefix = concat3(variant, "::", "");
    proof {
        reveal_strlit("");
        assert(adt_prefix@ =~= adt@ + "::"@);
        assert(variant_prefix@ =~= variant@ + "::"@);
    }
    let once = trim_start_matches(path, adt_prefix.as_str());
    trim_start_matches(once.as_str(), variant_prefix.as_str())
}

/// The offset of the field at `index`, or 0 when the layout gives none.
pub fn field_offset(offsets: &Option<Vec<u64>>, index: usize) -> (off: u64)
    ensures
        off as nat == offset_of(*offsets, index as int),
{
    match offsets {
        Some(o) => if index < o.len() {
            o[index]
        } else {
            0
        },
        None => 0,
    }
}

/// `        [pub ]<field>: <type>, @offset(<offset>)`
pub fn field_line(a: &AdtReport, v: &VariantReport, index: usize) -> (line: String)
    requires
        index < v.fields.len(),
    ensures
        line@ == field_line_of(*a, *v, index as int),
{
    let f = &v.fields[index];
    let mut line = String::from_str("        ");
    line.append(pub_prefix_str(f.is_pub));
    let name = field_name(a.name.as_str(), v.name.as_str(), f.trimmed_name.as_str());
    line.append(name.as_str());
    line.append(": ");
    line.append(f.ty.as_str());
    line.append(", @offset(");
    push_decimal(&mut line, field_offset(&a.offsets, index));
    line.append(")");
    line
}

/// Appends the lines of one variant of `a`.
pub fn render_variant(a: &AdtReport, v: &VariantReport, out: &mut Vec<String>)
    ensures
        final(out).deep_view() == old(out).deep_view() + variant_lines(*a, *v),
{
    push_line(out, concat3("      ", v.name.as_str(), " {"));
    push_line(out, concat3("      FIELDS: ", v.fields_debug.as_str(), ""));
    proof { reveal_strlit(""); }
    let ghost start = out.deep_view();
    let ghost lines = Seq::new(v.fields@.len(), |i: int| field_line_of(*a, *v, i));
    let n = v.fields.len();
    let mut i: usize = 0;
    while i < n
        invariant
            n == v.fields.len(),
            i <= n,
            lines == Seq::new(v.fields@.len(), |i: int| field_line_of(*a, *v, i)),
            out.deep_view() == start + lines.take(i as int),
        decreases n - i,
    {
        let line = field_line(a, v, i);
        push_line(out, line);
        assert(lines.take(i + 1) =~= lines.take(i as int).push(lines[i as int]));
        i = i + 1;
    }
    assert(lines.take(n as int) =~= lines);
    push_line(out, String::from_str("      },"));
    assert(out.deep_view() =~= old(out).deep_view() + variant_lines(*a, *v));
}

/// Appends the lines of one algebraic data type.
pub fn render_adt(a: &AdtReport, out: &mut Vec<String>)
    ensures
        final(out).deep_view() == old(out).deep_view() + adt_lines(*a),
{
    proof { reveal_strlit(""); }
    push_line(out, adt_header_line(a));
    push_framed(out, "    - TOOL_ATTR: ", &a.tool_attrs, "");
    push_framed(out, "    - Docs: ", &a.docs, "");
    push_line(out, adt_kind_line_of(a));
    push_line(out, concat3("      FIELDS: ", a.layout_fields.as_str(), ""));
    let ghost start = out.deep_view();
    let ghost groups = a.variants@.map_values(|v: VariantReport| variant_lines(*a, v));
    let n = a.variants.len();
    let mut i: usize = 0;
    while i < n
        invariant
            n == a.variants.len(),
            i <= n,
            groups == a.variants@.map_values(|v: VariantReport| variant_lines(*a, v)),
            out.deep_view() == start + flat(groups.take(i as int)),
        decreases n - i,
    {
        render_variant(a, &a.variants[i], out);
        assert(groups.take(i + 1).drop_last() =~= groups.take(i as int));
        assert(out.deep_view() =~= start + flat(groups.take(i + 1)));
        i = i + 1;
    }
    assert(groups.take(n as int) =~= groups);
    push_line(out, String::from_str("    }"));
    assert(out.deep_view() =~= old(out).deep_view() + adt_lines(*a));
}

/// Appends the lines of one trait impl.
pub fn render_impl(i: &ImplReport, out: &mut Vec<String>)
    ensures
        final(out).deep_view() == old(out).deep_view() + impl_lines(*i),
{
    proof { reveal_strlit(""); }
    push_line(out, concat3("  Impl: ", i.name.as_str(), ""));
    push_framed(out, "    - assoc: ", &i.assoc, "");
    assert(out.deep_view() =~= old(out).deep_view() + impl_lines(*i));
}

/// `    - @Sig (<inputs>) -> <output> `
pub fn sig_line(sig: &SigReport) -> (line: String)
    ensures
        line@ == sig_line_of(*sig),
{
    let mut line = String::from_str("    - @Sig (");
    let inputs = crate::text::join(&sig.inputs, ", ");
    line.append(inputs.as_str());
    line.append(") -> ");
    line.append(sig.output.as_str());
    line.append(" ");
    line
}

/// Appends the lines of one local item.
pub fn render_item(it: &ItemReport, out: &mut Vec<String>)
    ensures
        final(out).deep_view() == old(out).deep_view() + item_lines(*it),
{
    proof { reveal_strlit(""); }
    match &it.owner_docs {
        Some(d) => {
            push_line(out, String::from_str("  Owner Docs: "));
            push_framed(out, "    - Docs: ", d, " ");
        },
        None => {},
    }
    let ghost mid = out.deep_view();
    assert(mid =~= old(out).deep_view() + owner_docs_lines(it.owner_docs));
    let mut header = String::from_str("  - ");
    header.append(pub_prefix_str(it.is_pub));
    header.append("fn ");
    header.append(it.name.as_str());
    header.append(" @");
    header.append(it.span.as_str());
    push_line(out, header);
    push_framed(out, "   - Docs: ", &it.docs, "");
    push_line(out, concat3("    - Kind: ", item_kind_str(it.kind), " "));
    match &it.sig {
        Some(sig) => push_line(out, sig_line(sig)),
        None => {},
    }
    assert(out.deep_view() =~= old(out).deep_view() + item_lines(*it));
}

/// Every line the analyser prints for the crate, in order.
pub fn render_crate(r: &CrateReport) -> (lines: Vec<String>)
    ensures
        lines.deep_view() == crate_lines(*r),
{
    let mut out: Vec<String> = Vec::new();
    push_line(&mut out, crate_header_line(r.name.as_str()));
    let ghost s0 = out.deep_view();
    let ghost g1 = r.adts@.map_values(|a: AdtReport| adt_lines(a));
    let n1 = r.adts.len();
    let mut i: usize = 0;
    while i < n1
        invariant
            n1 == r.adts.len(),
            i <= n1,
            g1 == r.adts@.map_values(|a: AdtReport| adt_lines(a)),
            out.deep_view() == s0 + flat(g1.take(i as int)),
        decreases n1 - i,
    {
        render_adt(&r.adts[i], &mut out);
        assert(g1.take(i + 1).drop_last() =~= g1.take(i as int));
        assert(out.deep_view() =~= s0 + flat(g1.take(i + 1)));
        i = i + 1;
    }
    assert(g1.take(n1 as int) =~= g1);
    let ghost s1 = out.deep_view();
    let ghost g2 = r.impls@.map_values(|x: ImplReport| impl_lines(x));
    let n2 = r.impls.len();
    let mut j: usize = 0;
    while j < n2
        invariant
            n2 == r.impls.len(),
            j <= n2,
            g2 == r.impls@.map_values(|x: ImplReport| impl_lines(x)),
            out.deep_view() == s1 + flat(g2.take(j as int)),
        decreases n2 - j,
    {
        render_impl(&r.impls[j], &mut out);
        assert(g2.take(j + 1).drop_last() =~= g2.take(j as int));
        assert(out.deep_view() =~= s1 + flat(g2.take(j + 1)));
        j = j + 1;
    }
    assert(g2.take(n2 as int) =~= g2);
    let ghost s2 = out.deep_view();
    let ghost g3 = r.items@.map_values(|x: ItemReport| item_lines(x));
    let n3 = r.items.len();
    let mut k: usize = 0;
    while k < n3
        invariant
            n3 == r.items.len(),
            k <= n3,
            g3 == r.items@.map_values(|x: ItemReport| item_lines(x)),
            out.deep_view() == s2 + flat(g3.take(k as int)),
        decreases n3 - k,
    {
        render_item(&r.items[k], &mut out);
        assert(g3.take(k + 1).drop_last() =~= g3.take(k as int));
        assert(out.deep_view() =~= s2 + flat(g3.take(k + 1)));
        k = k + 1;
    }
    assert(g3.take(n3 as int) =~= g3);
    assert(out.deep_view() =~= crate_lines(*r));
    out
}

} // verus!
