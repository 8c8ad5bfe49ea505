use zngur_autozng::report::{
    adt_header_line, crate_header_line, field_name, field_offset, render_crate, AdtKind, AdtReport,
    CrateReport, FieldReport, ImplReport, ItemKind, ItemReport, SigReport, VariantReport,
};

fn s(x: &str) -> String {
    x.to_string()
}

fn example_adt() -> AdtReport {
    AdtReport {
        name: s("Example"),
        span: s("methods.rs:11:1: 13:2"),
        size: 24,
        align: 8,
        tool_attrs: vec![],
        docs: vec![s(" Docs for Example type")],
        kind: AdtKind::Struct,
        num_variants: 1,
        layout_fields: s("Arbitrary { offsets: [0] }"),
        offsets: Some(vec![0]),
        variants: vec![VariantReport {
            name: s("Example"),
            fields_debug: s("[inner]"),
            fields: vec![FieldReport { trimmed_name: s("Example::inner"), is_pub: false, ty: s("String") }],
        }],
    }
}

#[test]
fn header_lines() {
    assert_eq!(crate_header_line("methods"), "--- Analyzing crate: methods");
    assert_eq!(
        adt_header_line(&example_adt()),
        "  - Example @methods.rs:11:1: 13:2 @Layout{ size: 24, align: 8 }"
    );
}

#[test]
fn field_names_lose_type_and_variant() {
    assert_eq!(field_name("Example", "Example", "Example::inner"), "inner");
    assert_eq!(field_name("Shape", "Circle", "Shape::Circle::radius"), "radius");
    assert_eq!(field_name("Pair", "Pair", "0"), "0");
}

#[test]
fn offsets_default_to_zero() {
    assert_eq!(field_offset(&Some(vec![0, 8, 16]), 1), 8);
    assert_eq!(field_offset(&Some(vec![0]), 3), 0);
    assert_eq!(field_offset(&None, 0), 0);
}

#[test]
fn whole_report() {
    let report = CrateReport {
        name: s("methods"),
        adts: vec![example_adt()],
        impls: vec![ImplReport { name: s("<Example as Trait>"), assoc: vec![s("Output")] }],
        items: vec![
            ItemReport {
                owner_docs: Some(vec![s(" main impl block")]),
                is_pub: true,
                name: s("by_ref"),
                span: s("methods.rs:38:5"),
                docs: vec![s(" by ref fn")],
                kind: ItemKind::Fn,
                sig: Some(SigReport { inputs: vec![s("&Example"), s("&str")], output: s("()") }),
            },
            ItemReport {
                owner_docs: None,
                is_pub: false,
                name: s("main"),
                span: s("methods.rs:96:1"),
                docs: vec![],
                kind: ItemKind::CtorFn,
                sig: None,
            },
        ],
    };
    let expected = vec![
        "--- Analyzing crate: methods",
        "  - Example @methods.rs:11:1: 13:2 @Layout{ size: 24, align: 8 }",
        "    - Docs:  Docs for Example type",
        "    - Struct (1 variants) {",
        "      FIELDS: Arbitrary { offsets: [0] }",
        "      Example {",
        "      FIELDS: [inner]",
        "        inner: String, @offset(0)",
        "      },",
        "    }",
        "  Impl: <Example as Trait>",
        "    - assoc: Output",
        "  Owner Docs: ",
        "    - Docs:  main impl block ",
        "  - pub fn by_ref @methods.rs:38:5",
        "   - Docs:  by ref fn",
        "    - Kind: Fn ",
        "    - @Sig (&Example, &str) -> () ",
        "  - fn main @methods.rs:96:1",
        "    - Kind: Ctor(Fn) ",
    ];
    assert_eq!(render_crate(&report), expected);
}

#[test]
fn enum_and_union_kinds() {
    let mut a = example_adt();
    a.kind = AdtKind::Enum;
    a.num_variants = 3;
    a.variants = vec![];
    a.offsets = None;
    let lines = render_crate(&CrateReport { name: s("c"), adts: vec![a], impls: vec![], items: vec![] });
    assert_eq!(lines[3], "    - Enum (3 variants) {");
    assert_eq!(lines.len(), 6);
    let mut u = example_adt();
    u.kind = AdtKind::Union;
    let lines = render_crate(&CrateReport { name: s("c"), adts: vec![u], impls: vec![], items: vec![] });
    assert_eq!(lines[3], "    - Union (1 variants) {");
}

#[test]
fn item_kinds() {
    for (k, name) in [
        (ItemKind::Static, "Static"),
        (ItemKind::Const, "Const"),
        (ItemKind::CtorConst, "Ctor(Const)"),
    ] {
        let item = ItemReport {
            owner_docs: None,
            is_pub: false,
            name: s("X"),
            span: s("sp"),
            docs: vec![],
            kind: k,
            sig: None,
        };
        let lines = render_crate(&CrateReport { name: s("c"), adts: vec![], impls: vec![], items: vec![item] });
        assert_eq!(lines[2], format!("    - Kind: {} ", name));
    }
}
