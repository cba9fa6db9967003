use ecow::EcoString;
use uiua::assembly::{
    Assembly, BindingCounts, BindingKind, BindingMeta, CodeSpan, DefInfo, Function, LocalName,
    Module, Span,
};
use uiua::inputs::{InputSrc, Inputs};
use uiua::lsp::{make_binding_docs, BindingDocsKind, BindingFacts, SetInverses};
use uiua::{FunctionId, Signature};

fn func(name: &str, sig: Signature) -> Function {
    Function { id: FunctionId::Named(name.to_string()), sig, index: 0, hash: 7 }
}

#[test]
fn storing_bindings_past_the_end_fills_the_gap() {
    let mut assembly = Assembly::default();
    assembly.add_binding_at(
        LocalName { index: 2, public: true },
        BindingKind::Error,
        None,
        BindingMeta::default(),
    );
    assert_eq!(assembly.bindings.len(), 3);
    assert!(matches!(assembly.bindings[0].kind, BindingKind::Const(None)));
    assert!(!assembly.bindings[1].public);
    assert!(matches!(assembly.bindings[2].kind, BindingKind::Error));
    assert!(assembly.bindings[2].public);
    assert!(assembly.bindings[2].span == CodeSpan::dummy());
    assembly.add_binding_at(
        LocalName { index: 0, public: false },
        BindingKind::Func(func("f", Signature::new(2, 1))),
        Some(CodeSpan { start: 3, end: 4 }),
        BindingMeta::default(),
    );
    assert_eq!(assembly.bindings.len(), 3);
    assert!(assembly.bindings[0].kind.sig() == Some(Signature::new(2, 1)));
    assert!(assembly.bindings[0].span == CodeSpan { start: 3, end: 4 });
}

#[test]
fn storing_a_binding_leaves_shared_copies_alone() {
    let mut assembly = Assembly::default();
    assembly.add_binding_at(
        LocalName { index: 0, public: true },
        BindingKind::Error,
        None,
        BindingMeta::default(),
    );
    let shared = assembly.bindings.clone();
    assembly.add_binding_at(
        LocalName { index: 0, public: false },
        BindingKind::Scope(3),
        Some(CodeSpan { start: 5, end: 6 }),
        BindingMeta::default(),
    );
    assembly.add_binding_at(
        LocalName { index: 1, public: true },
        BindingKind::IndexMacro(2),
        None,
        BindingMeta::default(),
    );
    assert_eq!(shared.len(), 1);
    assert!(matches!(shared[0].kind, BindingKind::Error));
    assert!(shared[0].public);
    assert_eq!(assembly.bindings.len(), 2);
    assert!(matches!(assembly.bindings[0].kind, BindingKind::Scope(3)));
    assert!(assembly.bindings[0].span == CodeSpan { start: 5, end: 6 });
    assert!(matches!(assembly.bindings[1].kind, BindingKind::IndexMacro(2)));
}

#[test]
fn file_paths_compare_by_their_components() {
    let mut inputs = Inputs::default();
    inputs.add_src(InputSrc::File("a//b/./c.ua".to_string()), EcoString::from("x"));
    assert_eq!(inputs.get(&InputSrc::File("a/b/c.ua".to_string())).as_str(), "x");
    inputs.add_src(InputSrc::File("a/b/c.ua/".to_string()), EcoString::from("y"));
    assert_eq!(inputs.files.len(), 1);
    assert_eq!(inputs.get(&InputSrc::File("a//b/c.ua".to_string())).as_str(), "y");
    assert!(inputs.try_get_with(&InputSrc::File("./a/b/c.ua".to_string()), |s: &str| s.len()).is_none());
}

#[test]
fn constants_take_the_span_of_their_node() {
    let mut assembly = Assembly::default();
    assembly.spans.push(Span::Code(CodeSpan { start: 1, end: 2 }));
    assembly.bind_const(LocalName { index: 0, public: true }, None, 1, BindingMeta::default());
    assert!(assembly.bindings[0].kind.is_constant());
    assert!(assembly.bindings[0].span == CodeSpan { start: 1, end: 2 });
    assert!(assembly.bindings[0].kind.sig() == Some(Signature::new(0, 1)));
    assembly.bind_const(LocalName { index: 1, public: true }, None, 0, BindingMeta::default());
    assert!(assembly.bindings[1].span == CodeSpan::dummy());
}

#[test]
fn definitions_are_found_by_their_index() {
    let mut assembly = Assembly::default();
    let a = assembly.bind_def(DefInfo { name: Some(EcoString::from("A")) });
    let b = assembly.bind_def(DefInfo { name: None });
    assert_eq!((a, b), (0, 1));
    assert_eq!(assembly.def(0).name.as_ref().map(|n| n.as_str()), Some("A"));
    assert!(assembly.def(1).name.is_none());
}

#[test]
fn functions_are_the_same_by_id_signature_and_hash() {
    let f = func("f", Signature::new(1, 1));
    let mut g = func("f", Signature::new(1, 1));
    g.index = 9;
    assert!(f.same(&g));
    assert!(!f.same(&func("g", Signature::new(1, 1))));
    assert!(!f.same(&func("f", Signature::new(2, 1))));
}

#[test]
fn functions_debug_as_id_and_signature() {
    assert_eq!(func("f", Signature::new(2, 1)).debug_text(), "f ← |2");
}

#[test]
fn binding_counts_text() {
    assert_eq!(BindingCounts { char: 1, sbcs: 1 }.to_string(), "1 character");
    assert_eq!(BindingCounts { char: 5, sbcs: 3 }.to_string(), "5 characters (3 SBCS)");
}

#[test]
fn inputs_give_back_what_was_added() {
    let mut inputs = Inputs::default();
    let src = inputs.add_src(InputSrc::Str(2), EcoString::from("abc"));
    assert!(matches!(src, InputSrc::Str(2)));
    assert_eq!(inputs.get(&InputSrc::Str(2)).as_str(), "abc");
    assert_eq!(inputs.get(&InputSrc::Str(0)).as_str(), "");
    inputs.add_src(InputSrc::File("a.ua".to_string()), EcoString::from("x"));
    inputs.add_src(InputSrc::File("a.ua".to_string()), EcoString::from("y"));
    assert_eq!(inputs.files.len(), 1);
    assert_eq!(inputs.get(&InputSrc::File("a.ua".to_string())).as_str(), "y");
    assert_eq!(inputs.get_with(&InputSrc::Str(2), |s: &str| s.len()), 3);
    assert_eq!(inputs.try_get_with(&InputSrc::Str(2), |s: &str| s.len()), Some(3));
    assert_eq!(inputs.try_get_with(&InputSrc::File("b.ua".to_string()), |s: &str| s.len()), None);
    let span = CodeSpan { start: 0, end: 5 };
    inputs.add_src(InputSrc::Macro(span), EcoString::from("m"));
    assert_eq!(inputs.try_get_with(&InputSrc::Macro(span), |s: &str| s.to_string()), Some("m".to_string()));
    assert_eq!(inputs.get(&InputSrc::Literal(EcoString::from("lit"))).as_str(), "lit");
    assert_eq!(inputs.available_srcs(), "a.ua, string , string , string abc");
}

#[test]
fn docs_of_a_frog() {
    let assembly = Assembly::default();
    let binfo = uiua::assembly::BindingInfo {
        kind: BindingKind::Func(func("🐸", Signature::new(1, 1))),
        public: true,
        span: CodeSpan { start: 0, end: 1 },
        meta: BindingMeta::default(),
    };
    let facts = BindingFacts {
        name: "🐸".to_string(),
        invertible: true,
        underable: false,
        pure: true,
        macro_args: 0,
        escape: None,
    };
    let docs = make_binding_docs(&assembly, binfo, facts);
    assert_eq!(docs.meta.comment.unwrap().text.as_str(), "Ribbit");
    assert!(matches!(
        docs.kind,
        BindingDocsKind::Function { invertible: true, underable: false, pure: true, .. }
    ));
    assert!(docs.is_public);
}

#[test]
fn docs_of_a_module_use_its_new_function() {
    let mut assembly = Assembly::default();
    assembly.add_binding_at(
        LocalName { index: 0, public: true },
        BindingKind::Func(func("New", Signature::new(3, 1))),
        None,
        BindingMeta::default(),
    );
    let module = Module { names: vec![("New".to_string(), LocalName { index: 0, public: true })] };
    let binfo = uiua::assembly::BindingInfo {
        kind: BindingKind::Module(module),
        public: true,
        span: CodeSpan { start: 0, end: 1 },
        meta: BindingMeta::default(),
    };
    let facts = BindingFacts {
        name: "M".to_string(),
        invertible: false,
        underable: false,
        pure: false,
        macro_args: 0,
        escape: None,
    };
    let docs = make_binding_docs(&assembly, binfo, facts);
    assert_eq!(docs.meta.comment.unwrap().text.as_str(), "module");
    match docs.kind {
        BindingDocsKind::Module { sig } => assert!(sig == Some(Signature::new(3, 1))),
        _ => panic!("expected a module"),
    }
}

#[test]
fn set_inverses_text() {
    let all = SetInverses { un: true, anti: true, under: true };
    assert_eq!(all.to_string(), "Sets ° un, ⌝ anti, and ⍜ under inverses here");
    let two = SetInverses { un: true, anti: false, under: true };
    assert_eq!(two.to_string(), "Sets ° un and ⍜ under inverses here");
    let later_two = SetInverses { un: false, anti: true, under: true };
    assert_eq!(later_two.to_string(), "Sets  and ⌝ anti and ⍜ under inverses here");
    let one = SetInverses { un: false, anti: true, under: false };
    assert_eq!(one.to_string(), "Sets ⌝ anti inverse here");
    assert_eq!(SetInverses::default().to_string(), "");
    assert!(SetInverses::default().is_empty());
    assert!(!one.is_empty());
}
