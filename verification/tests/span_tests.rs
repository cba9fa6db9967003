use uiua::assembly::{Assembly, CodeSpan};
use uiua::ast::{Binding, Func, Item, Sp, Word};
use uiua::lsp::CodeMeta;
use uiua::primitive::Primitive;
use uiua::spans::{IdentDocs, SpanKind, Spanner};

fn sp(start: usize, end: usize, value: Word) -> Sp<Word> {
    Sp { span: CodeSpan { start, end }, value }
}

fn spanner(code: &str) -> Spanner {
    Spanner {
        assembly: Assembly::default(),
        code_meta: CodeMeta::default(),
        code: code.chars().collect(),
        constant_names: vec!["e".to_string()],
    }
}

#[test]
fn words_get_their_kinds() {
    let s = spanner("1 pi [3]");
    let words = vec![
        sp(0, 1, Word::Number),
        sp(1, 2, Word::Spaces),
        sp(2, 4, Word::Number),
        sp(4, 4, Word::Spaces),
        sp(4, 5, Word::Spaces),
        sp(
            5,
            8,
            Word::Array(Func {
                signature: None,
                lines: vec![vec![sp(6, 7, Word::Number)]],
                closed: true,
            }),
        ),
    ];
    let r = s.words_spans(&words);
    assert_eq!(r.len(), 7);
    assert!(matches!(r[0].1, SpanKind::Number));
    assert!(matches!(r[1].1, SpanKind::Whitespace));
    assert!(matches!(r[2].1, SpanKind::Primitive(Primitive::Pi, None)));
    assert!(matches!(r[3].1, SpanKind::Whitespace));
    assert!(r[4].0 == CodeSpan { start: 5, end: 6 } && matches!(r[4].1, SpanKind::Delimiter));
    assert!(matches!(r[5].1, SpanKind::Number));
    assert!(r[6].0 == CodeSpan { start: 7, end: 8 } && matches!(r[6].1, SpanKind::Delimiter));
}

#[test]
fn item_spans_are_sorted_by_start() {
    let mut s = spanner("x = 1\n2");
    s.code_meta.constant_references.push((CodeSpan { start: 0, end: 1 }, "e".to_string()));
    let items = vec![
        Item::Words(vec![vec![sp(6, 7, Word::Number)]]),
        Item::Binding(Binding {
            tilde_span: None,
            name: CodeSpan { start: 0, end: 1 },
            arrow_span: CodeSpan { start: 2, end: 3 },
            signature: None,
            words: vec![sp(4, 5, Word::Number)],
        }),
    ];
    let r = s.items_spans(&items);
    let starts: Vec<usize> = r.iter().map(|x| x.0.start).collect();
    assert_eq!(starts, vec![0, 2, 4, 6]);
    assert!(matches!(
        &r[0].1,
        SpanKind::Ident { docs: Some(IdentDocs::Constant(name)), original: true } if name == "e"
    ));
    assert!(matches!(r[1].1, SpanKind::Delimiter));
}
