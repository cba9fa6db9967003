use uiua::primitive::impl_prim::{max_row_count, ImplPrimitive};
use uiua::primitive::multi::Token;
use uiua::primitive::trace::fmt_subscript;
use uiua::primitive::{AsciiToken, PrimClass, Primitive};
use uiua::Signature;

#[test]
fn names_find_their_primitive() {
    for p in Primitive::all() {
        assert_eq!(Primitive::from_name(p.name()), Some(p), "{}", p.name());
    }
    assert_eq!(Primitive::from_name("no such primitive"), None);
}

#[test]
fn glyphs_find_their_primitive() {
    for p in Primitive::all() {
        if let Some(g) = p.glyph() {
            assert_eq!(Primitive::from_glyph(g), Some(p));
        }
    }
    assert_eq!(Primitive::from_glyph('q'), None);
}

#[test]
fn ascii_tokens_find_their_primitive() {
    for p in Primitive::all() {
        if let Some(a) = p.ascii() {
            assert_eq!(Primitive::from_ascii(a), Some(p));
        }
    }
    assert_eq!(Primitive::from_ascii(AsciiToken::Star), Some(Primitive::Mul));
}

#[test]
fn duplicate_facts() {
    let p = Primitive::Dup;
    assert_eq!(p.name(), "duplicate");
    assert_eq!(p.glyph(), Some('.'));
    assert_eq!(p.args(), Some(1));
    assert_eq!(p.outputs(), Some(2));
    assert!(p.class() == PrimClass::Stack);
    assert!(p.sig() == Some(Signature::new(1, 2)));
    assert_eq!(p.to_string(), ".");
    assert_eq!(p.format().to_string(), ". duplicate");
    assert!(!p.is_modifier());
    assert!(!p.is_deprecated());
}

#[test]
fn table_is_a_modifier() {
    let p = Primitive::Table;
    assert!(p.is_modifier());
    assert_eq!(p.modifier_args(), Some(1));
    assert_eq!(p.glyph(), Some('⊞'));
}

#[test]
fn format_names_by_alias_name_and_prefix() {
    assert_eq!(Primitive::from_format_name("dup"), Some(Primitive::Dup));
    assert_eq!(Primitive::from_format_name("duplicate"), Some(Primitive::Dup));
    assert_eq!(Primitive::from_format_name("rev"), Some(Primitive::Reverse));
    assert_eq!(Primitive::from_format_name("eq"), Some(Primitive::Eq));
    assert_eq!(Primitive::from_format_name("Dup"), None);
    assert_eq!(Primitive::from_format_name("d"), None);
}

#[test]
fn format_names_of_all_undeprecated_primitives() {
    for p in Primitive::non_deprecated() {
        if p.name().chars().any(|c| c.is_uppercase()) {
            continue;
        }
        assert_eq!(Primitive::from_format_name(p.name()), Some(p), "{}", p.name());
    }
}

#[test]
fn aliases_format_to_their_primitive() {
    for p in Primitive::alias_table() {
        for alias in p.aliases() {
            assert_eq!(Primitive::from_format_name(alias), Some(p), "{alias}");
        }
    }
}

#[test]
fn multi_names_split_forward() {
    let tokens: Vec<Token> = Primitive::from_format_name_multi("dupdup").unwrap();
    assert_eq!(tokens, vec![(Primitive::Dup, "dup"), (Primitive::Dup, "dup")]);
}

#[test]
fn multi_names_use_multi_aliases() {
    let tokens = Primitive::from_format_name_multi("kork").unwrap();
    assert_eq!(
        tokens,
        vec![
            (Primitive::Keep, "k"),
            (Primitive::On, "o"),
            (Primitive::Rows, "r"),
            (Primitive::Keep, "k")
        ]
    );
    assert_eq!(Primitive::get_multi_alias("awm").map(|a| a.len()), Some(3));
    assert!(Primitive::get_multi_alias("zzz").is_none());
}

#[test]
fn multi_names_planet_notation() {
    let tokens = Primitive::from_format_name_multi("gdp").unwrap();
    assert_eq!(
        tokens,
        vec![(Primitive::Gap, "g"), (Primitive::Dip, "d"), (Primitive::Pop, "p")]
    );
}

#[test]
fn multi_names_too_short() {
    assert!(Primitive::from_format_name_multi("d").is_none());
}

#[test]
fn subscripts_write_digits_from_the_least_significant() {
    assert_eq!(fmt_subscript(12), "₂₁");
    assert_eq!(fmt_subscript(-3), "₋₃");
    assert_eq!(fmt_subscript(0), "");
}

#[test]
fn subscript_signatures() {
    assert!(Primitive::Add.subscript_sig(Some(2)) == Some(Signature::new(1, 1)));
    assert!(Primitive::First.subscript_sig(Some(3)) == Some(Signature::new(1, 3)));
    assert!(Primitive::Couple.subscript_sig(None) == Some(Signature::new(2, 1)));
    assert!(Primitive::Reverse.subscript_sig(Some(1)).is_none());
}

#[test]
fn class_lists_its_primitives() {
    let stack = PrimClass::Stack.primitives();
    assert!(stack.contains(&Primitive::Dup));
    assert!(stack.iter().all(|p| p.class() == PrimClass::Stack));
    assert!(PrimClass::DyadicPervasive.is_pervasive());
    assert!(!PrimClass::Stack.is_pervasive());
}

#[test]
fn non_deprecated_primitives_are_not_deprecated() {
    assert!(Primitive::non_deprecated().iter().all(|p| !p.is_deprecated()));
}

#[test]
fn implementation_primitives_are_written_with_glyphs() {
    assert_eq!(ImplPrimitive::Root.to_string(), "⌝ⁿ");
    assert_eq!(ImplPrimitive::Cos.to_string(), "cos");
    assert_eq!(ImplPrimitive::Acos.to_string(), "°cos");
    assert_eq!(ImplPrimitive::UnJoinEnd.to_string(), "°(⊂:)");
    assert_eq!(ImplPrimitive::MaxRowCount(12).to_string(), "MaxRowCount(12)");
    assert_eq!(ImplPrimitive::UndoReverse { n: 3, all: true }.to_string(), "⍜⇌(3)");
    assert_eq!(ImplPrimitive::ReduceDepth(2).to_string(), "≡≡/(…)");
    assert_eq!(ImplPrimitive::TransposeN(2).to_string(), "⍉⍉");
    assert_eq!(ImplPrimitive::TransposeN(-1).to_string(), "°⍉");
    assert_eq!(ImplPrimitive::TransposeN(-2).to_string(), "°(⍉⍉)");
    assert_eq!(ImplPrimitive::StackN { n: 12, inverse: false }.to_string(), "?₁₂");
    assert_eq!(ImplPrimitive::StackN { n: 3, inverse: true }.to_string(), "°?₃");
    assert_eq!(ImplPrimitive::DeshapeSub(21).to_string(), "♭₁₂");
    assert_eq!(ImplPrimitive::TryClose.to_string(), "&cl");
}

#[test]
fn multi_aliases_read_as_their_primitives() {
    for (alias, tokens) in Primitive::multi_aliases() {
        let parsed = Primitive::from_format_name_multi(alias).unwrap();
        assert_eq!(parsed.as_slice(), *tokens, "{alias}");
    }
}

#[test]
fn short_aliases_of_every_primitive() {
    assert_eq!(Primitive::Stencil.aliases(), &["st", "win"]);
    assert_eq!(Primitive::Ne.aliases(), &["ne", "neq"]);
    assert_eq!(Primitive::Identity.aliases(), &["id"]);
    assert!(Primitive::Add.aliases().is_empty());
}

#[test]
fn texts_of_multi_names_lay_out_the_name() {
    for name in ["dupdup", "kork", "gdp", "fgdi", "ddf", "kbnrev"] {
        if let Some(tokens) = Primitive::from_format_name_multi(name) {
            let text: String = tokens.iter().map(|t| t.1).collect();
            assert_eq!(text, name);
        }
    }
}

#[test]
fn every_primitive_class() {
    let all = PrimClass::all();
    assert_eq!(all.len(), 26);
    assert_eq!(all[0], PrimClass::Stack);
    assert_eq!(all[16], PrimClass::Misc);
    assert!(matches!(all[25], PrimClass::Sys(_)));
}

#[test]
fn max_row_counts() {
    assert_eq!(max_row_count(&vec![]), 1);
    assert_eq!(max_row_count(&vec![1, 1]), 1);
    assert_eq!(max_row_count(&vec![1, 3, 0, 2]), 3);
    assert_eq!(max_row_count(&vec![0]), 0);
}
