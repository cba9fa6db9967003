use uiua::assembly::Function;
use uiua::constant::{ConstClass, ConstantValue};
use uiua::invert::{generic, InversionError, SigCheckError};
use uiua::scan::{lines_of, trim_chars, words_of};
use uiua::primitive::trace::{dump_sig_error, report_span, stack_boundaries, stack_report, CallFrame};
use uiua::primitive::Primitive;
use uiua::sys::{
    as_handle, complete_utf8_step, delimiter_error, is_stream_handle, read_lines_outputs,
    read_until_step,
    split_valid_utf8, terminal_size, utf8_bytes, write_target, Handle, HandleKind, SysOp,
    WriteTarget,
};
use uiua::utf8::{is_valid_utf8, valid_utf8_prefix};
use uiua::value::{Array, Boxed, Value};
use uiua::{FunctionId, Signature};

fn chars(s: &str) -> Vec<char> {
    s.chars().collect()
}

fn texts(v: Vec<Vec<char>>) -> Vec<String> {
    v.into_iter().map(|l| l.into_iter().collect()).collect()
}

#[test]
fn signature_text() {
    assert_eq!(Signature::new(2, 1).to_string(), "|2");
    assert_eq!(Signature::new(1, 2).to_string(), "|1.2");
    assert_eq!(Signature::new(0, 0).to_string(), "|0.0");
}

#[test]
fn function_id_text() {
    assert_eq!(FunctionId::Named("f".to_string()).to_string(), "f");
    assert_eq!(FunctionId::Anonymous("1:3".to_string()).to_string(), "fn from 1:3");
    assert_eq!(FunctionId::Main.to_string(), "main");
    assert!(FunctionId::Main.same(&FunctionId::Main.clone()));
    assert!(!FunctionId::Main.same(&FunctionId::Unnamed));
}

#[test]
fn inversion_messages() {
    assert_eq!(InversionError::Generic.to_string(), "No inverse found");
    let f = Function { id: FunctionId::Named("g".to_string()), sig: Signature::new(1, 1), index: 0, hash: 0 };
    let h = Function { id: FunctionId::Named("f".to_string()), sig: Signature::new(1, 1), index: 1, hash: 0 };
    let e = InversionError::Generic.func(&f).func(&h);
    assert_eq!(
        e.to_string(),
        "Inversion failed: cannot invert g because cannot invert f because no inverse found"
    );
    let e = InversionError::Signature(SigCheckError { message: "Bad".to_string() });
    assert_eq!(e.to_string(), "Cannot invert invalid signature: Bad");
    let e = InversionError::AsymmetricUnderSig(Signature::new(2, 1));
    assert_eq!(e.to_string(), "Cannot invert under with asymmetric second function signature |2");
    assert_eq!(
        InversionError::UnderExperimental.to_string(),
        "Inversion of ⍜ under is experimental. To enable it, add `# Experimental!` to the top of the file."
    );
    assert!(matches!(generic::<u8>(), Err(InversionError::Generic)));
    assert!(matches!(InversionError::default(), InversionError::Generic));
    assert!(matches!(InversionError::from(()), InversionError::Generic));
}

#[test]
fn handles() {
    assert_eq!(Handle::from(5usize), Handle(5));
    assert_eq!(Handle::first_unreserved(), Handle(3));
    assert_eq!(HandleKind::File("x.txt".to_string()).to_text(), "file x.txt");
    assert_eq!(HandleKind::ChildStdout("ls".to_string()).to_text(), "stdout ls");
}

#[test]
fn system_operation_names() {
    assert_eq!(SysOp::Exit.name(), "&exit");
    assert_eq!(SysOp::Sleep.long_name(), "sleep");
    assert_eq!(SysOp::FReadAllStr.name(), "&fras");
}

#[test]
fn constants_resolve_to_their_value() {
    let c = ConstantValue::from(Value::Byte(Array { shape: vec![1], data: vec![7] }));
    match c.resolve(None) {
        Value::Byte(a) => assert_eq!(a.data, vec![7]),
        _ => panic!("expected bytes"),
    }
    assert!(ConstClass::Math != ConstClass::Color);
}

#[test]
fn scanning_lines() {
    assert_eq!(texts(lines_of(&chars("a\r\nb\n"))), vec!["a", "b"]);
    assert_eq!(texts(lines_of(&chars("a\rb"))), vec!["a\rb"]);
    assert_eq!(texts(lines_of(&chars("x\r"))), vec!["x\r"]);
    assert_eq!(texts(lines_of(&chars(""))), Vec::<String>::new());
    assert_eq!(texts(lines_of(&chars("\n\n"))), vec!["", ""]);
}

#[test]
fn scanning_words_and_trimming() {
    assert_eq!(texts(words_of(&chars("  a bc\u{3000}d  "))), vec!["a", "bc", "d"]);
    let t: String = trim_chars(&chars("\t x y \u{a0}")).into_iter().collect();
    assert_eq!(t, "x y");
}

#[test]
fn stack_reports() {
    let f = Some(FunctionId::Named("f".to_string()));
    let boundaries = vec![(1usize, &f)];
    let items = vec![vec!["1".to_string()], vec!["a".to_string(), "b".to_string()]];
    let report = stack_report("? 1:1", &items, &boundaries, 0);
    assert_eq!(report, "┌╴? 1:1\n├╴1\n│╴╴╴f╶╶╶\n│ a\n├╴b\n└╴╴╴╴╴╴\n");
    let shifted = stack_report("x", &items, &boundaries, 1);
    assert_eq!(shifted, "┌╴x\n│╴╴╴f╶╶╶\n├╴1\n│ a\n├╴b\n└╴╴\n");
}

#[test]
fn stack_boundaries_stop_at_main() {
    let frames = vec![
        CallFrame { start_height: 0, args: 0, id: Some(FunctionId::Main) },
        CallFrame { start_height: 2, args: 1, id: Some(FunctionId::Named("g".to_string())) },
    ];
    let b = stack_boundaries(&frames, 3);
    assert_eq!(b.len(), 1);
    assert_eq!(b[0].0, 1);
}

#[test]
fn reading_until_a_delimiter() {
    let mut buffer = Vec::new();
    assert!(!read_until_step(&mut buffer, b"ab", b"\n"));
    assert!(read_until_step(&mut buffer, b"c\n", b"\n"));
    assert_eq!(buffer, b"abc\n".to_vec());
    assert!(read_until_step(&mut buffer, b"", b"\n"));
    assert_eq!(buffer, b"abc\n".to_vec());
    assert!(terminal_size().is_none());
}

fn byte_nat(v: &Value, message: &str) -> Result<usize, String> {
    match v {
        Value::Byte(a) if a.shape.is_empty() => Ok(a.data[0] as usize),
        _ => Err(message.to_string()),
    }
}

#[test]
fn values_as_handles() {
    let byte = |b: u8| Value::Byte(Array { shape: vec![], data: vec![b] });
    assert_eq!(as_handle(&byte(5), "", byte_nat), Ok(Handle(5)));
    let boxed = Value::Box(Array { shape: vec![], data: vec![Boxed(Box::new(byte(7)))] });
    assert_eq!(as_handle(&boxed, "", byte_nat), Ok(Handle(7)));
    let list = Value::Box(Array { shape: vec![1], data: vec![Boxed(Box::new(byte(7)))] });
    assert_eq!(
        as_handle(&list, "", byte_nat),
        Err("Expected value to be a stream handle, but it is rank 1".to_string())
    );
    let chars = Value::Char(Array { shape: vec![], data: vec!['x'] });
    assert_eq!(as_handle(&chars, "Bad", byte_nat), Err("Bad".to_string()));
    assert_eq!(as_handle(&chars, "", byte_nat), Err("Expected value to be a stream handle".to_string()));
}

#[test]
fn stream_routes() {
    assert_eq!(write_target(Handle(1)), WriteTarget::Stdout);
    assert_eq!(write_target(Handle(2)), WriteTarget::Stderr);
    assert_eq!(write_target(Handle(0)), WriteTarget::Stdin);
    assert_eq!(write_target(Handle(7)), WriteTarget::Stream);
    assert!(!is_stream_handle(Handle(0)));
    assert!(is_stream_handle(Handle(3)));
}

#[test]
fn utf8_of_characters() {
    assert_eq!(utf8_bytes(&vec!['a', 'é', '⍜']), "aé⍜".as_bytes().to_vec());
}

#[test]
fn completing_cut_off_characters() {
    let bytes = "aé".as_bytes().to_vec();
    let (mut text, mut rest) = split_valid_utf8(bytes[..2].to_vec());
    assert_eq!(text, b"a".to_vec());
    assert_eq!(rest, vec![0xC3]);
    assert!(complete_utf8_step(&mut text, &mut rest, &[0xA9]));
    assert_eq!(String::from_utf8(text).unwrap(), "aé");
    let (mut text, mut rest) = split_valid_utf8(vec![b'x', 0xE2]);
    assert!(!complete_utf8_step(&mut text, &mut rest, &[0x8D]));
    assert_eq!(text, b"x".to_vec());
    assert!(complete_utf8_step(&mut text, &mut rest, &[0x9C]));
    assert_eq!(String::from_utf8(text).unwrap(), "x⍜");
}

fn std_valid_prefix(bytes: &[u8]) -> usize {
    match std::str::from_utf8(bytes) {
        Ok(_) => bytes.len(),
        Err(e) => e.valid_up_to(),
    }
}

#[test]
fn longest_valid_utf8_prefixes() {
    assert_eq!(valid_utf8_prefix(b"ab"), 2);
    assert_eq!(valid_utf8_prefix(&[b'a', b'b', 0xE2, 0x8D]), 2);
    assert_eq!(valid_utf8_prefix(&[b'a', 0xFF, b'b']), 1);
    assert_eq!(valid_utf8_prefix(&[0xC0, 0x80]), 0);
    assert_eq!(valid_utf8_prefix(&[0xED, 0xA0, 0x80]), 0);
    assert_eq!(valid_utf8_prefix(&[0xF0, 0x9F, 0x98, 0x80, 0x80]), 4);
    assert_eq!(valid_utf8_prefix(&[0xF4, 0x90, 0x80, 0x80]), 0);
    assert!(is_valid_utf8("aé⍜😀".as_bytes()));
    assert!(!is_valid_utf8(&[0xE2, 0x8D]));
}

#[test]
fn utf8_checks_agree_with_std() {
    for a in 0..=255u8 {
        for b in 0..=255u8 {
            let two = [a, b, b'x'];
            assert_eq!(valid_utf8_prefix(&two), std_valid_prefix(&two));
            assert_eq!(is_valid_utf8(&two[..2]), std::str::from_utf8(&two[..2]).is_ok());
            if a >= 0xE0 {
                for c in [0x00u8, 0x7F, 0x80, 0x8F, 0x90, 0x9F, 0xA0, 0xBF, 0xC0, 0xFF] {
                    let three = [a, b, c, 0x80];
                    assert_eq!(valid_utf8_prefix(&three), std_valid_prefix(&three));
                }
            }
        }
    }
}

#[test]
fn outputs_of_reading_lines() {
    assert_eq!(read_lines_outputs(Signature::new(0, 2)), None);
    assert_eq!(read_lines_outputs(Signature::new(1, 1)), Some(1));
    assert_eq!(read_lines_outputs(Signature::new(3, 3)), Some(1));
    assert_eq!(read_lines_outputs(Signature::new(3, 1)), Some(0));
}

#[test]
fn report_headers() {
    assert_eq!(report_span(Primitive::Trace, false, "2:1").as_str(), "⸮ 2:1");
    assert_eq!(report_span(Primitive::Trace, true, "2:1").as_str(), "°⸮ 2:1");
    assert_eq!(report_span(Primitive::Dump, false, "3:4").as_str(), "dump 3:4");
}

#[test]
fn dump_takes_one_value_and_gives_one() {
    assert!(dump_sig_error(Signature::new(1, 1)).is_none());
    assert_eq!(
        dump_sig_error(Signature::new(2, 1)).unwrap().as_str(),
        "dump's function's signature must be |1, but it is |2"
    );
    assert_eq!(
        dump_sig_error(Signature::new(1, 2)).unwrap().as_str(),
        "dump's function's signature must be |1, but it is |1.2"
    );
}

#[test]
fn delimiters() {
    let matrix = Value::Byte(Array { shape: vec![1, 1], data: vec![1] });
    assert_eq!(delimiter_error(&matrix), Some("Delimiter must be a rank 0 or 1 string or byte array"));
    let boxed = Value::Box(Array { shape: vec![0], data: vec![] });
    assert_eq!(delimiter_error(&boxed), Some("Delimiter must be a string or byte array"));
    let chars = Value::Char(Array { shape: vec![1], data: vec![','] });
    assert_eq!(delimiter_error(&chars), None);
}
