use uiua::assembly::{DocComment, DocCommentArg, DocCommentSig};
use uiua::Signature;

fn names(args: &Option<Vec<DocCommentArg>>) -> Option<Vec<(String, Option<String>)>> {
    args.as_ref().map(|v| {
        v.iter()
            .map(|a| (a.name.as_str().to_string(), a.ty.as_ref().map(|t| t.as_str().to_string())))
            .collect()
    })
}

fn pair(name: &str, ty: Option<&str>) -> (String, Option<String>) {
    (name.to_string(), ty.map(|t| t.to_string()))
}

#[test]
fn parse_outputs_and_args() {
    let sig = DocCommentSig::parse("a b ? c d").unwrap();
    assert!(!sig.label);
    assert_eq!(names(&sig.outputs), Some(vec![pair("a", None), pair("b", None)]));
    assert_eq!(names(&sig.args), Some(vec![pair("c", None), pair("d", None)]));
}

#[test]
fn parse_types_after_colons() {
    let sig = DocCommentSig::parse("x:Num ? y").unwrap();
    assert_eq!(names(&sig.outputs), Some(vec![pair("x", Some("Num"))]));
    assert_eq!(names(&sig.args), Some(vec![pair("y", None)]));
    let sig = DocCommentSig::parse("? a::b").unwrap();
    assert_eq!(names(&sig.args), Some(vec![pair("a", None), pair("", Some("b"))]));
    assert_eq!(names(&sig.outputs), None);
    let sig = DocCommentSig::parse("? a :b").unwrap();
    assert_eq!(names(&sig.args), Some(vec![pair("a", None), pair("", Some("b"))]));
}

#[test]
fn parse_labelling_signature() {
    let sig = DocCommentSig::parse("$ a").unwrap();
    assert!(sig.label);
    assert_eq!(names(&sig.outputs), None);
    assert_eq!(names(&sig.args), Some(vec![pair("a", None)]));
}

#[test]
fn parse_rejections() {
    assert!(DocCommentSig::parse("?").is_err());
    assert!(DocCommentSig::parse("a b?").is_err());
    assert!(DocCommentSig::parse("a ? b!").is_err());
    assert!(DocCommentSig::parse("a b").is_err());
    let empty = DocCommentSig::parse(" ?").unwrap();
    assert!(empty.args.is_none() && empty.outputs.is_none());
}

#[test]
fn parse_through_from_str() {
    let sig: DocCommentSig = "r ? x y".parse().unwrap();
    assert_eq!(names(&sig.outputs), Some(vec![pair("r", None)]));
    assert!("bad!".parse::<DocCommentSig>().is_err());
}

#[test]
fn write_signature() {
    let sig = DocCommentSig::parse("a b ? c:Num").unwrap();
    assert_eq!(sig.to_string(), " a b ? c:Num");
    let sig = DocCommentSig::parse("$ x y").unwrap();
    assert_eq!(sig.to_string(), "$ x y");
}

#[test]
fn signature_descriptions() {
    let sig = DocCommentSig::parse("r ? x y").unwrap();
    assert_eq!(sig.sig_string(), "signature |2");
    let sig = DocCommentSig::parse("? x").unwrap();
    assert_eq!(sig.sig_string(), "1 arg");
    let sig = DocCommentSig::parse("r s ?").unwrap();
    assert_eq!(sig.sig_string(), "2 outputs");
    let sig = DocCommentSig::parse(" ?").unwrap();
    assert_eq!(sig.sig_string(), "signature");
}

#[test]
fn signatures_match_function_signatures() {
    let sig = DocCommentSig::parse("r ? x y").unwrap();
    assert!(sig.matches_sig(Signature::new(2, 1)));
    assert!(!sig.matches_sig(Signature::new(1, 1)));
    let sig = DocCommentSig::parse("? x").unwrap();
    assert!(sig.matches_sig(Signature::new(1, 5)));
}

#[test]
fn comment_with_signature_line() {
    let c = DocComment::from_text("Adds two numbers\na b ? c");
    assert_eq!(c.text.as_str(), "Adds two numbers");
    let sig = c.sig.unwrap();
    assert_eq!(names(&sig.outputs), Some(vec![pair("a", None), pair("b", None)]));
    assert_eq!(names(&sig.args), Some(vec![pair("c", None)]));
}

#[test]
fn comment_lines_are_trimmed() {
    let c = DocComment::from_text("  hello  \n  world ");
    assert_eq!(c.text.as_str(), "hello\nworld");
    assert!(c.sig.is_none());
}

#[test]
fn comment_signature_between_lines() {
    let c = DocComment::from_text("first\n x ? y \nlast");
    assert_eq!(c.text.as_str(), "first\n\n\nlast");
    assert!(c.sig.is_some());
}

#[test]
fn comment_question_line_is_a_signature() {
    let c = DocComment::from_text("What? Yes");
    assert_eq!(c.text.as_str(), "");
    let sig = c.sig.unwrap();
    assert_eq!(names(&sig.outputs), Some(vec![pair("What", None)]));
}

#[test]
fn comment_ending_in_question_is_text() {
    let c = DocComment::from("Why?");
    assert_eq!(c.text.as_str(), "Why?");
    assert!(c.sig.is_none());
    let c = DocComment::from(String::from("a\r\nb\n"));
    assert_eq!(c.text.as_str(), "a\nb");
}

#[test]
fn written_signatures_read_back() {
    for text in ["a b:Num ? c d:Str", "$ x", "r ?", "? only", "$"] {
        let sig = DocCommentSig::parse(text).unwrap();
        let again = DocCommentSig::parse(&sig.to_string()).unwrap();
        assert_eq!(again.label, sig.label);
        assert_eq!(names(&again.args), names(&sig.args));
        assert_eq!(names(&again.outputs), names(&sig.outputs));
    }
}
