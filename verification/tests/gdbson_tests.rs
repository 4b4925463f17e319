use ace::gdbson::{lex, parse, Tok, Value};

fn s(text: &str) -> Vec<u8> {
    text.as_bytes().to_vec()
}

#[test]
fn lex_ident() {
    let tokens = lex("abc").unwrap();
    assert_eq!(tokens.as_slice(), &[Tok::IDENT(s("abc")), Tok::EOF]);
}

#[test]
fn lex_eq() {
    let tokens = lex(r#"abc-def="5""#).unwrap();
    assert_eq!(
        tokens.as_slice(),
        &[Tok::IDENT(s("abc-def")), Tok::EQ, Tok::STRING(s("5")), Tok::EOF]
    );
}

#[test]
fn parse_simple() {
    let expected = Value::Table(vec![(s("abc-def"), Value::String(s("5")))]);
    let found = parse(r#"abc-def="5""#).unwrap();
    assert_eq!(expected, found);
}

#[test]
fn parse_double() {
    let expected = Value::Table(vec![
        (s("abc-def"), Value::String(s("5"))),
        (s("bkptno"), Value::String(s("1"))),
    ]);
    let found = parse(r#"abc-def="5",bkptno="1""#).unwrap();
    assert_eq!(expected, found);
}

#[test]
fn parse_submap() {
    let expected = Value::Table(vec![
        (s("bkptno"), Value::String(s("1"))),
        (
            s("frame"),
            Value::Table(vec![(s("addr"), Value::String(s("0x0000000000401000")))]),
        ),
    ]);
    let found = parse(r#"bkptno="1",frame={addr="0x0000000000401000"}"#).unwrap();
    assert_eq!(expected, found);
}

#[test]
fn parse_list() {
    let expected = Value::Table(vec![(
        s("register-names"),
        Value::List(vec![Value::String(s("rax")), Value::String(s("rbx"))]),
    )]);
    let found = parse(r#"register-names=["rax","rbx"]"#).unwrap();
    assert_eq!(expected, found);
}
