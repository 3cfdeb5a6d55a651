use rooc::lexer::{lex, trim, Lexer, Token};

fn tokens(text: &str) -> Result<String, ()> {
    Lexer::new(text).get_tokens().map(|ts| format!("{:?}", ts))
}

#[test]
fn trim_removes_unicode_white_space() {
    assert_eq!(trim("  min x \t"), "min x");
    assert_eq!(trim("\u{2003}max y\u{3000}\n"), "max y");
    assert_eq!(trim("   "), "");
    assert_eq!(trim(""), "");
    assert_eq!(trim("a b"), "a b");
    assert_eq!(trim("\u{a0}x\u{85}"), "x");
    assert_eq!(trim("\u{200b}x"), "\u{200b}x");
}

#[test]
fn lexes_an_objective() {
    assert_eq!(
        tokens("min 2x + y").unwrap(),
        "[Objective(Min), Number(\"2\"), Variable(\"x\"), Operation(Add), Variable(\"y\")]"
    );
}

#[test]
fn lexes_constraints() {
    assert_eq!(
        tokens("s.t.\n x1 <= 3.5").unwrap(),
        "[St, Newline, Variable(\"x1\"), Relation(LowerOrEqual), Number(\"3.5\")]"
    );
    assert_eq!(
        tokens("a>=b,c<d|e|=(f)").unwrap(),
        "[Variable(\"a\"), Relation(UpperOrEqual), Variable(\"b\"), Comma, Variable(\"c\"), \
         Relation(Lower), Variable(\"d\"), Modulus, Variable(\"e\"), Modulus, Relation(Equal), \
         LParen, Variable(\"f\"), RParen]"
    );
}

#[test]
fn keywords_need_the_whole_word() {
    assert_eq!(tokens("maxi").unwrap(), "[Variable(\"maxi\")]");
    assert_eq!(tokens("max").unwrap(), "[Objective(Max)]");
    assert_eq!(tokens("st").unwrap(), "[Variable(\"st\")]");
}

#[test]
fn numbers_take_one_digit_per_fraction() {
    assert_eq!(tokens("1.25").unwrap(), "[Number(\"1.2\"), Number(\"5\")]");
    assert_eq!(tokens("12").unwrap(), "[Number(\"12\")]");
}

#[test]
fn numbers_with_two_fractions_are_refused() {
    assert_eq!(tokens("1.2.3"), Err(()));
}

#[test]
fn unknown_characters_are_refused() {
    assert_eq!(tokens("x $ y"), Err(()));
    assert_eq!(tokens("x % y"), Err(()));
    assert!(lex("_").is_err());
}

#[test]
fn the_problem_is_trimmed_before_lexing() {
    assert_eq!(tokens("\n\n  max x \n").unwrap(), "[Objective(Max), Variable(\"x\")]");
    assert_eq!(tokens("").unwrap(), "[]");
    // lex alone does not trim: newlines are tokens
    let ts: Vec<Token> = lex("\nx").unwrap();
    assert_eq!(format!("{:?}", ts), "[Newline, Variable(\"x\")]");
}

#[test]
fn blanks_separate_tokens() {
    assert_eq!(tokens("x y").unwrap(), "[Variable(\"x\"), Variable(\"y\")]");
    assert_eq!(tokens("xy").unwrap(), "[Variable(\"xy\")]");
    assert_eq!(tokens("x\ty").unwrap(), "[Variable(\"x\"), Variable(\"y\")]");
}
