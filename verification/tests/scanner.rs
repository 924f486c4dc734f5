use riscv_asm::scanner::{scan_chars, ScanError, ScanFault};
use riscv_asm::{Scanner, Token, TokenType};

#[test]
fn main() {
    let source = "
.equ RTC_BASE,      0x40000000
.equ TIMER_BASE,    0x40004000

# setup machine trap vector
1:      auipc   t0, %pcrel_hi(mtvec)        # load mtvec(hi)
        addi    t0, t0, %pcrel_lo(1)       # load mtvec(lo)
        csrrw   zero, mtvec, t0

# set mstatus.MIE=1 (enable M mode interrupt)
        li      t0, 8
        csrrs   zero, mstatus, t0

# set mie.MTIE=1 (enable M mode timer interrupts)
        li      t0, 128
        csrrs   zero, mie, t0

# read from mtime
        li      a0, RTC_BASE
        ld      a1, 0(a0)

# write to mtimecmp
        li      a0, TIMER_BASE
        li      t0, 1000000000
        add     a1, a1, t0
        sd      a1, 0(a0)

# loop
loop:
        wfi
        j loop

# break on interrupt
mtvec:
        csrrc  t0, mcause, zero
        bgez t0, fail       # interrupt causes are less than zero
        slli t0, t0, 1      # shift off high bit
        srli t0, t0, 1
        li t1, 7            # check this is an m_timer interrupt
        bne t0, t1, fail
        j pass

pass:
        la a0, pass_msg
        jal puts
        j shutdown

fail:
        la a0, fail_msg
        jal puts
        j shutdown

.section .rodata

pass_msg:
        .string \"PASS\\n\"

fail_msg:
        .string \"FAIL\\n\"
";
    let mut scanner = Scanner::new(source.to_string());
    let tokens = scanner.scan_tokens().unwrap();
    println!("{:#?}", tokens);
}

fn scan(source: &str) -> Vec<Token> {
    Scanner::new(source.to_string()).scan_tokens().unwrap()
}

fn message(source: &str) -> String {
    Scanner::new(source.to_string()).scan_tokens().unwrap_err()
}

fn kinds(tokens: &[Token]) -> Vec<TokenType> {
    tokens.iter().map(|t| t.token_type()).collect()
}

fn lexemes(tokens: &[Token]) -> Vec<String> {
    tokens.iter().map(|t| t.lexeme().to_string()).collect()
}

#[test]
fn empty_source_has_no_tokens() {
    assert!(scan("").is_empty());
    assert!(scan("   \t ").is_empty());
}

#[test]
fn comment_only_line_gives_its_line_break() {
    let tokens = scan("# foo bar\n");
    assert_eq!(tokens.len(), 1);
    assert_eq!(tokens[0].token_type(), TokenType::LineBreak);
    assert_eq!(tokens[0].lexeme(), "\n");
    assert_eq!(tokens[0].literal(), None);
    assert_eq!(tokens[0].line_number(), 0);
    let tokens = scan("; foo \"bar ( 12zz\n");
    assert_eq!(kinds(&tokens), vec![TokenType::LineBreak]);
}

#[test]
fn comment_without_line_break_gives_nothing() {
    assert!(scan("# foo bar").is_empty());
    assert!(scan(";").is_empty());
}

#[test]
fn comment_after_tokens_runs_to_the_end_of_the_line() {
    let tokens = scan("add # t0, t1\nsub");
    assert_eq!(
        kinds(&tokens),
        vec![TokenType::Identifier, TokenType::LineBreak, TokenType::Identifier]
    );
    assert_eq!(lexemes(&tokens), vec!["add", "\n", "sub"]);
    assert_eq!(tokens[0].line_number(), 0);
    assert_eq!(tokens[1].line_number(), 0);
    assert_eq!(tokens[2].line_number(), 1);
}

#[test]
fn punctuation_is_one_token_each() {
    let tokens = scan("():.,%");
    assert_eq!(
        kinds(&tokens),
        vec![
            TokenType::LeftParantheses,
            TokenType::RightParantheses,
            TokenType::Colon,
            TokenType::Dot,
            TokenType::Comma,
            TokenType::Percent,
        ]
    );
    assert_eq!(lexemes(&tokens), vec!["(", ")", ":", ".", ",", "%"]);
    for token in &tokens {
        assert_eq!(token.literal(), None);
        assert_eq!(token.line_number(), 0);
    }
}

#[test]
fn line_breaks_count_lines() {
    let tokens = scan("a\nb\n\nc");
    assert_eq!(lexemes(&tokens), vec!["a", "\n", "b", "\n", "\n", "c"]);
    let lines: Vec<i32> = tokens.iter().map(|t| t.line_number()).collect();
    assert_eq!(lines, vec![0, 0, 1, 1, 2, 3]);
}

#[test]
fn numbers_carry_their_value() {
    let tokens = scan("0x40000000 128 0b101 $ff 0 0d9 0q17 0hA");
    assert_eq!(tokens.len(), 8);
    assert_eq!(tokens[0].token_type(), TokenType::Number);
    assert_eq!(tokens[0].lexeme(), "0x40000000");
    assert_eq!(tokens[0].literal(), Some(0x40000000));
    assert_eq!(tokens[1].literal(), Some(128));
    assert_eq!(tokens[2].literal(), Some(5));
    assert_eq!(tokens[3].token_type(), TokenType::Identifier);
    assert_eq!(tokens[3].literal(), None);
    assert_eq!(tokens[4].literal(), Some(0));
    assert_eq!(tokens[5].literal(), Some(9));
    assert_eq!(tokens[6].literal(), Some(15));
    assert_eq!(tokens[7].literal(), Some(10));
}

#[test]
fn octal_marker_o_is_read() {
    let tokens = scan("0o17");
    assert_eq!(tokens.len(), 1);
    assert_eq!(tokens[0].token_type(), TokenType::Number);
    assert_eq!(tokens[0].literal(), Some(15));
}

#[test]
fn number_ends_at_a_delimiter() {
    let tokens = scan("0(a0)");
    assert_eq!(
        kinds(&tokens),
        vec![
            TokenType::Number,
            TokenType::LeftParantheses,
            TokenType::Identifier,
            TokenType::RightParantheses,
        ]
    );
    assert_eq!(lexemes(&tokens), vec!["0", "(", "a0", ")"]);
    let tokens = scan("1:2,3;4");
    assert_eq!(lexemes(&tokens), vec!["1", ":", "2", ",", "3"]);
    let tokens = scan("7#8");
    assert_eq!(lexemes(&tokens), vec!["7"]);
}

#[test]
fn identifiers_may_hold_dots_and_signs() {
    let tokens = scan("_start mstatus.MIE a$b c@d x_1 $x @y");
    assert_eq!(
        lexemes(&tokens),
        vec!["_start", "mstatus.MIE", "a$b", "c@d", "x_1", "$x", "@y"]
    );
    for token in &tokens {
        assert_eq!(token.token_type(), TokenType::Identifier);
        assert_eq!(token.literal(), None);
    }
}

#[test]
fn leading_dot_is_its_own_token() {
    let tokens = scan(".section .rodata");
    assert_eq!(
        kinds(&tokens),
        vec![TokenType::Dot, TokenType::Identifier, TokenType::Dot, TokenType::Identifier]
    );
    assert_eq!(lexemes(&tokens), vec![".", "section", ".", "rodata"]);
}

#[test]
fn identifier_ends_where_its_characters_end() {
    let tokens = scan("abc%def");
    assert_eq!(
        kinds(&tokens),
        vec![TokenType::Identifier, TokenType::Percent, TokenType::Identifier]
    );
    let tokens = scan("abc\"x\"");
    assert_eq!(kinds(&tokens), vec![TokenType::Identifier, TokenType::String]);
    assert_eq!(lexemes(&tokens), vec!["abc", "x"]);
}

#[test]
fn strings_are_taken_raw() {
    let tokens = scan("\"PASS\\n\" \"\" \"a # b ; c\"");
    assert_eq!(kinds(&tokens), vec![TokenType::String, TokenType::String, TokenType::String]);
    assert_eq!(lexemes(&tokens), vec!["PASS\\n", "", "a # b ; c"]);
    assert_eq!(tokens[0].literal(), None);
}

#[test]
fn string_over_a_line_break_fails() {
    assert_eq!(message("\"abc\ndef\""), "[Line 0] Syntax error: Error in parsing string");
    assert_eq!(message("x\ny \"abc\n\""), "[Line 1] Syntax error: Error in parsing string");
}

#[test]
fn string_without_end_fails() {
    assert_eq!(message("\"abc"), "[Line 0] Syntax error: Error in parsing string");
    assert_eq!(message("\n\n\""), "[Line 2] Syntax error: Error in parsing string");
}

#[test]
fn malformed_number_fails() {
    assert_eq!(message("12g"), "[Line 0] Syntax error: Error in parsing number");
    assert_eq!(message("0x"), "[Line 0] Syntax error: Error in parsing number");
    assert_eq!(message("5_000"), "[Line 0] Syntax error: Error in parsing number");
    assert_eq!(message("1.5"), "[Line 0] Syntax error: Error in parsing number");
    assert_eq!(message("a\n\n4294967296"), "[Line 2] Syntax error: Error in parsing number");
    assert_eq!(message("1\"x\""), "[Line 0] Syntax error: Error in parsing number");
}

#[test]
fn unexpected_character_fails() {
    assert_eq!(message("-3"), "[Line 0] Syntax error: Unexpected character");
    assert_eq!(message("a\nb\nc + d"), "[Line 2] Syntax error: Unexpected character");
    assert_eq!(message("{"), "[Line 0] Syntax error: Unexpected character");
    assert_eq!(message("é"), "[Line 0] Syntax error: Unexpected character");
}

#[test]
fn first_fault_is_reported() {
    assert_eq!(message("! \"abc"), "[Line 0] Syntax error: Unexpected character");
    assert_eq!(message("\"abc\n!"), "[Line 0] Syntax error: Error in parsing string");
}

#[test]
fn faults_inside_comments_are_dropped() {
    assert_eq!(kinds(&scan("# ! \"abc 12g\n")), vec![TokenType::LineBreak]);
}

#[test]
fn unicode_white_space_is_skipped() {
    let tokens = scan("a\u{00A0}b\u{3000}c\u{2003}d\re");
    assert_eq!(lexemes(&tokens), vec!["a", "b", "c", "d", "e"]);
}

#[test]
fn a_line_of_assembly() {
    let tokens = scan("1:      auipc   t0, %pcrel_hi(mtvec)        # load mtvec(hi)\n");
    assert_eq!(
        kinds(&tokens),
        vec![
            TokenType::Number,
            TokenType::Colon,
            TokenType::Identifier,
            TokenType::Identifier,
            TokenType::Comma,
            TokenType::Percent,
            TokenType::Identifier,
            TokenType::LeftParantheses,
            TokenType::Identifier,
            TokenType::RightParantheses,
            TokenType::LineBreak,
        ]
    );
    assert_eq!(
        lexemes(&tokens),
        vec!["1", ":", "auipc", "t0", ",", "%", "pcrel_hi", "(", "mtvec", ")", "\n"]
    );
    assert_eq!(tokens[0].literal(), Some(1));
}

#[test]
fn scanning_twice_gives_the_same() {
    let mut scanner = Scanner::new("li t0, 8 # eight\n\"s\"".to_string());
    let first = scanner.scan_tokens().unwrap();
    let second = scanner.scan_tokens().unwrap();
    assert_eq!(first.len(), second.len());
    for (a, b) in first.iter().zip(second.iter()) {
        assert_eq!(a.lexeme(), b.lexeme());
        assert_eq!(a.token_type(), b.token_type());
        assert_eq!(a.literal(), b.literal());
        assert_eq!(a.line_number(), b.line_number());
    }
    let mut failing = Scanner::new("a\n!".to_string());
    assert_eq!(failing.scan_tokens().unwrap_err(), failing.scan_tokens().unwrap_err());
}

#[test]
fn scan_chars_reports_line_and_fault() {
    let source: Vec<char> = "a\nb \"c".chars().collect();
    assert_eq!(
        scan_chars(&source).unwrap_err(),
        ScanError { line_number: 1, fault: ScanFault::UnterminatedString }
    );
    let source: Vec<char> = "a 1z".chars().collect();
    assert_eq!(
        scan_chars(&source).unwrap_err(),
        ScanError { line_number: 0, fault: ScanFault::MalformedNumber }
    );
    let source: Vec<char> = "\n\n\n=".chars().collect();
    assert_eq!(
        scan_chars(&source).unwrap_err(),
        ScanError { line_number: 3, fault: ScanFault::UnexpectedCharacter }
    );
    let source: Vec<char> = "ok".chars().collect();
    assert_eq!(scan_chars(&source).unwrap().len(), 1);
}

#[test]
fn extract_functions_give_text_and_next_position() {
    let source: Vec<char> = "\"ab\" 0x1f, name.x(".chars().collect();
    assert_eq!(Scanner::extract_string(&source, 1), Ok(("ab".to_string(), 4)));
    assert_eq!(Scanner::extract_number(&source, 5), Ok(("0x1f".to_string(), 31, 9)));
    assert_eq!(Scanner::extract_identifier(&source, 11), ("name.x".to_string(), 17));
    let source: Vec<char> = "\"ab".chars().collect();
    assert_eq!(Scanner::extract_string(&source, 1), Err(ScanFault::UnterminatedString));
    let source: Vec<char> = "12%".chars().collect();
    assert_eq!(Scanner::extract_number(&source, 0), Err(ScanFault::MalformedNumber));
}

#[test]
fn error_message_has_line_and_description() {
    assert_eq!(
        Scanner::error(0, "Syntax error", "Unexpected character"),
        "[Line 0] Syntax error: Unexpected character"
    );
    assert_eq!(Scanner::error(12, "What", "why"), "[Line 12] What: why");
    assert_eq!(Scanner::error(-5, "", ""), "[Line -5] : ");
    assert_eq!(Scanner::error(i32::MAX, "a", "b"), "[Line 2147483647] a: b");
    assert_eq!(Scanner::error(i32::MIN, "a", "b"), "[Line -2147483648] a: b");
}

#[test]
fn token_constructors_keep_their_arguments() {
    let token = Token::new("loop".to_string(), TokenType::Identifier, 7);
    assert_eq!(token.lexeme(), "loop");
    assert_eq!(token.token_type(), TokenType::Identifier);
    assert_eq!(token.literal(), None);
    assert_eq!(token.line_number(), 7);
    let token = Token::new_number("0x10".to_string(), 16, 3);
    assert_eq!(token.lexeme(), "0x10");
    assert_eq!(token.token_type(), TokenType::Number);
    assert_eq!(token.literal(), Some(16));
    assert_eq!(token.line_number(), 3);
}
