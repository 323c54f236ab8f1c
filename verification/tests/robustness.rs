//! Whatever the text, an invocation ends with an answer.

use trillium_error::expand::expand;
use trillium_error::handler;

const PIECES: [&str; 64] = [
    "fn", "f", "(", ")", "{", "}", "[", "]", "<", ">", "->", "=>", ";", ",", ":", "::", "=", "#",
    "!", "&", "'a", "'", "\"", "\\", "r#", "r\"", "b\"", "b'", "c\"", "cr#\"", "\"#", "0x", "0b",
    "1", "1.", "1e", "e5", "+", "-", "_", ".", "..", "/*", "*/", "//", "///", "\n", " ", "pub",
    "async", "unsafe", "const", "struct", "impl", "where", "let", "match", "self", "Self", "doc",
    "(/*ERROR*/)", "\\u{", "\\x", "é",
];

fn next(state: &mut u64) -> usize {
    *state = state.wrapping_mul(6364136223846793005).wrapping_add(1442695040888963407);
    (*state >> 33) as usize
}

#[test]
fn every_text_of_many_gets_an_answer() {
    let mut state: u64 = 0x5eed;
    for _ in 0..20000 {
        let length = next(&mut state) % 12;
        let mut text = String::new();
        for _ in 0..length {
            text.push_str(PIECES[next(&mut state) % PIECES.len()]);
            if next(&mut state) % 3 == 0 {
                text.push(' ');
            }
        }
        let answer = handler("", &text);
        assert!(!answer.is_empty() || expand(&text).is_ok());
    }
}

#[test]
fn every_function_body_of_many_gets_an_answer() {
    let mut state: u64 = 0xb0d1;
    let mut accepted = 0;
    for _ in 0..20000 {
        let length = next(&mut state) % 8;
        let mut text = String::from("fn f() {");
        for _ in 0..length {
            text.push_str(PIECES[next(&mut state) % PIECES.len()]);
            text.push(' ');
        }
        text.push('}');
        if expand(&text).is_ok() {
            accepted += 1;
        }
    }
    assert!(accepted > 0);
}
