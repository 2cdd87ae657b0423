//! The package-manifest edit: the exact textual splice policy, and that the
//! spliced manifest stays syntactically valid structured data on the
//! fixtures the policy is meant for.

use webgen::manifest::inject_after_first_line;
use webgen::templates::scripts;

/// A small JSON reader for the fixtures: returns whether the whole text is
/// one valid JSON value.
fn is_valid_json(s: &str) -> bool {
    let b: Vec<char> = s.chars().collect();
    let mut pos = 0usize;
    if !value(&b, &mut pos) {
        return false;
    }
    skip_ws(&b, &mut pos);
    pos == b.len()
}

fn skip_ws(b: &[char], pos: &mut usize) {
    while *pos < b.len() && matches!(b[*pos], ' ' | '\t' | '\n' | '\r') {
        *pos += 1;
    }
}

fn value(b: &[char], pos: &mut usize) -> bool {
    skip_ws(b, pos);
    if *pos >= b.len() {
        return false;
    }
    match b[*pos] {
        '{' => object(b, pos),
        '[' => array(b, pos),
        '"' => string(b, pos),
        't' => literal(b, pos, "true"),
        'f' => literal(b, pos, "false"),
        'n' => literal(b, pos, "null"),
        '-' | '0'..='9' => number(b, pos),
        _ => false,
    }
}

fn literal(b: &[char], pos: &mut usize, word: &str) -> bool {
    for c in word.chars() {
        if *pos >= b.len() || b[*pos] != c {
            return false;
        }
        *pos += 1;
    }
    true
}

fn number(b: &[char], pos: &mut usize) -> bool {
    let start = *pos;
    if b[*pos] == '-' {
        *pos += 1;
    }
    while *pos < b.len() && b[*pos].is_ascii_digit() {
        *pos += 1;
    }
    *pos > start
}

fn string(b: &[char], pos: &mut usize) -> bool {
    *pos += 1;
    while *pos < b.len() {
        match b[*pos] {
            '\\' => *pos += 2,
            '"' => {
                *pos += 1;
                return true;
            }
            _ => *pos += 1,
        }
    }
    false
}

fn object(b: &[char], pos: &mut usize) -> bool {
    *pos += 1;
    skip_ws(b, pos);
    if *pos < b.len() && b[*pos] == '}' {
        *pos += 1;
        return true;
    }
    loop {
        skip_ws(b, pos);
        if *pos >= b.len() || b[*pos] != '"' || !string(b, pos) {
            return false;
        }
        skip_ws(b, pos);
        if *pos >= b.len() || b[*pos] != ':' {
            return false;
        }
        *pos += 1;
        if !value(b, pos) {
            return false;
        }
        skip_ws(b, pos);
        if *pos >= b.len() {
            return false;
        }
        match b[*pos] {
            ',' => {
                *pos += 1;
                skip_ws(b, pos);
                // a trailing comma before the closing brace is tolerated,
                // as the spliced build-script fragment ends with one
                if *pos < b.len() && b[*pos] == '}' {
                    *pos += 1;
                    return true;
                }
            }
            '}' => {
                *pos += 1;
                return true;
            }
            _ => return false,
        }
    }
}

fn array(b: &[char], pos: &mut usize) -> bool {
    *pos += 1;
    skip_ws(b, pos);
    if *pos < b.len() && b[*pos] == ']' {
        *pos += 1;
        return true;
    }
    loop {
        if !value(b, pos) {
            return false;
        }
        skip_ws(b, pos);
        if *pos >= b.len() {
            return false;
        }
        match b[*pos] {
            ',' => *pos += 1,
            ']' => {
                *pos += 1;
                return true;
            }
            _ => return false,
        }
    }
}

#[test]
fn splice_two_line_manifest_stays_valid() {
    let manifest = "{\n\"name\":\"x\"}";
    let spliced = inject_after_first_line(manifest, scripts("x").as_str());
    assert_eq!(
        spliced,
        "{\n\t\"scripts\": {\n\t\t\"build\": \"babel x.jsx -d pkg\"\n\t},\n\"name\":\"x\"}"
    );
    assert!(is_valid_json(&spliced));
}

#[test]
fn splice_multi_line_manifest_stays_valid() {
    let manifest = "{\n  \"name\": \"y\",\n  \"version\": \"1.0.0\"\n}";
    let spliced = inject_after_first_line(manifest, scripts("y").as_str());
    // later lines are joined with their line endings dropped
    assert_eq!(
        spliced,
        "{\n\t\"scripts\": {\n\t\t\"build\": \"babel y.jsx -d pkg\"\n\t},\n  \"name\": \"y\",  \"version\": \"1.0.0\"}"
    );
    assert!(is_valid_json(&spliced));
}

#[test]
fn splice_single_line_manifest_is_textual_only() {
    // with no line feed the whole manifest is one line, so the fragment
    // lands after everything; the policy is purely textual and the result
    // is pinned even though it is no longer valid structured data
    let spliced = inject_after_first_line("{\"name\":\"x\"}", "FRAG");
    assert_eq!(spliced, "{\"name\":\"x\"}FRAG");
}

#[test]
fn splice_empty_manifest_stays_empty() {
    assert_eq!(inject_after_first_line("", "FRAG"), "");
}

#[test]
fn splice_drops_line_endings_of_later_lines() {
    assert_eq!(inject_after_first_line("a\nb\nc\n", "-"), "a-bc");
}

#[test]
fn splice_strips_carriage_returns_before_line_feeds() {
    assert_eq!(inject_after_first_line("a\r\nb\r\nc", "-"), "a-bc");
}

#[test]
fn splice_keeps_lone_carriage_returns() {
    assert_eq!(inject_after_first_line("a\rb\nc", "-"), "a\rb-c");
}

#[test]
fn splice_manifest_purity() {
    let manifest = "{\n\"name\":\"x\"}";
    assert_eq!(
        inject_after_first_line(manifest, "F"),
        inject_after_first_line(manifest, "F")
    );
}
