use pybadge_high::text::{LineWrapper, WRAP_COLUMNS};

fn wrap(s: &str) -> String {
    let mut w = LineWrapper::new();
    let mut out = String::new();
    for c in s.chars() {
        if w.feed(c) {
            out.push('\n');
        }
        out.push(c);
    }
    out
}

#[test]
fn short_lines_are_kept() {
    assert_eq!(wrap("program panicked at\n\nsrc/main.rs:3:5\n"), "program panicked at\n\nsrc/main.rs:3:5\n");
}

#[test]
fn long_line_breaks_before_the_26th_character() {
    let s: String = std::iter::repeat('x').take(60).collect();
    let out = wrap(&s);
    let lines: Vec<&str> = out.split('\n').collect();
    assert_eq!(lines.iter().map(|l| l.len()).collect::<Vec<_>>(), vec![25, 26, 9]);
    assert_eq!(WRAP_COLUMNS, 26);
}

#[test]
fn newline_restarts_the_count() {
    let s = format!("{}\n{}", "a".repeat(25), "b".repeat(25));
    assert_eq!(wrap(&s), s);
    let s = format!("{}\n{}", "a".repeat(25), "b".repeat(26));
    assert_eq!(wrap(&s), format!("{}\n{}\nb", "a".repeat(25), "b".repeat(25)));
}
