use wire_editor::lines::Lines;
use wire_editor::store::TextStore;

fn filled(text: &str) -> TextStore {
    let mut store = TextStore::new();
    for (i, c) in text.chars().enumerate() {
        store.insert(i, c).unwrap();
    }
    store
}

fn walk(text: &str, start: usize) -> Vec<String> {
    let store = filled(text);
    let mut lines = Lines::new(&store, start);
    let mut out = Vec::new();
    while let Some(line) = lines.next() {
        out.push(line);
    }
    assert_eq!(lines.next(), None);
    out
}

#[test]
fn lines_come_without_their_newlines() {
    assert_eq!(walk("ab\ncd", 0), vec!["ab", "cd"]);
    assert_eq!(walk("ab\ncd\nef", 0), vec!["ab", "cd", "ef"]);
}

#[test]
fn a_final_newline_ends_the_walk() {
    assert_eq!(walk("ab\n", 0), vec!["ab"]);
    assert_eq!(walk("\n", 0), vec![""]);
}

#[test]
fn empty_lines_are_lines() {
    assert_eq!(walk("\n\nx", 0), vec!["", "", "x"]);
    assert_eq!(walk("a\n\nb", 0), vec!["a", "", "b"]);
}

#[test]
fn the_walk_starts_where_it_is_told() {
    assert_eq!(walk("ab\ncd", 1), vec!["b", "cd"]);
    assert_eq!(walk("ab\ncd", 2), vec!["", "cd"]);
    assert_eq!(walk("ab\ncd", 3), vec!["cd"]);
    assert_eq!(walk("ab\ncd", 4), vec!["d"]);
}

#[test]
fn nothing_comes_from_the_end_on() {
    assert_eq!(walk("ab\ncd", 5), Vec::<String>::new());
    assert_eq!(walk("ab\ncd", 50), Vec::<String>::new());
    assert_eq!(walk("", 0), Vec::<String>::new());
}
