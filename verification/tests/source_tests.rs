use cell_front::{File, SourceDatabase};

#[test]
fn interning_the_same_file_twice_gives_the_same_handle() {
    let mut db = SourceDatabase::new();
    let a = db.intern_file(File::new("main.cl", "def main() {}"));
    let b = db.intern_file(File::new("main.cl", "def main() {}"));
    assert_eq!(a, b);
}

#[test]
fn different_sources_give_different_handles() {
    let mut db = SourceDatabase::new();
    let a = db.intern_file(File::new("main.cl", "var x = 1;"));
    let b = db.intern_file(File::new("main.cl", "var x = 2;"));
    assert_ne!(a, b);
}

#[test]
fn different_names_give_different_handles() {
    let mut db = SourceDatabase::new();
    let a = db.intern_file(File::new("a.cl", "var x = 1;"));
    let b = db.intern_file(File::new("b.cl", "var x = 1;"));
    assert_ne!(a, b);
}

#[test]
fn lookup_returns_the_registered_file() {
    let mut db = SourceDatabase::new();
    let id = db.intern_file(File::new("main.cl", "x"));
    assert_eq!(db.name(id).as_str(), "main.cl");
    assert_eq!(db.source(id).as_str(), "x");
    let file = db.lookup_intern_file(id);
    assert_eq!(file.name().as_str(), "main.cl");
    assert_eq!(file.source().as_str(), "x");
}

#[test]
fn line_starts_of_a_trailing_newline_text() {
    let mut db = SourceDatabase::new();
    let id = db.intern_file(File::new("f", "a\nbb\n"));
    assert_eq!(db.line_starts(id), vec![0, 2, 5]);
    assert_eq!(db.line_start(id, 0), Some(0));
    assert_eq!(db.line_start(id, 1), Some(2));
    assert_eq!(db.line_start(id, 2), Some(5));
    assert_eq!(db.line_start(id, 3), Some(5));
    assert_eq!(db.line_start(id, 4), None);
}

#[test]
fn line_starts_begin_with_zero_and_increase() {
    let mut db = SourceDatabase::new();
    let texts = ["", "abc", "\n", "a\nb\nc", "x\n\n\ny"];
    for text in texts {
        let id = db.intern_file(File::new("f", text));
        let starts = db.line_starts(id);
        assert_eq!(starts[0], 0);
        for w in starts.windows(2) {
            assert!(w[0] < w[1]);
        }
    }
}

#[test]
fn a_text_without_newlines_is_a_single_line() {
    let mut db = SourceDatabase::new();
    let id = db.intern_file(File::new("f", "abc"));
    assert_eq!(db.line_starts(id), vec![0]);
    assert_eq!(db.line_index(id, 0), Some(0));
    assert_eq!(db.line_index(id, 2), Some(0));
    assert_eq!(db.line_range(id, 0), Some(0..3));
    assert_eq!(db.line_range(id, 1), None);
}

#[test]
fn line_index_at_an_exact_line_start_is_that_line() {
    let mut db = SourceDatabase::new();
    let id = db.intern_file(File::new("f", "ab\ncd"));
    assert_eq!(db.line_index(id, 3), Some(1));
}

#[test]
fn line_range_contains_every_offset_the_line_index_maps_there() {
    let mut db = SourceDatabase::new();
    let id = db.intern_file(File::new("f", "a\nbb\nccc"));
    let len = db.source(id).len();
    for b in 0..len {
        let line = db.line_index(id, b).expect("every offset has a line");
        let range = db.line_range(id, line).expect("the line exists");
        assert!(range.contains(&b));
    }
}

#[test]
fn line_range_of_a_middle_line() {
    let mut db = SourceDatabase::new();
    let id = db.intern_file(File::new("f", "a\nbb\n"));
    assert_eq!(db.line_range(id, 0), Some(0..2));
    assert_eq!(db.line_range(id, 1), Some(2..5));
    assert_eq!(db.line_range(id, 2), Some(5..5));
    assert_eq!(db.line_range(id, 3), None);
}

#[test]
fn offsets_past_the_end_resolve_to_the_last_line() {
    let mut db = SourceDatabase::new();
    let id = db.intern_file(File::new("f", "a\nb"));
    assert_eq!(db.line_index(id, 100), Some(1));
}
