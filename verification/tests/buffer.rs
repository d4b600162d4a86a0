use modal_editor::edit::buffer::{Buffer, Buffers};
use modal_editor::edit::cursor::Cursor;

fn lines(buf: &Buffer) -> Vec<String> {
    buf.getlines().to_vec()
}

fn buffer_of(rows: &[&str]) -> Buffer {
    let mut buf = Buffer::new();
    buf.load_buffer(rows.iter().map(|row| row.to_string()).collect());
    buf
}

#[test]
fn test_buffers_count() {
    let mut buffers = Buffers::default();
    buffers.add();
    buffers.add();
    buffers.add();
    assert!(buffers.get(0).is_some());
    assert!(buffers.get(1).is_some());
    assert!(buffers.get(2).is_some());
    assert!(buffers.get(3).is_none());
    assert_eq!(buffers.count(), 3);
}

#[test]
fn test_buffer_append() {
    let mut buf = Buffer::new();

    assert!(buf.append());
    buf.insert_string("foo");

    buf.move_start_line();
    assert!(!buf.append());

    buf.move_append_end_line();
    assert!(buf.append());
}

#[test]
fn test_buffer_move_left_align() {
    let mut buf = Buffer::new();
    buf.insert_string("foo");
    buf.move_left();
    assert_eq!(buf.cursor().x, 0);
}

#[test]
fn test_buffer_move_right_align() {
    let mut buf = Buffer::new();
    buf.insert_string("foo");
    buf.move_right();
    buf.move_right();
    buf.move_right();
    assert_eq!(buf.cursor().x, 2);
}

#[test]
fn test_buffer_move_up_align() {
    let mut buf = Buffer::new();
    buf.insert_string("foo");
    buf.newline_below();
    buf.move_down();
    buf.insert_string("foobarbaz");
    assert_eq!(lines(&buf), vec!["foo", "foobarbaz"]);
    buf.move_end_line();

    buf.move_up();
    assert_eq!(buf.cursor().x, 2);
}

#[test]
fn test_buffer_move_down_align() {
    let mut buf = Buffer::new();
    buf.insert_string("foobarbaz");
    buf.newline_below();
    buf.move_down();
    buf.insert_string("foo");
    assert_eq!(lines(&buf), vec!["foobarbaz", "foo"]);
    buf.move_up();
    buf.move_end_line();

    buf.move_down();
    assert_eq!(buf.cursor().x, 2);
}

#[test]
fn test_buffer_split() {
    let mut buf = Buffer::new();
    buf.insert_char('h');
    buf.move_right();
    buf.insert_char('e');
    buf.move_right();
    buf.insert_char('l');
    buf.move_right();
    buf.insert_char('l');
    buf.move_right();
    buf.insert_char('o');
    buf.move_left();
    buf.split_newline();
    assert_eq!(lines(&buf), vec!["hel", "lo"]);
}

#[test]
fn test_buffer_insert_chars() {
    let mut buf = Buffer::new();
    buf.insert_char('a');
    buf.insert_char('b');
    buf.insert_char('c');
    buf.newline_below();
    buf.move_down();
    buf.insert_char('x');
    buf.insert_char('y');
    buf.insert_char('z');
    assert_eq!(lines(&buf), vec!["cba", "zyx"]);
}

#[test]
fn new_buffer_is_one_empty_row() {
    let buf = Buffer::new();
    assert_eq!(lines(&buf), vec![""]);
    assert_eq!(buf.cursor(), Cursor::new(0, 0));
    assert!(buf.append());
    assert_eq!(buf.filename(), None);
    assert_eq!(buf.getline(), "");
    assert_eq!(buf.getchar(), None);
}

#[test]
fn split_in_the_middle_of_hello() {
    let mut buf = buffer_of(&["hello"]);
    buf.move_right();
    buf.move_right();
    buf.move_right();
    assert_eq!(buf.cursor(), Cursor::new(3, 0));
    buf.split_newline();
    assert_eq!(lines(&buf), vec!["hel", "lo"]);
    assert_eq!(buf.cursor(), Cursor::new(0, 1));
    assert!(!buf.append());
}

#[test]
fn split_then_join_gives_the_row_back() {
    let mut buf = buffer_of(&["one", "hello world", "three"]);
    buf.move_down();
    for _ in 0..5 {
        buf.move_right();
    }
    let column = buf.cursor().x;
    buf.split_newline();
    let rows = lines(&buf);
    assert_eq!(rows, vec!["one", "hello", " world", "three"]);
    assert_eq!(format!("{}{}", rows[1], rows[2]), "hello world");
    assert_eq!(rows[1].chars().count() as isize, column);
    assert_eq!(buf.cursor(), Cursor::new(0, 2));
}

#[test]
fn split_at_the_end_of_a_row_gives_an_empty_row() {
    let mut buf = buffer_of(&["ab"]);
    buf.move_append_end_line();
    buf.split_newline();
    assert_eq!(lines(&buf), vec!["ab", ""]);
    assert_eq!(buf.cursor(), Cursor::new(0, 1));
    assert!(buf.append());
}

#[test]
fn append_end_line_after_start_line() {
    let mut buf = Buffer::new();
    buf.insert_string("abc");
    buf.move_start_line();
    assert!(!buf.append());
    assert_eq!(buf.cursor().x, 0);
    buf.move_append_end_line();
    assert!(buf.append());
    assert_eq!(buf.cursor().x, 3);
}

#[test]
fn append_end_line_on_an_empty_row() {
    let mut buf = Buffer::new();
    buf.move_append_end_line();
    assert!(buf.append());
    assert_eq!(buf.cursor().x, 0);
}

#[test]
fn end_line_lands_on_the_last_character() {
    let mut buf = buffer_of(&["abcd", ""]);
    buf.move_end_line();
    assert_eq!(buf.cursor(), Cursor::new(3, 0));
    assert!(!buf.append());
    assert_eq!(buf.getchar(), Some('d'));
    buf.move_down();
    buf.move_end_line();
    assert_eq!(buf.cursor(), Cursor::new(0, 1));
    assert!(buf.append());
}

#[test]
fn delete_line_on_the_only_row_clears_it() {
    let mut buf = buffer_of(&["only"]);
    buf.delete_line();
    assert_eq!(lines(&buf), vec![""]);
    assert_eq!(buf.cursor(), Cursor::new(0, 0));
    assert!(buf.append());
    buf.delete_line();
    assert_eq!(lines(&buf), vec![""]);
}

#[test]
fn delete_line_takes_the_row_out() {
    let mut buf = buffer_of(&["a", "bcd", "ef"]);
    buf.move_bottom();
    buf.move_end_line();
    assert_eq!(buf.cursor(), Cursor::new(1, 2));
    buf.delete_line();
    assert_eq!(lines(&buf), vec!["a", "bcd"]);
    assert_eq!(buf.cursor(), Cursor::new(1, 1));
    buf.move_top();
    buf.delete_line();
    assert_eq!(lines(&buf), vec!["bcd"]);
    assert_eq!(buf.cursor(), Cursor::new(0, 0));
}

#[test]
fn delete_char_under_the_cursor() {
    let mut buf = buffer_of(&["abc"]);
    buf.move_right();
    buf.delete_char();
    assert_eq!(lines(&buf), vec!["ac"]);
    assert_eq!(buf.cursor().x, 1);
    buf.delete_char();
    assert_eq!(lines(&buf), vec!["a"]);
    assert_eq!(buf.cursor().x, 0);
    buf.delete_char();
    assert_eq!(lines(&buf), vec![""]);
    assert!(buf.append());
    buf.delete_char();
    assert_eq!(lines(&buf), vec![""]);
    assert_eq!(buf.cursor(), Cursor::new(0, 0));
}

#[test]
fn delete_char_past_the_end_does_nothing() {
    let mut buf = buffer_of(&["abc"]);
    buf.move_append_end_line();
    buf.delete_char();
    assert_eq!(lines(&buf), vec!["abc"]);
    assert_eq!(buf.cursor().x, 3);
    assert!(buf.append());
}

#[test]
fn clear_current_line_empties_the_row() {
    let mut buf = buffer_of(&["abc", "def"]);
    buf.move_down();
    buf.move_right();
    buf.clear_current_line();
    assert_eq!(lines(&buf), vec!["abc", ""]);
    assert_eq!(buf.cursor(), Cursor::new(0, 1));
    assert!(buf.append());
}

#[test]
fn newline_above_puts_the_cursor_on_the_new_row() {
    let mut buf = buffer_of(&["abc"]);
    buf.move_right();
    buf.newline_above();
    assert_eq!(lines(&buf), vec!["", "abc"]);
    assert_eq!(buf.cursor(), Cursor::new(0, 0));
    assert!(buf.append());
}

#[test]
fn newline_below_leaves_the_cursor() {
    let mut buf = buffer_of(&["abc"]);
    buf.move_right();
    buf.newline_below();
    assert_eq!(lines(&buf), vec!["abc", ""]);
    assert_eq!(buf.cursor(), Cursor::new(1, 0));
    assert!(!buf.append());
}

#[test]
fn insert_string_splices_at_the_cursor() {
    let mut buf = buffer_of(&["abcd"]);
    buf.move_right();
    buf.move_right();
    buf.insert_string("XY");
    assert_eq!(lines(&buf), vec!["abXYcd"]);
    assert_eq!(buf.cursor(), Cursor::new(2, 0));
    buf.insert_char('-');
    assert_eq!(lines(&buf), vec!["ab-XYcd"]);
    assert_eq!(buf.cursor(), Cursor::new(2, 0));
}

#[test]
fn insert_counts_characters_not_bytes() {
    let mut buf = buffer_of(&["äöü"]);
    buf.move_right();
    buf.insert_char('é');
    assert_eq!(lines(&buf), vec!["äéöü"]);
    buf.move_end_line();
    assert_eq!(buf.cursor().x, 3);
    assert_eq!(buf.getchar(), Some('ü'));
    buf.delete_char();
    assert_eq!(lines(&buf), vec!["äéö"]);
}

#[test]
fn insert_at_column_zero_then_left_comes_back() {
    let mut buf = buffer_of(&["tail"]);
    let before = buf.cursor().x;
    buf.insert_string("abc");
    for _ in 0..3 {
        buf.move_left();
    }
    assert_eq!(buf.cursor().x, before);
}

#[test]
fn insert_then_left_stops_short_of_a_later_column() {
    let mut buf = buffer_of(&["abc"]);
    buf.move_right();
    buf.move_right();
    buf.insert_string("x");
    buf.move_left();
    assert_eq!(buf.cursor().x, 1);
    assert_eq!(lines(&buf), vec!["abxc"]);
}

#[test]
fn motions_clamp_at_the_edges() {
    let mut buf = buffer_of(&["ab", "cdef", "g"]);
    buf.move_up();
    assert_eq!(buf.cursor(), Cursor::new(0, 0));
    buf.move_left();
    assert_eq!(buf.cursor(), Cursor::new(0, 0));
    buf.move_down_many(10);
    assert_eq!(buf.cursor(), Cursor::new(0, 2));
    buf.move_down();
    assert_eq!(buf.cursor(), Cursor::new(0, 2));
    buf.move_up_many(1);
    assert_eq!(buf.cursor(), Cursor::new(0, 1));
    buf.move_end_line();
    buf.move_right();
    assert_eq!(buf.cursor(), Cursor::new(3, 1));
    buf.move_up_many(isize::MAX);
    assert_eq!(buf.cursor(), Cursor::new(1, 0));
    buf.move_down_many(isize::MAX);
    assert_eq!(buf.cursor(), Cursor::new(0, 2));
    buf.move_up_many(isize::MIN);
    assert_eq!(buf.cursor(), Cursor::new(0, 2));
    buf.move_down_many(isize::MIN);
    assert_eq!(buf.cursor(), Cursor::new(0, 0));
    buf.move_down_many(-1);
    assert_eq!(buf.cursor(), Cursor::new(0, 0));
    buf.move_up_many(-2);
    assert_eq!(buf.cursor(), Cursor::new(0, 2));
}

#[test]
fn top_and_bottom() {
    let mut buf = buffer_of(&["abc", "d", "efg"]);
    buf.move_end_line();
    buf.move_bottom();
    assert_eq!(buf.cursor(), Cursor::new(2, 2));
    buf.move_top();
    assert_eq!(buf.cursor(), Cursor::new(2, 0));
}

#[test]
fn load_buffer_of_nothing_is_one_empty_row() {
    let mut buf = buffer_of(&["abc"]);
    buf.set_filename("/tmp/x".to_string());
    buf.load_buffer(Vec::new());
    assert_eq!(lines(&buf), vec![""]);
    assert!(buf.append());
    assert_eq!(buf.cursor(), Cursor::new(0, 0));
    assert_eq!(buf.filename(), None);
}

#[test]
fn load_buffer_resets_the_cursor() {
    let mut buf = buffer_of(&["abc", "def"]);
    buf.move_bottom();
    buf.move_end_line();
    buf.load_buffer(vec!["xy".to_string()]);
    assert_eq!(lines(&buf), vec!["xy"]);
    assert_eq!(buf.cursor(), Cursor::new(0, 0));
    assert!(!buf.append());
    buf.load_buffer(vec![String::new(), "z".to_string()]);
    assert!(buf.append());
}

#[test]
fn load_file_splits_at_line_feeds() {
    let mut buf = Buffer::new();
    buf.load_file("/tmp/a.txt".to_string(), Some("one\ntwo\n\nfour\n"));
    assert_eq!(lines(&buf), vec!["one", "two", "", "four"]);
    assert_eq!(buf.filename(), Some("/tmp/a.txt"));
    assert_eq!(buf.cursor(), Cursor::new(0, 0));
    buf.load_file("/tmp/b.txt".to_string(), Some("no end"));
    assert_eq!(lines(&buf), vec!["no end"]);
    buf.load_file("/tmp/c.txt".to_string(), Some("cr\r\nkept"));
    assert_eq!(lines(&buf), vec!["cr\r", "kept"]);
    buf.load_file("/tmp/d.txt".to_string(), Some(""));
    assert_eq!(lines(&buf), vec![""]);
}

#[test]
fn load_file_that_does_not_exist_is_empty_and_bound() {
    let buf = Buffer::with_file("/tmp/missing.txt".to_string(), None);
    assert_eq!(lines(&buf), vec![""]);
    assert_eq!(buf.filename(), Some("/tmp/missing.txt"));
    assert!(buf.append());
}

#[test]
fn save_joins_the_rows_without_a_last_line_feed() {
    let buf = buffer_of(&["one", "two", "", "four"]);
    assert_eq!(buf.save_to_file(), Some("one\ntwo\n\nfour".to_string()));
    let buf = buffer_of(&["", ""]);
    assert_eq!(buf.save_to_file(), Some("\n".to_string()));
}

#[test]
fn save_of_an_empty_buffer_writes_nothing() {
    let buf = Buffer::new();
    assert_eq!(buf.save_to_file(), None);
    let buf = Buffer::with_file("/tmp/missing.txt".to_string(), None);
    assert_eq!(buf.save_to_loaded_file(), Some(("/tmp/missing.txt".to_string(), None)));
}

#[test]
fn save_to_loaded_file_needs_a_file() {
    let mut buf = buffer_of(&["text"]);
    assert_eq!(buf.save_to_loaded_file(), None);
    buf.set_filename("/tmp/out.txt".to_string());
    assert_eq!(
        buf.save_to_loaded_file(),
        Some(("/tmp/out.txt".to_string(), Some("text".to_string())))
    );
}

#[test]
fn search_gives_the_first_match_of_each_row() {
    let buf = buffer_of(&["foo bar foo", "nothing", "a foo", "", "fo", "föfoo"]);
    assert_eq!(
        buf.search("foo"),
        vec![Cursor::new(0, 0), Cursor::new(2, 2), Cursor::new(2, 5)]
    );
    assert_eq!(buf.search("zzz"), Vec::new());
    assert_eq!(buf.search("nothing!"), Vec::new());
}

#[test]
fn search_for_nothing_matches_every_row_at_its_start() {
    let buf = buffer_of(&["ab", ""]);
    assert_eq!(buf.search(""), vec![Cursor::new(0, 0), Cursor::new(0, 1)]);
}

#[test]
fn search_query_is_kept() {
    let mut buf = Buffer::new();
    assert_eq!(buf.search_query(), "foo");
    buf.set_search_query("bar".to_string());
    assert_eq!(buf.search_query(), "bar");
}

#[test]
fn buffers_get_mut_changes_the_buffer_in_the_table() {
    let mut buffers = Buffers::default();
    let first = buffers.add();
    let second = buffers.add();
    assert_eq!((first, second), (0, 1));
    buffers.get_mut(second).unwrap().insert_string("changed");
    assert_eq!(buffers.get(second).unwrap().getline(), "changed");
    assert_eq!(buffers.get(first).unwrap().getline(), "");
    assert!(buffers.get_mut(2).is_none());
    assert_eq!(buffers.count(), 2);
}

#[test]
fn buffers_with_file_holds_one_buffer() {
    let buffers = Buffers::with_file("/tmp/a.txt".to_string(), Some("x\ny"));
    assert_eq!(buffers.count(), 1);
    assert_eq!(lines(buffers.get(0).unwrap()), vec!["x", "y"]);
    assert!(buffers.get(1).is_none());
}

#[test]
fn cursor_arithmetic() {
    let a = Cursor::new(5, 7);
    let b = Cursor::from((2, 10));
    assert_eq!(a + b, Cursor::new(7, 17));
    assert_eq!(a - b, Cursor::new(3, -3));
    assert_eq!(Cursor::default(), Cursor::new(0, 0));
}

#[test]
fn many_edits_keep_the_cursor_in_the_text() {
    let mut buf = Buffer::new();
    let mut seed: u32 = 12345;
    for _ in 0..2000 {
        seed = seed.wrapping_mul(1664525).wrapping_add(1013904223);
        match (seed >> 16) % 14 {
            0 => buf.insert_char('x'),
            1 => buf.insert_string("yz"),
            2 => buf.newline_above(),
            3 => buf.newline_below(),
            4 => buf.split_newline(),
            5 => buf.delete_char(),
            6 => buf.delete_line(),
            7 => buf.clear_current_line(),
            8 => buf.move_left(),
            9 => buf.move_right(),
            10 => buf.move_up(),
            11 => buf.move_down(),
            12 => buf.move_append_end_line(),
            _ => buf.move_end_line(),
        }
        let rows = lines(&buf);
        let cursor = buf.cursor();
        assert!(!rows.is_empty());
        assert!(0 <= cursor.y && (cursor.y as usize) < rows.len());
        let len = rows[cursor.y as usize].chars().count() as isize;
        assert!(0 <= cursor.x && cursor.x <= len);
        if cursor.x == len {
            assert!(buf.append());
        }
    }
}

#[test]
fn backspace_takes_out_the_character_before_the_cursor() {
    let mut buf = buffer_of(&["abc"]);
    buf.move_append_end_line();
    buf.backspace();
    assert_eq!(lines(&buf), vec!["ab"]);
    assert_eq!(buf.cursor(), Cursor::new(2, 0));
    assert!(buf.append());
    buf.move_start_line();
    buf.move_right();
    buf.backspace();
    assert_eq!(lines(&buf), vec!["b"]);
    assert_eq!(buf.cursor(), Cursor::new(0, 0));
    assert!(!buf.append());
}

#[test]
fn backspace_undoes_a_typed_character() {
    let mut buf = buffer_of(&["ab"]);
    buf.move_append_end_line();
    buf.insert_char('c');
    buf.move_right();
    assert_eq!(lines(&buf), vec!["abc"]);
    buf.backspace();
    assert_eq!(lines(&buf), vec!["ab"]);
    assert_eq!(buf.cursor(), Cursor::new(2, 0));
    assert!(buf.append());
}

#[test]
fn tab_is_four_spaces() {
    let mut buf = Buffer::new();
    buf.insert_tab();
    assert_eq!(lines(&buf), vec!["    "]);
    // the cursor does not pass the last character without append
    assert_eq!(buf.cursor(), Cursor::new(3, 0));
    assert!(!buf.append());
    let mut buf = buffer_of(&["x"]);
    buf.insert_tab();
    assert_eq!(lines(&buf), vec!["    x"]);
    assert_eq!(buf.cursor(), Cursor::new(4, 0));
    assert_eq!(buf.getchar(), Some('x'));
}

#[test]
fn open_below_moves_onto_the_new_row() {
    let mut buf = buffer_of(&["abc", "def"]);
    buf.move_end_line();
    buf.open_below();
    assert_eq!(lines(&buf), vec!["abc", "", "def"]);
    assert_eq!(buf.cursor(), Cursor::new(0, 1));
    assert!(buf.append());
}

#[test]
fn append_after_steps_behind_the_character() {
    let mut buf = buffer_of(&["abc"]);
    buf.append_after();
    assert_eq!(buf.cursor(), Cursor::new(1, 0));
    assert!(!buf.append());
    buf.append_after();
    assert_eq!(buf.cursor(), Cursor::new(2, 0));
    buf.append_after();
    assert_eq!(buf.cursor(), Cursor::new(3, 0));
    assert!(buf.append());
    buf.append_after();
    assert_eq!(buf.cursor(), Cursor::new(3, 0));
    let mut buf = Buffer::new();
    buf.append_after();
    assert_eq!(buf.cursor(), Cursor::new(0, 0));
    assert!(buf.append());
}

#[test]
fn moves_by_many_columns() {
    let mut buf = buffer_of(&["abcdef"]);
    buf.move_right_many(3);
    assert_eq!(buf.cursor().x, 3);
    buf.move_right_many(100);
    assert_eq!(buf.cursor().x, 5);
    buf.move_left_many(2);
    assert_eq!(buf.cursor().x, 3);
    buf.move_left_many(isize::MAX);
    assert_eq!(buf.cursor().x, 0);
    buf.move_right_many(isize::MAX);
    assert_eq!(buf.cursor().x, 5);
    buf.move_left_many(isize::MIN);
    assert_eq!(buf.cursor().x, 5);
    buf.move_right_many(isize::MIN);
    assert_eq!(buf.cursor().x, 0);
    buf.move_right_many(-3);
    assert_eq!(buf.cursor().x, 0);
    buf.move_left_many(-2);
    assert_eq!(buf.cursor().x, 2);
}

#[test]
fn insert_then_left_many_comes_back_to_column_zero() {
    let mut buf = buffer_of(&["tail"]);
    buf.insert_string("abc");
    buf.move_left_many(3);
    assert_eq!(buf.cursor().x, 0);
}

#[test]
fn room_is_there_for_ordinary_text() {
    let buf = buffer_of(&["abc"]);
    assert!(buf.has_room_for(1));
    assert!(buf.has_room_for(1000));
    assert!(!buf.has_room_for(usize::MAX));
    assert!(!buf.has_room_for(isize::MAX as usize - 3));
    assert!(buf.has_room_for(isize::MAX as usize - 4));
    assert!(buf.has_room_for_row());
}
