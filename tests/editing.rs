use text_editor::buffer::{Buffer, BufferPath};
use text_editor::editor::{Editor, EditorEvent, InputEvent, KeyCode, KeyPress};
use text_editor::screen::{draw_commands, DrawOp};

fn key(c: char, control: bool) -> InputEvent {
    InputEvent::Key(KeyPress { code: KeyCode::Char(c), control })
}

fn backspace() -> InputEvent {
    InputEvent::Key(KeyPress { code: KeyCode::Backspace, control: false })
}

fn file_editor(path: &str, text: Option<&str>) -> Editor {
    Editor::new(Buffer::open(Some(path.to_string()), text.map(|t| t.to_string())))
}

fn planned(e: &Editor) -> Option<(String, Vec<u8>)> {
    e.save_plan().map(|(p, b)| (p.to_string(), b.to_vec()))
}

fn printed(op: &DrawOp) -> Option<&str> {
    match op {
        DrawOp::Print(s) => Some(s.as_str()),
        _ => None,
    }
}

#[test]
fn unsaved_buffer_save_writes_nothing() {
    let mut e = Editor::new(Buffer::open(None, None));
    assert!(matches!(e.buffer.path, BufferPath::Temp(0)));
    e.insert_char('h');
    e.insert_char('i');
    let r = e.read_input(key('s', true));
    assert!(r.save);
    assert_eq!(r.event, EditorEvent::Edited);
    assert_eq!(e.buffer.data, "hi");
    assert!(e.save_plan().is_none());
    assert!(e.save_plan().is_none());
}

#[test]
fn missing_file_starts_empty_and_save_creates_it() {
    let mut e = file_editor("/tmp/x.txt", None);
    assert_eq!(e.buffer.data, "");
    e.read_input(key('o', false));
    e.read_input(key('k', false));
    assert_eq!(planned(&e), Some(("/tmp/x.txt".to_string(), b"ok".to_vec())));
}

#[test]
fn deleting_twice_from_file_text_leaves_first_char() {
    let mut e = file_editor("/tmp/abc.txt", Some("abc"));
    e.read_input(backspace());
    e.read_input(backspace());
    assert_eq!(planned(&e), Some(("/tmp/abc.txt".to_string(), b"a".to_vec())));
}

#[test]
fn two_lines_are_drawn_on_two_rows() {
    let ops = draw_commands("line1\nline2");
    assert_eq!(ops.len(), 5);
    assert!(matches!(ops[0], DrawOp::ClearAll));
    assert!(matches!(ops[1], DrawOp::MoveTo(0, 0)));
    assert_eq!(printed(&ops[2]), Some("line1"));
    assert!(matches!(ops[3], DrawOp::MoveToNextLine));
    assert_eq!(printed(&ops[4]), Some("line2"));
}

#[test]
fn control_c_quits_without_saving() {
    let mut e = file_editor("/tmp/q.txt", Some("abc"));
    e.read_input(key('z', false));
    let r = e.read_input(key('c', true));
    assert_eq!(r.event, EditorEvent::Quit);
    assert!(!r.save);
    assert_eq!(e.buffer.data, "abcz");
}

#[test]
fn length_follows_inserts_and_effective_deletes() {
    let mut e = Editor::new(Buffer::open(None, None));
    e.delete_last_char();
    assert_eq!(e.buffer.data, "");
    e.insert_char('a');
    e.insert_char('b');
    e.delete_last_char();
    e.delete_last_char();
    e.delete_last_char();
    e.insert_char('c');
    assert_eq!(e.buffer.data.chars().count(), 1);
    assert_eq!(e.buffer.data, "c");
}

#[test]
fn saved_bytes_read_back_as_the_text() {
    let mut e = file_editor("/tmp/rt.txt", None);
    for c in "é\nz\r\n∂".chars() {
        e.insert_char(c);
    }
    let (_, bytes) = planned(&e).unwrap();
    assert_eq!(String::from_utf8(bytes).unwrap(), "é\nz\r\n∂");
    assert_eq!(planned(&e), planned(&e));
}

#[test]
fn delete_removes_a_whole_multibyte_char_and_newline() {
    let mut b = Buffer::new(BufferPath::Temp(0), "x\né".to_string());
    b.delete_char_from_end();
    assert_eq!(b.data, "x\n");
    b.delete_char_from_end();
    assert_eq!(b.data, "x");
    b.append_char('ü');
    assert_eq!(b.data, "xü");
}

#[test]
fn other_events_change_nothing() {
    let mut e = file_editor("/tmp/o.txt", Some("t"));
    for ev in [
        InputEvent::Resize(80, 24),
        InputEvent::Mouse,
        InputEvent::Other,
        InputEvent::Key(KeyPress { code: KeyCode::Other, control: false }),
    ] {
        let r = e.read_input(ev);
        assert_eq!(r.event, EditorEvent::Continue);
        assert!(!r.save);
    }
    assert_eq!(e.buffer.data, "t");
}

#[test]
fn control_with_other_char_inserts_it() {
    let mut e = Editor::new(Buffer::open(None, None));
    let r = e.match_keyevent(KeyPress { code: KeyCode::Char('x'), control: true });
    assert_eq!(r.event, EditorEvent::Edited);
    assert_eq!(e.buffer.data, "x");
    let r = e.match_keyevent(KeyPress { code: KeyCode::Char('c'), control: false });
    assert_eq!(r.event, EditorEvent::Edited);
    assert_eq!(e.buffer.data, "xc");
}

#[test]
fn empty_text_draws_one_empty_row() {
    let ops = draw_commands("");
    assert_eq!(ops.len(), 3);
    assert_eq!(printed(&ops[2]), Some(""));
}

#[test]
fn line_endings_are_left_out_of_rows() {
    let ops = draw_commands("a\r\n\nb\n");
    assert_eq!(ops.len(), 7);
    assert_eq!(printed(&ops[2]), Some("a"));
    assert_eq!(printed(&ops[4]), Some(""));
    assert_eq!(printed(&ops[6]), Some("b"));
}

#[test]
fn edits_and_keys_keep_the_buffer_path() {
    let mut e = Editor::new(Buffer::new(BufferPath::Temp(0), String::new()));
    e.insert_char('h');
    e.insert_char('i');
    assert!(matches!(e.buffer.path, BufferPath::Temp(0)));
    e.read_input(key('c', true));
    e.read_input(key('s', true));
    e.read_input(backspace());
    e.read_input(InputEvent::Resize(10, 10));
    assert!(matches!(e.buffer.path, BufferPath::Temp(0)));
    assert_eq!(e.buffer.data, "h");

    let mut f = file_editor("/tmp/keep.txt", Some("x"));
    f.delete_last_char();
    f.delete_last_char();
    f.read_input(key('y', false));
    assert!(matches!(&f.buffer.path, BufferPath::File(p) if p == "/tmp/keep.txt"));
}
