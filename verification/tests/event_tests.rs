use mi::event::{edited_echo, handle_key, paste, KeyCode, KeyEvent, KeyModifiers, KeyStep};
use mi::term::TermOp;

fn mods(control: bool, shift: bool, other: bool) -> KeyModifiers {
    KeyModifiers { control, shift, other }
}

fn key(code: KeyCode, m: KeyModifiers) -> KeyEvent {
    KeyEvent { code, modifiers: m }
}

fn printed(ops: &[TermOp]) -> String {
    let mut s = String::new();
    for op in ops {
        if let TermOp::Print(p) = op {
            s.push_str(p);
        }
    }
    s
}

#[test]
fn typing_appends_and_echoes() {
    let mut p = String::new();
    let (step, ops) = handle_key(&mut p, &key(KeyCode::Char('h'), mods(false, false, false)));
    assert_eq!(step, KeyStep::Continue);
    assert_eq!(p, "h");
    assert_eq!(printed(&ops), "h");
    let (_, ops) = handle_key(&mut p, &key(KeyCode::Char('A'), mods(false, true, false)));
    assert_eq!(p, "hA");
    assert_eq!(printed(&ops), "A");
    let (_, ops) = handle_key(&mut p, &key(KeyCode::Char('b'), mods(false, true, false)));
    assert_eq!(p, "hAB");
    assert_eq!(printed(&ops), "B");
}

#[test]
fn shifted_sharp_s_uppercases_to_two_letters() {
    let mut p = String::new();
    handle_key(&mut p, &key(KeyCode::Char('ß'), mods(false, true, false)));
    assert_eq!(p, "SS");
}

#[test]
fn other_modifiers_are_ignored() {
    let mut p = String::from("x");
    let (step, ops) = handle_key(&mut p, &key(KeyCode::Char('a'), mods(false, false, true)));
    assert_eq!(step, KeyStep::Continue);
    assert_eq!(p, "x");
    assert!(ops.is_empty());
    let (_, ops) = handle_key(&mut p, &key(KeyCode::Other, mods(false, false, false)));
    assert_eq!(p, "x");
    assert!(ops.is_empty());
}

#[test]
fn control_keys_leave_copy_edit() {
    let mut p = String::from("a\nb\nc");
    assert_eq!(handle_key(&mut p, &key(KeyCode::Char('c'), mods(true, false, false))).0, KeyStep::Exit);
    assert_eq!(handle_key(&mut p, &key(KeyCode::Char('y'), mods(true, false, false))).0, KeyStep::Copy);
    let (step, ops) = handle_key(&mut p, &key(KeyCode::Char('e'), mods(true, false, false)));
    assert_eq!(step, KeyStep::Edit);
    assert_eq!(p, "a\nb\nc");
    assert_eq!(ops.len(), 3);
    assert!(matches!(ops[0], TermOp::MoveUp(2)));
    assert!(matches!(ops[1], TermOp::MoveToColumn(2)));
    assert!(matches!(ops[2], TermOp::ClearFromCursorDown));
}

#[test]
fn edit_on_one_line_does_not_move_up() {
    let mut p = String::from("abc");
    let (_, ops) = handle_key(&mut p, &key(KeyCode::Char('e'), mods(true, false, false)));
    assert_eq!(ops.len(), 2);
    assert!(matches!(ops[0], TermOp::MoveToColumn(2)));
}

#[test]
fn enter_submits_and_shift_enter_breaks_the_line() {
    let mut p = String::from("a");
    let (step, ops) = handle_key(&mut p, &key(KeyCode::Enter, mods(false, true, false)));
    assert_eq!(step, KeyStep::Continue);
    assert_eq!(p, "a\n");
    assert_eq!(printed(&ops), "\r\n");
    let (step, ops) = handle_key(&mut p, &key(KeyCode::Enter, mods(false, false, false)));
    assert_eq!(step, KeyStep::Submit);
    assert!(ops.is_empty());
    assert_eq!(p, "a\n");
}

#[test]
fn backspace_erases_a_character() {
    let mut p = String::from("ab");
    let (step, ops) = handle_key(&mut p, &key(KeyCode::Backspace, mods(false, false, false)));
    assert_eq!(step, KeyStep::Continue);
    assert_eq!(p, "a");
    assert_eq!(printed(&ops), "\x08 \x08");
    let mut empty = String::new();
    let (_, ops) = handle_key(&mut empty, &key(KeyCode::Backspace, mods(false, false, false)));
    assert_eq!(empty, "");
    assert!(ops.is_empty());
}

#[test]
fn backspace_over_line_break_on_first_line() {
    let mut p = String::from("héllo\n");
    let (_, ops) = handle_key(&mut p, &key(KeyCode::Backspace, mods(false, false, false)));
    assert_eq!(p, "héllo");
    assert!(matches!(ops[0], TermOp::MoveUp(1)));
    // "héllo" is six bytes; on the first line two columns are taken by the prompt sign.
    assert!(matches!(ops[1], TermOp::MoveToColumn(8)));
}

#[test]
fn backspace_over_line_break_on_later_line() {
    let mut p = String::from("one\ntwo\r\n\n");
    let (_, ops) = handle_key(&mut p, &key(KeyCode::Backspace, mods(false, false, false)));
    assert_eq!(p, "one\ntwo\r\n");
    assert!(matches!(ops[0], TermOp::MoveUp(1)));
    assert!(matches!(ops[1], TermOp::MoveToColumn(3)));
}

#[test]
fn typing_then_backspace_restores_prompt() {
    let mut p = String::from("abc");
    handle_key(&mut p, &key(KeyCode::Char('\n'), mods(false, false, false)));
    handle_key(&mut p, &key(KeyCode::Backspace, mods(true, true, true)));
    assert_eq!(p, "abc");
}

#[test]
fn pasting_appends_and_echoes_crlf() {
    let mut p = String::from(">");
    let echo = paste(&mut p, "a\nb");
    assert_eq!(p, ">a\nb");
    assert_eq!(echo, "a\r\nb");
}

#[test]
fn edited_prompt_is_trimmed_in_echo() {
    assert_eq!(edited_echo("  x\ny \n"), "x\r\ny");
}

#[test]
fn backspace_undoes_shift_enter() {
    let mut p = String::from("line");
    handle_key(&mut p, &key(KeyCode::Enter, mods(false, true, false)));
    assert_eq!(p, "line\n");
    handle_key(&mut p, &key(KeyCode::Backspace, mods(false, false, false)));
    assert_eq!(p, "line");
}

#[test]
fn typed_and_pasted_text_builds_the_prompt_in_order() {
    let mut p = String::from("> ");
    let plain = mods(false, false, false);
    for c in ['a', 'b'] {
        let (step, _) = handle_key(&mut p, &key(KeyCode::Char(c), plain));
        assert_eq!(step, KeyStep::Continue);
    }
    let (step, _) = handle_key(&mut p, &key(KeyCode::Enter, mods(false, true, false)));
    assert_eq!(step, KeyStep::Continue);
    paste(&mut p, "pasted\ntext");
    let (step, _) = handle_key(&mut p, &key(KeyCode::Char('!'), plain));
    assert_eq!(step, KeyStep::Continue);
    let (step, ops) = handle_key(&mut p, &key(KeyCode::Enter, plain));
    assert_eq!(step, KeyStep::Submit);
    assert!(ops.is_empty());
    assert_eq!(p, "> ab\npasted\ntext!");
}
