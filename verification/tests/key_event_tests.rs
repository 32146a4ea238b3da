use uo_keyboard::Ime;
use uo_keyboard::compartment::Compartment;
use uo_keyboard::convert::Converter;
use uo_keyboard::convert::TableEntry;
use uo_keyboard::document::Document;
use uo_keyboard::document::TextRange;
use uo_keyboard::key_class::ModifierState;
use uo_keyboard::registration::Guid;

fn entry(find: &[u8], replace: &str) -> TableEntry {
    TableEntry { find: find.to_vec(), replace: replace.chars().collect() }
}

fn stub_table() -> Vec<TableEntry> {
    vec![entry(b"a", "X"), entry(b"am", "Y"), entry(b"ami", "Z")]
}

fn active_ime(table: Vec<TableEntry>) -> Ime {
    let mut ime = Ime::new(Converter::Table(table));
    ime.activate(7, 100, Some(1), 101, 102);
    ime
}

fn no_mods() -> ModifierState {
    ModifierState { caps_locked: false, shifted: false, ctrled: false, alted: false, metaed: false }
}

fn guid(n: u32) -> Guid {
    Guid { data1: n, data2: 0, data3: 0, data4: 0 }
}

fn off() -> (Compartment, Compartment) {
    (Compartment::new(guid(1), None), Compartment::new(guid(2), None))
}

fn text_of(doc: &Document) -> String {
    doc.text.iter().collect()
}

#[test]
fn typing_a_m_i_renders_x_y_z_then_space_commits() {
    let mut ime = active_ime(stub_table());
    let mut doc = Document::new();
    let (kb, empty) = off();
    // 'a', 'm', 'i' have virtual key codes 0x41, 0x4D, 0x49
    let expected = [(0x41u16, "X"), (0x4D, "Y"), (0x49, "Z")];
    for (key, rendered) in expected {
        let out = ime
            .on_key_down(&mut doc, 1, key, no_mods(), 0, false, &kb, &empty)
            .unwrap();
        assert!(out.eaten);
        assert!(!out.reemit);
        assert_eq!(text_of(&doc), rendered);
    }
    // space commits the rendering and re-emits the keystroke
    let out = ime
        .on_key_down(&mut doc, 1, 0x20, no_mods(), 0, false, &kb, &empty)
        .unwrap();
    assert!(out.eaten);
    assert!(out.reemit);
    assert!(ime.composition().is_none());
    assert_eq!(text_of(&doc), "Z");
}

#[test]
fn delimiter_while_idle_reemits_without_commit_action() {
    let mut ime = active_ime(stub_table());
    let mut doc = Document::new();
    doc.text = "keep".chars().collect();
    doc.sel = TextRange { start: 4, end: 4 };
    let (kb, empty) = off();
    let out = ime
        .on_key_down(&mut doc, 1, 0x20, no_mods(), 0, false, &kb, &empty)
        .unwrap();
    assert!(out.eaten);
    assert!(out.reemit);
    assert!(ime.composition().is_none());
    assert_eq!(text_of(&doc), "keep");
    assert_eq!(doc.sel, TextRange { start: 4, end: 4 });
}

#[test]
fn modifier_key_is_not_eaten() {
    let mut ime = active_ime(stub_table());
    let mut doc = Document::new();
    let (kb, empty) = off();
    let out = ime
        .on_key_down(&mut doc, 1, 0x10, no_mods(), 0, false, &kb, &empty)
        .unwrap();
    assert!(!out.eaten);
    assert!(!out.reemit);
}

#[test]
fn backspace_while_idle_is_not_eaten() {
    let mut ime = active_ime(stub_table());
    let mut doc = Document::new();
    let (kb, empty) = off();
    let out = ime
        .on_key_down(&mut doc, 1, 0x08, no_mods(), 0, false, &kb, &empty)
        .unwrap();
    assert!(!out.eaten);
    assert!(ime.composition().is_none());
}

#[test]
fn backspace_while_composing_rewinds() {
    let mut ime = active_ime(stub_table());
    let mut doc = Document::new();
    let (kb, empty) = off();
    ime.on_key_down(&mut doc, 1, 0x41, no_mods(), 0, false, &kb, &empty).unwrap();
    ime.on_key_down(&mut doc, 1, 0x4D, no_mods(), 0, false, &kb, &empty).unwrap();
    assert_eq!(text_of(&doc), "Y");
    let out = ime
        .on_key_down(&mut doc, 1, 0x08, no_mods(), 0, false, &kb, &empty)
        .unwrap();
    assert!(out.eaten);
    assert_eq!(text_of(&doc), "X");
    // rewinding the last character terminates the composition
    let out = ime
        .on_key_down(&mut doc, 1, 0x08, no_mods(), 0, false, &kb, &empty)
        .unwrap();
    assert!(out.eaten);
    assert_eq!(text_of(&doc), "");
    assert!(ime.composition().is_none());
}

#[test]
fn digit_while_idle_converts_directly() {
    let mut ime = active_ime(vec![entry(b"5", "V")]);
    let mut doc = Document::new();
    let (kb, empty) = off();
    let out = ime
        .on_key_down(&mut doc, 1, 0x35, no_mods(), 0, false, &kb, &empty)
        .unwrap();
    assert!(out.eaten);
    assert!(ime.composition().is_none());
    assert_eq!(text_of(&doc), "V");
}

#[test]
fn digit_while_composing_extends_the_buffer() {
    let mut ime = active_ime(vec![entry(b"a", "X"), entry(b"a5", "W")]);
    let mut doc = Document::new();
    let (kb, empty) = off();
    ime.on_key_down(&mut doc, 1, 0x41, no_mods(), 0, false, &kb, &empty).unwrap();
    let out = ime
        .on_key_down(&mut doc, 1, 0x35, no_mods(), 0, false, &kb, &empty)
        .unwrap();
    assert!(out.eaten);
    assert!(ime.is_composing());
    assert_eq!(text_of(&doc), "W");
}

#[test]
fn numpad_digit_acts_as_free_convertible() {
    let mut ime = active_ime(vec![entry(b"3", "T")]);
    let mut doc = Document::new();
    let (kb, empty) = off();
    let out = ime
        .on_key_down(&mut doc, 1, 0x63, no_mods(), 0, false, &kb, &empty)
        .unwrap();
    assert!(out.eaten);
    assert!(ime.composition().is_none());
    assert_eq!(text_of(&doc), "T");
}

#[test]
fn numpad_decimal_appends_period_and_backtick() {
    let mut ime = active_ime(vec![entry(b".`", "D")]);
    let mut doc = Document::new();
    let (kb, empty) = off();
    let out = ime
        .on_key_down(&mut doc, 1, 0x6E, no_mods(), 0, false, &kb, &empty)
        .unwrap();
    assert!(out.eaten);
    assert!(ime.is_composing());
    assert_eq!(ime.composition().unwrap().input, b".`".to_vec());
    assert_eq!(text_of(&doc), "D");
}

#[test]
fn suppressed_input_eats_nothing() {
    let mut ime = active_ime(stub_table());
    let mut doc = Document::new();
    let kb = Compartment::new(guid(1), Some(1));
    let empty = Compartment::new(guid(2), Some(1));
    let out = ime
        .on_key_down(&mut doc, 1, 0x41, no_mods(), 0, true, &kb, &empty)
        .unwrap();
    assert!(!out.eaten);
    assert!(!out.reemit);
    assert!(ime.composition().is_none());
    assert_eq!(text_of(&doc), "");
}

#[test]
fn pre_check_eats_convertibles_and_any_key_while_composing() {
    let mut ime = active_ime(stub_table());
    let doc_keys_idle: [(u16, bool); 4] = [
        (0x41, true),   // letter
        (0x35, true),   // digit
        (0x63, true),   // numpad digit
        (0x08, false),  // backspace while idle
    ];
    let (kb, empty) = off();
    for (key, eaten) in doc_keys_idle {
        assert_eq!(ime.on_test_key_down(key, no_mods(), 0, false, &kb, &empty), eaten);
    }
    // a modifier key is not eligible while idle
    assert!(!ime.on_test_key_down(0x10, no_mods(), 0, false, &kb, &empty));
    // while composing, any key at all is eligible, modifiers included
    let mut doc = Document::new();
    ime.on_key_down(&mut doc, 1, 0x41, no_mods(), 0, false, &kb, &empty).unwrap();
    assert!(ime.on_test_key_down(0x08, no_mods(), 0, false, &kb, &empty));
    assert!(ime.on_test_key_down(0x10, no_mods(), 0, false, &kb, &empty));
}

#[test]
fn unprocessed_key_while_idle_is_ignored() {
    let mut ime = active_ime(stub_table());
    let mut doc = Document::new();
    let (kb, empty) = off();
    // an unknown key whose translation is not ASCII is left alone while idle
    let out = ime
        .on_key_down(&mut doc, 1, 0xDE, no_mods(), 0x00E9, false, &kb, &empty)
        .unwrap();
    assert!(!out.eaten);
    assert!(!out.reemit);
    assert!(ime.composition().is_none());
    assert_eq!(text_of(&doc), "");
}

#[test]
fn pre_check_respects_suppression() {
    let mut ime = active_ime(stub_table());
    ime.activate(7, 100, Some(1), 101, 102);
    let kb = Compartment::new(guid(1), Some(7));
    let empty = Compartment::new(guid(2), Some(1));
    assert!(!ime.on_test_key_down(0x41, no_mods(), 0, true, &kb, &empty));
    // all three conditions must hold for suppression
    assert!(ime.on_test_key_down(0x41, no_mods(), 0, false, &kb, &empty));
    let kb_off = Compartment::new(guid(1), Some(0));
    assert!(ime.on_test_key_down(0x41, no_mods(), 0, true, &kb_off, &empty));
}
