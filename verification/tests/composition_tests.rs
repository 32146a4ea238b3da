use uo_keyboard::Ime;
use uo_keyboard::convert::Converter;
use uo_keyboard::convert::TableEntry;
use uo_keyboard::document::Document;
use uo_keyboard::document::TextRange;

fn entry(find: &[u8], replace: &str) -> TableEntry {
    TableEntry { find: find.to_vec(), replace: replace.chars().collect() }
}

fn stub_table() -> Vec<TableEntry> {
    vec![entry(b"a", "X"), entry(b"am", "Y"), entry(b"ami", "Z")]
}

fn active_ime(table: Vec<TableEntry>) -> Ime {
    let mut ime = Ime::new(Converter::Table(table));
    ime.activate(7, 100, Some(1), 101, 102);
    ime
}

fn text_of(doc: &Document) -> String {
    doc.text.iter().collect()
}

#[test]
fn append_renders_longest_match_after_each_key() {
    let mut ime = active_ime(stub_table());
    let mut doc = Document::new();
    ime.append_char_to_composition(&mut doc, 1, b'a').unwrap();
    assert_eq!(text_of(&doc), "X");
    ime.append_char_to_composition(&mut doc, 1, b'm').unwrap();
    assert_eq!(text_of(&doc), "Y");
    ime.append_char_to_composition(&mut doc, 1, b'i').unwrap();
    assert_eq!(text_of(&doc), "Z");
    assert!(ime.is_composing());
    // the anchor holds exactly the conversion of the accumulated buffer
    let comp = ime.composition().unwrap();
    assert_eq!(comp.input, b"ami".to_vec());
    assert_eq!(comp.anchor, TextRange { start: 0, end: 1 });
}

#[test]
fn finish_commits_and_clears_composition() {
    let mut ime = active_ime(stub_table());
    let mut doc = Document::new();
    ime.append_char_to_composition(&mut doc, 1, b'a').unwrap();
    ime.append_char_to_composition(&mut doc, 1, b'm').unwrap();
    let r = ime.finish_composition(&mut doc, Some(1));
    assert!(r.is_ok());
    assert!(ime.composition().is_none());
    // the last rendering stays as committed text, selection collapsed
    assert_eq!(text_of(&doc), "Y");
    assert_eq!(doc.sel, TextRange { start: 1, end: 1 });
}

#[test]
fn finish_without_composition_is_noop_success() {
    let mut ime = active_ime(stub_table());
    let mut doc = Document::new();
    doc.text = "hello".chars().collect();
    doc.sel = TextRange { start: 2, end: 4 };
    let r = ime.finish_composition(&mut doc, None);
    assert!(r.is_ok());
    assert!(ime.composition().is_none());
    assert_eq!(text_of(&doc), "hello");
    assert_eq!(doc.sel, TextRange { start: 2, end: 4 });
}

#[test]
fn finish_works_even_while_inactive() {
    let mut ime = Ime::new(Converter::Table(stub_table()));
    let mut doc = Document::new();
    let r = ime.finish_composition(&mut doc, None);
    assert!(r.is_ok());
    assert!(ime.composition().is_none());
}

#[test]
fn pop_rerenders_shorter_buffer() {
    let mut ime = active_ime(stub_table());
    let mut doc = Document::new();
    ime.append_char_to_composition(&mut doc, 1, b'a').unwrap();
    ime.append_char_to_composition(&mut doc, 1, b'm').unwrap();
    ime.pop_char_from_composition(&mut doc, 1).unwrap();
    assert_eq!(text_of(&doc), "X");
    assert!(ime.is_composing());
    assert_eq!(ime.composition().unwrap().input, b"a".to_vec());
}

#[test]
fn pop_to_empty_renders_empty_and_terminates() {
    let mut ime = active_ime(stub_table());
    let mut doc = Document::new();
    ime.append_char_to_composition(&mut doc, 1, b'a').unwrap();
    assert_eq!(text_of(&doc), "X");
    let r = ime.pop_char_from_composition(&mut doc, 1);
    assert!(r.is_ok());
    assert_eq!(text_of(&doc), "");
    assert!(ime.composition().is_none());
    assert_eq!(doc.sel, TextRange { start: 0, end: 0 });
}

#[test]
fn add_single_char_converts_alone_without_composition() {
    let ime = active_ime(vec![entry(b"5", "V")]);
    let mut doc = Document::new();
    doc.text = "ab".chars().collect();
    doc.sel = TextRange { start: 1, end: 1 };
    ime.add_single_char(&mut doc, 1, b'5').unwrap();
    assert_eq!(text_of(&doc), "aVb");
    assert_eq!(doc.sel, TextRange { start: 2, end: 2 });
    assert!(ime.composition().is_none());
}

#[test]
fn add_single_char_replaces_selected_text() {
    let ime = active_ime(vec![entry(b"1", "E")]);
    let mut doc = Document::new();
    doc.text = "abcd".chars().collect();
    doc.sel = TextRange { start: 1, end: 3 };
    ime.add_single_char(&mut doc, 1, b'1').unwrap();
    assert_eq!(text_of(&doc), "aEd");
    assert_eq!(doc.sel, TextRange { start: 2, end: 2 });
}

#[test]
fn composition_implies_session() {
    let mut ime = active_ime(stub_table());
    let mut doc = Document::new();
    ime.append_char_to_composition(&mut doc, 1, b'a').unwrap();
    assert!(ime.is_composing());
    assert!(ime.state().is_some());
}

#[test]
fn appends_start_composition_at_selection_start() {
    let mut ime = active_ime(vec![entry(b"k", "KK")]);
    let mut doc = Document::new();
    doc.text = "xyz".chars().collect();
    doc.sel = TextRange { start: 1, end: 2 };
    ime.append_char_to_composition(&mut doc, 9, b'k').unwrap();
    // anchored as an empty insertion point at the selection start
    assert_eq!(text_of(&doc), "xKKyz");
    let comp = ime.composition().unwrap();
    assert_eq!(comp.anchor, TextRange { start: 1, end: 3 });
    assert_eq!(comp.owning_context, 9);
    assert_eq!(doc.sel, TextRange { start: 3, end: 3 });
}

#[test]
fn unmatched_bytes_copy_through_table() {
    let ime = active_ime(stub_table());
    let mut doc = Document::new();
    // 'q' has no rule: it copies through unchanged
    ime.add_single_char(&mut doc, 1, b'q').unwrap();
    assert_eq!(text_of(&doc), "q");
}

#[test]
fn on_composition_terminated_mirrors_host_end() {
    let mut ime = active_ime(stub_table());
    let mut doc = Document::new();
    ime.append_char_to_composition(&mut doc, 1, b'a').unwrap();
    let r = ime.on_composition_terminated(&mut doc);
    assert!(r.is_ok());
    assert!(ime.composition().is_none());
    assert_eq!(text_of(&doc), "X");
}

#[test]
fn deactivate_finishes_composition_and_drops_session() {
    let mut ime = active_ime(stub_table());
    let mut doc = Document::new();
    ime.append_char_to_composition(&mut doc, 1, b'a').unwrap();
    let taken = ime.deactivate(&mut doc);
    assert!(ime.state().is_none());
    assert!(ime.composition().is_none());
    let st = taken.unwrap();
    assert_eq!(st.client_id, 7);
    assert_eq!(st.thread_mgr_event_sink_cookie, 100);
    assert_eq!(st.thread_focus_sink_cookie, 102);
    assert!(st.composition.is_none());
    assert_eq!(text_of(&doc), "X");
}

#[test]
fn deactivate_without_session_returns_nothing() {
    let mut ime = Ime::new(Converter::Table(stub_table()));
    let mut doc = Document::new();
    assert!(ime.deactivate(&mut doc).is_none());
}
