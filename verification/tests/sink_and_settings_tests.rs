use uo_keyboard::Ime;
use uo_keyboard::ImeError;
use uo_keyboard::compartment::Compartment;
use uo_keyboard::compartment::read_bool;
use uo_keyboard::convert::Converter;
use uo_keyboard::convert::TableEntry;
use uo_keyboard::document::Document;
use uo_keyboard::document::TextRange;
use uo_keyboard::document::is_range_covered;
use uo_keyboard::registration::Guid;
use uo_keyboard::text_input_processor::first_failure;

fn entry(find: &[u8], replace: &str) -> TableEntry {
    TableEntry { find: find.to_vec(), replace: replace.chars().collect() }
}

fn active_ime() -> Ime {
    let mut ime = Ime::new(Converter::Table(vec![entry(b"a", "X")]));
    ime.activate(7, 100, Some(1), 101, 102);
    ime
}

fn guid(n: u32) -> Guid {
    Guid { data1: n, data2: 0, data3: 0, data4: 0 }
}

fn text_of(doc: &Document) -> String {
    doc.text.iter().collect()
}

#[test]
fn clobber_terminates_composition() {
    let mut ime = active_ime();
    let mut doc = Document::new();
    ime.append_char_to_composition(&mut doc, 1, b'a').unwrap();
    assert_eq!(text_of(&doc), "X");
    // an external edit moved the selection outside the anchor range
    doc.text.push('q');
    doc.sel = TextRange { start: 2, end: 2 };
    let r = ime.on_end_edit(&mut doc, 1, false);
    assert!(r.is_ok());
    assert!(ime.composition().is_none());
}

#[test]
fn selection_only_edit_is_ignored() {
    let mut ime = active_ime();
    let mut doc = Document::new();
    ime.append_char_to_composition(&mut doc, 1, b'a').unwrap();
    doc.sel = TextRange { start: 0, end: 0 };
    let r = ime.on_end_edit(&mut doc, 1, true);
    assert!(r.is_ok());
    assert!(ime.is_composing());
}

#[test]
fn covered_selection_keeps_composition() {
    let mut ime = active_ime();
    let mut doc = Document::new();
    ime.append_char_to_composition(&mut doc, 1, b'a').unwrap();
    // the selection still lies inside the anchor range [0, 1)
    doc.sel = TextRange { start: 0, end: 1 };
    let r = ime.on_end_edit(&mut doc, 1, false);
    assert!(r.is_ok());
    assert!(ime.is_composing());
}

#[test]
fn edit_without_composition_is_ignored() {
    let mut ime = active_ime();
    let mut doc = Document::new();
    doc.text = "zz".chars().collect();
    doc.sel = TextRange { start: 2, end: 2 };
    let r = ime.on_end_edit(&mut doc, 1, false);
    assert!(r.is_ok());
    assert_eq!(text_of(&doc), "zz");
}

#[test]
fn range_containment() {
    let cover = TextRange { start: 2, end: 6 };
    assert!(is_range_covered(&TextRange { start: 2, end: 6 }, &cover));
    assert!(is_range_covered(&TextRange { start: 3, end: 4 }, &cover));
    assert!(!is_range_covered(&TextRange { start: 1, end: 4 }, &cover));
    assert!(!is_range_covered(&TextRange { start: 3, end: 7 }, &cover));
}

#[test]
fn text_edit_sink_is_released_before_reset() {
    let mut ime = active_ime();
    // activation recorded context 1 with cookie 101
    let taken = ime.take_text_edit_sink();
    assert_eq!(taken, Some((1, 101)));
    // nothing left to take
    assert_eq!(ime.take_text_edit_sink(), None);
    ime.set_text_edit_sink(4, 40);
    assert_eq!(ime.take_text_edit_sink(), Some((4, 40)));
    ime.set_last_focused(Some(9));
    assert_eq!(ime.last_focused, Some(9));
}

#[test]
fn compartment_reads_value_as_boolean() {
    let set = Compartment::new(guid(3), Some(2));
    assert_eq!(set.get_bool(), Ok(true));
    assert!(read_bool(&set));
    let zero = Compartment::new(guid(3), Some(0));
    assert_eq!(zero.get_bool(), Ok(false));
    assert!(!read_bool(&zero));
}

#[test]
fn absent_compartment_value_is_error_but_reads_false() {
    let absent = Compartment::new(guid(3), None);
    assert_eq!(absent.get_bool(), Err(ImeError::Unavailable));
    assert!(!read_bool(&absent));
}

#[test]
fn first_failure_reports_earliest_error() {
    let all_ok: Vec<Option<i32>> = vec![None, None, None, None];
    assert_eq!(first_failure(&all_ok), None);
    let some: Vec<Option<i32>> = vec![None, Some(-2147467259), None, Some(3)];
    assert_eq!(first_failure(&some), Some(-2147467259));
    let empty: Vec<Option<i32>> = Vec::new();
    assert_eq!(first_failure(&empty), None);
}
