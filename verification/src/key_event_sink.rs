//! The key-event entry point: a cheap pre-check deciding whether a keystroke
//! would be eaten, and the full handler that classifies the key and executes
//! the matching lifecycle transition.

use vstd::prelude::*;

use crate::Ime;
use crate::ImeError;
use crate::compartment::Compartment;
use crate::compartment::read_bool;
use crate::compartment::spec_read_bool;
use crate::document::Document;
use crate::edit_session::spec_append_step;
use crate::edit_session::spec_finish_step;
use crate::edit_session::spec_insert_step;
use crate::edit_session::spec_pop_step;
use crate::edit_session::spec_same_bookkeeping;
use crate::key_class::KeyClass;
use crate::key_class::ModifierState;
use crate::key_class::spec_classify;

verus! {

/// Input is suppressed only when all three hold: the focused document has no
/// topmost editable layer, the keyboard-disabled flag is set, and the
/// empty-context flag is set.
pub open spec fn spec_keyboard_disabled(
    focus_without_top: bool,
    kb_disabled: Compartment,
    empty_context: Compartment,
) -> bool {
    focus_without_top && spec_read_bool(kb_disabled) && spec_read_bool(empty_context)
}

/// What the handler does with a classified keystroke.
#[derive(Clone, Copy, Debug, PartialEq, Eq, Structural)]
pub enum KeyAction {
    /// Leave the keystroke alone.
    Ignore,
    /// Commit the composition, then re-emit the keystroke to the host's
    /// normal input path.
    CommitAndReemit,
    /// Convert the character alone, outside any composition.
    InsertDirect(u8),
    /// Append the character to the composition, starting one if none lives.
    Append(u8),
    /// Append the numeric-pad decimal escape: a period, then a backtick.
    AppendDecimalEscape,
    /// Rewind the composition by one character.
    Pop,
}

/// The action table. Delimiters commit and pass the keystroke through;
/// modifiers do nothing; while idle, unprocessed keys and backspace do
/// nothing and free-convertible keys convert directly; anything carrying a
/// character extends the composition; backspace rewinds it; the numeric-pad
/// decimal appends its two-character escape, and other numeric-pad digits act
/// as free-convertible.
pub open spec fn spec_key_action(class: KeyClass, composing: bool) -> KeyAction {
    match class {
        KeyClass::Delimiter => KeyAction::CommitAndReemit,
        KeyClass::Modifier => KeyAction::Ignore,
        KeyClass::CompositeConvertible(ch) => KeyAction::Append(ch),
        KeyClass::FreeConvertible(ch) => if composing {
            KeyAction::Append(ch)
        } else {
            KeyAction::InsertDirect(ch)
        },
        KeyClass::NumPad(n) => if n == 0x2E {
            KeyAction::AppendDecimalEscape
        } else if composing {
            KeyAction::Append(n)
        } else {
            KeyAction::InsertDirect(n)
        },
        KeyClass::Unprocessed(ch) => if composing {
            KeyAction::Append(ch)
        } else {
            KeyAction::Ignore
        },
        KeyClass::Backspace => if composing {
            KeyAction::Pop
        } else {
            KeyAction::Ignore
        },
    }
}

/// The action a classified keystroke takes, per the action table.
pub fn key_action(class: KeyClass, composing: bool) -> (r: KeyAction)
    ensures
        r == spec_key_action(class, composing),
{
    match class {
        KeyClass::Delimiter => KeyAction::CommitAndReemit,
        KeyClass::Modifier => KeyAction::Ignore,
        KeyClass::CompositeConvertible(ch) => KeyAction::Append(ch),
        KeyClass::FreeConvertible(ch) => if composing {
            KeyAction::Append(ch)
        } else {
            KeyAction::InsertDirect(ch)
        },
        KeyClass::NumPad(n) => if n == 0x2E {
            KeyAction::AppendDecimalEscape
        } else if composing {
            KeyAction::Append(n)
        } else {
            KeyAction::InsertDirect(n)
        },
        KeyClass::Unprocessed(ch) => if composing {
            KeyAction::Append(ch)
        } else {
            KeyAction::Ignore
        },
        KeyClass::Backspace => if composing {
            KeyAction::Pop
        } else {
            KeyAction::Ignore
        },
    }
}

/// What the full handler reports back to the host.
#[derive(Clone, Copy, Debug, PartialEq, Eq, Structural)]
pub struct KeyDownOutcome {
    /// Whether the keystroke was consumed.
    pub eaten: bool,
    /// Whether the shell must re-emit the original keystroke to the host's
    /// normal input path.
    pub reemit: bool,
}

/// The payload of a convertible or numeric-pad key is always ASCII.
pub proof fn lemma_classify_payload_ascii(key: u16, mods: ModifierState, translated: u16)
    ensures
        match spec_classify(key, mods, translated) {
            KeyClass::CompositeConvertible(c) => c < 0x80,
            KeyClass::FreeConvertible(c) => c < 0x80,
            KeyClass::NumPad(c) => c < 0x80,
            _ => true,
        },
{
}

impl Ime {
    /// Whether input is currently suppressed. The shell reports whether the
    /// focused document lacks a topmost editable layer; the two flags come
    /// from the shared settings store.
    pub fn is_keyboard_disabled(
        &self,
        focus_without_top: bool,
        kb_disabled: &Compartment,
        empty_context: &Compartment,
    ) -> (r: bool)
        requires
            self.spec_active(),
        ensures
            r == spec_keyboard_disabled(focus_without_top, *kb_disabled, *empty_context),
    {
        focus_without_top && read_bool(kb_disabled) && read_bool(empty_context)
    }

    /// The cheap pre-check: when input is suppressed nothing is eaten;
    /// otherwise a keystroke is eaten if it classifies as convertible or
    /// numeric-pad, or if a composition is already live — any key at all is
    /// then eligible to be consumed, since composing is in progress.
    pub fn on_test_key_down(
        &self,
        key: u16,
        mods: ModifierState,
        translated: u16,
        focus_without_top: bool,
        kb_disabled: &Compartment,
        empty_context: &Compartment,
    ) -> (r: bool)
        requires
            self.spec_active(),
        ensures
            r == (!spec_keyboard_disabled(focus_without_top, *kb_disabled, *empty_context) && {
                let class = spec_classify(key, mods, translated);
                class is CompositeConvertible || class is FreeConvertible || class is NumPad
                    || self.spec_composing()
            }),
    {
        if self.is_keyboard_disabled(focus_without_top, kb_disabled, empty_context) {
            return false;
        }
        let class = KeyClass::classify(key, mods, translated);
        match class {
            KeyClass::CompositeConvertible(_) => true,
            KeyClass::FreeConvertible(_) => true,
            KeyClass::NumPad(_) => true,
            _ => self.is_composing(),
        }
    }

    /// The full handler: when input is suppressed, nothing happens and the
    /// keystroke is not eaten; otherwise the classified keystroke's action
    /// runs as one lifecycle transition of the controller model, and the
    /// outcome reports whether the keystroke was consumed and whether the
    /// shell must re-emit it.
    pub fn on_key_down(
        &mut self,
        doc: &mut Document,
        ctx: u32,
        key: u16,
        mods: ModifierState,
        translated: u16,
        focus_without_top: bool,
        kb_disabled: &Compartment,
        empty_context: &Compartment,
    ) -> (r: Result<KeyDownOutcome, ImeError>)
        requires
            old(self).spec_active(),
            old(self).inv(),
            old(doc).wf(),
            old(self).anchor_fits(*old(doc)),
            old(self).spec_composing() ==> (spec_classify(key, mods, translated) matches KeyClass::Unprocessed(c)
                ==> c < 0x80),
        ensures
            r is Ok,
            final(self).spec_active(),
            final(self).inv(),
            final(doc).wf(),
            final(self).anchor_fits(*final(doc)),
            spec_same_bookkeeping(*old(self), *final(self)),
            ({
                let disabled = spec_keyboard_disabled(
                    focus_without_top,
                    *kb_disabled,
                    *empty_context,
                );
                let class = spec_classify(key, mods, translated);
                let conv = old(self).converter;
                let m = old(self).model_with(*old(doc));
                let m2 = final(self).model_with(*final(doc));
                let outcome = r->Ok_0;
                if disabled {
                    outcome == (KeyDownOutcome { eaten: false, reemit: false }) && m2 == m
                        && *final(self) == *old(self)
                } else {
                    match spec_key_action(class, old(self).spec_composing()) {
                        KeyAction::Ignore => outcome == (KeyDownOutcome {
                            eaten: false,
                            reemit: false,
                        }) && m2 == m && *final(self) == *old(self),
                        KeyAction::CommitAndReemit => outcome == (KeyDownOutcome {
                            eaten: true,
                            reemit: true,
                        }) && m2 == spec_finish_step(m),
                        KeyAction::InsertDirect(ch) => outcome == (KeyDownOutcome {
                            eaten: true,
                            reemit: false,
                        }) && m2 == spec_insert_step(conv, m, ch),
                        KeyAction::Append(ch) => outcome == (KeyDownOutcome {
                            eaten: true,
                            reemit: false,
                        }) && m2 == spec_append_step(conv, m, ctx, ch),
                        KeyAction::AppendDecimalEscape => outcome == (KeyDownOutcome {
                            eaten: true,
                            reemit: false,
                        }) && m2 == spec_append_step(
                            conv,
                            spec_append_step(conv, m, ctx, 0x2E),
                            ctx,
                            0x60,
                        ),
                        KeyAction::Pop => outcome == (KeyDownOutcome {
                            eaten: true,
                            reemit: false,
                        }) && m2 == spec_pop_step(conv, m),
                    }
                }
            }),
    {
        if self.is_keyboard_disabled(focus_without_top, kb_disabled, empty_context) {
            return Result::Ok(KeyDownOutcome { eaten: false, reemit: false });
        }
        let class = KeyClass::classify(key, mods, translated);
        let composing = self.is_composing();
        proof {
            lemma_classify_payload_ascii(key, mods, translated);
        }
        match key_action(class, composing) {
            KeyAction::Ignore => Result::Ok(KeyDownOutcome { eaten: false, reemit: false }),
            KeyAction::CommitAndReemit => {
                match self.finish_composition(doc, Option::Some(ctx)) {
                    Result::Ok(()) => Result::Ok(KeyDownOutcome { eaten: true, reemit: true }),
                    Result::Err(e) => Result::Err(e),
                }
            },
            KeyAction::InsertDirect(ch) => {
                match self.add_single_char(doc, ctx, ch) {
                    Result::Ok(()) => Result::Ok(KeyDownOutcome { eaten: true, reemit: false }),
                    Result::Err(e) => Result::Err(e),
                }
            },
            KeyAction::Append(ch) => {
                match self.append_char_to_composition(doc, ctx, ch) {
                    Result::Ok(()) => Result::Ok(KeyDownOutcome { eaten: true, reemit: false }),
                    Result::Err(e) => Result::Err(e),
                }
            },
            KeyAction::AppendDecimalEscape => {
                match self.append_char_to_composition(doc, ctx, 0x2E) {
                    Result::Ok(()) => {},
                    Result::Err(e) => {
                        return Result::Err(e);
                    },
                }
                match self.append_char_to_composition(doc, ctx, 0x60) {
                    Result::Ok(()) => Result::Ok(KeyDownOutcome { eaten: true, reemit: false }),
                    Result::Err(e) => Result::Err(e),
                }
            },
            KeyAction::Pop => {
                match self.pop_char_from_composition(doc, ctx) {
                    Result::Ok(()) => Result::Ok(KeyDownOutcome { eaten: true, reemit: false }),
                    Result::Err(e) => Result::Err(e),
                }
            },
        }
    }
}

} // verus!
