//! Verified core of a transliterating input-method component.
//!
//! The library holds the key-classification rules and the composition state
//! machine: the logic that decides, per keystroke, whether a key starts,
//! extends, rewinds or commits an in-progress transliteration buffer, and
//! that keeps the buffer's lifecycle consistent with focus changes and
//! external document edits. The host editing surface is modelled as an
//! explicit document value; the unverified shell around the library performs
//! the corresponding host calls.

use vstd::prelude::*;

pub mod compartment;
pub mod convert;
pub mod document;
pub mod edit_session;
pub mod key_class;
pub mod key_event_sink;
pub mod other_sinks;
pub mod registration;
pub mod text_input_processor;

use convert::Converter;
use document::Document;
use document::TextRange;
use edit_session::Composition;

verus! {

/// Failure of a lifecycle operation or a host query.
#[derive(Clone, Copy, Debug, PartialEq, Eq, Structural)]
pub enum ImeError {
    /// The queried value is absent or unreadable.
    Unavailable,
}

/// The attachment record for one input thread: subscription cookies, the
/// context currently watched for document edits, and the composition, if one
/// is live. Created on activation, destroyed on deactivation.
pub struct ActiveImeState {
    pub client_id: u32,
    pub thread_mgr_event_sink_cookie: u32,
    pub text_edit_ctx: Option<u32>,
    pub text_edit_sink_cookie: u32,
    pub thread_focus_sink_cookie: u32,
    pub composition: Option<Composition>,
}

/// The component instance: the session state of the attached input thread,
/// the transliteration engine, and the last document manager that held the
/// focus. A composition can live only inside an active session, and each
/// session holds at most one, by construction.
pub struct Ime {
    pub state: Option<ActiveImeState>,
    pub converter: Converter,
    pub last_focused: Option<u32>,
}

impl Ime {
    /// Whether a session is live.
    pub open spec fn spec_active(&self) -> bool {
        self.state is Some
    }

    /// The live composition, if any.
    pub open spec fn spec_composition(&self) -> Option<Composition> {
        match self.state {
            Option::Some(st) => st.composition,
            Option::None => Option::None,
        }
    }

    /// Whether a composition is live.
    pub open spec fn spec_composing(&self) -> bool {
        self.spec_composition() is Some
    }

    /// The buffer of the live composition.
    pub open spec fn spec_input(&self) -> Seq<u8>
        recommends
            self.spec_composing(),
    {
        self.spec_composition()->Some_0.input@
    }

    /// The anchor range of the live composition.
    pub open spec fn spec_anchor(&self) -> TextRange
        recommends
            self.spec_composing(),
    {
        self.spec_composition()->Some_0.anchor
    }

    /// Internal invariant: a live composition is well-formed.
    pub open spec fn inv(&self) -> bool {
        self.spec_composing() ==> self.spec_composition()->Some_0.wf()
    }

    /// Whether the live composition's anchor lies inside the document.
    pub open spec fn anchor_fits(&self, doc: Document) -> bool {
        self.spec_composing() ==> self.spec_anchor().fits(doc.text@.len() as int)
    }

    /// A fresh, inactive component around the given engine.
    pub fn new(converter: Converter) -> (r: Ime)
        ensures
            !r.spec_active(),
            r.inv(),
            r.converter == converter,
            r.last_focused.is_none(),
    {
        Ime { state: Option::None, converter, last_focused: Option::None }
    }

    /// The session state, if a session is live.
    pub fn state(&self) -> (r: Option<&ActiveImeState>)
        ensures
            match r {
                Option::Some(st) => self.state == Option::Some(*st),
                Option::None => self.state is None,
            },
    {
        self.state.as_ref()
    }

    /// The live composition, if any.
    pub fn composition(&self) -> (r: Option<&Composition>)
        ensures
            match r {
                Option::Some(c) => self.spec_composition() == Option::Some(*c),
                Option::None => !self.spec_composing(),
            },
    {
        match &self.state {
            Option::Some(st) => st.composition.as_ref(),
            Option::None => Option::None,
        }
    }

    /// Whether a composition is live.
    pub fn is_composing(&self) -> (r: bool)
        ensures
            r == self.spec_composing(),
    {
        self.composition().is_some()
    }

    /// The client identifier of the live session, or zero when inactive.
    pub fn client_id(&self) -> (r: u32)
        ensures
            r == match self.state {
                Option::Some(st) => st.client_id,
                Option::None => 0u32,
            },
    {
        match &self.state {
            Option::Some(st) => st.client_id,
            Option::None => 0,
        }
    }
}

/// A live composition always lives inside a live session: holding the
/// composition of a component implies the component holds a session.
pub proof fn lemma_composition_implies_session(ime: Ime)
    ensures
        ime.spec_composing() ==> ime.spec_active(),
{
}

} // verus!
