//! The composition controller: the lifecycle of the in-progress
//! transliteration buffer.
//!
//! Each operation performs one edit transaction on the document model:
//! convert a lone character, append to or rewind the buffer with a re-render
//! of the whole accumulated input, or commit. The controller's observable
//! effect is captured by `ControllerModel` and the `spec_*_step` transition
//! functions; every operation ensures that the new component and document
//! equal the step function applied to the old ones.

use vstd::prelude::*;

use crate::Ime;
use crate::ImeError;
use crate::convert::Converter;
use crate::convert::ascii_only;
use crate::document::Document;
use crate::document::TextRange;

verus! {

/// The in-progress transliteration buffer and its anchor in the document.
pub struct Composition {
    /// The host-owned range the rendered text occupies.
    pub anchor: TextRange,
    /// The context the composition belongs to.
    pub owning_context: u32,
    /// The raw characters typed so far, in insertion order.
    pub input: Vec<u8>,
}

impl Composition {
    /// The anchor does not run backwards and the buffer stays within the
    /// engines' input alphabet.
    pub open spec fn wf(self) -> bool {
        self.anchor.wf() && ascii_only(self.input@)
    }
}

/// The controller's observable state as one mathematical value: whether a
/// composition is live, its anchor and buffer, and the document's text and
/// selection. The anchor fields, the owning context and the buffer are zero
/// and empty while no composition is live.
#[verifier::ext_equal]
pub struct ControllerModel {
    pub composing: bool,
    pub anchor_start: int,
    pub anchor_end: int,
    pub owning_context: u32,
    pub input: Seq<u8>,
    pub text: Seq<char>,
    pub sel_start: int,
    pub sel_end: int,
}

impl ControllerModel {
    /// Well-formedness: the selection and, while composing, the anchor lie
    /// inside the text, and the buffer is ASCII.
    pub open spec fn wf(self) -> bool {
        &&& 0 <= self.sel_start <= self.sel_end <= self.text.len()
        &&& self.composing ==> {
            &&& 0 <= self.anchor_start <= self.anchor_end <= self.text.len()
            &&& ascii_only(self.input)
        }
    }

    /// While composing, the anchor range holds exactly the conversion of the
    /// accumulated buffer.
    pub open spec fn renders(self, conv: Converter) -> bool {
        self.composing ==> self.text.subrange(self.anchor_start, self.anchor_end)
            == conv.spec_convert(self.input)
    }
}

/// Appending `ch`: a fresh composition is anchored as an empty insertion
/// point at the selection start; the character joins the buffer; the whole
/// buffer's conversion replaces the anchor range; and the selection collapses
/// just past the rendered text.
pub open spec fn spec_append_step(
    conv: Converter,
    m: ControllerModel,
    ctx: u32,
    ch: u8,
) -> ControllerModel {
    let astart = if m.composing {
        m.anchor_start
    } else {
        m.sel_start
    };
    let aend = if m.composing {
        m.anchor_end
    } else {
        m.sel_start
    };
    let input2 = if m.composing {
        m.input.push(ch)
    } else {
        seq![ch]
    };
    let rendered = conv.spec_convert(input2);
    ControllerModel {
        composing: true,
        anchor_start: astart,
        anchor_end: astart + rendered.len(),
        owning_context: if m.composing {
            m.owning_context
        } else {
            ctx
        },
        input: input2,
        text: m.text.subrange(0, astart) + rendered + m.text.subrange(aend, m.text.len() as int),
        sel_start: astart + rendered.len(),
        sel_end: astart + rendered.len(),
    }
}

/// Converting a lone character outside any composition: its conversion
/// replaces the selected text and the selection collapses just past it; the
/// composition state is untouched.
pub open spec fn spec_insert_step(conv: Converter, m: ControllerModel, ch: u8) -> ControllerModel {
    let rendered = conv.spec_convert(seq![ch]);
    ControllerModel {
        text: m.text.subrange(0, m.sel_start) + rendered + m.text.subrange(
            m.sel_end,
            m.text.len() as int,
        ),
        sel_start: m.sel_start + rendered.len(),
        sel_end: m.sel_start + rendered.len(),
        ..m
    }
}

/// Rewinding: the last buffered character goes; the shortened buffer's
/// conversion replaces the anchor range and the selection collapses past it;
/// a buffer that became empty terminates the composition.
pub open spec fn spec_pop_step(conv: Converter, m: ControllerModel) -> ControllerModel {
    let input2 = if m.input.len() > 0 {
        m.input.drop_last()
    } else {
        m.input
    };
    let rendered = conv.spec_convert(input2);
    let text2 = m.text.subrange(0, m.anchor_start) + rendered + m.text.subrange(
        m.anchor_end,
        m.text.len() as int,
    );
    let sel2 = m.anchor_start + rendered.len();
    if input2.len() == 0 {
        ControllerModel {
            composing: false,
            anchor_start: 0,
            anchor_end: 0,
            owning_context: 0,
            input: Seq::empty(),
            text: text2,
            sel_start: sel2,
            sel_end: sel2,
        }
    } else {
        ControllerModel {
            composing: true,
            anchor_start: m.anchor_start,
            anchor_end: sel2,
            owning_context: m.owning_context,
            input: input2,
            text: text2,
            sel_start: sel2,
            sel_end: sel2,
        }
    }
}

/// Committing: the selection collapses to its end and the composition is
/// cleared; the rendered text stays as committed document text. With no live
/// composition nothing changes.
pub open spec fn spec_finish_step(m: ControllerModel) -> ControllerModel {
    if m.composing {
        ControllerModel {
            composing: false,
            anchor_start: 0,
            anchor_end: 0,
            owning_context: 0,
            input: Seq::empty(),
            text: m.text,
            sel_start: m.sel_end,
            sel_end: m.sel_end,
        }
    } else {
        m
    }
}

/// The controller after appending a whole sequence of characters, one at a
/// time.
pub open spec fn spec_append_all(
    conv: Converter,
    m: ControllerModel,
    ctx: u32,
    cs: Seq<u8>,
) -> ControllerModel
    decreases cs.len(),
{
    if cs.len() == 0 {
        m
    } else {
        spec_append_all(
            conv,
            spec_append_step(conv, m, ctx, cs[0]),
            ctx,
            cs.subrange(1, cs.len() as int),
        )
    }
}

/// One append from a live composition keeps the state well-formed and
/// rendered, extends the buffer by the character, and moves neither the
/// anchor start nor the owning context.
proof fn lemma_append_step_composing(conv: Converter, m: ControllerModel, ctx: u32, ch: u8)
    requires
        m.composing,
        m.wf(),
        m.renders(conv),
        ch < 0x80,
    ensures
        ({
            let m1 = spec_append_step(conv, m, ctx, ch);
            &&& m1.composing
            &&& m1.wf()
            &&& m1.renders(conv)
            &&& m1.input == m.input.push(ch)
            &&& m1.anchor_start == m.anchor_start
            &&& m1.owning_context == m.owning_context
        }),
{
    let m1 = spec_append_step(conv, m, ctx, ch);
    let rendered = conv.spec_convert(m.input.push(ch));
    assert(ascii_only(m.input.push(ch))) by {
        assert(forall|i: int|
            0 <= i < m.input.push(ch).len() ==> m.input.push(ch)[i] < 0x80) by {
            assert(forall|i: int| 0 <= i < m.input.len() ==> m.input.push(ch)[i] == m.input[i]);
        }
    }
    assert(m1.text.subrange(m1.anchor_start, m1.anchor_end) =~= rendered);
}

/// One append from the idle state starts a composition anchored at the
/// selection start, with the single character as its buffer, well-formed and
/// rendered.
proof fn lemma_append_step_idle(conv: Converter, m: ControllerModel, ctx: u32, ch: u8)
    requires
        !m.composing,
        m.wf(),
        ch < 0x80,
    ensures
        ({
            let m1 = spec_append_step(conv, m, ctx, ch);
            &&& m1.composing
            &&& m1.wf()
            &&& m1.renders(conv)
            &&& m1.input == seq![ch]
            &&& m1.anchor_start == m.sel_start
            &&& m1.owning_context == ctx
        }),
{
    let m1 = spec_append_step(conv, m, ctx, ch);
    let rendered = conv.spec_convert(seq![ch]);
    assert(m1.text.subrange(m1.anchor_start, m1.anchor_end) =~= rendered);
}

/// Appending a whole ASCII sequence from a live composition extends the
/// buffer by the sequence and keeps the anchor rendered.
proof fn lemma_append_all_composing(conv: Converter, m: ControllerModel, ctx: u32, cs: Seq<u8>)
    requires
        m.composing,
        m.wf(),
        m.renders(conv),
        ascii_only(cs),
    ensures
        ({
            let f = spec_append_all(conv, m, ctx, cs);
            &&& f.composing
            &&& f.wf()
            &&& f.renders(conv)
            &&& f.input == m.input + cs
            &&& f.anchor_start == m.anchor_start
            &&& f.owning_context == m.owning_context
        }),
    decreases cs.len(),
{
    if cs.len() == 0 {
        assert(m.input + cs =~= m.input);
    } else {
        lemma_append_step_composing(conv, m, ctx, cs[0]);
        let m1 = spec_append_step(conv, m, ctx, cs[0]);
        let rest = cs.subrange(1, cs.len() as int);
        assert(ascii_only(rest));
        lemma_append_all_composing(conv, m1, ctx, rest);
        assert(m.input.push(cs[0]) + rest =~= m.input + cs);
    }
}

/// Law (buffer/commit correspondence): starting from idle, appending the
/// characters of `cs` one at a time leaves the anchor range's text equal to
/// the engine's conversion of `cs` — this is the committed text immediately
/// before a commit's selection collapse, since committing never changes the
/// text.
pub proof fn lemma_buffer_commit_correspondence(
    conv: Converter,
    m: ControllerModel,
    ctx: u32,
    cs: Seq<u8>,
)
    requires
        !m.composing,
        m.wf(),
        ascii_only(cs),
        cs.len() > 0,
    ensures
        ({
            let f = spec_append_all(conv, m, ctx, cs);
            &&& f.composing
            &&& f.input == cs
            &&& f.text.subrange(f.anchor_start, f.anchor_end) == conv.spec_convert(cs)
            &&& spec_finish_step(f).text == f.text
        }),
{
    lemma_append_step_idle(conv, m, ctx, cs[0]);
    let m1 = spec_append_step(conv, m, ctx, cs[0]);
    let rest = cs.subrange(1, cs.len() as int);
    assert(ascii_only(rest));
    lemma_append_all_composing(conv, m1, ctx, rest);
    assert(seq![cs[0]] + rest =~= cs);
}

/// The session bookkeeping both values share: the same engine, the same
/// focus record, and a session with the same identifiers and subscription
/// cookies (or no session in either).
pub open spec fn spec_same_bookkeeping(a: Ime, b: Ime) -> bool {
    &&& a.converter == b.converter
    &&& a.last_focused == b.last_focused
    &&& match (a.state, b.state) {
        (Option::Some(x), Option::Some(y)) => {
            &&& x.client_id == y.client_id
            &&& x.thread_mgr_event_sink_cookie == y.thread_mgr_event_sink_cookie
            &&& x.text_edit_ctx == y.text_edit_ctx
            &&& x.text_edit_sink_cookie == y.text_edit_sink_cookie
            &&& x.thread_focus_sink_cookie == y.thread_focus_sink_cookie
        },
        (Option::None, Option::None) => true,
        _ => false,
    }
}

impl Ime {
    /// The controller model this component and document embody.
    pub open spec fn model_with(&self, doc: Document) -> ControllerModel {
        match self.spec_composition() {
            Option::Some(c) => ControllerModel {
                composing: true,
                anchor_start: c.anchor.start as int,
                anchor_end: c.anchor.end as int,
                owning_context: c.owning_context,
                input: c.input@,
                text: doc.text@,
                sel_start: doc.sel.start as int,
                sel_end: doc.sel.end as int,
            },
            Option::None => ControllerModel {
                composing: false,
                anchor_start: 0,
                anchor_end: 0,
                owning_context: 0,
                input: Seq::empty(),
                text: doc.text@,
                sel_start: doc.sel.start as int,
                sel_end: doc.sel.end as int,
            },
        }
    }

    /// Convert `ch` alone and insert the result at the current selection,
    /// collapsing the selection just past it. No composition is created or
    /// touched.
    pub fn add_single_char(&self, doc: &mut Document, ctx: u32, ch: u8) -> (r: Result<
        (),
        ImeError,
    >)
        requires
            self.spec_active(),
            old(doc).wf(),
            ch < 0x80,
        ensures
            r is Ok,
            final(doc).wf(),
            final(doc).text@ == old(doc).text@.subrange(0, old(doc).sel.start as int)
                + self.converter.spec_convert(seq![ch]) + old(doc).text@.subrange(
                old(doc).sel.end as int,
                old(doc).text@.len() as int,
            ),
            final(doc).sel.start == old(doc).sel.start + self.converter.spec_convert(
                seq![ch],
            ).len(),
            final(doc).sel.end == final(doc).sel.start,
    {
        let mut single: Vec<u8> = Vec::new();
        single.push(ch);
        proof {
            assert(single@ =~= seq![ch]);
        }
        let converted = self.converter.convert(&single);
        let end = doc.replace_range(doc.sel.start, doc.sel.end, &converted);
        doc.set_selection(end, end);
        Result::Ok(())
    }

    /// If no composition exists, create one anchored at the current selection
    /// and register it as the session's composition. Append `ch` to the
    /// buffer and re-render: the whole accumulated buffer's conversion
    /// replaces the anchor range (the shell also tags the rendered range with
    /// the component's language identifier when it is non-empty) and the
    /// selection collapses just past it.
    pub fn append_char_to_composition(&mut self, doc: &mut Document, ctx: u32, ch: u8) -> (r:
        Result<(), ImeError>)
        requires
            old(self).spec_active(),
            old(self).inv(),
            old(doc).wf(),
            old(self).anchor_fits(*old(doc)),
            ch < 0x80,
        ensures
            r is Ok,
            final(self).spec_active(),
            final(self).spec_composing(),
            final(self).inv(),
            final(doc).wf(),
            final(self).anchor_fits(*final(doc)),
            spec_same_bookkeeping(*old(self), *final(self)),
            final(self).model_with(*final(doc)) == spec_append_step(
                old(self).converter,
                old(self).model_with(*old(doc)),
                ctx,
                ch,
            ),
    {
        match &mut self.state {
            Option::Some(st) => {
                match &mut st.composition {
                    Option::Some(comp) => {
                        comp.input.push(ch);
                    },
                    Option::None => {
                        let s = doc.sel.start;
                        doc.set_selection(s, s);
                        let mut first: Vec<u8> = Vec::new();
                        first.push(ch);
                        proof {
                            assert(first@ =~= seq![ch]);
                        }
                        st.composition = Option::Some(
                            Composition {
                                anchor: TextRange { start: s, end: s },
                                owning_context: ctx,
                                input: first,
                            },
                        );
                    },
                }
            },
            Option::None => {
                proof {
                    assert(false);
                }
            },
        }
        self.render_composition(doc);
        proof {
            assert(self.model_with(*doc) =~= spec_append_step(
                old(self).converter,
                old(self).model_with(*old(doc)),
                ctx,
                ch,
            ));
        }
        Result::Ok(())
    }

    /// Remove the last character of the buffer (a no-op on an empty buffer)
    /// and re-render the shortened buffer; a buffer that became empty
    /// terminates the composition, folding the session back to idle. The
    /// emptied buffer renders as empty text before the composition goes.
    pub fn pop_char_from_composition(&mut self, doc: &mut Document, ctx: u32) -> (r: Result<
        (),
        ImeError,
    >)
        requires
            old(self).spec_active(),
            old(self).spec_composing(),
            old(self).inv(),
            old(doc).wf(),
            old(self).anchor_fits(*old(doc)),
        ensures
            r is Ok,
            final(self).spec_active(),
            final(self).inv(),
            final(doc).wf(),
            final(self).anchor_fits(*final(doc)),
            spec_same_bookkeeping(*old(self), *final(self)),
            final(self).model_with(*final(doc)) == spec_pop_step(
                old(self).converter,
                old(self).model_with(*old(doc)),
            ),
            final(self).spec_composing() == (old(self).spec_input().len() > 1),
            old(self).spec_input().len() <= 1 ==> final(doc).text@ == old(doc).text@.subrange(
                0,
                old(self).spec_anchor().start as int,
            ) + old(doc).text@.subrange(
                old(self).spec_anchor().end as int,
                old(doc).text@.len() as int,
            ),
    {
        match &mut self.state {
            Option::Some(st) => {
                match &mut st.composition {
                    Option::Some(comp) => {
                        if comp.input.len() > 0 {
                            comp.input.pop();
                        }
                    },
                    Option::None => {
                        proof {
                            assert(false);
                        }
                    },
                }
            },
            Option::None => {
                proof {
                    assert(false);
                }
            },
        }
        self.render_composition(doc);
        let empty_now = match self.composition() {
            Option::Some(c) => c.input.len() == 0,
            Option::None => false,
        };
        if empty_now {
            doc.collapse_selection_to_end();
            match &mut self.state {
                Option::Some(st) => {
                    st.composition = Option::None;
                },
                Option::None => {
                    proof {
                        assert(false);
                    }
                },
            }
        }
        proof {
            assert(self.model_with(*doc) =~= spec_pop_step(
                old(self).converter,
                old(self).model_with(*old(doc)),
            ));
        }
        Result::Ok(())
    }

    /// Commit: collapse the current selection to its end, let the host end
    /// the composition, and clear the composition from the session. With no
    /// live composition this is a no-op that succeeds; the session's
    /// composition is `None` after every call. When no explicit context is
    /// supplied the owning context of the existing composition stands in.
    pub fn finish_composition(&mut self, doc: &mut Document, ctx: Option<u32>) -> (r: Result<
        (),
        ImeError,
    >)
        requires
            old(doc).wf(),
        ensures
            r is Ok,
            !final(self).spec_composing(),
            final(doc).wf(),
            spec_same_bookkeeping(*old(self), *final(self)),
            final(self).model_with(*final(doc)) == spec_finish_step(
                old(self).model_with(*old(doc)),
            ),
            !old(self).spec_composing() ==> *final(self) == *old(self) && *final(doc) == *old(
                doc,
            ),
            old(self).spec_composing() ==> final(doc).text == old(doc).text && final(doc).sel == (
            TextRange { start: old(doc).sel.end, end: old(doc).sel.end }),
    {
        if self.is_composing() {
            doc.collapse_selection_to_end();
            match &mut self.state {
                Option::Some(st) => {
                    st.composition = Option::None;
                },
                Option::None => {
                    proof {
                        assert(false);
                    }
                },
            }
        }
        proof {
            assert(self.model_with(*doc) =~= spec_finish_step(old(self).model_with(*old(doc))));
        }
        Result::Ok(())
    }

    /// Mirror a host-initiated termination: the host has already rescinded
    /// the composition, so only the local state is cleared; the host's
    /// end-composition call is not re-invoked.
    pub fn on_composition_terminated(&mut self, doc: &mut Document) -> (r: Result<(), ImeError>)
        requires
            old(doc).wf(),
        ensures
            r is Ok,
            !final(self).spec_composing(),
            final(doc).wf(),
            spec_same_bookkeeping(*old(self), *final(self)),
            final(self).model_with(*final(doc)) == spec_finish_step(
                old(self).model_with(*old(doc)),
            ),
    {
        self.finish_composition(doc, Option::None)
    }

    /// Re-render the live composition: replace the anchor range's text with
    /// the conversion of the whole accumulated buffer, move the anchor end
    /// past it, and collapse the selection there.
    fn render_composition(&mut self, doc: &mut Document)
        requires
            old(self).spec_active(),
            old(self).spec_composing(),
            old(self).inv(),
            old(doc).wf(),
            old(self).anchor_fits(*old(doc)),
        ensures
            final(self).spec_active(),
            final(self).spec_composing(),
            final(self).inv(),
            final(doc).wf(),
            final(self).anchor_fits(*final(doc)),
            spec_same_bookkeeping(*old(self), *final(self)),
            final(self).spec_input() == old(self).spec_input(),
            final(self).spec_composition()->Some_0.owning_context == old(
                self,
            ).spec_composition()->Some_0.owning_context,
            final(self).spec_anchor().start == old(self).spec_anchor().start,
            final(self).spec_anchor().end == old(self).spec_anchor().start + old(
                self,
            ).converter.spec_convert(old(self).spec_input()).len(),
            final(doc).text@ == old(doc).text@.subrange(0, old(self).spec_anchor().start as int)
                + old(self).converter.spec_convert(old(self).spec_input()) + old(
                doc,
            ).text@.subrange(old(self).spec_anchor().end as int, old(doc).text@.len() as int),
            final(doc).sel == (TextRange {
                start: final(self).spec_anchor().end,
                end: final(self).spec_anchor().end,
            }),
            old(self).spec_input().len() == 0 ==> final(doc).text@.len() == old(
                doc,
            ).text@.len() - (old(self).spec_anchor().end - old(self).spec_anchor().start),
    {
        let converted = match &self.state {
            Option::Some(st) => match &st.composition {
                Option::Some(comp) => self.converter.convert(&comp.input),
                Option::None => {
                    proof {
                        assert(false);
                    }
                    Vec::new()
                },
            },
            Option::None => {
                proof {
                    assert(false);
                }
                Vec::new()
            },
        };
        let (astart, aend) = match self.composition() {
            Option::Some(c) => (c.anchor.start, c.anchor.end),
            Option::None => {
                proof {
                    assert(false);
                }
                (0, 0)
            },
        };
        let new_end = doc.replace_range(astart, aend, &converted);
        doc.set_selection(new_end, new_end);
        match &mut self.state {
            Option::Some(st) => {
                match &mut st.composition {
                    Option::Some(comp) => {
                        comp.anchor = TextRange { start: astart, end: new_end };
                    },
                    Option::None => {
                        proof {
                            assert(false);
                        }
                    },
                }
            },
            Option::None => {
                proof {
                    assert(false);
                }
            },
        }
    }
}

} // verus!
