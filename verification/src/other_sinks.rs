//! Reactions to host notifications outside the key path: completed document
//! edits (clobber detection) and focus changes (keeping the document-edit
//! subscription on the right context).

use vstd::prelude::*;

use crate::ActiveImeState;
use crate::Ime;
use crate::ImeError;
use crate::document::Document;
use crate::document::is_range_covered;
use crate::edit_session::spec_finish_step;
use crate::edit_session::spec_same_bookkeeping;

verus! {

/// The cookie value of a subscription that does not exist.
pub const TF_INVALID_COOKIE: u32 = 0xffff_ffff;

impl Ime {
    /// A document edit completed. A pure selection change is ignored. An
    /// actual text mutation while a composition is live is tested against the
    /// composition's anchor: a selection that no longer lies entirely inside
    /// the anchor range is a clobber, and the composition is terminated
    /// before the handler returns.
    pub fn on_end_edit(&mut self, doc: &mut Document, ctx: u32, selection_only: bool) -> (r:
        Result<(), ImeError>)
        requires
            old(doc).wf(),
        ensures
            r is Ok,
            final(doc).wf(),
            spec_same_bookkeeping(*old(self), *final(self)),
            ({
                let clobbered = !selection_only && old(self).spec_composing() && !old(
                    self,
                ).spec_anchor().spec_covers(old(doc).sel);
                if clobbered {
                    !final(self).spec_composing() && final(self).model_with(*final(doc))
                        == spec_finish_step(old(self).model_with(*old(doc)))
                } else {
                    *final(self) == *old(self) && *final(doc) == *old(doc)
                }
            }),
    {
        if selection_only {
            return Result::Ok(());
        }
        let covered = match self.composition() {
            Option::Some(c) => is_range_covered(&doc.sel, &c.anchor),
            Option::None => {
                return Result::Ok(());
            },
        };
        if !covered {
            return self.finish_composition(doc, Option::Some(ctx));
        }
        Result::Ok(())
    }

    /// Clear the document-edit subscription record, handing back the watched
    /// context and its cookie so the shell can release the subscription. The
    /// record never holds two live subscriptions: a new one may only be set
    /// once the old one was taken.
    pub fn take_text_edit_sink(&mut self) -> (r: Option<(u32, u32)>)
        ensures
            final(self).converter == old(self).converter,
            final(self).last_focused == old(self).last_focused,
            match old(self).state {
                Option::None => r is None && *final(self) == *old(self),
                Option::Some(st) => {
                    &&& final(self).state matches Option::Some(st2) && st2 == (ActiveImeState {
                        text_edit_ctx: Option::None,
                        text_edit_sink_cookie: TF_INVALID_COOKIE,
                        ..st
                    })
                    &&& r == match st.text_edit_ctx {
                        Option::Some(c) => Option::Some((c, st.text_edit_sink_cookie)),
                        Option::None => Option::None::<(u32, u32)>,
                    }
                },
            },
    {
        match &mut self.state {
            Option::Some(st) => {
                let prev = match st.text_edit_ctx {
                    Option::Some(c) => Option::Some((c, st.text_edit_sink_cookie)),
                    Option::None => Option::None,
                };
                st.text_edit_ctx = Option::None;
                st.text_edit_sink_cookie = TF_INVALID_COOKIE;
                prev
            },
            Option::None => Option::None,
        }
    }

    /// Record the document-edit subscription the shell just made on the
    /// topmost context of the newly focused document. The previous record
    /// must have been taken first: the tracker never holds two live
    /// subscriptions.
    pub fn set_text_edit_sink(&mut self, ctx: u32, cookie: u32)
        requires
            old(self).spec_active(),
            old(self).state->Some_0.text_edit_ctx is None,
        ensures
            final(self).converter == old(self).converter,
            final(self).last_focused == old(self).last_focused,
            final(self).state matches Option::Some(st2) && st2 == (ActiveImeState {
                text_edit_ctx: Option::Some(ctx),
                text_edit_sink_cookie: cookie,
                ..old(self).state->Some_0
            }),
    {
        match &mut self.state {
            Option::Some(st) => {
                st.text_edit_ctx = Option::Some(ctx);
                st.text_edit_sink_cookie = cookie;
            },
            Option::None => {
                proof {
                    assert(false);
                }
            },
        }
    }

    /// Record which document manager holds the focus now, if any.
    pub fn set_last_focused(&mut self, focus: Option<u32>)
        ensures
            final(self).state == old(self).state,
            final(self).converter == old(self).converter,
            final(self).last_focused == focus,
    {
        self.last_focused = focus;
    }
}

} // verus!
