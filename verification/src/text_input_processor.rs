//! Activation and deactivation of the component on an input thread.
//!
//! Activation records the session the shell set up: the client identifier
//! and the subscription cookies the host returned. Deactivation first
//! commits any live composition, then hands the session back so the shell
//! can release its subscriptions in the fixed unwind order: function-provider
//! link, thread-focus subscription, keystroke subscription, thread-event
//! subscription. Every unwind step runs even when an earlier one failed, and
//! the first failure encountered is the one reported.

use vstd::prelude::*;

use crate::ActiveImeState;
use crate::Ime;
use crate::document::Document;
use crate::edit_session::spec_finish_step;

verus! {

impl Ime {
    /// Record a successful activation: the session with its client identifier
    /// and subscription cookies; no composition is live yet.
    pub fn activate(
        &mut self,
        client_id: u32,
        thread_mgr_event_sink_cookie: u32,
        text_edit_ctx: Option<u32>,
        text_edit_sink_cookie: u32,
        thread_focus_sink_cookie: u32,
    )
        ensures
            final(self).converter == old(self).converter,
            final(self).last_focused == old(self).last_focused,
            final(self).state == Option::Some(
                ActiveImeState {
                    client_id,
                    thread_mgr_event_sink_cookie,
                    text_edit_ctx,
                    text_edit_sink_cookie,
                    thread_focus_sink_cookie,
                    composition: Option::None,
                },
            ),
            final(self).spec_active(),
            !final(self).spec_composing(),
            final(self).inv(),
    {
        self.state = Option::Some(
            ActiveImeState {
                client_id,
                thread_mgr_event_sink_cookie,
                text_edit_ctx,
                text_edit_sink_cookie,
                thread_focus_sink_cookie,
                composition: Option::None,
            },
        );
    }

    /// Deactivate: first commit any live composition, then drop the session
    /// and hand it back so the shell can release its subscriptions. After the
    /// call no session and no composition is live.
    pub fn deactivate(&mut self, doc: &mut Document) -> (r: Option<ActiveImeState>)
        requires
            old(doc).wf(),
        ensures
            !final(self).spec_active(),
            !final(self).spec_composing(),
            final(self).converter == old(self).converter,
            final(self).last_focused == old(self).last_focused,
            final(doc).wf(),
            final(self).model_with(*final(doc)) == spec_finish_step(
                old(self).model_with(*old(doc)),
            ),
            match old(self).state {
                Option::None => r is None && *final(doc) == *old(doc),
                Option::Some(st) => r == Option::Some(
                    ActiveImeState { composition: Option::None, ..st },
                ),
            },
    {
        match self.finish_composition(doc, Option::None) {
            Result::Ok(()) => {},
            Result::Err(_) => {},
        }
        self.state.take()
    }
}

/// The outcome of the unwind steps that matters to the caller: each step
/// yields `None` on success or the host's failure code; all steps are always
/// attempted, and the first failure encountered is the one reported.
pub open spec fn spec_first_failure(results: Seq<Option<i32>>) -> Option<i32>
    decreases results.len(),
{
    if results.len() == 0 {
        Option::None
    } else {
        match results[0] {
            Option::Some(e) => Option::Some(e),
            Option::None => spec_first_failure(results.subrange(1, results.len() as int)),
        }
    }
}

/// Report the first failure among the unwind steps' results, if any.
pub fn first_failure(results: &Vec<Option<i32>>) -> (r: Option<i32>)
    ensures
        r == spec_first_failure(results@),
{
    let mut i: usize = 0;
    proof {
        assert(results@.subrange(0, results@.len() as int) =~= results@);
    }
    while i < results.len()
        invariant
            i <= results@.len(),
            spec_first_failure(results@) == spec_first_failure(
                results@.subrange(i as int, results@.len() as int),
            ),
            forall|j: int| 0 <= j < i ==> results@[j] is None,
        decreases results@.len() - i,
    {
        let ghost rest = results@.subrange(i as int, results@.len() as int);
        match results[i] {
            Option::Some(e) => {
                assert(rest[0] == results@[i as int]);
                return Option::Some(e);
            },
            Option::None => {
                proof {
                    assert(rest[0] == results@[i as int]);
                    assert(rest.subrange(1, rest.len() as int) =~= results@.subrange(
                        i + 1,
                        results@.len() as int,
                    ));
                }
                i = i + 1;
            },
        }
    }
    proof {
        assert(results@.subrange(results@.len() as int, results@.len() as int)
            =~= Seq::<Option<i32>>::empty());
    }
    Option::None
}

} // verus!
