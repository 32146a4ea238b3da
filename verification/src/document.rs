//! Model of the host editing surface: the text of one editable context and
//! its current selection.
//!
//! Each lifecycle operation of the composition controller performs one edit
//! transaction on a value of this model; the unverified shell mirrors the
//! same edits onto the real host surface.

use vstd::prelude::*;

verus! {

/// A text range, as half-open character offsets `[start, end)`.
#[derive(Clone, Copy, Debug, PartialEq, Eq, Structural)]
pub struct TextRange {
    pub start: usize,
    pub end: usize,
}

impl TextRange {
    /// A well-formed range does not run backwards.
    pub open spec fn wf(self) -> bool {
        self.start <= self.end
    }

    /// Whether the range lies inside a text of the given length.
    pub open spec fn fits(self, text_len: int) -> bool {
        self.wf() && self.end <= text_len
    }

    /// Whether `test` lies entirely inside `cover`: the start of `test` is no
    /// earlier than the start of `cover`, and its end no later.
    pub open spec fn spec_covers(self, test: TextRange) -> bool {
        self.start <= test.start && test.end <= self.end
    }
}

/// Returns `true` if `test` is entirely contained within `cover`.
pub fn is_range_covered(test: &TextRange, cover: &TextRange) -> (r: bool)
    ensures
        r == cover.spec_covers(*test),
{
    cover.start <= test.start && test.end <= cover.end
}

/// One editable context of the host: its text and the current selection.
#[derive(Debug)]
pub struct Document {
    pub text: Vec<char>,
    pub sel: TextRange,
}

impl Document {
    /// The selection lies inside the text.
    pub open spec fn wf(self) -> bool {
        self.sel.fits(self.text@.len() as int)
    }

    /// An empty document with a collapsed selection at the start.
    pub fn new() -> (r: Document)
        ensures
            r.wf(),
            r.text@ =~= Seq::<char>::empty(),
            r.sel == (TextRange { start: 0, end: 0 }),
    {
        Document { text: Vec::new(), sel: TextRange { start: 0, end: 0 } }
    }

    /// Replace the characters of `[start, end)` with `insert`, leaving the
    /// selection fields untouched.
    pub fn replace_range(&mut self, start: usize, end: usize, insert: &Vec<char>) -> (r: usize)
        requires
            start <= end,
            end <= old(self).text@.len(),
        ensures
            final(self).text@ == old(self).text@.subrange(0, start as int) + insert@ + old(
                self,
            ).text@.subrange(end as int, old(self).text@.len() as int),
            final(self).text@.len() == old(self).text@.len() - (end - start) + insert@.len(),
            final(self).sel == old(self).sel,
            r == start + insert@.len(),
    {
        let text_len = self.text.len();
        let mut out: Vec<char> = Vec::new();
        let mut i: usize = 0;
        while i < start
            invariant
                i <= start,
                start <= end <= self.text@.len(),
                out@ =~= self.text@.subrange(0, i as int),
            decreases start - i,
        {
            out.push(self.text[i]);
            i = i + 1;
            assert(out@ =~= self.text@.subrange(0, i as int));
        }
        let mut j: usize = 0;
        while j < insert.len()
            invariant
                j <= insert@.len(),
                start <= end <= self.text@.len(),
                out@ =~= self.text@.subrange(0, start as int) + insert@.subrange(0, j as int),
            decreases insert@.len() - j,
        {
            out.push(insert[j]);
            j = j + 1;
            assert(out@ =~= self.text@.subrange(0, start as int) + insert@.subrange(0, j as int));
        }
        let inserted_end = out.len();
        let mut k: usize = end;
        while k < text_len
            invariant
                end <= k <= text_len,
                text_len == self.text@.len(),
                start <= end <= self.text@.len(),
                out@ =~= self.text@.subrange(0, start as int) + insert@ + self.text@.subrange(
                    end as int,
                    k as int,
                ),
            decreases text_len - k,
        {
            out.push(self.text[k]);
            k = k + 1;
            assert(out@ =~= self.text@.subrange(0, start as int) + insert@ + self.text@.subrange(
                end as int,
                k as int,
            ));
        }
        assert(insert@.subrange(0, insert@.len() as int) =~= insert@);
        self.text = out;
        inserted_end
    }

    /// Set the selection.
    pub fn set_selection(&mut self, start: usize, end: usize)
        requires
            start <= end,
            end <= old(self).text@.len(),
        ensures
            final(self).text == old(self).text,
            final(self).sel == (TextRange { start, end }),
            final(self).wf(),
    {
        self.sel = TextRange { start, end };
    }

    /// Collapse the selection to its end, as an insertion point.
    pub fn collapse_selection_to_end(&mut self)
        requires
            old(self).wf(),
        ensures
            final(self).text == old(self).text,
            final(self).sel == (TextRange { start: old(self).sel.end, end: old(self).sel.end }),
            final(self).wf(),
    {
        let e = self.sel.end;
        self.sel = TextRange { start: e, end: e };
    }
}

} // verus!
