use vstd::prelude::*;

verus! {

/// Whether `text` is emitted after `last` was the last emitted text: only
/// when it differs.
pub open spec fn emits(last: Option<Seq<char>>, text: Seq<char>) -> bool {
    last != Some(text)
}

/// The last emitted text after `text` is offered.
pub open spec fn last_after(last: Option<Seq<char>>, text: Seq<char>) -> Option<Seq<char>> {
    if emits(last, text) {
        Some(text)
    } else {
        last
    }
}

/// Content-level deduplication of the emitted snapshot text: a text is
/// emitted only if it differs from the last one emitted.
pub struct OutputDedup {
    last: Option<String>,
}

impl View for OutputDedup {
    type V = Option<Seq<char>>;

    closed spec fn view(&self) -> Option<Seq<char>> {
        match self.last {
            Some(t) => Some(t@),
            None => None,
        }
    }
}

impl OutputDedup {
    /// Nothing emitted yet.
    pub fn new() -> (r: OutputDedup)
        ensures
            r@ is None,
    {
        OutputDedup { last: None }
    }

    /// Offers the canonical text of a snapshot; returns whether it is to be
    /// emitted, and if so remembers it as the last emitted text.
    pub fn offer(&mut self, text: String) -> (emit: bool)
        ensures
            emit == emits(old(self)@, text@),
            final(self)@ == last_after(old(self)@, text@),
    {
        let same = match &self.last {
            Some(last) => *last == text,
            None => false,
        };
        if same {
            false
        } else {
            self.last = Some(text);
            true
        }
    }
}

/// Two publish events whose canonical text is identical give exactly one
/// emitted line: the second is never emitted, and the first is whenever it
/// differs from what was emitted before.
pub proof fn lemma_identical_text_emitted_once(last: Option<Seq<char>>, text: Seq<char>)
    ensures
        !emits(last_after(last, text), text),
        last != Some(text) ==> emits(last, text),
{
}

} // verus!
