use vstd::prelude::*;

use crate::tokens::{is_punct_ch, TokenNode};

verus! {

/// The position of the first separator punct at or after `pos`, or the end
/// of the sequence when none follows.
pub open spec fn run_end(s: Seq<TokenNode>, pos: int, sep: char) -> int
    decreases s.len() - pos,
{
    if pos < 0 || pos >= s.len() {
        s.len() as int
    } else if is_punct_ch(s[pos], sep) {
        pos
    } else {
        run_end(s, pos + 1, sep)
    }
}

/// The run end lies between its starting position and the end.
pub proof fn lemma_run_end_bounds(s: Seq<TokenNode>, pos: int, sep: char)
    requires
        0 <= pos <= s.len(),
    ensures
        pos <= run_end(s, pos, sep) <= s.len(),
    decreases s.len() - pos,
{
    if pos < s.len() && !is_punct_ch(s[pos], sep) {
        lemma_run_end_bounds(s, pos + 1, sep);
    }
}

/// `run_end` is pinned by the run itself: if nothing in `[pos, n)` is the
/// separator and `n` is the end or a separator, then `n` is the run end.
pub proof fn lemma_run_end(s: Seq<TokenNode>, pos: int, n: int, sep: char)
    requires
        0 <= pos <= n <= s.len(),
        forall|i: int| pos <= i < n ==> !is_punct_ch(s[i], sep),
        n < s.len() ==> is_punct_ch(s[n], sep),
    ensures
        run_end(s, pos, sep) == n,
    decreases n - pos,
{
    if pos < n {
        lemma_run_end(s, pos + 1, n, sep);
    }
}

/// The sequence left after a run and its trailing separator, if one
/// follows, are consumed.
pub open spec fn after_run(s: Seq<TokenNode>, sep: char) -> Seq<TokenNode> {
    let e = run_end(s, 0, sep);
    if e < s.len() {
        s.skip(e + 1)
    } else {
        s.skip(e)
    }
}

/// Split off the first separator-delimited run of a non-empty token
/// sequence, handing back the run and what follows the separator.
pub fn split_first_run(tokens: Vec<TokenNode>, sep: char) -> (r: (Vec<TokenNode>, Vec<TokenNode>))
    requires
        tokens@.len() > 0,
    ensures
        r.0@ == tokens@.subrange(0, run_end(tokens@, 0, sep)),
        r.1@ == after_run(tokens@, sep),
{
    let mut iter = DelimitedIter::new(tokens, sep);
    let run = match iter.next_item() {
        Some(run) => run,
        None => Vec::new(),
    };
    (run, iter.into_tokens())
}

/// A punctuated token sequence in iterator form: hands out the token runs
/// that stand between top-level separator puncts.
pub struct DelimitedIter {
    tokens: Vec<TokenNode>,
    errored: bool,
    sep: char,
}

impl DelimitedIter {
    /// The tokens not yet handed out.
    pub closed spec fn items(&self) -> Seq<TokenNode> {
        self.tokens@
    }

    /// Whether the iterator was told to stop after an element failed.
    pub closed spec fn has_errored(&self) -> bool {
        self.errored
    }

    /// The separator this iterator splits at.
    pub closed spec fn sep_char(&self) -> char {
        self.sep
    }

    /// Construct an iterator over `tokens`, splitting at `sep`.
    pub fn new(tokens: Vec<TokenNode>, sep: char) -> (r: Self)
        ensures
            r.items() == tokens@,
            !r.has_errored(),
            r.sep_char() == sep,
    {
        DelimitedIter { tokens, errored: false, sep }
    }

    /// Latch the error state: nothing more will be handed out.
    pub fn mark_errored(&mut self)
        ensures
            final(self).items() == old(self).items(),
            final(self).has_errored(),
            final(self).sep_char() == old(self).sep_char(),
    {
        self.errored = true;
    }

    /// Give back the tokens not yet handed out.
    pub fn into_tokens(self) -> (r: Vec<TokenNode>)
        ensures
            r@ == self.items(),
    {
        self.tokens
    }

    /// Hand out the next token run, consuming it and the separator that
    /// follows it. `None` once the tokens are exhausted or an error was
    /// latched.
    pub fn next_item(&mut self) -> (r: Option<Vec<TokenNode>>)
        ensures
            final(self).sep_char() == old(self).sep_char(),
            final(self).has_errored() == old(self).has_errored(),
            (if old(self).has_errored() || old(self).items().len() == 0 {
                r is None && final(self).items() == old(self).items()
            } else {
                {
                    let s = old(self).items();
                    let sep = old(self).sep_char();
                    &&& r matches Some(run)
                    &&& run@ == s.subrange(0, run_end(s, 0, sep))
                    &&& final(self).items() == after_run(s, sep)
                }
            }),
    {
        if self.errored || self.tokens.len() == 0 {
            return None;
        }
        let ghost s = self.tokens@;
        let ghost sep = self.sep;
        let mut run: Vec<TokenNode> = Vec::new();
        while self.tokens.len() > 0 && !self.tokens[0].is_punct(self.sep)
            invariant
                self.sep == sep,
                self.errored == false,
                s == run@ + self.tokens@,
                forall|i: int| 0 <= i < run@.len() ==> !is_punct_ch(s[i], sep),
            decreases self.tokens.len(),
        {
            let t = self.tokens.remove(0);
            run.push(t);
            proof {
                assert(s == run@ + self.tokens@);
            }
        }
        proof {
            let n = run@.len() as int;
            assert(forall|i: int| 0 <= i < self.tokens@.len() ==> s[n + i] == self.tokens@[i]);
            if self.tokens@.len() > 0 {
                assert(is_punct_ch(s[n], sep));
            }
            lemma_run_end(s, 0, n, sep);
            assert(run@ =~= s.subrange(0, n));
        }
        if self.tokens.len() > 0 {
            self.tokens.remove(0);
            proof {
                assert(self.tokens@ =~= after_run(s, sep));
            }
        } else {
            proof {
                assert(self.tokens@ =~= after_run(s, sep));
            }
        }
        Some(run)
    }
}

} // verus!
