//! Splitting a byte stream into lines, one `\n` at a time.
use vstd::prelude::*;

verus! {

/// The byte that ends a line.
pub const NEWLINE: u8 = 10;

/// The bytes hold no line terminator.
pub open spec fn is_line(s: Seq<u8>) -> bool {
    forall|i: int| 0 <= i < s.len() ==> s[i] != NEWLINE
}

/// Bytes read from a source and not yet handed out as lines. An empty line ends
/// the sequence of lines: what follows it is never handed out.
pub struct LineBuffer {
    pending: Vec<u8>,
    ended: bool,
}

impl View for LineBuffer {
    type V = Seq<u8>;

    closed spec fn view(&self) -> Seq<u8> {
        self.pending@
    }
}

/// What the next pull on a line buffer gives.
#[derive(Clone, Debug, PartialEq, Eq)]
pub enum Pull {
    /// A complete line, its terminator dropped.
    Line(Vec<u8>),
    /// No complete line yet: read more of the source.
    More,
    /// The sequence of lines is over.
    End,
}

impl LineBuffer {
    /// Whether an empty line has ended the sequence.
    pub closed spec fn is_ended(&self) -> bool {
        self.ended
    }

    pub fn new() -> (r: LineBuffer)
        ensures
            r@ == Seq::<u8>::empty(),
            !r.is_ended(),
    {
        LineBuffer { pending: Vec::new(), ended: false }
    }

    /// Appends what one read of the source gave.
    pub fn push_bytes(&mut self, chunk: &[u8])
        ensures
            final(self)@ == old(self)@ + chunk@,
            final(self).is_ended() == old(self).is_ended(),
    {
        self.pending.extend_from_slice(chunk);
    }

    /// Takes the next line out of the buffer: `End` once an empty line has come,
    /// `More`, with the buffer unchanged, while no terminator has arrived.
    pub fn pull(&mut self) -> (r: Pull)
        ensures
            old(self).is_ended() ==> r == Pull::End && final(self)@ == old(self)@ && final(self).is_ended(),
            !old(self).is_ended() ==> match r {
                Pull::Line(line) => {
                    &&& line@.len() > 0
                    &&& is_line(line@)
                    &&& old(self)@ == line@ + seq![NEWLINE] + final(self)@
                    &&& !final(self).is_ended()
                },
                Pull::More => is_line(old(self)@) && final(self)@ == old(self)@ && !final(self).is_ended(),
                Pull::End => old(self)@.len() > 0 && old(self)@[0] == NEWLINE && final(self).is_ended(),
            },
    {
        if self.ended {
            return Pull::End;
        }
        match self.next_line() {
            Some(line) => if line.len() == 0 {
                assert(old(self)@ =~= seq![NEWLINE] + self@);
                self.ended = true;
                Pull::End
            } else {
                Pull::Line(line)
            },
            None => Pull::More,
        }
    }

    fn next_line(&mut self) -> (r: Option<Vec<u8>>)
        ensures
            match r {
                Some(line) => {
                    &&& is_line(line@)
                    &&& old(self)@ == line@ + seq![NEWLINE] + final(self)@
                },
                None => is_line(old(self)@) && final(self)@ == old(self)@,
            },
            final(self).ended == old(self).ended,
    {
        let n = self.pending.len();
        let mut i: usize = 0;
        while i < n
            invariant
                self.pending@ == old(self)@,
                self.ended == old(self).ended,
                n == self.pending@.len(),
                i <= n,
                is_line(self.pending@.subrange(0, i as int)),
            decreases n - i,
        {
            if self.pending[i] == NEWLINE {
                let mut line = self.pending.split_off(i + 1);
                std::mem::swap(&mut line, &mut self.pending);
                line.pop();
                assert(line@ =~= old(self)@.subrange(0, i as int));
                assert(old(self)@ =~= line@ + seq![NEWLINE] + self.pending@);
                return Some(line);
            }
            i = i + 1;
        }
        assert(self.pending@.subrange(0, n as int) =~= self.pending@);
        None
    }

    /// At the end of the source: hands out what is left, which holds no
    /// terminator, as a last line, unless nothing is left or the sequence has
    /// ended.
    pub fn finish(&mut self) -> (r: Option<Vec<u8>>)
        ensures
            final(self)@ == Seq::<u8>::empty(),
            final(self).is_ended(),
            old(self)@.len() == 0 || old(self).is_ended() ==> r is None,
            old(self)@.len() > 0 && !old(self).is_ended() ==> r is Some && r->0@ == old(self)@,
    {
        let ended = self.ended;
        self.ended = true;
        let mut rest = Vec::new();
        std::mem::swap(&mut rest, &mut self.pending);
        if ended || rest.len() == 0 {
            None
        } else {
            Some(rest)
        }
    }
}

} // verus!
