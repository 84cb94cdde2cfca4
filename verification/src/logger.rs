//! The per-build log: an append-only sequence of lines, exclusively owned
//! by one build.  Retrieval returns exactly the lines appended, in order,
//! each terminated by a newline.  The unverified shell mirrors every
//! appended line to a file keyed by commit identifier and to the console.
use vstd::prelude::*;

verus! {

/// The text a log with the given lines retrieves as: each line in append
/// order, each followed by one newline character.
pub open spec fn spec_joined(lines: Seq<Seq<char>>) -> Seq<char>
    decreases lines.len(),
{
    if lines.len() == 0 {
        Seq::empty()
    } else {
        spec_joined(lines.drop_last()) + lines.last() + "\n"@
    }
}

/// Appending one line extends the retrieved text by exactly that line and
/// a newline; earlier lines are untouched.  This is the append-only law of
/// the log.
pub proof fn lemma_joined_push(lines: Seq<Seq<char>>, line: Seq<char>)
    ensures
        spec_joined(lines.push(line)) == spec_joined(lines) + line + "\n"@,
{
    assert(lines.push(line).drop_last() =~= lines);
    assert(lines.push(line).last() == line);
}

/// An append-only log sink for one build.
pub struct Log {
    lines: Vec<String>,
}

impl View for Log {
    type V = Seq<Seq<char>>;

    closed spec fn view(&self) -> Seq<Seq<char>> {
        self.lines@.map_values(|s: String| s@)
    }
}

impl Log {
    /// A fresh, empty log; any prior content under the same key is gone.
    pub fn new() -> (l: Log)
        ensures
            l@ == Seq::<Seq<char>>::empty(),
    {
        let l = Log { lines: Vec::new() };
        proof {
            assert(l@ =~= Seq::<Seq<char>>::empty());
        }
        l
    }

    /// Appends one line; nothing already logged changes.
    pub fn log(&mut self, message: &str)
        ensures
            final(self)@ == old(self)@.push(message@),
    {
        let line = String::from_str(message);
        self.lines.push(line);
        proof {
            assert(final(self)@ =~= old(self)@.push(message@));
        }
    }

    /// Number of lines appended so far.
    pub fn len(&self) -> (n: usize)
        ensures
            n == self@.len(),
    {
        self.lines.len()
    }

    /// The accumulated log text: the concatenation, in order, of every
    /// line appended to this log, each followed by a newline.
    pub fn contents(&self) -> (r: String)
        ensures
            r@ == spec_joined(self@),
    {
        let mut acc = String::new();
        let mut i: usize = 0;
        proof {
            assert(self@.subrange(0, 0) =~= Seq::<Seq<char>>::empty());
        }
        while i < self.lines.len()
            invariant
                i <= self.lines.len(),
                acc@ == spec_joined(self@.subrange(0, i as int)),
            decreases self.lines.len() - i,
        {
            proof {
                let v = self@;
                assert(v.subrange(0, i + 1).drop_last() =~= v.subrange(0, i as int));
                assert(v.subrange(0, i + 1).last() == v[i as int]);
            }
            acc.append(self.lines[i].as_str());
            acc.append("\n");
            i += 1;
        }
        proof {
            assert(self@.subrange(0, self@.len() as int) =~= self@);
        }
        acc
    }
}

} // verus!
