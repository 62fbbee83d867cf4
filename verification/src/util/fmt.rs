//! Errors written out with their causes.

use vstd::prelude::*;
use vstd::string::*;

verus! {

/// The texts of a chain joined by a colon and a blank, the first text first.
pub open spec fn joined(chain: Seq<String>) -> Seq<char>
    decreases chain.len(),
{
    if chain.len() == 0 {
        Seq::empty()
    } else if chain.len() == 1 {
        chain[0]@
    } else {
        joined(chain.drop_last()) + ": "@ + chain.last()@
    }
}

/// Wrapper to write an error chain: the message of an error, followed by the
/// message of its cause, of the cause of that, and so on.
#[derive(Debug)]
pub struct ErrorChainDisplay {
    /// The messages, that of the error itself first.
    pub chain: Vec<String>,
}

impl ErrorChainDisplay {
    /// Wraps the messages of an error and of its causes.
    pub fn new(chain: Vec<String>) -> (display: Self)
        ensures
            display.chain == chain,
    {
        ErrorChainDisplay { chain }
    }

    /// The chain in one line: the messages joined by a colon and a blank.
    pub fn to_string(&self) -> (line: String)
        ensures
            line@ == joined(self.chain@),
    {
        let mut line = String::new();
        let mut i: usize = 0;
        while i < self.chain.len()
            invariant
                i <= self.chain@.len(),
                line@ == joined(self.chain@.take(i as int)),
            decreases self.chain.len() - i,
        {
            if i > 0 {
                line.append(": ");
            }
            line.append(self.chain[i].as_str());
            proof {
                let n = i as int;
                assert(self.chain@.take(n + 1).drop_last() =~= self.chain@.take(n));
                assert(self.chain@.take(n + 1).last() == self.chain@[n]);
                if n == 0 {
                    assert(line@ =~= self.chain@[0]@);
                }
            }
            i += 1;
        }
        proof {
            assert(self.chain@.take(i as int) =~= self.chain@);
        }
        line
    }
}

} // verus!
