//! The failure value shared by every fallible operation of the library.

use vstd::prelude::*;
use vstd::string::*;
use super::text::joined;

verus! {

/// A failure: the message of its cause, followed by the context that each
/// enclosing stage added on the way up.
#[derive(Debug, PartialEq, Eq)]
pub struct Error {
    pub messages: Vec<String>,
}

impl View for Error {
    type V = Seq<Seq<char>>;

    open spec fn view(&self) -> Seq<Seq<char>> {
        self.messages.deep_view()
    }
}

impl DeepView for Error {
    type V = Seq<Seq<char>>;

    open spec fn deep_view(&self) -> Seq<Seq<char>> {
        self@
    }
}

/// What a fallible operation yields, with both sides taken by their views.
pub open spec fn outcome<T: DeepView>(r: Result<T, Error>) -> Result<T::V, Seq<Seq<char>>> {
    match r {
        Ok(value) => Ok(value.deep_view()),
        Err(e) => Err(e@),
    }
}

/// `r` with `stage` added to its failure as the outermost context.
pub open spec fn in_stage<V>(r: Result<V, Seq<Seq<char>>>, stage: Seq<char>) -> Result<
    V,
    Seq<Seq<char>>,
> {
    match r {
        Ok(value) => Ok(value),
        Err(chain) => Err(chain.push(stage)),
    }
}

impl Clone for Error {
    fn clone(&self) -> (r: Error)
        ensures
            r@ == self@,
    {
        let mut messages: Vec<String> = Vec::new();
        let mut i: usize = 0;
        while i < self.messages.len()
            invariant
                i <= self.messages.len(),
                messages.len() == i,
                forall|j: int| 0 <= j < i ==> messages[j]@ == self.messages[j]@,
            decreases self.messages.len() - i,
        {
            messages.push(self.messages[i].clone());
            i = i + 1;
        }
        assert(messages.deep_view() =~= self.messages.deep_view());
        Error { messages }
    }
}

impl Error {
    /// A failure with `message` as its cause and no context yet.
    pub fn new(message: &str) -> (r: Error)
        ensures
            r@ == seq![message@],
    {
        let mut messages: Vec<String> = Vec::new();
        messages.push(String::from_str(message));
        assert(messages.deep_view() =~= seq![message@]);
        Error { messages }
    }

    /// The same failure, with `message` added as its outermost context.
    pub fn context(self, message: &str) -> (r: Error)
        ensures
            r@ == self@.push(message@),
    {
        let mut messages = self.messages;
        let ghost before = messages.deep_view();
        messages.push(String::from_str(message));
        assert(messages.deep_view() =~= before.push(message@));
        Error { messages }
    }

    /// The whole chain on one line: the cause first, the outermost context
    /// last, with a colon and a space between neighbours.
    pub fn describe(&self) -> (r: String)
        ensures
            r@ == joined(self@, ": "@),
    {
        let mut out = String::new();
        let mut i: usize = 0;
        while i < self.messages.len()
            invariant
                i <= self.messages.len(),
                out@ == joined(self@.take(i as int), ": "@),
            decreases self.messages.len() - i,
        {
            if i > 0 {
                out.append(": ");
            }
            out.append(self.messages[i].as_str());
            proof {
                let now = self@.take(i + 1);
                assert(now.drop_last() =~= self@.take(i as int));
                assert(now.last() == self.messages[i as int]@);
                if i == 0 {
                    assert(Seq::<char>::empty() + self.messages[0]@ =~= self.messages[0]@);
                }
            }
            i = i + 1;
        }
        assert(self@.take(self.messages.len() as int) =~= self@);
        out
    }
}

} // verus!
