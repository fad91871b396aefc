//! The external program that does the formatting, as the library sees it.

use vstd::prelude::*;

verus! {

/// What a tool reports when it did not succeed.
#[derive(Debug, PartialEq, Eq)]
pub struct ToolFailure {
    /// The diagnostic that the tool, or the attempt to run it, left behind.
    pub diagnostic: String,
}

/// An external program that can be run with a list of arguments.
///
/// The program itself is the implementor's choice; the library only decides
/// the arguments and looks at whether the run succeeded.
pub trait Tool {
    /// Runs the program once with `args`, in order, waits for it to end and
    /// reports whether it succeeded.
    fn run(&self, args: &[String]) -> Result<(), ToolFailure>;
}

/// Whether `texts` are the texts of the strings `given`, one by one.
pub open spec fn are_texts_of(texts: Seq<Seq<char>>, given: &[String]) -> bool {
    &&& given@.len() == texts.len()
    &&& forall|i: int| 0 <= i < texts.len() ==> (#[trigger] given@[i])@ == texts[i]
}

/// Whether `outcome` is a report that `tool` may give when it is run with the
/// arguments `args`.
pub open spec fn reports<T: Tool + ?Sized>(
    tool: &T,
    args: Seq<Seq<char>>,
    outcome: Result<(), ToolFailure>,
) -> bool {
    exists|given: &[String]|
        are_texts_of(args, given) && call_ensures(T::run, (tool, given), outcome)
}

} // verus!
