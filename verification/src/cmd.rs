//! A command invocation under construction: the program and its arguments.
//! Running one is the provisioning layer's business; the value itself is
//! plain data.

use vstd::prelude::*;

verus! {

/// A command line: the program to call and its arguments, in order.
#[derive(Clone, Debug, PartialEq)]
pub struct Cmd {
    pub program: String,
    pub args: Vec<String>,
}

impl Cmd {
    /// A command calling `program`, with no arguments yet.
    pub fn new(program: &str) -> (r: Cmd)
        ensures
            r.program@ == program@,
            r.args.deep_view() == Seq::<Seq<char>>::empty(),
    {
        let r = Cmd { program: program.to_owned(), args: Vec::new() };
        proof {
            assert(r.args.deep_view() =~= Seq::<Seq<char>>::empty());
        }
        r
    }

    /// The command with one more argument at the end.
    pub fn arg(self, s: &str) -> (r: Cmd)
        ensures
            r.program@ == self.program@,
            r.args.deep_view() == self.args.deep_view().push(s@),
    {
        let mut args = self.args;
        let ghost old_args = args.deep_view();
        args.push(s.to_owned());
        proof {
            assert(args.deep_view() =~= old_args.push(s@));
        }
        Cmd { program: self.program, args }
    }
}

} // verus!
