//! The invocation handed back to the host for it to spawn.

use vstd::prelude::*;

verus! {

/// The character sequences of a list of strings.
pub open spec fn strings_view(v: Seq<String>) -> Seq<Seq<char>> {
    v.map_values(|s: String| s@)
}

/// The character sequences of an environment's name and value pairs.
pub open spec fn env_view(v: Seq<(String, String)>) -> Seq<(Seq<char>, Seq<char>)> {
    v.map_values(|p: (String, String)| (p.0@, p.1@))
}

/// An executable, its arguments in order, and its extra environment.
pub struct CommandSpec {
    pub command: String,
    pub args: Vec<String>,
    pub env: Vec<(String, String)>,
}

/// What a resolution produced: the invocation, or the error text.
pub open spec fn outcome(r: Result<CommandSpec, String>) -> Result<(Seq<char>, Seq<Seq<char>>), Seq<char>> {
    match r {
        Ok(c) => Ok(c.invocation()),
        Err(e) => Err(e@),
    }
}

impl CommandSpec {
    /// The executable and the arguments, as character sequences.
    pub open spec fn invocation(&self) -> (Seq<char>, Seq<Seq<char>>) {
        (self.command@, strings_view(self.args@))
    }

    /// A command that runs `command` with `args` and no extra environment.
    pub fn new(command: String, args: Vec<String>) -> (r: CommandSpec)
        ensures
            r.command == command,
            r.args == args,
            r.env@.len() == 0,
            env_view(r.env@) == Seq::<(Seq<char>, Seq<char>)>::empty(),
    {
        let r = CommandSpec { command, args, env: Vec::new() };
        proof {
            assert(env_view(r.env@) =~= Seq::<(Seq<char>, Seq<char>)>::empty());
        }
        r
    }
}

} // verus!
