use vstd::prelude::*;

verus! {

/// The kind of value a command parameter takes.
#[derive(Debug, Clone, Copy, PartialEq, Eq, Structural)]
pub enum ParamKind {
    User,
    Message,
    Text,
}

/// One entry of a command's parameter schema.
pub struct Param {
    pub name: String,
    pub kind: ParamKind,
    pub optional: bool,
}

/// Which structured handler answers a command.
#[derive(Debug, Clone, Copy, PartialEq, Eq, Structural)]
pub enum CommandHandler {
    /// Reports when a user's account was created.
    Lookup,
    /// Echoes a message that the user picked, behind a fixed prefix.
    ContextAction,
}

/// A named, schema-described command. Its name is its identity.
pub struct Command {
    pub name: String,
    pub description: String,
    pub params: Vec<Param>,
    pub handler: CommandHandler,
}

/// The error of registering a second command under a name already taken.
#[derive(Debug, Clone, Copy, PartialEq, Eq, Structural)]
pub struct DuplicateNameError;

/// Does `cmds` hold exactly one command named `name`?
pub open spec fn holds_exactly_one(cmds: Seq<Command>, name: Seq<char>) -> bool {
    exists|i: int|
        0 <= i < cmds.len() && #[trigger] cmds[i].name@ == name && forall|j: int|
            0 <= j < cmds.len() && #[trigger] cmds[j].name@ == name ==> j == i
}

/// Does `cmds` hold some command named `name`?
pub open spec fn holds_name(cmds: Seq<Command>, name: Seq<char>) -> bool {
    exists|i: int| 0 <= i < cmds.len() && #[trigger] cmds[i].name@ == name
}

/// No two commands of `cmds` share a name.
pub open spec fn names_unique(cmds: Seq<Command>) -> bool {
    forall|i: int, j: int|
        0 <= i < cmds.len() && 0 <= j < cmds.len() && #[trigger] cmds[i].name@
            == #[trigger] cmds[j].name@ ==> i == j
}

/// The commands known to the bot, in the order in which they were registered.
pub struct Registry {
    commands: Vec<Command>,
}

impl Registry {
    pub closed spec fn view(&self) -> Seq<Command> {
        self.commands@
    }

    pub open spec fn wf(&self) -> bool {
        names_unique(self@)
    }

    pub fn new() -> (r: Registry)
        ensures
            r.wf(),
            r@.len() == 0,
    {
        Registry { commands: Vec::new() }
    }

    /// The position of the command named `name`, if one is registered.
    pub fn position(&self, name: &String) -> (r: Option<usize>)
        ensures
            match r {
                Some(i) => i < self@.len() && self@[i as int].name@ == name@,
                None => !holds_name(self@, name@),
            },
    {
        let mut i: usize = 0;
        while i < self.commands.len()
            invariant
                0 <= i <= self@.len(),
                forall|j: int| 0 <= j < i ==> self@[j].name@ != name@,
            decreases self@.len() - i,
        {
            if self.commands[i].name == *name {
                return Some(i);
            }
            i = i + 1;
        }
        None
    }

    /// Adds `cmd` at the end, unless its name is already taken: then nothing
    /// changes and the error says so.
    pub fn register(&mut self, cmd: Command) -> (r: Result<(), DuplicateNameError>)
        requires
            old(self).wf(),
        ensures
            final(self).wf(),
            r is Err <==> holds_name(old(self)@, cmd.name@),
            r is Ok ==> final(self)@ == old(self)@.push(cmd),
            r is Err ==> final(self)@ == old(self)@,
            holds_exactly_one(final(self)@, cmd.name@),
    {
        match self.position(&cmd.name) {
            Some(i) => {
                assert(holds_name(self@, cmd.name@));
                assert(holds_exactly_one(self@, cmd.name@) ) by {
                    assert(self@[i as int].name@ == cmd.name@);
                }
                Err(DuplicateNameError)
            },
            None => {
                let ghost before = self@;
                let ghost name = cmd.name@;
                self.commands.push(cmd);
                assert(self@[before.len() as int].name@ == name);
                Ok(())
            },
        }
    }

    /// Every registered command, in order of registration.
    pub fn all(&self) -> (r: &Vec<Command>)
        ensures
            r@ == self@,
    {
        &self.commands
    }

    pub fn len(&self) -> (r: usize)
        ensures
            r == self@.len(),
    {
        self.commands.len()
    }
}

} // verus!
