use vstd::prelude::*;
use crate::gate::{DispatchGate, Verdict};
use crate::registry::{holds_name, CommandHandler, Registry};

verus! {

/// The failure of one command invocation. It never ends the dispatch loop.
pub enum CommandError {
    /// A call to the gateway failed.
    Upstream(String),
    /// The handler's own logic failed.
    Failed(String),
}

/// One line for the operator's log.
pub enum LogEntry {
    /// A command is about to run.
    Executing { command: String },
    /// A command returned a reply.
    Executed { command: String },
    /// A command returned an error.
    Failed { command: String, error: CommandError },
}

impl LogEntry {
    pub open spec fn is_executing(&self, name: Seq<char>) -> bool {
        match self {
            LogEntry::Executing { command } => command@ == name,
            _ => false,
        }
    }

    pub open spec fn is_executed(&self, name: Seq<char>) -> bool {
        match self {
            LogEntry::Executed { command } => command@ == name,
            _ => false,
        }
    }

    pub open spec fn is_failure(&self, name: Seq<char>) -> bool {
        match self {
            LogEntry::Failed { command, .. } => command@ == name,
            _ => false,
        }
    }

    pub open spec fn is_error(&self) -> bool {
        self is Failed
    }
}

/// What the dispatcher decides about an incoming structured invocation.
pub enum Invoke {
    /// The invoking user is blocked: no handler runs.
    Denied,
    /// No command of that name is registered.
    Unknown,
    /// Run this handler, then report its result through `on_result`.
    Run(CommandHandler),
}

/// Routes named commands past the block-list to their handlers and keeps a
/// record for the operator. Events come in; decisions go out.
pub struct Dispatcher {
    gate: DispatchGate,
    registry: Registry,
    log: Vec<LogEntry>,
}

impl Dispatcher {
    pub closed spec fn spec_gate(&self) -> DispatchGate {
        self.gate
    }

    pub closed spec fn spec_registry(&self) -> Registry {
        self.registry
    }

    pub closed spec fn spec_log(&self) -> Seq<LogEntry> {
        self.log@
    }

    pub open spec fn wf(&self) -> bool {
        self.spec_registry().wf()
    }

    pub fn new(registry: Registry, gate: DispatchGate) -> (r: Dispatcher)
        requires
            registry.wf(),
        ensures
            r.wf(),
            r.spec_gate() == gate,
            r.spec_registry() == registry,
            r.spec_log().len() == 0,
    {
        Dispatcher { gate, registry, log: Vec::new() }
    }

    pub fn registry(&self) -> (r: &Registry)
        ensures
            *r == self.spec_registry(),
    {
        &self.registry
    }

    pub fn log(&self) -> (r: &Vec<LogEntry>)
        ensures
            r@ == self.spec_log(),
    {
        &self.log
    }

    /// Forgets the entries logged so far, once they have been written out.
    pub fn clear_log(&mut self)
        requires
            old(self).wf(),
        ensures
            final(self).wf(),
            final(self).spec_gate() == old(self).spec_gate(),
            final(self).spec_registry() == old(self).spec_registry(),
            final(self).spec_log().len() == 0,
    {
        self.log.clear();
    }

    /// Decides on an invocation of `name` by `user`. A blocked user is denied
    /// before anything else happens; otherwise a registered command runs and
    /// its start is logged.
    pub fn on_invoke(&mut self, name: &String, user: u64) -> (r: Invoke)
        requires
            old(self).wf(),
        ensures
            final(self).wf(),
            final(self).spec_gate() == old(self).spec_gate(),
            final(self).spec_registry() == old(self).spec_registry(),
            old(self).spec_gate().blocks(user) ==> r is Denied && final(self).spec_log()
                == old(self).spec_log(),
            !old(self).spec_gate().blocks(user) && !holds_name(old(self).spec_registry()@, name@)
                ==> r is Unknown && final(self).spec_log() == old(self).spec_log(),
            !old(self).spec_gate().blocks(user) && holds_name(old(self).spec_registry()@, name@)
                ==> {
                &&& r is Run
                &&& exists|i: int|
                    0 <= i < old(self).spec_registry()@.len()
                        && #[trigger] old(self).spec_registry()@[i].name@ == name@
                        && r->Run_0 == old(self).spec_registry()@[i].handler
                &&& final(self).spec_log().len() == old(self).spec_log().len() + 1
                &&& final(self).spec_log().drop_last() == old(self).spec_log()
                &&& final(self).spec_log().last().is_executing(name@)
            },
    {
        if self.gate.evaluate(user) == Verdict::Deny {
            return Invoke::Denied;
        }
        match self.registry.position(name) {
            None => Invoke::Unknown,
            Some(i) => {
                let handler = self.registry.all()[i].handler;
                self.log.push(LogEntry::Executing { command: name.clone() });
                assert(self.log@.drop_last() =~= old(self).log@);
                Invoke::Run(handler)
            },
        }
    }

    /// Takes what a handler returned. A reply is handed back to be sent and
    /// the success is logged; an error is logged once and nothing is sent.
    /// Either way the dispatcher stays ready for the next invocation.
    pub fn on_result(&mut self, name: &String, result: Result<String, CommandError>) -> (r:
        Option<String>)
        requires
            old(self).wf(),
        ensures
            final(self).wf(),
            final(self).spec_gate() == old(self).spec_gate(),
            final(self).spec_registry() == old(self).spec_registry(),
            final(self).spec_log().len() == old(self).spec_log().len() + 1,
            final(self).spec_log().drop_last() == old(self).spec_log(),
            match result {
                Ok(reply) => r == Some(reply) && final(self).spec_log().last().is_executed(name@),
                Err(_) => r is None && final(self).spec_log().last().is_failure(name@)
                    && final(self).spec_log().last().is_error(),
            },
    {
        match result {
            Ok(reply) => {
                self.log.push(LogEntry::Executed { command: name.clone() });
                assert(self.log@.drop_last() =~= old(self).log@);
                Some(reply)
            },
            Err(error) => {
                self.log.push(LogEntry::Failed { command: name.clone(), error });
                assert(self.log@.drop_last() =~= old(self).log@);
                None
            },
        }
    }
}

} // verus!
