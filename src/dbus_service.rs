//! The command bridge: the protocol of the session-bus service, the claim of
//! its well-known name, the queue that carries commands to the GUI thread in
//! the order they were received, and what the GUI does with each command.

use crate::api::{lookup_display, DictionaryClient};
use crate::text::{chars_of, push_text};
use vstd::prelude::*;

verus! {

/// The well-known name that the one running instance owns on the session bus.
pub const DBUS_SERVICE_NAME: &'static str = "com.aynary.Dictionary";

/// The object path of the service.
pub const DBUS_OBJECT_PATH: &'static str = "/com/aynary/Dictionary";

/// The interface of the service's methods.
pub const DBUS_INTERFACE: &'static str = "com.aynary.Dictionary";

/// What another process asks the running instance to do.
#[derive(Debug, PartialEq, Eq)]
pub enum DbusCommand {
    LookupWord(String),
    ShowWindow,
    LookupAndShow(String),
}

impl Clone for DbusCommand {
    fn clone(&self) -> (r: Self)
        ensures
            r == *self,
    {
        match self {
            DbusCommand::LookupWord(w) => DbusCommand::LookupWord(w.clone()),
            DbusCommand::ShowWindow => DbusCommand::ShowWindow,
            DbusCommand::LookupAndShow(w) => DbusCommand::LookupAndShow(w.clone()),
        }
    }
}

/// Why an incoming method call was refused.
#[derive(Clone, Copy, Debug, PartialEq, Eq)]
pub enum CallError {
    /// The interface has no method of that name.
    UnknownMethod,
    /// The method exists but the arguments do not fit it.
    InvalidArgs,
}

/// The name of the bus method that carries `c`.
pub open spec fn method_of(c: DbusCommand) -> Seq<char> {
    match c {
        DbusCommand::LookupWord(_) => "LookupWord"@,
        DbusCommand::ShowWindow => "ShowWindow"@,
        DbusCommand::LookupAndShow(_) => "LookupAndShow"@,
    }
}

/// The string argument of the bus call that carries `c`, where it has one.
pub open spec fn argument_of(c: DbusCommand) -> Option<String> {
    match c {
        DbusCommand::LookupWord(w) => Some(w),
        DbusCommand::ShowWindow => None,
        DbusCommand::LookupAndShow(w) => Some(w),
    }
}

/// The command that a call of `member` with the string argument `arg` (or
/// none) asks for: the two lookups take exactly one string, `ShowWindow`
/// takes none, and any other name is unknown.
pub open spec fn decoded(member: Seq<char>, arg: Option<String>) -> Result<DbusCommand, CallError> {
    if member == "LookupWord"@ {
        match arg {
            Some(w) => Ok(DbusCommand::LookupWord(w)),
            None => Err(CallError::InvalidArgs),
        }
    } else if member == "ShowWindow"@ {
        match arg {
            Some(_) => Err(CallError::InvalidArgs),
            None => Ok(DbusCommand::ShowWindow),
        }
    } else if member == "LookupAndShow"@ {
        match arg {
            Some(w) => Ok(DbusCommand::LookupAndShow(w)),
            None => Err(CallError::InvalidArgs),
        }
    } else {
        Err(CallError::UnknownMethod)
    }
}

fn text_equal(a: &str, b: &str) -> (r: bool)
    ensures
        r == (a@ == b@),
{
    let x = chars_of(a);
    let y = chars_of(b);
    if x.len() != y.len() {
        return false;
    }
    let mut i: usize = 0;
    while i < x.len()
        invariant
            x@ == a@,
            y@ == b@,
            x.len() == y.len(),
            i <= x.len(),
            forall|k: int| 0 <= k < i ==> x@[k] == y@[k],
        decreases x.len() - i,
    {
        if x[i] != y[i] {
            return false;
        }
        i = i + 1;
    }
    assert(x@ =~= y@);
    true
}

/// The command that a call of `member` with the string argument `arg` asks
/// for, or why the call is refused.
pub fn decode_call(member: &str, arg: Option<String>) -> (r: Result<DbusCommand, CallError>)
    ensures
        r == decoded(member@, arg),
{
    if text_equal(member, "LookupWord") {
        match arg {
            Some(w) => Ok(DbusCommand::LookupWord(w)),
            None => Err(CallError::InvalidArgs),
        }
    } else if text_equal(member, "ShowWindow") {
        match arg {
            Some(_) => Err(CallError::InvalidArgs),
            None => Ok(DbusCommand::ShowWindow),
        }
    } else if text_equal(member, "LookupAndShow") {
        match arg {
            Some(w) => Ok(DbusCommand::LookupAndShow(w)),
            None => Err(CallError::InvalidArgs),
        }
    } else {
        Err(CallError::UnknownMethod)
    }
}

impl DbusCommand {
    /// The name of the bus method that carries this command.
    pub fn method_name(&self) -> (r: &'static str)
        ensures
            r@ == method_of(*self),
    {
        match self {
            DbusCommand::LookupWord(_) => "LookupWord",
            DbusCommand::ShowWindow => "ShowWindow",
            DbusCommand::LookupAndShow(_) => "LookupAndShow",
        }
    }

    /// The string argument of the bus call that carries this command.
    pub fn argument(&self) -> (r: Option<String>)
        ensures
            r == argument_of(*self),
    {
        match self {
            DbusCommand::LookupWord(w) => Some(w.clone()),
            DbusCommand::ShowWindow => None,
            DbusCommand::LookupAndShow(w) => Some(w.clone()),
        }
    }

    /// The text that the method returns to the caller: `LookupWord` answers
    /// with an acknowledgment, the others with nothing.
    pub fn reply_text(&self) -> (r: Option<String>)
        ensures
            self is LookupWord <==> r is Some,
            r matches Some(t) ==> t@ == "Lookup requested"@,
    {
        match self {
            DbusCommand::LookupWord(_) => {
                let mut s = String::new();
                push_text(&mut s, "Lookup requested");
                Some(s)
            },
            _ => None,
        }
    }
}

/// A call made with the method name and argument of a command asks for
/// that same command.
pub proof fn lemma_call_round_trip(c: DbusCommand)
    ensures
        decoded(method_of(c), argument_of(c)) == Ok::<DbusCommand, CallError>(c),
{
    reveal_strlit("LookupWord");
    reveal_strlit("ShowWindow");
    reveal_strlit("LookupAndShow");
    assert("ShowWindow"@[0] != "LookupWord"@[0]);
    assert("LookupAndShow"@.len() != "LookupWord"@.len());
    assert("LookupAndShow"@.len() != "ShowWindow"@.len());
}

/// What the bus answered to a request for the service's name.
#[derive(Clone, Copy, Debug, PartialEq, Eq)]
pub enum NameReply {
    /// This connection now owns the name.
    PrimaryOwner,
    /// Another connection owns the name; this one waits in its queue.
    InQueue,
    /// Another connection owns the name and this one was not queued.
    Exists,
    /// This connection already owned the name.
    AlreadyOwner,
}

/// Whether the bus answered that this connection owns the name.
pub open spec fn owns_name(reply: NameReply) -> bool {
    reply is PrimaryOwner || reply is AlreadyOwner
}

/// Where a bridge stands with respect to the service's name.
#[derive(Clone, Copy, Debug, PartialEq, Eq)]
pub enum BridgeState {
    /// The name has not been asked for yet.
    Unregistered,
    /// This bridge owns the name and serves calls.
    Registered,
    /// Another instance owns the name; this bridge serves nothing.
    NameTaken,
}

/// Why a bridge does not serve.
#[derive(Debug, PartialEq, Eq)]
pub enum BridgeError {
    /// Another instance already owns the service's name: the caller should
    /// hand its request to that instance.
    NameTaken,
    /// The bus could not be reached or refused the request.
    TransportError(String),
}

/// The state that a claim answered by `reply` leaves a bridge in.
pub open spec fn state_after_claim(reply: NameReply) -> BridgeState {
    if owns_name(reply) {
        BridgeState::Registered
    } else {
        BridgeState::NameTaken
    }
}

/// The commands queued after a call of `member` with the argument `arg`
/// reaches a queue holding `queue`: a call that decodes adds its command at
/// the end; a refused call adds nothing.
pub open spec fn after_call(queue: Seq<DbusCommand>, member: Seq<char>, arg: Option<String>) -> Seq<
    DbusCommand,
> {
    match decoded(member, arg) {
        Ok(c) => queue.push(c),
        Err(_) => queue,
    }
}

/// The commands queued after the calls `calls` (method name and argument,
/// in the order received) reach a queue holding `queue`: each call that
/// decodes adds its command at the end; a refused call adds nothing.
pub open spec fn queued_after(queue: Seq<DbusCommand>, calls: Seq<(Seq<char>, Option<String>)>) -> Seq<
    DbusCommand,
>
    decreases calls.len(),
{
    if calls.len() == 0 {
        queue
    } else {
        after_call(queued_after(queue, calls.drop_last()), calls.last().0, calls.last().1)
    }
}

/// The commands that the calls `calls` ask for, in order, refused calls
/// left out.
pub open spec fn commands_of(calls: Seq<(Seq<char>, Option<String>)>) -> Seq<DbusCommand>
    decreases calls.len(),
{
    if calls.len() == 0 {
        Seq::empty()
    } else {
        let rest = commands_of(calls.drop_last());
        match decoded(calls.last().0, calls.last().1) {
            Ok(c) => rest.push(c),
            Err(_) => rest,
        }
    }
}

/// The server side of the bridge: the claim of the service's name and the
/// queue of commands waiting for the GUI thread, which takes all of them at
/// each drain.
pub struct DictionaryService {
    state: BridgeState,
    queue: Vec<DbusCommand>,
}

impl DictionaryService {
    /// Where the bridge stands.
    pub closed spec fn status(&self) -> BridgeState {
        self.state
    }

    /// The commands received and not yet drained, oldest first.
    pub closed spec fn pending(&self) -> Seq<DbusCommand> {
        self.queue@
    }

    /// A bridge that has not asked for the name yet, with nothing queued.
    pub fn new() -> (r: Self)
        ensures
            r.status() == BridgeState::Unregistered,
            r.pending() == Seq::<DbusCommand>::empty(),
    {
        DictionaryService { state: BridgeState::Unregistered, queue: Vec::new() }
    }

    /// Where the bridge stands.
    pub fn state(&self) -> (r: BridgeState)
        ensures
            r == self.status(),
    {
        self.state
    }

    /// Records the bus's answer to the request for the service's name: the
    /// bridge serves only where this connection owns the name, and reports
    /// `NameTaken` where another instance does.
    pub fn claim(&mut self, reply: NameReply) -> (r: Result<(), BridgeError>)
        requires
            old(self).status() == BridgeState::Unregistered,
        ensures
            final(self).status() == state_after_claim(reply),
            owns_name(reply) <==> r is Ok,
            !owns_name(reply) ==> r == Err::<(), BridgeError>(BridgeError::NameTaken),
            final(self).pending() == old(self).pending(),
    {
        match reply {
            NameReply::PrimaryOwner | NameReply::AlreadyOwner => {
                self.state = BridgeState::Registered;
                Ok(())
            },
            NameReply::InQueue | NameReply::Exists => {
                self.state = BridgeState::NameTaken;
                Err(BridgeError::NameTaken)
            },
        }
    }

    /// Handles a method call of `member` with the string argument `arg`: a
    /// call that decodes queues its command behind those already waiting and
    /// is answered with the command's reply text; any other is refused and
    /// queues nothing.
    pub fn handle_call(&mut self, member: &str, arg: Option<String>) -> (r: Result<
        Option<String>,
        CallError,
    >)
        requires
            old(self).status() == BridgeState::Registered,
        ensures
            final(self).status() == old(self).status(),
            final(self).pending() == after_call(old(self).pending(), member@, arg),
            match decoded(member@, arg) {
                Ok(c) => r is Ok && (r->Ok_0 is Some <==> c is LookupWord),
                Err(e) => r == Err::<Option<String>, CallError>(e),
            },
    {
        match decode_call(member, arg) {
            Ok(c) => {
                let reply = c.reply_text();
                self.queue.push(c);
                Ok(reply)
            },
            Err(e) => Err(e),
        }
    }

    /// Takes every queued command, oldest first, and leaves the queue empty.
    pub fn drain(&mut self) -> (r: Vec<DbusCommand>)
        ensures
            r@ == old(self).pending(),
            final(self).pending() == Seq::<DbusCommand>::empty(),
            final(self).status() == old(self).status(),
    {
        let mut out: Vec<DbusCommand> = Vec::new();
        std::mem::swap(&mut out, &mut self.queue);
        out
    }
}

/// Commands leave the queue in the order their calls arrived: after any
/// calls with no drain between them, the queue holds what it held before
/// followed by the commands of the accepted calls, in arrival order.
pub proof fn lemma_commands_keep_arrival_order(
    queue: Seq<DbusCommand>,
    calls: Seq<(Seq<char>, Option<String>)>,
)
    ensures
        queued_after(queue, calls) == queue + commands_of(calls),
    decreases calls.len(),
{
    if calls.len() == 0 {
        assert(queue + commands_of(calls) =~= queue);
    } else {
        lemma_commands_keep_arrival_order(queue, calls.drop_last());
        let rest = commands_of(calls.drop_last());
        match decoded(calls.last().0, calls.last().1) {
            Ok(c) => {
                assert((queue + rest).push(c) =~= queue + rest.push(c));
            },
            Err(_) => {},
        }
    }
}

/// A bridge whose request for the name finds it owned by another instance
/// ends in `NameTaken` and never in `Registered`, the only state in which it
/// serves calls.
pub proof fn lemma_second_instance_name_taken(reply: NameReply)
    requires
        reply is InQueue || reply is Exists,
    ensures
        state_after_claim(reply) == BridgeState::NameTaken,
        state_after_claim(reply) != BridgeState::Registered,
{
}

/// What the GUI thread does for a command.
#[derive(Debug, PartialEq, Eq)]
pub enum ShellAction {
    /// Raise and focus the window.
    ShowWindow,
    /// Show the transient loading placeholder.
    SetLoading,
    /// Put this text in the definition area.
    SetDefinitionText(String),
}

/// The actions that carry out `cmd`, in order: a lookup shows the loading
/// placeholder and then what the lookup gives; `LookupAndShow` raises the
/// window first; `ShowWindow` only raises it.
pub fn plan_dispatch(client: &DictionaryClient, cmd: &DbusCommand) -> (r: Vec<ShellAction>)
    ensures
        match *cmd {
            DbusCommand::ShowWindow => r@ == seq![ShellAction::ShowWindow],
            DbusCommand::LookupWord(w) => {
                &&& r@.len() == 2
                &&& r@[0] is SetLoading
                &&& r@[1] is SetDefinitionText
                &&& r@[1]->SetDefinitionText_0@ == lookup_display(client.store(), w@)
            },
            DbusCommand::LookupAndShow(w) => {
                &&& r@.len() == 3
                &&& r@[0] is ShowWindow
                &&& r@[1] is SetLoading
                &&& r@[2] is SetDefinitionText
                &&& r@[2]->SetDefinitionText_0@ == lookup_display(client.store(), w@)
            },
        },
{
    let mut r: Vec<ShellAction> = Vec::new();
    match cmd {
        DbusCommand::ShowWindow => {
            r.push(ShellAction::ShowWindow);
        },
        DbusCommand::LookupWord(w) => {
            r.push(ShellAction::SetLoading);
            r.push(ShellAction::SetDefinitionText(client.lookup_text(w.as_str())));
        },
        DbusCommand::LookupAndShow(w) => {
            r.push(ShellAction::ShowWindow);
            r.push(ShellAction::SetLoading);
            r.push(ShellAction::SetDefinitionText(client.lookup_text(w.as_str())));
        },
    }
    r
}

} // verus!
