//! Request-intent vocabulary and public control protocol limits.
//!
//! These enums are the stable typed form of operator intent before a request is
//! serialized or applied to a supervisor.

use vstd::prelude::*;

use crate::supervisor::Generation;
use crate::text;
use crate::text::equal_ignoring_ascii_case;

verus! {

/// Current control-protocol version.
pub const PROTOCOL_VERSION: u8 = 1;

/// Hard upper bound for any request or response frame.
pub const MAX_FRAME_BYTES: usize = 65536;

/// Maximum idle time for one control-frame read or write, in seconds.
pub const CONTROL_IO_TIMEOUT: u64 = 5;

/// Default number of concurrently handled control connections.
pub const DEFAULT_MAX_CONTROL_CLIENTS: usize = 32;

/// Control operation accepted by a supervisor.
#[derive(Clone, Copy, Debug, PartialEq, Eq, Structural)]
pub enum Operation {
    /// Inspect status without mutation.
    Status,
    /// Set persistent desired state to Up.
    Start,
    /// Stop the process group and remain supervised Down.
    Stop,
    /// Stop, reap, and create a new generation.
    Restart,
    /// Run one generation and remain Down afterward.
    Once,
    /// Leave the service running and exit its supervisor.
    Exit,
    /// Stop the process group and exit its supervisor.
    Halt,
    /// Deliver the signal carried in the request.
    Signal,
}

impl Operation {
    /// Protocol number of each operation.
    pub open spec fn number(self) -> u8 {
        match self {
            Operation::Status => 1,
            Operation::Start => 2,
            Operation::Stop => 3,
            Operation::Restart => 4,
            Operation::Once => 5,
            Operation::Exit => 6,
            Operation::Halt => 7,
            Operation::Signal => 8,
        }
    }

    /// The operation with a protocol number.
    pub open spec fn numbered(code: u8) -> Option<Operation> {
        if code == 1 {
            Some(Operation::Status)
        } else if code == 2 {
            Some(Operation::Start)
        } else if code == 3 {
            Some(Operation::Stop)
        } else if code == 4 {
            Some(Operation::Restart)
        } else if code == 5 {
            Some(Operation::Once)
        } else if code == 6 {
            Some(Operation::Exit)
        } else if code == 7 {
            Some(Operation::Halt)
        } else if code == 8 {
            Some(Operation::Signal)
        } else {
            None
        }
    }

    /// Protocol number.
    #[must_use]
    pub fn code(self) -> (code: u8)
        ensures
            code == self.number(),
    {
        match self {
            Operation::Status => 1,
            Operation::Start => 2,
            Operation::Stop => 3,
            Operation::Restart => 4,
            Operation::Once => 5,
            Operation::Exit => 6,
            Operation::Halt => 7,
            Operation::Signal => 8,
        }
    }

    /// The operation with a protocol number.
    #[must_use]
    pub fn from_code(code: u8) -> (operation: Option<Self>)
        ensures
            operation == Operation::numbered(code),
    {
        match code {
            1 => Some(Operation::Status),
            2 => Some(Operation::Start),
            3 => Some(Operation::Stop),
            4 => Some(Operation::Restart),
            5 => Some(Operation::Once),
            6 => Some(Operation::Exit),
            7 => Some(Operation::Halt),
            8 => Some(Operation::Signal),
            _ => None,
        }
    }
}

/// Explicit target for raw signal delivery.
#[derive(Clone, Copy, Debug, PartialEq, Eq, Structural)]
pub enum SignalScope {
    /// Signal only the main child.
    Main,
    /// Signal the entire owned process group.
    Group,
}

impl Default for SignalScope {
    fn default() -> (scope: Self)
        ensures
            scope == SignalScope::Main,
    {
        SignalScope::Main
    }
}

impl SignalScope {
    /// Protocol number of each scope.
    pub open spec fn number(self) -> u8 {
        match self {
            SignalScope::Main => 1,
            SignalScope::Group => 2,
        }
    }

    /// The scope with a protocol number.
    pub open spec fn numbered(code: u8) -> Option<SignalScope> {
        if code == 1 {
            Some(SignalScope::Main)
        } else if code == 2 {
            Some(SignalScope::Group)
        } else {
            None
        }
    }

    /// Protocol number.
    #[must_use]
    pub fn code(self) -> (code: u8)
        ensures
            code == self.number(),
    {
        match self {
            SignalScope::Main => 1,
            SignalScope::Group => 2,
        }
    }

    /// The scope with a protocol number.
    #[must_use]
    pub fn from_code(code: u8) -> (scope: Option<Self>)
        ensures
            scope == SignalScope::numbered(code),
    {
        match code {
            1 => Some(SignalScope::Main),
            2 => Some(SignalScope::Group),
            _ => None,
        }
    }
}

/// Portable signal vocabulary exposed by `immortalctl`.
#[derive(Clone, Copy, Debug, PartialEq, Eq, Structural)]
pub enum Signal {
    /// `SIGUSR1` (`-1`).
    User1,
    /// `SIGUSR2` (`-2`).
    User2,
    /// `SIGALRM` (`-a`).
    Alarm,
    /// `SIGCONT` (`-c`).
    Continue,
    /// `SIGHUP` (`-h`).
    Hangup,
    /// `SIGINT` (`-i`).
    Interrupt,
    /// `SIGKILL` (`-k`).
    Kill,
    /// `SIGTTIN` (`-in`).
    TerminalInput,
    /// `SIGTTOU` (`-ou`).
    TerminalOutput,
    /// `SIGQUIT` (`-q`).
    Quit,
    /// `SIGSTOP` (`-s`).
    Stop,
    /// `SIGTERM` (`-t`).
    Terminate,
    /// `SIGWINCH` (`-w`).
    WindowChange,
}

impl Signal {
    /// Protocol number of each signal.
    pub open spec fn number(self) -> u8 {
        match self {
            Signal::User1 => 1,
            Signal::User2 => 2,
            Signal::Alarm => 3,
            Signal::Continue => 4,
            Signal::Hangup => 5,
            Signal::Interrupt => 6,
            Signal::Kill => 7,
            Signal::TerminalInput => 8,
            Signal::TerminalOutput => 9,
            Signal::Quit => 10,
            Signal::Stop => 11,
            Signal::Terminate => 12,
            Signal::WindowChange => 13,
        }
    }

    /// The signal with a protocol number.
    pub open spec fn numbered(code: u8) -> Option<Signal> {
        if code == 1 {
            Some(Signal::User1)
        } else if code == 2 {
            Some(Signal::User2)
        } else if code == 3 {
            Some(Signal::Alarm)
        } else if code == 4 {
            Some(Signal::Continue)
        } else if code == 5 {
            Some(Signal::Hangup)
        } else if code == 6 {
            Some(Signal::Interrupt)
        } else if code == 7 {
            Some(Signal::Kill)
        } else if code == 8 {
            Some(Signal::TerminalInput)
        } else if code == 9 {
            Some(Signal::TerminalOutput)
        } else if code == 10 {
            Some(Signal::Quit)
        } else if code == 11 {
            Some(Signal::Stop)
        } else if code == 12 {
            Some(Signal::Terminate)
        } else if code == 13 {
            Some(Signal::WindowChange)
        } else {
            None
        }
    }

    /// Stable lowercase spelling of each signal.
    pub open spec fn spelling(self) -> Seq<char> {
        match self {
            Signal::User1 => "usr1"@,
            Signal::User2 => "usr2"@,
            Signal::Alarm => "alrm"@,
            Signal::Continue => "cont"@,
            Signal::Hangup => "hup"@,
            Signal::Interrupt => "int"@,
            Signal::Kill => "kill"@,
            Signal::TerminalInput => "ttin"@,
            Signal::TerminalOutput => "ttou"@,
            Signal::Quit => "quit"@,
            Signal::Stop => "stop"@,
            Signal::Terminate => "term"@,
            Signal::WindowChange => "winch"@,
        }
    }

    /// Parse the stable case-insensitive command name.
    #[must_use]
    pub fn from_name(name: &str) -> (signal: Option<Self>)
        ensures
            match signal {
                Some(known) => text::lowered(name@) == known.spelling(),
                None => forall|known: Signal| text::lowered(name@) != #[trigger] known.spelling(),
            },
    {
        proof {
            lemma_spellings_are_lowercase();
        }
        if equal_ignoring_ascii_case(name, "usr1") {
            Some(Signal::User1)
        } else if equal_ignoring_ascii_case(name, "usr2") {
            Some(Signal::User2)
        } else if equal_ignoring_ascii_case(name, "alrm") {
            Some(Signal::Alarm)
        } else if equal_ignoring_ascii_case(name, "cont") {
            Some(Signal::Continue)
        } else if equal_ignoring_ascii_case(name, "hup") {
            Some(Signal::Hangup)
        } else if equal_ignoring_ascii_case(name, "int") {
            Some(Signal::Interrupt)
        } else if equal_ignoring_ascii_case(name, "kill") {
            Some(Signal::Kill)
        } else if equal_ignoring_ascii_case(name, "ttin") {
            Some(Signal::TerminalInput)
        } else if equal_ignoring_ascii_case(name, "ttou") {
            Some(Signal::TerminalOutput)
        } else if equal_ignoring_ascii_case(name, "quit") {
            Some(Signal::Quit)
        } else if equal_ignoring_ascii_case(name, "stop") {
            Some(Signal::Stop)
        } else if equal_ignoring_ascii_case(name, "term") {
            Some(Signal::Terminate)
        } else if equal_ignoring_ascii_case(name, "winch") {
            Some(Signal::WindowChange)
        } else {
            None
        }
    }

    /// Stable lowercase name used in diagnostics and structured output.
    #[must_use]
    pub fn name(self) -> (name: &'static str)
        ensures
            name@ == self.spelling(),
    {
        match self {
            Signal::User1 => "usr1",
            Signal::User2 => "usr2",
            Signal::Alarm => "alrm",
            Signal::Continue => "cont",
            Signal::Hangup => "hup",
            Signal::Interrupt => "int",
            Signal::Kill => "kill",
            Signal::TerminalInput => "ttin",
            Signal::TerminalOutput => "ttou",
            Signal::Quit => "quit",
            Signal::Stop => "stop",
            Signal::Terminate => "term",
            Signal::WindowChange => "winch",
        }
    }

    /// Protocol number.
    #[must_use]
    pub fn code(self) -> (code: u8)
        ensures
            code == self.number(),
    {
        match self {
            Signal::User1 => 1,
            Signal::User2 => 2,
            Signal::Alarm => 3,
            Signal::Continue => 4,
            Signal::Hangup => 5,
            Signal::Interrupt => 6,
            Signal::Kill => 7,
            Signal::TerminalInput => 8,
            Signal::TerminalOutput => 9,
            Signal::Quit => 10,
            Signal::Stop => 11,
            Signal::Terminate => 12,
            Signal::WindowChange => 13,
        }
    }

    /// The signal with a protocol number.
    #[must_use]
    pub fn from_code(code: u8) -> (signal: Option<Self>)
        ensures
            signal == Signal::numbered(code),
    {
        match code {
            1 => Some(Signal::User1),
            2 => Some(Signal::User2),
            3 => Some(Signal::Alarm),
            4 => Some(Signal::Continue),
            5 => Some(Signal::Hangup),
            6 => Some(Signal::Interrupt),
            7 => Some(Signal::Kill),
            8 => Some(Signal::TerminalInput),
            9 => Some(Signal::TerminalOutput),
            10 => Some(Signal::Quit),
            11 => Some(Signal::Stop),
            12 => Some(Signal::Terminate),
            13 => Some(Signal::WindowChange),
            _ => None,
        }
    }
}

/// Optimistic-concurrency condition attached to a request.
#[derive(Clone, Copy, Debug, PartialEq, Eq, Structural)]
pub enum GenerationMatch {
    /// Do not compare child generation. Reserved for read-only status requests.
    Any,
    /// Require that the supervisor currently has no child generation.
    NoChild,
    /// Require one exact live or transitioning generation.
    Exact(Generation),
}

impl Default for GenerationMatch {
    fn default() -> (condition: Self)
        ensures
            condition == GenerationMatch::Any,
    {
        GenerationMatch::Any
    }
}

impl GenerationMatch {
    /// Protocol number of a condition.
    pub open spec fn number(self) -> u64 {
        match self {
            GenerationMatch::Any => 0,
            GenerationMatch::NoChild => u64::MAX,
            GenerationMatch::Exact(generation) => generation.number(),
        }
    }

    /// The condition with a protocol number.
    pub open spec fn numbered(value: u64) -> GenerationMatch {
        if value == 0 {
            GenerationMatch::Any
        } else if value == u64::MAX {
            GenerationMatch::NoChild
        } else {
            GenerationMatch::Exact(Generation::of(value))
        }
    }

    /// Whether the condition admits the current generation.
    pub open spec fn admits(self, current: Option<Generation>) -> bool {
        match self {
            GenerationMatch::Any => true,
            GenerationMatch::NoChild => current is None,
            GenerationMatch::Exact(expected) => current == Some(expected),
        }
    }

    /// Protocol number.
    #[must_use]
    pub fn encode(self) -> (value: u64)
        ensures
            value == self.number(),
    {
        match self {
            GenerationMatch::Any => 0,
            GenerationMatch::NoChild => u64::MAX,
            GenerationMatch::Exact(generation) => generation.get(),
        }
    }

    /// The condition with a protocol number.
    #[must_use]
    pub fn decode(value: u64) -> (condition: Self)
        ensures
            condition == GenerationMatch::numbered(value),
    {
        if value == 0 {
            GenerationMatch::Any
        } else if value == u64::MAX {
            GenerationMatch::NoChild
        } else {
            GenerationMatch::Exact(Generation::from_protocol(value))
        }
    }

    /// Whether this condition matches the supervisor's current generation.
    #[must_use]
    pub fn matches(self, current: Option<Generation>) -> (admitted: bool)
        ensures
            admitted == self.admits(current),
    {
        match (self, current) {
            (GenerationMatch::Any, _) | (GenerationMatch::NoChild, None) => true,
            (GenerationMatch::Exact(expected), Some(actual)) => expected == actual,
            (GenerationMatch::NoChild, Some(_)) | (GenerationMatch::Exact(_), None) => false,
        }
    }
}

/// Every operation, scope, and signal is recovered from its protocol number.
pub proof fn codes_round_trip(operation: Operation, scope: SignalScope, signal: Signal)
    ensures
        Operation::numbered(operation.number()) == Some(operation),
        SignalScope::numbered(scope.number()) == Some(scope),
        Signal::numbered(signal.number()) == Some(signal),
        signal.number() != 0,
{
}

/// Every protocol number which names an operation, scope, or signal is that
/// name's own number.
pub proof fn numbers_round_trip(code: u8)
    ensures
        Operation::numbered(code) matches Some(operation) ==> operation.number() == code,
        SignalScope::numbered(code) matches Some(scope) ==> scope.number() == code,
        Signal::numbered(code) matches Some(signal) ==> signal.number() == code,
{
}

/// Signal spellings hold no uppercase letter.
pub proof fn lemma_spellings_are_lowercase()
    ensures
        forall|signal: Signal| text::lowered(#[trigger] signal.spelling()) == signal.spelling(),
{
    lemma_reveal_spellings();
    assert forall|signal: Signal| text::lowered(#[trigger] signal.spelling()) == signal.spelling() by {
        assert(text::lowered(signal.spelling()) =~= signal.spelling());
    }
}

/// Characters of every signal spelling.
proof fn lemma_reveal_spellings()
    ensures
        "usr1"@ == seq!['u', 's', 'r', '1'],
        "usr2"@ == seq!['u', 's', 'r', '2'],
        "alrm"@ == seq!['a', 'l', 'r', 'm'],
        "cont"@ == seq!['c', 'o', 'n', 't'],
        "hup"@ == seq!['h', 'u', 'p'],
        "int"@ == seq!['i', 'n', 't'],
        "kill"@ == seq!['k', 'i', 'l', 'l'],
        "ttin"@ == seq!['t', 't', 'i', 'n'],
        "ttou"@ == seq!['t', 't', 'o', 'u'],
        "quit"@ == seq!['q', 'u', 'i', 't'],
        "stop"@ == seq!['s', 't', 'o', 'p'],
        "term"@ == seq!['t', 'e', 'r', 'm'],
        "winch"@ == seq!['w', 'i', 'n', 'c', 'h'],
{
    reveal_strlit("usr1");
    reveal_strlit("usr2");
    reveal_strlit("alrm");
    reveal_strlit("cont");
    reveal_strlit("hup");
    reveal_strlit("int");
    reveal_strlit("kill");
    reveal_strlit("ttin");
    reveal_strlit("ttou");
    reveal_strlit("quit");
    reveal_strlit("stop");
    reveal_strlit("term");
    reveal_strlit("winch");
    assert("usr1"@ =~= seq!['u', 's', 'r', '1']);
    assert("usr2"@ =~= seq!['u', 's', 'r', '2']);
    assert("alrm"@ =~= seq!['a', 'l', 'r', 'm']);
    assert("cont"@ =~= seq!['c', 'o', 'n', 't']);
    assert("hup"@ =~= seq!['h', 'u', 'p']);
    assert("int"@ =~= seq!['i', 'n', 't']);
    assert("kill"@ =~= seq!['k', 'i', 'l', 'l']);
    assert("ttin"@ =~= seq!['t', 't', 'i', 'n']);
    assert("ttou"@ =~= seq!['t', 't', 'o', 'u']);
    assert("quit"@ =~= seq!['q', 'u', 'i', 't']);
    assert("stop"@ =~= seq!['s', 't', 'o', 'p']);
    assert("term"@ =~= seq!['t', 'e', 'r', 'm']);
    assert("winch"@ =~= seq!['w', 'i', 'n', 'c', 'h']);
}

/// A signal is recovered from any spelling which differs from its name at most
/// in letter case, and from no other.
pub proof fn signal_names_round_trip(name: Seq<char>, left: Signal, right: Signal)
    requires
        text::lowered(name) == left.spelling(),
        text::lowered(name) == right.spelling(),
    ensures
        left == right,
{
    lemma_reveal_spellings();
    let spelled = left.spelling();
    assert(spelled[0] == right.spelling()[0]);
    assert(spelled[1] == right.spelling()[1]);
    assert(spelled[2] == right.spelling()[2]);
    if spelled.len() > 3 {
        assert(spelled[3] == right.spelling()[3]);
    }
}

/// Operations in protocol order.
pub open spec fn operations() -> Seq<Operation> {
    seq![
        Operation::Status,
        Operation::Start,
        Operation::Stop,
        Operation::Restart,
        Operation::Once,
        Operation::Exit,
        Operation::Halt,
        Operation::Signal,
    ]
}

/// Signals in protocol order.
pub open spec fn signals() -> Seq<Signal> {
    seq![
        Signal::User1,
        Signal::User2,
        Signal::Alarm,
        Signal::Continue,
        Signal::Hangup,
        Signal::Interrupt,
        Signal::Kill,
        Signal::TerminalInput,
        Signal::TerminalOutput,
        Signal::Quit,
        Signal::Stop,
        Signal::Terminate,
        Signal::WindowChange,
    ]
}

/// Protocol numbers count from one in protocol order, and no other number is known.
pub proof fn codes_count_from_one(index: int, code: u8)
    ensures
        0 <= index < operations().len() ==> operations()[index].number() == index + 1,
        0 <= index < signals().len() ==> signals()[index].number() == index + 1,
        SignalScope::Main.number() == 1,
        SignalScope::Group.number() == 2,
        Operation::numbered(code) is Some <==> 1 <= code <= operations().len(),
        Signal::numbered(code) is Some <==> 1 <= code <= signals().len(),
        SignalScope::numbered(code) is Some <==> 1 <= code <= 2,
{
}

/// A condition admits a generation exactly when it asks for nothing, asks for no child
/// and there is none, or asks for that generation; only the first admits everything.
pub proof fn conditions_compare_generations(
    condition: GenerationMatch,
    generation: Generation,
    other: Generation,
)
    requires
        generation != other,
    ensures
        condition.admits(None) && condition.admits(Some(generation)) <==> condition
            == GenerationMatch::Any,
        condition.admits(Some(generation)) && condition.admits(Some(other)) ==> condition
            == GenerationMatch::Any,
        condition.admits(None) ==> !(condition is Exact),
        GenerationMatch::Exact(generation).admits(Some(generation)),
        GenerationMatch::NoChild.admits(None),
{
}

} // verus!
