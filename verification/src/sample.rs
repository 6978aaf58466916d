//! Two small descriptor sets: a bare ping command, and an echo command that
//! declares options.
//!
//! They serve as reference implementations of the descriptor contract —
//! every law of `DiscordCommandDescriptor` is proved for both — and as the
//! fixtures the integration tests drive.

use vstd::prelude::*;

use crate::cmd::{
    wire_models, CommandTreeTop, DiscordCommandDescriptor, Invocation, RawCommandOptionEntry,
    RequestError,
};
use crate::payload::{OptModel, OptionKind};

verus! {

/// The closed set of commands: just a ping.
#[derive(Clone, Copy, Debug, PartialEq, Eq, Hash)]
pub enum TestRequestKind {
    Ping,
}

/// The typed arguments a ping invocation parses into.
#[derive(Debug)]
pub enum TestRequestArgs {
    Ping,
}

impl DiscordCommandDescriptor for TestRequestKind {
    type Args = TestRequestArgs;

    open spec fn spec_id(self) -> int {
        0
    }

    open spec fn spec_count() -> int {
        1
    }

    open spec fn spec_variants() -> Seq<TestRequestKind> {
        seq![TestRequestKind::Ping]
    }

    open spec fn spec_name(self) -> Seq<char> {
        "ping"@
    }

    open spec fn spec_description(self) -> Seq<char> {
        "Ping!"@
    }

    open spec fn spec_options(self) -> Seq<OptModel> {
        Seq::empty()
    }

    open spec fn spec_parse(inv: Invocation) -> Option<TestRequestArgs> {
        if inv.command_name@ == "ping"@ {
            Some(TestRequestArgs::Ping)
        } else {
            None
        }
    }

    proof fn lemma_registry() {
        assert forall|v: TestRequestKind| Self::spec_variants().contains(v) by {
            assert(Self::spec_variants()[0] == v);
        }
    }

    proof fn lemma_descriptions_bounded() {
        reveal_strlit("Ping!");
        assert(Self::spec_variants()[0].spec_description().len() == 5);
    }

    fn id(&self) -> (r: usize)
        ensures
            r as int == self.spec_id(),
    {
        0
    }

    fn count() -> (r: usize)
        ensures
            r as int == Self::spec_count(),
    {
        1
    }

    fn all_variants() -> (r: Vec<TestRequestKind>)
        ensures
            r@ == Self::spec_variants(),
    {
        let mut v: Vec<TestRequestKind> = Vec::new();
        v.push(TestRequestKind::Ping);
        proof {
            assert(v@ =~= seq![TestRequestKind::Ping]);
        }
        v
    }

    fn name(&self) -> (r: &'static str)
        ensures
            r@ == self.spec_name(),
    {
        match self {
            TestRequestKind::Ping => "ping",
        }
    }

    fn description(&self) -> (r: &'static str)
        ensures
            r@ == self.spec_description(),
    {
        match self {
            TestRequestKind::Ping => "Ping!",
        }
    }

    fn options(&self) -> (r: Vec<RawCommandOptionEntry>)
        ensures
            crate::cmd::wire_models(r@) == self.spec_options(),
    {
        let r: Vec<RawCommandOptionEntry> = Vec::new();
        proof {
            assert(crate::cmd::wire_models(r@) =~= Seq::<OptModel>::empty());
        }
        r
    }

    fn parse(inv: &Invocation) -> (r: Result<TestRequestArgs, RequestError>)
        ensures
            (match (r, Self::spec_parse(*inv)) {
                (Ok(a), Some(b)) => a == b,
                (Err(_), None) => true,
                _ => false,
            }),
            (forall|i: int|
                0 <= i < Self::spec_variants().len() ==> (
                #[trigger] Self::spec_variants()[i]).spec_name() != inv.command_name@) ==> (
            r matches Err(e) && e is Internal),
    {
        let ping = "ping".to_string();
        if inv.command_name == ping {
            proof {
                assert(Self::spec_variants()[0].spec_name() == inv.command_name@);
            }
            Ok(TestRequestArgs::Ping)
        } else {
            Err(RequestError::Internal("Unknown command.".to_string()))
        }
    }
}

/// A second closed set: one echo command that declares options.
#[derive(Clone, Copy, Debug, PartialEq, Eq, Hash)]
pub enum EchoRequestKind {
    Echo,
}

/// The typed arguments an echo invocation parses into.
#[derive(Debug)]
pub enum EchoRequestArgs {
    Echo,
}

impl EchoRequestKind {
    /// The option schemas the echo command declares, in declaration order: a
    /// required line of text, then an optional closed choice of voice.
    pub open spec fn echo_options() -> Seq<OptModel> {
        seq![
            OptModel {
                kind: OptionKind::String,
                name: "line"@,
                description: "What to repeat."@,
                required: true,
                choices: Seq::empty(),
            },
            OptModel {
                kind: OptionKind::String,
                name: "voice"@,
                description: "How to say it."@,
                required: false,
                choices: seq![("Plain"@, "plain"@), ("Loud"@, "loud"@)],
            },
        ]
    }
}

impl DiscordCommandDescriptor for EchoRequestKind {
    type Args = EchoRequestArgs;

    open spec fn spec_id(self) -> int {
        0
    }

    open spec fn spec_count() -> int {
        1
    }

    open spec fn spec_variants() -> Seq<EchoRequestKind> {
        seq![EchoRequestKind::Echo]
    }

    open spec fn spec_name(self) -> Seq<char> {
        "echo"@
    }

    open spec fn spec_description(self) -> Seq<char> {
        "Repeat a line back."@
    }

    open spec fn spec_options(self) -> Seq<OptModel> {
        EchoRequestKind::echo_options()
    }

    open spec fn spec_parse(inv: Invocation) -> Option<EchoRequestArgs> {
        if inv.command_name@ == "echo"@ {
            Some(EchoRequestArgs::Echo)
        } else {
            None
        }
    }

    proof fn lemma_registry() {
        assert forall|v: EchoRequestKind| Self::spec_variants().contains(v) by {
            assert(Self::spec_variants()[0] == v);
        }
    }

    proof fn lemma_descriptions_bounded() {
        reveal_strlit("Repeat a line back.");
        reveal_strlit("What to repeat.");
        reveal_strlit("How to say it.");
        assert(Self::spec_variants()[0].spec_description().len() == 19);
        assert(Self::spec_variants()[0].spec_options()[0].description.len() == 15);
        assert(Self::spec_variants()[0].spec_options()[1].description.len() == 14);
    }

    fn id(&self) -> (r: usize)
        ensures
            r as int == self.spec_id(),
    {
        0
    }

    fn count() -> (r: usize)
        ensures
            r as int == Self::spec_count(),
    {
        1
    }

    fn all_variants() -> (r: Vec<EchoRequestKind>)
        ensures
            r@ == Self::spec_variants(),
    {
        let mut v: Vec<EchoRequestKind> = Vec::new();
        v.push(EchoRequestKind::Echo);
        proof {
            assert(v@ =~= seq![EchoRequestKind::Echo]);
        }
        v
    }

    fn name(&self) -> (r: &'static str)
        ensures
            r@ == self.spec_name(),
    {
        match self {
            EchoRequestKind::Echo => "echo",
        }
    }

    fn description(&self) -> (r: &'static str)
        ensures
            r@ == self.spec_description(),
    {
        match self {
            EchoRequestKind::Echo => "Repeat a line back.",
        }
    }

    fn options(&self) -> (r: Vec<RawCommandOptionEntry>)
        ensures
            wire_models(r@) == self.spec_options(),
    {
        let mut r: Vec<RawCommandOptionEntry> = Vec::new();
        r.push(RawCommandOptionEntry::String {
            name: "line",
            description: "What to repeat.",
            required: true,
        });
        let mut choices: Vec<(&'static str, &'static str)> = Vec::new();
        choices.push(("Plain", "plain"));
        choices.push(("Loud", "loud"));
        r.push(RawCommandOptionEntry::StringSelect {
            name: "voice",
            description: "How to say it.",
            choices,
            required: false,
        });
        proof {
            assert(wire_models(r@) =~~= self.spec_options());
        }
        r
    }

    fn parse(inv: &Invocation) -> (r: Result<EchoRequestArgs, RequestError>)
        ensures
            (match (r, Self::spec_parse(*inv)) {
                (Ok(a), Some(b)) => a == b,
                (Err(_), None) => true,
                _ => false,
            }),
            (forall|i: int|
                0 <= i < Self::spec_variants().len() ==> (
                #[trigger] Self::spec_variants()[i]).spec_name() != inv.command_name@) ==> (
            r matches Err(e) && e is Internal),
    {
        let echo = "echo".to_string();
        if inv.command_name == echo {
            proof {
                assert(Self::spec_variants()[0].spec_name() == inv.command_name@);
            }
            Ok(EchoRequestArgs::Echo)
        } else {
            Err(RequestError::Internal("Unknown command.".to_string()))
        }
    }
}

/// The complete command forest of this set: the ping command registered as a
/// naked chat-input command with no permission gate.
pub fn generate_command_descriptions() -> (r: Vec<CommandTreeTop<TestRequestKind>>)
    ensures
        r@ =~= seq![CommandTreeTop::<TestRequestKind>::NakedChatInput(TestRequestKind::Ping, None)],
{
    let mut v: Vec<CommandTreeTop<TestRequestKind>> = Vec::new();
    v.push(CommandTreeTop::NakedChatInput(TestRequestKind::Ping, None));
    proof {
        assert(v@ =~= seq![
            CommandTreeTop::<TestRequestKind>::NakedChatInput(TestRequestKind::Ping, None),
        ]);
    }
    v
}

} // verus!
