//! The command-descriptor contract, the option-schema model, the command-tree
//! assembly algorithm and the request/error types.
//!
//! A descriptor set is a closed, countable enumeration of command variants.
//! `CommandTreeTop` arranges descriptors into one of five top-level
//! registration shapes, and `into_discord_command` converts one shape into the
//! platform's registration payload, preserving caller-given order throughout.

use vstd::prelude::*;

use crate::discord::MessageContent;
use crate::payload::{
    choices_model, entry_models, opt_models, sub_models, CommandKind, CommandModel,
    CommandPayload, EntryModel, GroupModel, GroupPayload, OptModel, OptionKind, OptionPayload,
    PayloadEntry, SubCommandPayload, SubModel,
};

verus! {

/// The schema of one argument of a command: kind, name, description,
/// required flag, and (string selects only) an ordered closed choice list.
#[derive(Clone, Debug, PartialEq, Eq)]
pub enum RawCommandOptionEntry {
    Integer {
        name: &'static str,
        description: &'static str,
        required: bool,
    },
    Number {
        name: &'static str,
        description: &'static str,
        required: bool,
    },
    Boolean {
        name: &'static str,
        description: &'static str,
        required: bool,
    },
    String {
        name: &'static str,
        description: &'static str,
        required: bool,
    },
    User {
        name: &'static str,
        description: &'static str,
        required: bool,
    },
    Channel {
        name: &'static str,
        description: &'static str,
        required: bool,
    },
    Attachment {
        name: &'static str,
        description: &'static str,
        required: bool,
    },
    StringSelect {
        name: &'static str,
        description: &'static str,
        /// Ordered (label, value) pairs presented to the invoker.
        choices: Vec<(&'static str, &'static str)>,
        required: bool,
    },
}

impl RawCommandOptionEntry {
    /// The platform option kind this entry registers as; a string select is
    /// registered as a plain string option whose values come from the choice
    /// list.
    pub open spec fn spec_kind(self) -> OptionKind {
        match self {
            RawCommandOptionEntry::Integer { .. } => OptionKind::Integer,
            RawCommandOptionEntry::Number { .. } => OptionKind::Number,
            RawCommandOptionEntry::Boolean { .. } => OptionKind::Boolean,
            RawCommandOptionEntry::String { .. } => OptionKind::String,
            RawCommandOptionEntry::User { .. } => OptionKind::User,
            RawCommandOptionEntry::Channel { .. } => OptionKind::Channel,
            RawCommandOptionEntry::Attachment { .. } => OptionKind::Attachment,
            RawCommandOptionEntry::StringSelect { .. } => OptionKind::String,
        }
    }

    pub open spec fn spec_name(self) -> Seq<char> {
        match self {
            RawCommandOptionEntry::Integer { name, .. } => name@,
            RawCommandOptionEntry::Number { name, .. } => name@,
            RawCommandOptionEntry::Boolean { name, .. } => name@,
            RawCommandOptionEntry::String { name, .. } => name@,
            RawCommandOptionEntry::User { name, .. } => name@,
            RawCommandOptionEntry::Channel { name, .. } => name@,
            RawCommandOptionEntry::Attachment { name, .. } => name@,
            RawCommandOptionEntry::StringSelect { name, .. } => name@,
        }
    }

    pub open spec fn spec_description(self) -> Seq<char> {
        match self {
            RawCommandOptionEntry::Integer { description, .. } => description@,
            RawCommandOptionEntry::Number { description, .. } => description@,
            RawCommandOptionEntry::Boolean { description, .. } => description@,
            RawCommandOptionEntry::String { description, .. } => description@,
            RawCommandOptionEntry::User { description, .. } => description@,
            RawCommandOptionEntry::Channel { description, .. } => description@,
            RawCommandOptionEntry::Attachment { description, .. } => description@,
            RawCommandOptionEntry::StringSelect { description, .. } => description@,
        }
    }

    pub open spec fn spec_required(self) -> bool {
        match self {
            RawCommandOptionEntry::Integer { required, .. } => required,
            RawCommandOptionEntry::Number { required, .. } => required,
            RawCommandOptionEntry::Boolean { required, .. } => required,
            RawCommandOptionEntry::String { required, .. } => required,
            RawCommandOptionEntry::User { required, .. } => required,
            RawCommandOptionEntry::Channel { required, .. } => required,
            RawCommandOptionEntry::Attachment { required, .. } => required,
            RawCommandOptionEntry::StringSelect { required, .. } => required,
        }
    }

    /// The choice list carried on the wire: the string-select pairs in the
    /// order given, and empty for every other kind.
    pub open spec fn spec_choices(self) -> Seq<(Seq<char>, Seq<char>)> {
        match self {
            RawCommandOptionEntry::StringSelect { choices, .. } => choices_model(choices@),
            _ => Seq::empty(),
        }
    }

    /// What this entry looks like as one wire option.
    pub open spec fn wire_model(self) -> OptModel {
        OptModel {
            kind: self.spec_kind(),
            name: self.spec_name(),
            description: self.spec_description(),
            required: self.spec_required(),
            choices: self.spec_choices(),
        }
    }

    pub fn kind(&self) -> (r: OptionKind)
        ensures
            r == self.spec_kind(),
    {
        match self {
            RawCommandOptionEntry::Integer { .. } => OptionKind::Integer,
            RawCommandOptionEntry::Number { .. } => OptionKind::Number,
            RawCommandOptionEntry::Boolean { .. } => OptionKind::Boolean,
            RawCommandOptionEntry::String { .. } => OptionKind::String,
            RawCommandOptionEntry::User { .. } => OptionKind::User,
            RawCommandOptionEntry::Channel { .. } => OptionKind::Channel,
            RawCommandOptionEntry::Attachment { .. } => OptionKind::Attachment,
            RawCommandOptionEntry::StringSelect { .. } => OptionKind::String,
        }
    }

    pub fn name(&self) -> (r: &'static str)
        ensures
            r@ == self.spec_name(),
    {
        match self {
            RawCommandOptionEntry::Integer { name, .. } => name,
            RawCommandOptionEntry::Number { name, .. } => name,
            RawCommandOptionEntry::Boolean { name, .. } => name,
            RawCommandOptionEntry::String { name, .. } => name,
            RawCommandOptionEntry::User { name, .. } => name,
            RawCommandOptionEntry::Channel { name, .. } => name,
            RawCommandOptionEntry::Attachment { name, .. } => name,
            RawCommandOptionEntry::StringSelect { name, .. } => name,
        }
    }

    pub fn required(&self) -> (r: bool)
        ensures
            r == self.spec_required(),
    {
        match self {
            RawCommandOptionEntry::Integer { required, .. } => *required,
            RawCommandOptionEntry::Number { required, .. } => *required,
            RawCommandOptionEntry::Boolean { required, .. } => *required,
            RawCommandOptionEntry::String { required, .. } => *required,
            RawCommandOptionEntry::User { required, .. } => *required,
            RawCommandOptionEntry::Channel { required, .. } => *required,
            RawCommandOptionEntry::Attachment { required, .. } => *required,
            RawCommandOptionEntry::StringSelect { required, .. } => *required,
        }
    }

    pub fn description(&self) -> (r: &'static str)
        ensures
            r@ == self.spec_description(),
    {
        match self {
            RawCommandOptionEntry::Integer { description, .. } => description,
            RawCommandOptionEntry::Number { description, .. } => description,
            RawCommandOptionEntry::Boolean { description, .. } => description,
            RawCommandOptionEntry::String { description, .. } => description,
            RawCommandOptionEntry::User { description, .. } => description,
            RawCommandOptionEntry::Channel { description, .. } => description,
            RawCommandOptionEntry::Attachment { description, .. } => description,
            RawCommandOptionEntry::StringSelect { description, .. } => description,
        }
    }

    /// Convert this entry to its wire option, attaching the choice list only
    /// for string selects.
    pub fn to_option(&self) -> (r: OptionPayload)
        ensures
            r@ == self.wire_model(),
    {
        let choices: Vec<(&'static str, &'static str)> = match self {
            RawCommandOptionEntry::StringSelect { choices, .. } => copy_choices(choices),
            _ => Vec::new(),
        };
        let r = OptionPayload {
            kind: self.kind(),
            name: self.name(),
            description: self.description(),
            required: self.required(),
            choices,
        };
        proof {
            assert(r@.choices =~= self.spec_choices());
            assert(r@ =~= self.wire_model());
        }
        r
    }
}

/// Copy a choice list element by element.
fn copy_choices(choices: &Vec<(&'static str, &'static str)>) -> (r: Vec<(&'static str, &'static str)>)
    ensures
        r@ == choices@,
{
    let mut out: Vec<(&'static str, &'static str)> = Vec::new();
    let mut i: usize = 0;
    while i < choices.len()
        invariant
            i <= choices.len(),
            out@ == choices@.subrange(0, i as int),
        decreases choices.len() - i,
    {
        out.push(choices[i]);
        proof {
            assert(out@ =~= choices@.subrange(0, i + 1 as int));
        }
        i = i + 1;
    }
    proof {
        assert(out@ =~= choices@);
    }
    out
}

/// A parsed-out view of one inbound invocation. Of the platform's opaque
/// interaction structure, only the top-level command name, the
/// subcommand-path names and the named option values are ever read; the
/// hosting binary extracts them into this shape before dispatch.
pub struct Invocation {
    pub command_name: String,
    /// Subcommand-group and subcommand names, outermost first, when present.
    pub sub_names: Vec<String>,
    /// Named option values, in the order the platform delivered them.
    pub options: Vec<(String, OptionValue)>,
}

/// One typed option value of an invocation. A `Number` value is carried as
/// the decimal text the platform delivered, so that no inexact numeric type
/// enters the model; descriptors parse it as they see fit.
pub enum OptionValue {
    Integer(i64),
    Number(String),
    Boolean(bool),
    Text(String),
    User(u64),
    Channel(u64),
    Attachment(u64),
}

/// A failure while handling one invocation. `User` failures are
/// invoker-caused and their reason is shown verbatim; `Internal` failures are
/// never shown to the invoker beyond a fixed fallback line. Both carry a
/// human-readable reason for logging.
#[derive(Debug)]
pub enum RequestError {
    User(String),
    Internal(String),
}

/// Severity of the log line written for a failure: a warning for
/// invoker-caused failures, an error for internal ones.
#[derive(Clone, Copy, Debug, PartialEq, Eq)]
pub enum LogSeverity {
    Warning,
    Error,
}

/// Everything that reporting one failure amounts to: one log line at a
/// severity keyed to the error kind, and one mention-restricted reply to the
/// invoker.
pub struct ErrorReport {
    pub severity: LogSeverity,
    pub log_reason: String,
    pub reply: MessageContent,
}

impl RequestError {
    /// The reason carried for logging, regardless of kind.
    pub open spec fn spec_reason(self) -> Seq<char> {
        match self {
            RequestError::User(reason) => reason@,
            RequestError::Internal(reason) => reason@,
        }
    }

    /// The fixed, non-leaking reply text for internal failures.
    pub open spec fn internal_fallback_text() -> Seq<char> {
        "Something broke! Please contact a mod for help."@
    }

    /// Decide how this failure is reported: log severity, log text, and the
    /// reply to send. A user-caused failure is echoed verbatim; an internal
    /// failure is redacted to the fixed fallback line. The reply always
    /// restricts mention expansion to the invoking user.
    pub fn report(self) -> (r: ErrorReport)
        ensures
            r.severity == (if self is User { LogSeverity::Warning } else { LogSeverity::Error }),
            r.log_reason@ == self.spec_reason(),
            self matches RequestError::User(reason) ==> (r.reply matches
                MessageContent::SimpleRestrictedMention(t) && t@ == reason@),
            self is Internal ==> (r.reply matches MessageContent::SimpleRestrictedMention(t)
                && t@ == Self::internal_fallback_text()),
    {
        match self {
            RequestError::User(reason) => {
                let log_reason = reason.clone();
                ErrorReport {
                    severity: LogSeverity::Warning,
                    log_reason,
                    reply: MessageContent::SimpleRestrictedMention(reason),
                }
            },
            RequestError::Internal(reason) => ErrorReport {
                severity: LogSeverity::Error,
                log_reason: reason,
                reply: MessageContent::SimpleRestrictedMention(
                    "Something broke! Please contact a mod for help.".to_string(),
                ),
            },
        }
    }
}

/// The wire models of a sequence of option entries, in order.
pub open spec fn wire_models(s: Seq<RawCommandOptionEntry>) -> Seq<OptModel> {
    s.map_values(|o: RawCommandOptionEntry| o.wire_model())
}

/// Whether some variant of the descriptor set declares `name` as its
/// top-level command name.
pub open spec fn known_top_name<R: DiscordCommandDescriptor>(name: Seq<char>) -> bool {
    exists|i: int|
        0 <= i < R::spec_variants().len() && (#[trigger] R::spec_variants()[i]).spec_name() == name
}

/// The contract one descriptor set satisfies: a closed, countable enumeration
/// of command variants, each mapping deterministically to a name, a
/// description, an ordered option list and a parse function.
///
/// The registry (`spec_variants` / `all_variants`) is the hand-maintained
/// closed list of variants; `lemma_registry` obliges every implementation to
/// prove that the list is complete and indexed by `spec_id`, which is what
/// makes the command surface's exhaustiveness checkable.
pub trait DiscordCommandDescriptor: Sized + Copy + Send + Sync + 'static {
    /// The typed arguments this descriptor set parses an invocation into.
    type Args;

    /// The position of this variant in the registry.
    spec fn spec_id(self) -> int;

    /// The number of variants of the set.
    spec fn spec_count() -> int;

    /// The closed registry listing every variant exactly once.
    spec fn spec_variants() -> Seq<Self>;

    /// The top-level command name of this variant.
    spec fn spec_name(self) -> Seq<char>;

    /// The description of this variant.
    spec fn spec_description(self) -> Seq<char>;

    /// The wire models of this variant's options, in declaration order.
    spec fn spec_options(self) -> Seq<OptModel>;

    /// Which arguments, if any, an invocation parses into. `None` means the
    /// parse fails; which error kind it fails with is a per-descriptor
    /// decision.
    spec fn spec_parse(inv: Invocation) -> Option<Self::Args>;

    /// Registry law: the variant list has exactly `spec_count` entries, the
    /// entry at position `i` has id `i`, and every value of the type is
    /// listed.
    proof fn lemma_registry()
        ensures
            Self::spec_variants().len() == Self::spec_count(),
            forall|i: int|
                0 <= i < Self::spec_count() ==> (#[trigger] Self::spec_variants()[i]).spec_id()
                    == i,
            forall|v: Self| Self::spec_variants().contains(v),
    ;

    /// Description-bound law (a platform-imposed limit): the description of
    /// every variant, and of every one of its options, is strictly shorter
    /// than 100 characters.
    proof fn lemma_descriptions_bounded()
        ensures
            forall|i: int|
                0 <= i < Self::spec_variants().len() ==> (#[trigger] Self::spec_variants()[i]).spec_description().len()
                    < 100,
            forall|i: int, j: int|
                0 <= i < Self::spec_variants().len() && 0 <= j
                    < Self::spec_variants()[i].spec_options().len() ==> (
                #[trigger] Self::spec_variants()[i].spec_options()[j]).description.len() < 100,
    ;

    /// This variant's registry position.
    fn id(&self) -> (r: usize)
        ensures
            r as int == self.spec_id(),
    ;

    /// The number of variants of the set.
    fn count() -> (r: usize)
        ensures
            r as int == Self::spec_count(),
    ;

    /// The closed registry as a vector.
    fn all_variants() -> (r: Vec<Self>)
        ensures
            r@ == Self::spec_variants(),
    ;

    fn name(&self) -> (r: &'static str)
        ensures
            r@ == self.spec_name(),
    ;

    fn description(&self) -> (r: &'static str)
        ensures
            r@ == self.spec_description(),
    ;

    fn options(&self) -> (r: Vec<RawCommandOptionEntry>)
        ensures
            wire_models(r@) == self.spec_options(),
    ;

    /// Parse an invocation into typed arguments. Success cases are pinned by
    /// `spec_parse`; an invocation whose top-level name no variant declares
    /// is always an internal error, since the platform should never deliver
    /// one.
    fn parse(inv: &Invocation) -> (r: Result<Self::Args, RequestError>)
        ensures
            (match (r, Self::spec_parse(*inv)) {
                (Ok(a), Some(b)) => a == b,
                (Err(_), None) => true,
                _ => false,
            }),
            (forall|i: int|
                0 <= i < Self::spec_variants().len() ==> (
                #[trigger] Self::spec_variants()[i]).spec_name() != inv.command_name@) ==> (
            r matches Err(e) && e is Internal),
    ;
}

/// One named subcommand group: an ordered list of child descriptors grouped
/// under a name, one nesting level below a top-level container.
#[derive(Clone)]
pub struct CommandTreeIntermediate<RequestKind> {
    pub name: &'static str,
    pub description: &'static str,
    pub children: Vec<RequestKind>,
}

/// One top-level node of the command forest: either a container with flat
/// subcommands and subcommand groups, or a single descriptor registered
/// directly as one of four top-level command kinds.
#[derive(Clone)]
pub enum CommandTreeTop<RequestKind> {
    Complex {
        name: &'static str,
        description: &'static str,
        kind: CommandKind,
        subcommand_groups: Vec<CommandTreeIntermediate<RequestKind>>,
        subcommands: Vec<RequestKind>,
        opt_default_perm: Option<u64>,
    },
    NakedChatInput(RequestKind, Option<u64>),
    NakedUser(RequestKind, Option<u64>),
    MessageContextMenu(RequestKind, Option<u64>),
    GlobalMessageContextMenu(RequestKind, Option<u64>),
}

/// The wire model of one descriptor registered as a subcommand.
pub open spec fn sub_model_of<R: DiscordCommandDescriptor>(d: R) -> SubModel {
    SubModel { name: d.spec_name(), description: d.spec_description(), options: d.spec_options() }
}

/// The wire models of a sequence of descriptors registered as subcommands.
pub open spec fn children_sub_models<R: DiscordCommandDescriptor>(s: Seq<R>) -> Seq<SubModel> {
    s.map_values(|d: R| sub_model_of(d))
}

/// The wire model of one subcommand group.
pub open spec fn group_model_of<R: DiscordCommandDescriptor>(g: CommandTreeIntermediate<R>) -> GroupModel {
    GroupModel { name: g.name@, description: g.description@, children: children_sub_models(g.children@) }
}

/// Flat subcommands as options-array entries, in order.
pub open spec fn sub_entry_models<R: DiscordCommandDescriptor>(s: Seq<R>) -> Seq<EntryModel> {
    s.map_values(|d: R| EntryModel::Sub(sub_model_of(d)))
}

/// Subcommand groups as options-array entries, in order.
pub open spec fn group_entry_models<R: DiscordCommandDescriptor>(
    s: Seq<CommandTreeIntermediate<R>>,
) -> Seq<EntryModel> {
    s.map_values(|g: CommandTreeIntermediate<R>| EntryModel::Group(group_model_of(g)))
}

/// Leaf options as options-array entries, in order.
pub open spec fn leaf_entry_models(s: Seq<OptModel>) -> Seq<EntryModel> {
    s.map_values(|o: OptModel| EntryModel::Leaf(o))
}

/// An options array for a naked shape: the descriptor's own options as leaf
/// entries, or an omitted field when there are none.
pub open spec fn naked_options_model(opts: Seq<OptModel>) -> Option<Seq<EntryModel>> {
    if opts.len() == 0 {
        None
    } else {
        Some(leaf_entry_models(opts))
    }
}

/// What converting one top-level node yields: flat-subcommand leaves first,
/// then group nodes, both in caller-given order; the options field omitted
/// when the combined list is empty; a description only for shapes that carry
/// one on the wire; and the four naked shapes mapped to their platform
/// command kinds.
pub open spec fn spec_convert<R: DiscordCommandDescriptor>(t: CommandTreeTop<R>) -> CommandModel {
    match t {
        CommandTreeTop::Complex {
            name,
            description,
            kind,
            subcommand_groups,
            subcommands,
            opt_default_perm,
        } => {
            let entries = sub_entry_models(subcommands@) + group_entry_models(subcommand_groups@);
            CommandModel {
                name: name@,
                description: Some(description@),
                kind,
                default_member_permissions: opt_default_perm,
                options: if entries.len() == 0 {
                    None
                } else {
                    Some(entries)
                },
            }
        },
        CommandTreeTop::NakedChatInput(d, p) => CommandModel {
            name: d.spec_name(),
            description: Some(d.spec_description()),
            kind: CommandKind::ChatInput,
            default_member_permissions: p,
            options: naked_options_model(d.spec_options()),
        },
        CommandTreeTop::NakedUser(d, p) => CommandModel {
            name: d.spec_name(),
            description: None,
            kind: CommandKind::User,
            default_member_permissions: p,
            options: naked_options_model(d.spec_options()),
        },
        CommandTreeTop::MessageContextMenu(d, p) => CommandModel {
            name: d.spec_name(),
            description: None,
            kind: CommandKind::Message,
            default_member_permissions: p,
            options: naked_options_model(d.spec_options()),
        },
        CommandTreeTop::GlobalMessageContextMenu(d, p) => CommandModel {
            name: d.spec_name(),
            description: None,
            kind: CommandKind::Message,
            default_member_permissions: p,
            options: naked_options_model(d.spec_options()),
        },
    }
}

/// Convert one descriptor's options to wire options, in order.
fn options_payload<R: DiscordCommandDescriptor>(d: &R) -> (r: Vec<OptionPayload>)
    ensures
        opt_models(r@) == d.spec_options(),
{
    let raw = d.options();
    let mut out: Vec<OptionPayload> = Vec::new();
    let mut i: usize = 0;
    while i < raw.len()
        invariant
            i <= raw.len(),
            wire_models(raw@) == d.spec_options(),
            out@.len() == i,
            forall|k: int| 0 <= k < i ==> (#[trigger] out@[k])@ == raw@[k].wire_model(),
        decreases raw.len() - i,
    {
        let converted = raw[i].to_option();
        out.push(converted);
        i = i + 1;
    }
    proof {
        assert(opt_models(out@) =~= wire_models(raw@));
    }
    out
}

/// Build the wire subcommand for one descriptor.
fn subcommand_payload<R: DiscordCommandDescriptor>(d: &R) -> (r: SubCommandPayload)
    ensures
        r@ == sub_model_of(*d),
{
    let r = SubCommandPayload { name: d.name(), description: d.description(), options: options_payload(d) };
    proof {
        assert(r@ =~~= sub_model_of(*d));
    }
    r
}

/// Build the wire group node for one subcommand group.
fn group_payload<R: DiscordCommandDescriptor>(g: &CommandTreeIntermediate<R>) -> (r: GroupPayload)
    ensures
        r@ == group_model_of(*g),
{
    let mut children: Vec<SubCommandPayload> = Vec::new();
    let mut i: usize = 0;
    while i < g.children.len()
        invariant
            i <= g.children.len(),
            children@.len() == i,
            forall|k: int| 0 <= k < i ==> (#[trigger] children@[k])@ == sub_model_of(
                g.children@[k],
            ),
        decreases g.children.len() - i,
    {
        let d = g.children[i];
        children.push(subcommand_payload(&d));
        i = i + 1;
    }
    let r = GroupPayload { name: g.name, description: g.description, children };
    proof {
        assert(sub_models(children@) =~= children_sub_models(g.children@));
        assert(r@ =~~= group_model_of(*g));
    }
    r
}

/// Convert one descriptor's options to leaf entries of a naked shape.
fn leaf_entries<R: DiscordCommandDescriptor>(d: &R) -> (r: Vec<PayloadEntry>)
    ensures
        entry_models(r@) == leaf_entry_models(d.spec_options()),
        r@.len() == d.spec_options().len(),
{
    let raw = d.options();
    let mut out: Vec<PayloadEntry> = Vec::new();
    let mut i: usize = 0;
    while i < raw.len()
        invariant
            i <= raw.len(),
            wire_models(raw@) == d.spec_options(),
            out@.len() == i,
            forall|k: int| 0 <= k < i ==> (#[trigger] out@[k])@ == EntryModel::Leaf(
                raw@[k].wire_model(),
            ),
        decreases raw.len() - i,
    {
        let converted = raw[i].to_option();
        out.push(PayloadEntry::Leaf(converted));
        i = i + 1;
    }
    proof {
        assert(entry_models(out@) =~= leaf_entry_models(d.spec_options()));
    }
    out
}

/// Wrap a naked shape's entry list: the options field is omitted entirely
/// when the list is empty.
fn naked_options<R: DiscordCommandDescriptor>(d: &R) -> (r: Option<Vec<PayloadEntry>>)
    ensures
        (match r {
            Some(entries) => naked_options_model(d.spec_options()) matches Some(m)
                && entry_models(entries@) == m,
            None => naked_options_model(d.spec_options()) is None,
        }),
{
    let entries = leaf_entries(d);
    if entries.len() == 0 {
        None
    } else {
        Some(entries)
    }
}

impl<RequestKind: DiscordCommandDescriptor> CommandTreeTop<RequestKind> {
    /// Convert this top-level node into the platform's registration payload.
    /// The result is a function of the node alone: converting equal nodes
    /// yields identical payloads, with no hidden reordering anywhere.
    pub fn into_discord_command(self) -> (r: CommandPayload)
        ensures
            r@ == spec_convert(self),
    {
        match self {
            CommandTreeTop::Complex {
                name,
                description,
                kind,
                subcommand_groups,
                subcommands,
                opt_default_perm,
            } => {
                let mut entries: Vec<PayloadEntry> = Vec::new();
                let mut i: usize = 0;
                while i < subcommands.len()
                    invariant
                        i <= subcommands.len(),
                        entries@.len() == i,
                        forall|k: int| 0 <= k < i ==> (#[trigger] entries@[k])@
                            == EntryModel::Sub(sub_model_of(subcommands@[k])),
                    decreases subcommands.len() - i,
                {
                    let d = subcommands[i];
                    entries.push(PayloadEntry::Sub(subcommand_payload(&d)));
                    i = i + 1;
                }
                let ghost n_subs = subcommands@.len() as int;
                let mut j: usize = 0;
                while j < subcommand_groups.len()
                    invariant
                        j <= subcommand_groups.len(),
                        n_subs == subcommands@.len() as int,
                        entries@.len() == n_subs + j,
                        forall|k: int| 0 <= k < n_subs ==> (#[trigger] entries@[k])@
                            == EntryModel::Sub(sub_model_of(subcommands@[k])),
                        forall|k: int| n_subs <= k < n_subs + j ==> (#[trigger] entries@[k])@
                            == EntryModel::Group(group_model_of(subcommand_groups@[k - n_subs])),
                    decreases subcommand_groups.len() - j,
                {
                    let gp = group_payload(&subcommand_groups[j]);
                    entries.push(PayloadEntry::Group(gp));
                    j = j + 1;
                }
                proof {
                    assert(entry_models(entries@) =~= sub_entry_models(subcommands@)
                        + group_entry_models(subcommand_groups@));
                }
                let options = if entries.len() == 0 {
                    None
                } else {
                    Some(entries)
                };
                let r = CommandPayload {
                    name,
                    description: Some(description),
                    kind,
                    default_member_permissions: opt_default_perm,
                    options,
                };
                proof {
                    assert(r@ =~~= spec_convert(self));
                }
                r
            },
            CommandTreeTop::NakedChatInput(cmd, opt_default_perm) => {
                let r = CommandPayload {
                    name: cmd.name(),
                    description: Some(cmd.description()),
                    kind: CommandKind::ChatInput,
                    default_member_permissions: opt_default_perm,
                    options: naked_options(&cmd),
                };
                proof {
                    assert(r@ =~~= spec_convert(self));
                }
                r
            },
            CommandTreeTop::NakedUser(cmd, opt_default_perm) => {
                let r = CommandPayload {
                    name: cmd.name(),
                    description: None,
                    kind: CommandKind::User,
                    default_member_permissions: opt_default_perm,
                    options: naked_options(&cmd),
                };
                proof {
                    assert(r@ =~~= spec_convert(self));
                }
                r
            },
            CommandTreeTop::MessageContextMenu(cmd, opt_default_perm) => {
                let r = CommandPayload {
                    name: cmd.name(),
                    description: None,
                    kind: CommandKind::Message,
                    default_member_permissions: opt_default_perm,
                    options: naked_options(&cmd),
                };
                proof {
                    assert(r@ =~~= spec_convert(self));
                }
                r
            },
            CommandTreeTop::GlobalMessageContextMenu(cmd, opt_default_perm) => {
                let r = CommandPayload {
                    name: cmd.name(),
                    description: None,
                    kind: CommandKind::Message,
                    default_member_permissions: opt_default_perm,
                    options: naked_options(&cmd),
                };
                proof {
                    assert(r@ =~~= spec_convert(self));
                }
                r
            },
        }
    }

    /// Scope policy, fixed and not configurable per node: exactly the
    /// `GlobalMessageContextMenu` shape registers at cross-guild scope; every
    /// other shape registers scoped to the guild.
    pub fn is_global(&self) -> (r: bool)
        ensures
            r <==> self is GlobalMessageContextMenu,
    {
        match self {
            CommandTreeTop::Complex { .. } => false,
            CommandTreeTop::NakedChatInput(..) => false,
            CommandTreeTop::NakedUser(..) => false,
            CommandTreeTop::MessageContextMenu(..) => false,
            CommandTreeTop::GlobalMessageContextMenu(..) => true,
        }
    }
}

/// Deterministic conversion: the registration payload is a function of the
/// tree alone, so any two results of `into_discord_command` on equal trees
/// carry identical wire content — there is no hidden reordering and no
/// dependence on anything outside the tree.
pub proof fn lemma_convert_deterministic<R: DiscordCommandDescriptor>(
    t1: CommandTreeTop<R>,
    t2: CommandTreeTop<R>,
    p1: CommandPayload,
    p2: CommandPayload,
)
    requires
        t1 == t2,
        p1@ == spec_convert(t1),
        p2@ == spec_convert(t2),
    ensures
        p1@ == p2@,
{
}

/// The result of one successful parse: typed arguments for exactly one
/// descriptor variant, created at invocation time and consumed once by
/// execution.
pub struct Request<RequestKind: DiscordCommandDescriptor> {
    pub args: RequestKind::Args,
}

impl<RequestKind: DiscordCommandDescriptor> Request<RequestKind> {
    /// Parse an invocation by delegating to the descriptor set's own parse
    /// function and wrapping the result.
    pub fn parse(cmd: &Invocation) -> (r: Result<Self, RequestError>)
        ensures
            (match r {
                Ok(req) => RequestKind::spec_parse(*cmd) matches Some(a) && req.args == a,
                Err(_) => RequestKind::spec_parse(*cmd) is None,
            }),
            !known_top_name::<RequestKind>(cmd.command_name@) ==> (r matches Err(e)
                && e is Internal),
    {
        match RequestKind::parse(cmd) {
            Ok(args) => Ok(Request { args }),
            Err(e) => Err(e),
        }
    }
}

} // verus!

