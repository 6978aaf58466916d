//! The wire shapes of the platform's registration payload, together with the
//! mathematical models that contracts are stated over.
//!
//! A `CommandPayload` is what one top-level command looks like when it is
//! published to the platform: name, optional description, command-type tag,
//! optional default-member-permission bitmask, and an options array that is
//! omitted entirely when there are no entries. Nesting is at most two levels:
//! top-level, subcommand group, subcommand.

use vstd::prelude::*;

verus! {

/// The platform's type tag for one leaf option of a command.
#[derive(Clone, Copy, Debug, PartialEq, Eq)]
pub enum OptionKind {
    Integer,
    Number,
    Boolean,
    String,
    User,
    Channel,
    Attachment,
}

/// The platform's type tag for one top-level command.
#[derive(Clone, Copy, Debug, PartialEq, Eq)]
pub enum CommandKind {
    ChatInput,
    User,
    Message,
}

/// One leaf option entry as it appears on the wire: type, name, description,
/// required flag, and (string selects only) an ordered list of
/// (label, value) choice pairs.
#[derive(Clone, Debug, PartialEq, Eq)]
pub struct OptionPayload {
    pub kind: OptionKind,
    pub name: &'static str,
    pub description: &'static str,
    pub required: bool,
    pub choices: Vec<(&'static str, &'static str)>,
}

/// One subcommand entry: a named leaf command with its own option list.
#[derive(Clone, Debug, PartialEq, Eq)]
pub struct SubCommandPayload {
    pub name: &'static str,
    pub description: &'static str,
    pub options: Vec<OptionPayload>,
}

/// One subcommand-group entry: a named list of subcommands, exactly one
/// nesting level below the top-level command.
#[derive(Clone, Debug, PartialEq, Eq)]
pub struct GroupPayload {
    pub name: &'static str,
    pub description: &'static str,
    pub children: Vec<SubCommandPayload>,
}

/// One entry of a top-level command's options array.
#[derive(Clone, Debug, PartialEq, Eq)]
pub enum PayloadEntry {
    Leaf(OptionPayload),
    Sub(SubCommandPayload),
    Group(GroupPayload),
}

/// One top-level command as registered with the platform. `options` is
/// `None` when the command has no entries at all, so that an absent options
/// field is distinguished from a present-but-empty one at the wire level.
#[derive(Clone, Debug, PartialEq, Eq)]
pub struct CommandPayload {
    pub name: &'static str,
    pub description: Option<&'static str>,
    pub kind: CommandKind,
    pub default_member_permissions: Option<u64>,
    pub options: Option<Vec<PayloadEntry>>,
}

/// Model of one leaf option: the option payload with its strings read as
/// character sequences.
#[verifier::ext_equal]
pub struct OptModel {
    pub kind: OptionKind,
    pub name: Seq<char>,
    pub description: Seq<char>,
    pub required: bool,
    pub choices: Seq<(Seq<char>, Seq<char>)>,
}

/// Model of one subcommand entry.
#[verifier::ext_equal]
pub struct SubModel {
    pub name: Seq<char>,
    pub description: Seq<char>,
    pub options: Seq<OptModel>,
}

/// Model of one subcommand-group entry.
#[verifier::ext_equal]
pub struct GroupModel {
    pub name: Seq<char>,
    pub description: Seq<char>,
    pub children: Seq<SubModel>,
}

/// Model of one entry of the options array.
#[verifier::ext_equal]
pub enum EntryModel {
    Leaf(OptModel),
    Sub(SubModel),
    Group(GroupModel),
}

/// Model of one top-level command.
#[verifier::ext_equal]
pub struct CommandModel {
    pub name: Seq<char>,
    pub description: Option<Seq<char>>,
    pub kind: CommandKind,
    pub default_member_permissions: Option<u64>,
    pub options: Option<Seq<EntryModel>>,
}

/// The model of a choice list: each (label, value) pair read as character
/// sequences, in the order given.
pub open spec fn choices_model(choices: Seq<(&'static str, &'static str)>) -> Seq<(Seq<char>, Seq<char>)> {
    choices.map_values(|c: (&'static str, &'static str)| (c.0@, c.1@))
}

/// The models of a sequence of leaf options, in order.
pub open spec fn opt_models(s: Seq<OptionPayload>) -> Seq<OptModel> {
    s.map_values(|o: OptionPayload| o@)
}

/// The models of a sequence of subcommand entries, in order.
pub open spec fn sub_models(s: Seq<SubCommandPayload>) -> Seq<SubModel> {
    s.map_values(|c: SubCommandPayload| c@)
}

/// The models of a sequence of options-array entries, in order.
pub open spec fn entry_models(s: Seq<PayloadEntry>) -> Seq<EntryModel> {
    s.map_values(|e: PayloadEntry| e@)
}

impl View for OptionPayload {
    type V = OptModel;

    open spec fn view(&self) -> OptModel {
        OptModel {
            kind: self.kind,
            name: self.name@,
            description: self.description@,
            required: self.required,
            choices: choices_model(self.choices@),
        }
    }
}

impl View for SubCommandPayload {
    type V = SubModel;

    open spec fn view(&self) -> SubModel {
        SubModel {
            name: self.name@,
            description: self.description@,
            options: opt_models(self.options@),
        }
    }
}

impl View for GroupPayload {
    type V = GroupModel;

    open spec fn view(&self) -> GroupModel {
        GroupModel {
            name: self.name@,
            description: self.description@,
            children: sub_models(self.children@),
        }
    }
}

impl View for PayloadEntry {
    type V = EntryModel;

    open spec fn view(&self) -> EntryModel {
        match self {
            PayloadEntry::Leaf(o) => EntryModel::Leaf(o@),
            PayloadEntry::Sub(s) => EntryModel::Sub(s@),
            PayloadEntry::Group(g) => EntryModel::Group(g@),
        }
    }
}

impl View for CommandPayload {
    type V = CommandModel;

    open spec fn view(&self) -> CommandModel {
        CommandModel {
            name: self.name@,
            description: match self.description {
                Some(d) => Some(d@),
                None => None,
            },
            kind: self.kind,
            default_member_permissions: self.default_member_permissions,
            options: match self.options {
                Some(entries) => Some(entry_models(entries@)),
                None => None,
            },
        }
    }
}

} // verus!
