//! The dispatcher.

use crate::argument::{lemma_one_text_argument, parse_all, parse_arguments, CommandArgument};
use crate::bindings::Bindings;
use crate::command::{Command, CommandMap};
use crate::context::Focused;
use crate::execution::{step, Order, Phase, Signal};
use crate::group::{GroupParent, ParentGroupMap, ParentType};
use crate::interaction::{CommandData, Interaction, InteractionData, InteractionType};
use crate::parse::{ParseError, Parsed};
use crate::scan::{first_index, lemma_first_index_absent, lemma_first_index_found};
use crate::text::same_text;
use crate::value::{DataOption, OptionType, Value};
use crate::waiter::{contents, lock, WaiterWaker, Waiters};
use vstd::prelude::*;

verus! {

/// The framework used to dispatch slash commands.
#[verifier::reject_recursive_types(D)]
pub struct Framework<D: Bindings> {
    /// The http client used by the framework.
    pub http_client: D::Client,
    /// The application id of the client.
    pub application_id: u64,
    /// Data shared across all command and hook invocations.
    pub data: D::Data,
    /// A map of simple commands.
    pub commands: CommandMap<D>,
    /// A map of command groups including all children.
    pub groups: ParentGroupMap<D>,
    /// A hook executed before the command.
    pub before: Option<D::Check>,
    /// A hook executed after command's execution.
    pub after: Option<D::After>,
    /// The handlers waiting for a later interaction.
    pub waiters: parking_lot::Mutex<Waiters<D>>,
}

/// What an interaction asks the caller to do.
pub enum Action<'a, 'b, D: Bindings> {
    /// Execute this command with these options.
    Execute { command: &'a Command<D>, options: &'b Vec<DataOption> },
    /// Ask this function for suggestions for this argument, given what the
    /// user typed, and answer with them.
    Autocomplete { hook: &'a D::Autocomplete, argument: &'a CommandArgument<D>, input: Focused },
    /// Deliver the interaction through the slot of this waiter, which is no
    /// longer registered.
    Wake(WaiterWaker<D>),
    /// Drop the interaction.
    Nothing,
}

/// The payload of `interaction`, if it is that of a command.
pub open spec fn invocation(interaction: Interaction) -> Option<CommandData> {
    match interaction.data {
        Some(InteractionData::ApplicationCommand(data)) => Some(data),
        _ => None,
    }
}

/// The property of being the option the user is typing.
pub open spec fn is_focused() -> spec_fn(DataOption) -> bool {
    |o: DataOption| o.value is Focused
}

/// The property of an argument of having the given name.
pub open spec fn argument_named<D: Bindings>(name: Seq<char>) -> spec_fn(CommandArgument<D>) -> bool {
    |a: CommandArgument<D>| a.name@ == name
}

/// The argument that the focused option among `options` belongs to, looked up
/// by name among the arguments of the command called `command` in `map`,
/// together with what the user typed.
pub open spec fn focus_in<D: Bindings>(
    map: Map<Seq<char>, Command<D>>,
    command: Seq<char>,
    options: Seq<DataOption>,
) -> Option<(CommandArgument<D>, Focused)> {
    match first_index(options, is_focused()) {
        None => None,
        Some(f) => if !map.contains_key(command) {
            None
        } else {
            match first_index(map[command].arguments@, argument_named::<D>(options[f].name@)) {
                None => None,
                Some(p) => match options[f].value {
                    Value::Focused(input, kind) => Some(
                        (map[command].arguments@[p], Focused { input, kind }),
                    ),
                    _ => None,
                },
            }
        },
    }
}

/// The argument an autocomplete request is about, and what the user typed.
///
/// The request is walked like a command invocation: a first option that is a
/// non-empty subcommand leads into a simple group, a non-empty subcommand
/// group whose first option is a subcommand leads into a subgroup, and any
/// other first option leaves the request at a top-level command.
pub open spec fn autocomplete_target<D: Bindings>(
    commands: Map<Seq<char>, Command<D>>,
    groups: Map<Seq<char>, GroupParent<D>>,
    data: CommandData,
) -> Option<(CommandArgument<D>, Focused)> {
    if data.options@.len() == 0 {
        None
    } else {
        let outer = data.options@[0];
        match outer.value {
            Value::SubCommandGroup(inner) => {
                if inner@.len() == 0 || !groups.contains_key(data.name@) {
                    None
                } else {
                    match (groups[data.name@].kind, inner@[0].value) {
                        (ParentType::Group(map), Value::SubCommand(options)) => {
                            if map@.contains_key(outer.name@) {
                                focus_in(
                                    map@[outer.name@].subcommands@,
                                    inner@[0].name@,
                                    options@,
                                )
                            } else {
                                None
                            }
                        },
                        _ => None,
                    }
                }
            },
            Value::SubCommand(inner) => {
                if inner@.len() == 0 || !groups.contains_key(data.name@) {
                    None
                } else {
                    match groups[data.name@].kind {
                        ParentType::Simple(map) => focus_in(map@, outer.name@, inner@),
                        _ => None,
                    }
                }
            },
            _ => focus_in(commands, data.name@, data.options@),
        }
    }
}

/// The first of `options`, if it is of the kind that leads to a nested
/// command: a subcommand or a subcommand group.
pub open spec fn next_of(options: Seq<DataOption>) -> Option<DataOption> {
    if options.len() > 0 && (options[0].value.kind_of() is SubCommand
        || options[0].value.kind_of() is SubCommandGroup) {
        Some(options[0])
    } else {
        None
    }
}

/// The command an invocation resolves to, and the options that command is
/// given.
///
/// An invocation whose first option does not lead further resolves to the
/// top-level command of its name, with all its options. One whose first option
/// is a subcommand resolves within the simple group of its name, and one whose
/// first option is a subcommand group holding a subcommand resolves within the
/// subgroup that the first option names; the command is then given the options
/// of the subcommand. Anything else resolves to nothing.
pub open spec fn resolved<D: Bindings>(
    commands: Map<Seq<char>, Command<D>>,
    groups: Map<Seq<char>, GroupParent<D>>,
    data: CommandData,
) -> Option<(Command<D>, Seq<DataOption>)> {
    match next_of(data.options@) {
        None => if commands.contains_key(data.name@) {
            Some((commands[data.name@], data.options@))
        } else {
            None
        },
        Some(next) => if !groups.contains_key(data.name@) {
            None
        } else {
            match (next.value, groups[data.name@].kind) {
                (Value::SubCommand(options), ParentType::Simple(map)) => {
                    if map@.contains_key(next.name@) {
                        Some((map@[next.name@], options@))
                    } else {
                        None
                    }
                },
                (Value::SubCommandGroup(inner), ParentType::Group(map)) => {
                    match next_of(inner@) {
                        Some(DataOption { name, value: Value::SubCommand(options) }) => {
                            if map@.contains_key(next.name@) && map@[next.name@].subcommands@.contains_key(
                                name@,
                            ) {
                                Some((map@[next.name@].subcommands@[name@], options@))
                            } else {
                                None
                            }
                        },
                        _ => None,
                    }
                },
                _ => None,
            }
        },
    }
}

impl<D: Bindings> Framework<D> {
    /// The command that `interaction` invokes and the options it is given.
    pub open spec fn executes(self, interaction: Interaction) -> Option<(Command<D>, Seq<DataOption>)> {
        match invocation(interaction) {
            Some(data) => resolved(self.commands@, self.groups@, data),
            None => None,
        }
    }

    /// The function to ask for suggestions on `interaction`, the argument it
    /// is asked about and what the user typed. There is none where the
    /// argument in focus has no such function.
    pub open spec fn completes(self, interaction: Interaction) -> Option<
        (D::Autocomplete, CommandArgument<D>, Focused),
    > {
        match invocation(interaction) {
            Some(data) => match autocomplete_target(self.commands@, self.groups@, data) {
                Some((argument, focused)) => match argument.autocomplete {
                    Some(hook) => Some((hook, argument, focused)),
                    None => None,
                },
                None => None,
            },
            None => None,
        }
    }

    /// Processes the given interaction: finds the command to execute, the
    /// function to ask for suggestions, or the waiter to wake.
    ///
    /// `interaction` is what the dispatcher reads of the interaction, and
    /// `source` is the same interaction as the transport delivered it, which
    /// only the predicates of the waiters see.
    ///
    /// A command invocation and an autocomplete request are resolved against
    /// the registry, and dropped where they do not resolve. An interaction of
    /// any other kind goes to the first waiter, in the order of registration,
    /// whose predicate accepts it; that waiter is taken off the list, under
    /// the lock, before this returns. If no waiter accepts it, it is dropped.
    ///
    /// The waiters are shared with other threads, so of a woken waiter this
    /// promises only that its predicate accepted the interaction; what the
    /// scan does to a given list is stated by [`Waiters::take_first`]. The
    /// predicates run while the lock is held: one that registers a waiter or
    /// processes an interaction on this framework would wait for itself.
    pub fn process<'a, 'b>(&'a self, interaction: &'b Interaction, source: &D::Source) -> (r: Action<
        'a,
        'b,
        D,
    >)
        ensures
            match interaction.kind {
                InteractionType::ApplicationCommand => match self.executes(*interaction) {
                    Some((c, o)) => r matches Action::Execute { command, options } && *command
                        == c && options@ == o,
                    None => r is Nothing,
                },
                InteractionType::ApplicationCommandAutocomplete => match self.completes(
                    *interaction,
                ) {
                    Some((h, a, f)) => r matches Action::Autocomplete { hook, argument, input }
                        && *hook == h && *argument == a && input == f,
                    None => r is Nothing,
                },
                _ => r is Nothing || (r matches Action::Wake(waker) && waker.answers(
                    self,
                    source,
                    true,
                )),
            },
    {
        match interaction.kind {
            InteractionType::ApplicationCommand => match &interaction.data {
                Some(InteractionData::ApplicationCommand(data)) => match self.get_command(data) {
                    Some((command, options)) => Action::Execute { command, options },
                    None => Action::Nothing,
                },
                _ => Action::Nothing,
            },
            InteractionType::ApplicationCommandAutocomplete => match &interaction.data {
                Some(InteractionData::ApplicationCommand(data)) => {
                    match self.get_autocomplete_argument(data) {
                        Some((argument, input)) => match &argument.autocomplete {
                            Some(hook) => Action::Autocomplete { hook, argument, input },
                            None => Action::Nothing,
                        },
                        None => Action::Nothing,
                    }
                },
                _ => Action::Nothing,
            },
            _ => {
                let mut held = lock(&self.waiters);
                let woken = contents(&mut held).take_first(self, source);
                match woken {
                    Some(waker) => Action::Wake(waker),
                    None => Action::Nothing,
                }
            },
        }
    }

    /// Registers a waiter behind those already registered, under the lock.
    ///
    /// Other threads may take the waiter off the list as soon as the lock is
    /// released, so nothing is promised of the list when this returns.
    pub fn register_waiter(&self, waker: WaiterWaker<D>) {
        let mut held = lock(&self.waiters);
        contents(&mut held).push(waker);
    }

    /// Decides what is to run next in the execution of `command` with
    /// `options`, given how far the execution has come and what the caller
    /// reports.
    ///
    /// The hook that runs before the command comes first, if there is one; if
    /// it refuses, nothing else runs. Then the options are parsed against the
    /// declared arguments and the handler is called with them. The hook that
    /// runs after the command, if there is one, then sees the outcome: what
    /// the handler returned, or the failure to parse, on which the handler
    /// does not run.
    pub fn execute(
        &self,
        command: &Command<D>,
        options: &Vec<DataOption>,
        phase: Phase,
        signal: Signal,
    ) -> (r: (Phase, Order))
        ensures
            (r.0, r.1@) == step(
                self.before is Some,
                self.after is Some,
                parse_all(command.arguments@, options@),
                phase,
                signal,
            ),
    {
        let proceeds = match (phase, signal) {
            (Phase::Start, Signal::Begin) => {
                if self.before.is_some() {
                    return (Phase::Before, Order::CallBefore);
                }
                true
            },
            (Phase::Before, Signal::BeforeDone(allowed)) => allowed,
            (Phase::Handler, Signal::HandlerDone) => {
                if self.after.is_some() {
                    return (Phase::After, Order::CallAfter(None));
                }
                false
            },
            _ => false,
        };
        if !proceeds {
            return (Phase::Finished, Order::Stop);
        }
        match parse_arguments(&command.arguments, options) {
            Ok(values) => (Phase::Handler, Order::CallHandler(values)),
            Err(error) => if self.after.is_some() {
                (Phase::After, Order::CallAfter(Some(error)))
            } else {
                (Phase::Finished, Order::Stop)
            },
        }
    }

    /// Gets the next option only if it corresponds to a subcommand or a
    /// subcommand group.
    pub fn get_next<'a>(&self, options: &'a Vec<DataOption>) -> (r: Option<&'a DataOption>)
        ensures
            r == (match next_of(options@) {
                Some(next) => Some(&next),
                None => None,
            }),
    {
        if options.len() == 0 {
            return None;
        }
        match options[0].value.kind() {
            OptionType::SubCommand | OptionType::SubCommandGroup => Some(&options[0]),
            _ => None,
        }
    }

    /// Gets the command matching the given invocation and the options it is
    /// given, returning `None` if no command matches.
    pub fn get_command<'a, 'b>(&'a self, data: &'b CommandData) -> (r: Option<
        (&'a Command<D>, &'b Vec<DataOption>),
    >)
        ensures
            match resolved(self.commands@, self.groups@, *data) {
                Some((command, options)) => r matches Some((c, o)) && *c == command && o@
                    == options,
                None => r is None,
            },
    {
        let next = match self.get_next(&data.options) {
            Some(next) => next,
            None => {
                return match self.commands.get(data.name.as_str()) {
                    Some(command) => Some((command, &data.options)),
                    None => None,
                };
            },
        };
        let group = match self.groups.get(data.name.as_str()) {
            Some(group) => group,
            None => { return None; },
        };
        match &next.value {
            Value::SubCommand(options) => {
                let subcommands = match group.kind.as_simple() {
                    Some(map) => map,
                    None => { return None; },
                };
                match subcommands.get(next.name.as_str()) {
                    Some(command) => Some((command, options)),
                    None => None,
                }
            },
            Value::SubCommandGroup(inner) => {
                let subcommand = match self.get_next(inner) {
                    Some(subcommand) => subcommand,
                    None => { return None; },
                };
                let subgroups = match group.kind.as_group() {
                    Some(map) => map,
                    None => { return None; },
                };
                let subgroup = match subgroups.get(next.name.as_str()) {
                    Some(subgroup) => subgroup,
                    None => { return None; },
                };
                match &subcommand.value {
                    Value::SubCommand(options) => match subgroup.subcommands.get(
                        subcommand.name.as_str(),
                    ) {
                        Some(command) => Some((command, options)),
                        None => None,
                    },
                    _ => None,
                }
            },
            _ => None,
        }
    }

    /// The first option that the user is typing.
    pub fn get_focus<'a>(&self, data: &'a Vec<DataOption>) -> (r: Option<&'a DataOption>)
        ensures
            r == (match first_index(data@, is_focused()) {
                Some(i) => Some(&data@[i]),
                None => None,
            }),
    {
        let mut i: usize = 0;
        while i < data.len()
            invariant
                i <= data@.len(),
                forall|j: int| 0 <= j < i ==> !is_focused()(data@[j]),
            decreases data@.len() - i,
        {
            if let Value::Focused(..) = &data[i].value {
                proof {
                    lemma_first_index_found(data@, is_focused(), i as int);
                }
                return Some(&data[i]);
            }
            i += 1;
        }
        proof {
            lemma_first_index_absent(data@, is_focused());
        }
        None
    }

    /// The argument of `command` with the given name.
    fn argument_of<'a>(command: &'a Command<D>, name: &str) -> (r: Option<&'a CommandArgument<D>>)
        ensures
            r == (match first_index(command.arguments@, argument_named::<D>(name@)) {
                Some(p) => Some(&command.arguments@[p]),
                None => None,
            }),
    {
        let mut i: usize = 0;
        while i < command.arguments.len()
            invariant
                i <= command.arguments@.len(),
                forall|j: int| 0 <= j < i ==> !argument_named::<D>(name@)(command.arguments@[j]),
            decreases command.arguments@.len() - i,
        {
            if same_text(command.arguments[i].name, name) {
                proof {
                    lemma_first_index_found(command.arguments@, argument_named::<D>(name@), i as int);
                }
                return Some(&command.arguments[i]);
            }
            i += 1;
        }
        proof {
            lemma_first_index_absent(command.arguments@, argument_named::<D>(name@));
        }
        None
    }

    /// Looks for the focused option among `options` and for the argument of
    /// the command called `command` that it belongs to.
    fn focused_argument<'a>(&self, map: &'a CommandMap<D>, command: &str, options: &Vec<DataOption>) -> (r:
        Option<(&'a CommandArgument<D>, Focused)>)
        ensures
            r == (match focus_in(map@, command@, options@) {
                Some((argument, focused)) => Some((&argument, focused)),
                None => None,
            }),
    {
        let focused = match self.get_focus(options) {
            Some(f) => f,
            None => { return None; },
        };
        let command = match map.get(command) {
            Some(c) => c,
            None => { return None; },
        };
        let argument = match Self::argument_of(command, focused.name.as_str()) {
            Some(a) => a,
            None => { return None; },
        };
        match &focused.value {
            Value::Focused(input, kind) => Some((argument, Focused { input: input.clone(), kind: *kind })),
            _ => None,
        }
    }

    /// The argument that the given autocomplete request is about, together
    /// with what the user typed, or nothing where the request has no focused
    /// option or names no registered argument.
    pub fn get_autocomplete_argument<'a>(&'a self, data: &CommandData) -> (r: Option<
        (&'a CommandArgument<D>, Focused),
    >)
        ensures
            r == (match autocomplete_target(self.commands@, self.groups@, *data) {
                Some((argument, focused)) => Some((&argument, focused)),
                None => None,
            }),
    {
        if data.options.len() == 0 {
            return None;
        }
        let outer = &data.options[0];
        match &outer.value {
            Value::SubCommandGroup(inner) => {
                if inner.len() == 0 {
                    return None;
                }
                let parent = match self.groups.get(data.name.as_str()) {
                    Some(p) => p,
                    None => { return None; },
                };
                let map = match parent.kind.as_group() {
                    Some(m) => m,
                    None => { return None; },
                };
                let next = &inner[0];
                match &next.value {
                    Value::SubCommand(options) => {
                        let group = match map.get(outer.name.as_str()) {
                            Some(g) => g,
                            None => { return None; },
                        };
                        self.focused_argument(&group.subcommands, next.name.as_str(), options)
                    },
                    _ => None,
                }
            },
            Value::SubCommand(inner) => {
                if inner.len() == 0 {
                    return None;
                }
                let parent = match self.groups.get(data.name.as_str()) {
                    Some(p) => p,
                    None => { return None; },
                };
                match parent.kind.as_simple() {
                    Some(map) => self.focused_argument(map, outer.name.as_str(), inner),
                    None => None,
                }
            },
            _ => self.focused_argument(&self.commands, data.name.as_str(), &data.options),
        }
    }
}

/// A subcommand invoked on a simple group resolves to the command of that
/// name in the group, which is given the options of the subcommand.
pub proof fn lemma_subcommand_resolves<D: Bindings>(
    commands: Map<Seq<char>, Command<D>>,
    groups: Map<Seq<char>, GroupParent<D>>,
    data: CommandData,
)
    requires
        data.options@.len() > 0,
        data.options@[0].value is SubCommand,
        groups.contains_key(data.name@),
        groups[data.name@].kind is Simple,
        groups[data.name@].kind->Simple_0@.contains_key(data.options@[0].name@),
    ensures
        resolved(commands, groups, data) == Some(
            (
                groups[data.name@].kind->Simple_0@[data.options@[0].name@],
                data.options@[0].value->SubCommand_0@,
            ),
        ),
{
}

/// Routing and parsing together: a subcommand invoked on a simple group with
/// one option, where the command of that name declares one text argument of
/// the option's name, resolves to that command with that option, and the
/// argument parses to the string the option holds.
pub proof fn lemma_subcommand_with_text_argument<D: Bindings>(
    commands: Map<Seq<char>, Command<D>>,
    groups: Map<Seq<char>, GroupParent<D>>,
    data: CommandData,
    argument: CommandArgument<D>,
    option: DataOption,
)
    requires
        data.options@.len() > 0,
        data.options@[0].value matches Value::SubCommand(inner) && inner@ == seq![option],
        groups.contains_key(data.name@),
        groups[data.name@].kind matches ParentType::Simple(map) && map@.contains_key(
            data.options@[0].name@,
        ) && map@[data.options@[0].name@].arguments@ == seq![argument],
        argument.ty is String,
        argument.name@ == option.name@,
        option.value is String,
    ensures
        resolved(commands, groups, data) matches Some((command, options)) && command
            == groups[data.name@].kind->Simple_0@[data.options@[0].name@] && options
            == seq![option] && parse_all(command.arguments@, options) == Ok::<
            Seq<Parsed>,
            ParseError,
        >(seq![Parsed::String(option.value->String_0)]),
{
    lemma_subcommand_resolves(commands, groups, data);
    lemma_one_text_argument(argument, option);
}

/// An invocation whose first option has the shape of a subcommand group does
/// not resolve against a simple group, nor one whose first option has the
/// shape of a subcommand against a group of subgroups.
pub proof fn lemma_kind_mismatch_resolves_to_nothing<D: Bindings>(
    commands: Map<Seq<char>, Command<D>>,
    groups: Map<Seq<char>, GroupParent<D>>,
    data: CommandData,
)
    requires
        data.options@.len() > 0,
        groups.contains_key(data.name@),
        (data.options@[0].value.kind_of() is SubCommandGroup && groups[data.name@].kind is Simple)
            || (data.options@[0].value.kind_of() is SubCommand && groups[data.name@].kind
            is Group),
    ensures
        resolved(commands, groups, data) is None,
{
}

/// An invocation that names no registered group in its first position, or no
/// registered command, resolves to nothing.
pub proof fn lemma_unknown_name_resolves_to_nothing<D: Bindings>(
    commands: Map<Seq<char>, Command<D>>,
    groups: Map<Seq<char>, GroupParent<D>>,
    data: CommandData,
)
    requires
        !commands.contains_key(data.name@),
        !groups.contains_key(data.name@),
    ensures
        resolved(commands, groups, data) is None,
{
}

} // verus!
