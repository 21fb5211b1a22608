//! The arguments a command declares.

use crate::bindings::Bindings;
use crate::iter::{option_named, DataIterator};
use crate::parse::{parse, parsed, ArgType, ParseError, Parsed};
use crate::scan::{first_index, lemma_first_index};
use crate::value::{DataOption, Value};
use vstd::prelude::*;

verus! {

/// An argument of a command: its name, its declared type and, where it has
/// one, the function that suggests values for it.
pub struct CommandArgument<D: Bindings> {
    /// The name of the argument, unique within its command.
    pub name: &'static str,
    /// The description of the argument.
    pub description: &'static str,
    /// The declared type.
    pub ty: ArgType,
    /// The function that suggests values while the user types.
    pub autocomplete: Option<D::Autocomplete>,
}

/// The value that the first option called `name` carries, if there is such an
/// option.
pub open spec fn value_named<'a>(options: Seq<DataOption>, name: Seq<char>) -> Option<&'a Value> {
    match first_index(options, option_named(name)) {
        Some(i) => Some(&options[i].value),
        None => None,
    }
}

/// The options that are left once the first one called `name` is taken out.
pub open spec fn without_named(options: Seq<DataOption>, name: Seq<char>) -> Seq<DataOption> {
    match first_index(options, option_named(name)) {
        Some(i) => options.remove(i),
        None => options,
    }
}

/// What parsing `options` against the declared `arguments` gives.
///
/// The arguments are taken in declaration order. Each takes the first option
/// left that bears its name, or nothing, and parses it as its declared type;
/// the first failure ends the parsing. Options that are left when every
/// argument has taken its own are a `StructureMismatch`.
pub open spec fn parse_all<D: Bindings>(
    arguments: Seq<CommandArgument<D>>,
    options: Seq<DataOption>,
) -> Result<Seq<Parsed>, ParseError>
    decreases arguments.len(),
{
    if arguments.len() == 0 {
        if options.len() > 0 {
            Err(ParseError::StructureMismatch)
        } else {
            Ok(Seq::empty())
        }
    } else {
        let first = arguments[0];
        match parsed(first.ty, value_named(options, first.name@)) {
            Err(error) => Err(error),
            Ok(value) => match parse_all(
                arguments.drop_first(),
                without_named(options, first.name@),
            ) {
                Ok(values) => Ok(seq![value] + values),
                Err(error) => Err(error),
            },
        }
    }
}

/// `values`, followed by what `rest` holds if it is a success.
pub open spec fn after(values: Seq<Parsed>, rest: Result<Seq<Parsed>, ParseError>) -> Result<
    Seq<Parsed>,
    ParseError,
> {
    match rest {
        Ok(more) => Ok(values + more),
        Err(error) => Err(error),
    }
}

impl<D: Bindings> CommandArgument<D> {
    /// Declares an argument, without a function that suggests values.
    pub fn new(name: &'static str, description: &'static str, ty: ArgType) -> (r: Self)
        ensures
            r == (CommandArgument::<D> { name, description, ty, autocomplete: None }),
    {
        CommandArgument { name, description, ty, autocomplete: None }
    }

    /// Sets the function that suggests values for this argument.
    pub fn autocomplete(self, hook: D::Autocomplete) -> (r: Self)
        ensures
            r == (CommandArgument { autocomplete: Some(hook), ..self }),
    {
        let mut argument = self;
        argument.autocomplete = Some(hook);
        argument
    }

    /// Parses this argument from the option that bears its name, which is
    /// taken out of `options`, or from nothing where no option bears it.
    pub fn named_parse(&self, options: &mut DataIterator<'_>) -> (r: Result<Parsed, ParseError>)
        ensures
            r == parsed(self.ty, value_named(old(options)@, self.name@)),
            final(options)@ == without_named(old(options)@, self.name@),
    {
        match options.get(self.name) {
            Some(option) => parse(&self.ty, Some(&option.value)),
            None => parse(&self.ty, None),
        }
    }
}

/// Parses the options of a command against the arguments it declares, and
/// gives the typed arguments in declaration order.
pub fn parse_arguments<D: Bindings>(
    arguments: &Vec<CommandArgument<D>>,
    options: &Vec<DataOption>,
) -> (r: Result<Vec<Parsed>, ParseError>)
    ensures
        match parse_all(arguments@, options@) {
            Ok(values) => r matches Ok(v) && v@ == values,
            Err(error) => r == Err::<Vec<Parsed>, ParseError>(error),
        },
{
    let mut left = DataIterator::new(options);
    let mut values: Vec<Parsed> = Vec::new();
    let mut i: usize = 0;
    assert(arguments@.skip(0) =~= arguments@);
    while i < arguments.len()
        invariant
            i <= arguments@.len(),
            parse_all(arguments@, options@) == after(values@, parse_all(arguments@.skip(i as int), left@)),
        decreases arguments@.len() - i,
    {
        let ghost rest = arguments@.skip(i as int);
        let ghost before = left@;
        assert(rest[0] == arguments@[i as int]);
        assert(rest.drop_first() =~= arguments@.skip(i + 1));
        match arguments[i].named_parse(&mut left) {
            Ok(value) => {
                proof {
                    let tail = parse_all(arguments@.skip(i + 1), left@);
                    if let Ok(more) = tail {
                        assert(values@ + (seq![value] + more) =~= values@.push(value) + more);
                    }
                }
                values.push(value);
            },
            Err(error) => {
                return Err(error);
            },
        }
        i += 1;
    }
    assert(arguments@.skip(i as int).len() == 0);
    if left.len() > 0 {
        Err(ParseError::StructureMismatch)
    } else {
        assert(values@ + Seq::<Parsed>::empty() =~= values@);
        Ok(values)
    }
}

/// The failure of the first declared argument that fails to parse, when the
/// arguments take their options in declaration order.
pub open spec fn first_failure<D: Bindings>(
    arguments: Seq<CommandArgument<D>>,
    options: Seq<DataOption>,
) -> Option<ParseError>
    decreases arguments.len(),
{
    if arguments.len() == 0 {
        None
    } else {
        let first = arguments[0];
        match parsed(first.ty, value_named(options, first.name@)) {
            Err(error) => Some(error),
            Ok(_) => first_failure(arguments.drop_first(), without_named(options, first.name@)),
        }
    }
}

/// Parsing stops at the first argument that fails, and the failure is that
/// argument's own.
pub proof fn lemma_first_failure_wins<D: Bindings>(
    arguments: Seq<CommandArgument<D>>,
    options: Seq<DataOption>,
)
    ensures
        first_failure(arguments, options) matches Some(error) ==> parse_all(arguments, options)
            == Err::<Seq<Parsed>, ParseError>(error),
    decreases arguments.len(),
{
    if arguments.len() > 0 {
        let first = arguments[0];
        lemma_first_failure_wins(arguments.drop_first(), without_named(options, first.name@));
    }
}

/// More options than declared arguments cannot be parsed. If every declared
/// argument parses, the options left over make the parsing fail with
/// `StructureMismatch`; otherwise it fails with the first argument's failure.
pub proof fn lemma_too_many_options<D: Bindings>(
    arguments: Seq<CommandArgument<D>>,
    options: Seq<DataOption>,
)
    requires
        options.len() > arguments.len(),
    ensures
        parse_all(arguments, options) == Err::<Seq<Parsed>, ParseError>(
            match first_failure(arguments, options) {
                Some(error) => error,
                None => ParseError::StructureMismatch,
            },
        ),
    decreases arguments.len(),
{
    if arguments.len() > 0 {
        let first = arguments[0];
        lemma_first_index(options, option_named(first.name@));
        lemma_too_many_options(arguments.drop_first(), without_named(options, first.name@));
    }
}

/// A command that declares one text argument and is given one option of that
/// name holding a string parses to that string.
pub proof fn lemma_one_text_argument<D: Bindings>(argument: CommandArgument<D>, option: DataOption)
    requires
        argument.ty is String,
        argument.name@ == option.name@,
        option.value is String,
    ensures
        parse_all(seq![argument], seq![option]) == Ok::<Seq<Parsed>, ParseError>(
            seq![Parsed::String(option.value->String_0)],
        ),
{
    let arguments = seq![argument];
    let options = seq![option];
    assert(option_named(argument.name@)(options[0]));
    assert(first_index(options, option_named(argument.name@)) == Some(0int));
    assert(options.remove(0) =~= Seq::<DataOption>::empty());
    assert(arguments.drop_first() =~= Seq::<CommandArgument<D>>::empty());
    assert(value_named(options, argument.name@) == Some(&option.value));
    assert(without_named(options, argument.name@) == Seq::<DataOption>::empty());
    assert(parse_all(Seq::<CommandArgument<D>>::empty(), Seq::<DataOption>::empty()) == Ok::<
        Seq<Parsed>,
        ParseError,
    >(Seq::empty()));
    assert(parsed(argument.ty, Some(&option.value)) == Ok::<Parsed, ParseError>(
        Parsed::String(option.value->String_0),
    ));
    assert(seq![Parsed::String(option.value->String_0)] + Seq::<Parsed>::empty() =~= seq![
        Parsed::String(option.value->String_0),
    ]);
}

} // verus!
