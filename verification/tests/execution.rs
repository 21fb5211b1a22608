use zephyrus::argument::CommandArgument;
use zephyrus::bindings::Bindings;
use zephyrus::builder::FrameworkBuilder;
use zephyrus::command::Command;
use zephyrus::execution::{Order, Phase, Signal};
use zephyrus::framework::Framework;
use zephyrus::interaction::Interaction;
use zephyrus::parse::{ArgType, ParseError, Parsed};
use zephyrus::value::{DataOption, OptionType, Value};

struct App;

impl Bindings for App {
    type Client = ();
    type Data = ();
    type Handler = u32;
    type Check = u32;
    type After = u32;
    type Autocomplete = u32;
    type Source = Interaction;
    type Predicate = Box<dyn Fn(&Framework<App>, &Interaction) -> bool>;
    type Slot = u32;
    type Message = ();
}

fn framework(before: bool, after: bool) -> Framework<App> {
    let mut builder = FrameworkBuilder::new((), 1, ());
    if before {
        builder = builder.before(1);
    }
    if after {
        builder = builder.after(2);
    }
    builder.build()
}

fn command() -> Command<App> {
    Command::new(9).name("say").add_argument(CommandArgument::new("x", "a text", ArgType::String))
}

fn good() -> Vec<DataOption> {
    vec![DataOption { name: "x".to_string(), value: Value::String("hello".to_string()) }]
}

fn bad() -> Vec<DataOption> {
    vec![DataOption { name: "x".to_string(), value: Value::Integer(1) }]
}

/// Runs an execution to its end. The hook that runs before the command gives
/// `allowed`; the orders given are returned.
fn run(fw: &Framework<App>, options: &Vec<DataOption>, allowed: bool) -> Vec<Order> {
    let cmd = command();
    let mut given = Vec::new();
    let (mut phase, mut order) = fw.execute(&cmd, options, Phase::Start, Signal::Begin);
    loop {
        let signal = match &order {
            Order::CallBefore => Signal::BeforeDone(allowed),
            Order::CallHandler(_) => Signal::HandlerDone,
            Order::CallAfter(_) => Signal::AfterDone,
            Order::Stop => {
                given.push(order);
                assert_eq!(phase, Phase::Finished);
                return given;
            }
        };
        given.push(order);
        let next = fw.execute(&cmd, options, phase, signal);
        phase = next.0;
        order = next.1;
    }
}

#[test]
fn a_refusing_hook_keeps_handler_and_after_hook_from_running() {
    let fw = framework(true, true);
    assert_eq!(run(&fw, &good(), false), vec![Order::CallBefore, Order::Stop]);
}

#[test]
fn a_permitting_hook_lets_handler_and_after_hook_run() {
    let fw = framework(true, true);
    assert_eq!(
        run(&fw, &good(), true),
        vec![
            Order::CallBefore,
            Order::CallHandler(vec![Parsed::String("hello".to_string())]),
            Order::CallAfter(None),
            Order::Stop
        ]
    );
}

#[test]
fn without_hooks_only_the_handler_runs() {
    let fw = framework(false, false);
    assert_eq!(
        run(&fw, &good(), true),
        vec![Order::CallHandler(vec![Parsed::String("hello".to_string())]), Order::Stop]
    );
}

#[test]
fn without_before_hook_the_after_hook_still_runs() {
    let fw = framework(false, true);
    assert_eq!(
        run(&fw, &good(), true),
        vec![
            Order::CallHandler(vec![Parsed::String("hello".to_string())]),
            Order::CallAfter(None),
            Order::Stop
        ]
    );
}

#[test]
fn a_parse_failure_skips_the_handler_and_reaches_the_after_hook() {
    let fw = framework(true, true);
    assert_eq!(
        run(&fw, &bad(), true),
        vec![
            Order::CallBefore,
            Order::CallAfter(Some(ParseError::TypeMismatch(OptionType::String))),
            Order::Stop
        ]
    );
    let fw = framework(false, false);
    assert_eq!(run(&fw, &bad(), true), vec![Order::Stop]);
}

#[test]
fn a_refusing_hook_stops_before_arguments_are_parsed() {
    let fw = framework(true, true);
    assert_eq!(run(&fw, &bad(), false), vec![Order::CallBefore, Order::Stop]);
}

#[test]
fn each_step_gives_the_next_phase() {
    let fw = framework(true, true);
    let cmd = command();
    let options = good();
    assert_eq!(
        fw.execute(&cmd, &options, Phase::Start, Signal::Begin),
        (Phase::Before, Order::CallBefore)
    );
    assert_eq!(
        fw.execute(&cmd, &options, Phase::Before, Signal::BeforeDone(false)),
        (Phase::Finished, Order::Stop)
    );
    assert_eq!(
        fw.execute(&cmd, &options, Phase::Before, Signal::BeforeDone(true)),
        (Phase::Handler, Order::CallHandler(vec![Parsed::String("hello".to_string())]))
    );
    assert_eq!(
        fw.execute(&cmd, &options, Phase::Handler, Signal::HandlerDone),
        (Phase::After, Order::CallAfter(None))
    );
    assert_eq!(
        fw.execute(&cmd, &options, Phase::After, Signal::AfterDone),
        (Phase::Finished, Order::Stop)
    );
}

#[test]
fn a_signal_out_of_turn_ends_the_execution() {
    let fw = framework(true, true);
    let cmd = command();
    let options = good();
    let signals =
        [Signal::Begin, Signal::BeforeDone(true), Signal::HandlerDone, Signal::AfterDone];
    for signal in signals {
        assert_eq!(
            fw.execute(&cmd, &options, Phase::Finished, signal),
            (Phase::Finished, Order::Stop)
        );
    }
    assert_eq!(
        fw.execute(&cmd, &options, Phase::Start, Signal::HandlerDone),
        (Phase::Finished, Order::Stop)
    );
    assert_eq!(
        fw.execute(&cmd, &options, Phase::Before, Signal::Begin),
        (Phase::Finished, Order::Stop)
    );
    assert_eq!(
        fw.execute(&cmd, &options, Phase::Handler, Signal::BeforeDone(true)),
        (Phase::Finished, Order::Stop)
    );
    assert_eq!(
        fw.execute(&cmd, &options, Phase::After, Signal::HandlerDone),
        (Phase::Finished, Order::Stop)
    );
}
