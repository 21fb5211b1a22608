use zephyrus::bindings::Bindings;
use zephyrus::builder::FrameworkBuilder;
use zephyrus::framework::{Action, Framework};
use zephyrus::interaction::{ComponentData, Interaction, InteractionData, InteractionType};
use zephyrus::waiter::{WaiterWaker, Waiters};

struct App;

impl Bindings for App {
    type Client = ();
    type Data = u64;
    type Handler = u32;
    type Check = u32;
    type After = u32;
    type Autocomplete = u32;
    type Source = Interaction;
    type Predicate = Box<dyn Fn(&Framework<App>, &Interaction) -> bool>;
    type Slot = &'static str;
    type Message = ();
}

fn component(id: u64, custom_id: &str) -> Interaction {
    Interaction {
        id,
        kind: InteractionType::MessageComponent,
        data: Some(InteractionData::MessageComponent(ComponentData {
            custom_id: custom_id.to_string(),
        })),
    }
}

fn waker(
    predicate: impl Fn(&Framework<App>, &Interaction) -> bool + 'static,
    slot: &'static str,
) -> WaiterWaker<App> {
    let predicate: Box<dyn Fn(&Framework<App>, &Interaction) -> bool> = Box::new(predicate);
    WaiterWaker::new(predicate, slot)
}

fn never(slot: &'static str) -> WaiterWaker<App> {
    waker(|_, _| false, slot)
}

fn named(name: &'static str, slot: &'static str) -> WaiterWaker<App> {
    waker(
        move |_, interaction| match &interaction.data {
            Some(InteractionData::MessageComponent(data)) => data.custom_id == name,
            _ => false,
        },
        slot,
    )
}

fn framework() -> Framework<App> {
    FrameworkBuilder::new((), 1, 40).build()
}

#[test]
fn only_the_matching_waiter_wakes_and_the_other_stays() {
    let fw = framework();
    let mut waiters: Waiters<App> = Waiters::new();
    waiters.push(never("w1"));
    waiters.push(named("confirm", "w2"));
    assert_eq!(waiters.len(), 2);
    let woken = waiters.take_first(&fw, &component(1, "confirm")).expect("w2 matches");
    assert_eq!(woken.wake(), "w2");
    assert_eq!(waiters.len(), 1);
    assert!(waiters.take_first(&fw, &component(2, "confirm")).is_none());
    assert_eq!(waiters.len(), 1);
}

#[test]
fn the_first_of_two_matching_waiters_wakes() {
    let fw = framework();
    let mut waiters: Waiters<App> = Waiters::new();
    waiters.push(named("confirm", "first"));
    waiters.push(never("never"));
    waiters.push(named("confirm", "second"));
    assert_eq!(waiters.take_first(&fw, &component(1, "confirm")).map(WaiterWaker::wake), Some("first"));
    assert_eq!(waiters.len(), 2);
    assert_eq!(waiters.take_first(&fw, &component(2, "confirm")).map(WaiterWaker::wake), Some("second"));
    assert_eq!(waiters.len(), 1);
    assert_eq!(waiters.take_first(&fw, &component(3, "confirm")).map(WaiterWaker::wake), None);
    assert_eq!(waiters.len(), 1);
}

#[test]
fn an_interaction_nobody_waits_for_changes_nothing() {
    let fw = framework();
    let mut waiters: Waiters<App> = Waiters::new();
    assert!(waiters.take_first(&fw, &component(1, "confirm")).is_none());
    waiters.push(named("confirm", "w"));
    assert!(waiters.take_first(&fw, &component(2, "cancel")).is_none());
    assert_eq!(waiters.len(), 1);
}

#[test]
fn check_asks_the_predicate_with_the_dispatcher() {
    let fw = framework();
    let asked = waker(|framework, interaction| framework.data == interaction.id, "w");
    assert!(asked.check(&fw, &component(40, "x")));
    assert!(!asked.check(&fw, &component(41, "x")));
}

#[test]
fn process_wakes_exactly_one_registered_waiter() {
    let fw = framework();
    fw.register_waiter(never("w1"));
    fw.register_waiter(named("confirm", "w2"));
    match fw.process(&component(1, "confirm"), &component(1, "confirm")) {
        Action::Wake(waker) => assert_eq!(waker.wake(), "w2"),
        _ => panic!("w2 should wake"),
    }
    assert!(matches!(fw.process(&component(2, "confirm"), &component(2, "confirm")), Action::Nothing));
    fw.register_waiter(named("confirm", "w3"));
    match fw.process(&component(3, "confirm"), &component(3, "confirm")) {
        Action::Wake(waker) => assert_eq!(waker.wake(), "w3"),
        _ => panic!("w3 should wake"),
    }
    assert!(matches!(fw.process(&component(4, "confirm"), &component(4, "confirm")), Action::Nothing));
}

#[test]
fn process_keeps_the_order_of_registration() {
    let fw = framework();
    fw.register_waiter(named("confirm", "a"));
    fw.register_waiter(named("confirm", "b"));
    fw.register_waiter(named("confirm", "c"));
    let mut order = Vec::new();
    for id in 0..4 {
        if let Action::Wake(waker) = fw.process(&component(id, "confirm"), &component(id, "confirm")) {
            order.push(waker.wake());
        }
    }
    assert_eq!(order, vec!["a", "b", "c"]);
}

fn of_kind(id: u64, kind: InteractionType) -> Interaction {
    Interaction { id, kind, data: None }
}

#[test]
fn waiters_are_not_asked_about_invocations_and_autocomplete_requests() {
    let fw = framework();
    fw.register_waiter(waker(|_, _| true, "any"));
    let invocation = of_kind(1, InteractionType::ApplicationCommand);
    assert!(matches!(fw.process(&invocation, &invocation), Action::Nothing));
    let request = of_kind(2, InteractionType::ApplicationCommandAutocomplete);
    assert!(matches!(fw.process(&request, &request), Action::Nothing));
    match fw.process(&component(3, "x"), &component(3, "x")) {
        Action::Wake(woken) => assert_eq!(woken.wake(), "any"),
        _ => panic!("the waiter should still be registered"),
    }
}

#[test]
fn waiters_are_asked_about_every_other_kind() {
    let kinds = [
        InteractionType::MessageComponent,
        InteractionType::ModalSubmit,
        InteractionType::Ping,
    ];
    for kind in kinds {
        let fw = framework();
        fw.register_waiter(never("w1"));
        fw.register_waiter(waker(|_, interaction| interaction.id == 7, "w2"));
        let other = of_kind(8, kind);
        assert!(matches!(fw.process(&other, &other), Action::Nothing));
        let awaited = of_kind(7, kind);
        match fw.process(&awaited, &awaited) {
            Action::Wake(woken) => assert_eq!(woken.wake(), "w2"),
            _ => panic!("w2 should wake"),
        }
        assert!(matches!(fw.process(&awaited, &awaited), Action::Nothing));
    }
}

#[test]
fn predicates_see_the_interaction_of_the_transport() {
    let fw = framework();
    fw.register_waiter(named("confirm", "w"));
    let read = of_kind(1, InteractionType::MessageComponent);
    assert!(matches!(fw.process(&read, &component(1, "cancel")), Action::Nothing));
    assert!(matches!(fw.process(&read, &component(1, "confirm")), Action::Wake(_)));
}
