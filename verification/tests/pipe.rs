use thunderclap::base::{DropEvent, ObservedEvent, WindowEvent};
use thunderclap::pipe::{Event, UnboundTerminal};
use thunderclap::text::TextAreaEvent;
use thunderclap::widgets::{ButtonEvent, CheckboxEvent};

#[derive(Clone)]
enum TestEvent {
    CountUp,
    CountDown,
}

impl Event for TestEvent {
    fn get_key(&self) -> &'static str {
        match self {
            TestEvent::CountUp => "count_up",
            TestEvent::CountDown => "count_down",
        }
    }
}

type Handler = Box<dyn FnMut(&mut Test, &mut (), TestEvent)>;

struct Test {
    terminal: Option<UnboundTerminal<Handler>>,
    count: u32,
}

impl Test {
    fn update(&mut self, queue: &mut Vec<TestEvent>) {
        let mut terminal = self.terminal.take().unwrap();
        let events: Vec<TestEvent> = queue.drain(..).collect();
        for (event_index, handler_index) in terminal.dispatch(&events) {
            let handler = terminal.handler_mut(handler_index);
            handler(self, &mut (), events[event_index].clone());
        }
        self.terminal = Some(terminal);
    }
}

#[test]
fn pipe_test_pipelines() {
    let mut event_queue: Vec<TestEvent> = Vec::new();

    let count_up: Handler = Box::new(|obj: &mut Test, _aux: &mut (), _ev: TestEvent| {
        obj.count += 1;
    });
    let count_down: Handler = Box::new(|obj: &mut Test, _aux: &mut (), _ev: TestEvent| {
        obj.count -= 1;
    });
    let terminal: UnboundTerminal<Handler> =
        UnboundTerminal::new().on("count_up", count_up).on("count_down", count_down);

    let mut test = Test { terminal: Some(terminal), count: 0 };

    test.update(&mut event_queue); // 0

    event_queue.push(TestEvent::CountUp); // 1
    event_queue.push(TestEvent::CountUp); // 2
    event_queue.push(TestEvent::CountUp); // 3
    event_queue.push(TestEvent::CountDown); // 2 - final value

    test.update(&mut event_queue);

    assert_eq!(test.count, 2);
}

#[test]
fn terminal_rebinding_a_key_replaces_its_handler() {
    let t: UnboundTerminal<u32> = UnboundTerminal::new().on("a", 1).on("b", 2).on("a", 3);
    assert_eq!(t.len(), 2);
    assert_eq!(t.handler_index("a"), Some(0));
    assert_eq!(t.handler_index("b"), Some(1));
    assert_eq!(t.handler_index("c"), None);
    let mut t = t;
    assert_eq!(*t.handler_mut(0), 3);
    assert_eq!(*t.handler_mut(1), 2);
}

#[test]
fn dispatch_skips_unbound_keys_and_keeps_order() {
    let t: UnboundTerminal<&str> = UnboundTerminal::new().on("count_down", "down");
    let events = vec![TestEvent::CountUp, TestEvent::CountDown, TestEvent::CountUp, TestEvent::CountDown];
    assert_eq!(t.dispatch(&events), vec![(1, 0), (3, 0)]);
    let empty: UnboundTerminal<&str> = UnboundTerminal::new();
    assert_eq!(empty.dispatch(&events), vec![]);
}

#[test]
fn event_keys_of_library_events() {
    assert_eq!(ButtonEvent::Press(1u8).get_key(), "press");
    assert_eq!(ButtonEvent::<u8>::Blur.get_key(), "blur");
    assert_eq!(CheckboxEvent::Check(0u8).get_key(), "check");
    assert_eq!(CheckboxEvent::Uncheck(0u8).get_key(), "uncheck");
    assert_eq!(CheckboxEvent::EndHover(0u8).get_key(), "end_hover");
    assert_eq!(TextAreaEvent::UserModify("x".to_string()).get_key(), "user_modify");
    assert_eq!(WindowEvent::<u8>::ClearFocus.get_key(), "clear_focus");
    assert_eq!(ObservedEvent.get_key(), "change");
    assert_eq!(DropEvent.get_key(), "drop");
}

#[test]
fn dispatch_after_rebinding_reaches_only_the_new_handler() {
    let t: UnboundTerminal<&str> = UnboundTerminal::new()
        .on("count_up", "first")
        .on("count_down", "down")
        .on("count_up", "second");
    let events = vec![TestEvent::CountUp, TestEvent::CountDown];
    let routes = t.dispatch(&events);
    assert_eq!(routes, vec![(0, 0), (1, 1)]);
    let mut t = t;
    assert_eq!(*t.handler_mut(routes[0].1), "second");
    assert_eq!(*t.handler_mut(routes[1].1), "down");
}
