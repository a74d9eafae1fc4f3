use tertestrial::pipe::in_dir;
use tertestrial::signal::{interrupt_signal, signals_for_events, PipeEvent, Signal, SignalQueue};

#[test]
fn three_lines_arrive_in_order() {
    let events = vec![
        PipeEvent::LineRead(String::from("first")),
        PipeEvent::LineRead(String::from("second")),
        PipeEvent::LineRead(String::from("third")),
        PipeEvent::EndOfStream,
    ];
    let signals = signals_for_events(events);
    assert_eq!(
        signals,
        vec![
            Signal::Line(String::from("first")),
            Signal::Line(String::from("second")),
            Signal::Line(String::from("third")),
            Signal::Exit,
        ]
    );
}

#[test]
fn failed_read_becomes_exit() {
    let events = vec![
        PipeEvent::LineRead(String::from("only")),
        PipeEvent::ReadFailed,
    ];
    let signals = signals_for_events(events);
    assert_eq!(
        signals,
        vec![Signal::Line(String::from("only")), Signal::Exit]
    );
}

#[test]
fn interrupt_is_exit() {
    assert_eq!(interrupt_signal(), Signal::Exit);
}

#[test]
fn queue_is_first_in_first_out() {
    let mut queue = SignalQueue::new();
    queue.send(Signal::Line(String::from("a")));
    queue.send(Signal::Line(String::from("b")));
    queue.send(Signal::Exit);
    assert_eq!(queue.receive(), Some(Signal::Line(String::from("a"))));
    assert_eq!(queue.receive(), Some(Signal::Line(String::from("b"))));
    assert_eq!(queue.receive(), Some(Signal::Exit));
    assert_eq!(queue.receive(), None);
}

#[test]
fn pipe_path_joins_directory() {
    let pipe = in_dir("/tmp/somewhere");
    assert_eq!(pipe.filepath, "/tmp/somewhere/foo.pipe");
}
