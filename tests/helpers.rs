use std::sync::Arc;

use libremexre::logging::{log_level, Level};
use libremexre::report::error_report_lines;
use libremexre::sink::{send_to_sink, settle, Async, AsyncSink, Sink};
use libremexre::{catch, unwrap_arc};

/// Takes items only once it has been asked `refusals` times, or always fails.
struct Slow {
    refusals: u32,
    taken: Vec<u32>,
    broken: bool,
}

impl Sink<u32, String> for Slow {
    fn start_send(&mut self, item: u32) -> Result<AsyncSink<u32>, String> {
        if self.broken {
            return Err(format!("cannot take {}", item));
        }
        if self.refusals > 0 {
            self.refusals -= 1;
            Ok(AsyncSink::NotReady(item))
        } else {
            self.taken.push(item);
            Ok(AsyncSink::Ready)
        }
    }
}

#[test]
fn send_completes_at_once_when_sink_is_ready() {
    let mut task = send_to_sink(Slow { refusals: 0, taken: vec![], broken: false }, 9);
    assert!(!task.is_done());
    match task.poll() {
        Ok(Async::Ready(sink)) => assert_eq!(sink.taken, vec![9]),
        _ => panic!("expected the sink back"),
    }
    assert!(task.is_done());
}

#[test]
fn send_waits_while_sink_refuses() {
    let mut task = send_to_sink(Slow { refusals: 2, taken: vec![], broken: false }, 4);
    assert!(matches!(task.poll(), Ok(Async::NotReady)));
    assert!(!task.is_done());
    assert!(matches!(task.poll(), Ok(Async::NotReady)));
    match task.poll() {
        Ok(Async::Ready(sink)) => {
            assert_eq!(sink.taken, vec![4]);
            assert_eq!(sink.refusals, 0);
        }
        _ => panic!("expected the sink back"),
    }
    assert!(task.is_done());
}

#[test]
fn send_ends_with_the_sink_error() {
    let mut task = send_to_sink(Slow { refusals: 0, taken: vec![], broken: true }, 3);
    match task.poll() {
        Err(e) => assert_eq!(e, "cannot take 3"),
        _ => panic!("expected the sink's error"),
    }
    assert!(task.is_done());
}

#[test]
fn settle_maps_each_answer() {
    let (r, keep) = settle::<u8, u32, String>(1, Ok(AsyncSink::Ready));
    assert!(matches!(r, Ok(Async::Ready(1))));
    assert!(keep.is_none());
    let (r, keep) = settle::<u8, u32, String>(2, Ok(AsyncSink::NotReady(30)));
    assert!(matches!(r, Ok(Async::NotReady)));
    assert_eq!(keep, Some((2, 30)));
    let (r, keep) = settle::<u8, u32, String>(3, Err("no".to_string()));
    assert!(matches!(r, Err(ref e) if e == "no"));
    assert!(keep.is_none());
}

fn strings(v: &[&str]) -> Vec<String> {
    v.iter().map(|s| s.to_string()).collect()
}

#[test]
fn report_of_a_lone_error_is_its_message() {
    assert_eq!(error_report_lines(&strings(&["disk full"])), strings(&["disk full"]));
}

#[test]
fn report_of_no_message_is_empty() {
    assert!(error_report_lines(&Vec::new()).is_empty());
}

#[test]
fn report_lines_up_the_causes() {
    let lines = error_report_lines(&strings(&["cannot save", "cannot open file", "denied"]));
    assert_eq!(
        lines,
        strings(&["           cannot save", "caused by: cannot open file", "caused by: denied"])
    );
}

#[test]
fn catch_runs_the_closure() {
    let base = 20;
    assert_eq!(catch(move || base + 22), 42);
    let r: Result<u8, String> = catch(|| Err("failed".to_string()));
    assert_eq!(r, Err("failed".to_string()));
}

#[test]
fn unwrap_arc_takes_a_unique_value() {
    let arc = Arc::new(vec![1, 2, 3]);
    assert_eq!(unwrap_arc(arc), vec![1, 2, 3]);
}

#[test]
fn unwrap_arc_clones_a_shared_value() {
    let arc = Arc::new(String::from("shared"));
    let other = arc.clone();
    assert_eq!(unwrap_arc(arc), "shared");
    assert_eq!(*other, "shared");
    assert_eq!(Arc::strong_count(&other), 1);
}

#[test]
fn log_level_follows_verbosity_unless_quiet() {
    assert_eq!(log_level(0, false), Level::Info);
    assert_eq!(log_level(1, false), Level::Debug);
    assert_eq!(log_level(2, false), Level::Trace);
    assert_eq!(log_level(usize::MAX, false), Level::Trace);
    assert_eq!(log_level(0, true), Level::Off);
    assert_eq!(log_level(5, true), Level::Off);
}

#[test]
fn resume_keeps_the_handed_back_item_for_the_next_poll() {
    let mut task = send_to_sink(Slow { refusals: 0, taken: vec![], broken: false }, 1);
    let other = Slow { refusals: 0, taken: vec![100], broken: false };
    let r = task.resume::<String>(other, Ok(AsyncSink::NotReady(7)));
    assert!(matches!(r, Ok(Async::NotReady)));
    assert!(!task.is_done());
    match task.poll() {
        Ok(Async::Ready(sink)) => assert_eq!(sink.taken, vec![100, 7]),
        _ => panic!("expected the kept sink back"),
    }
}

#[test]
fn resume_completes_with_the_given_sink() {
    let mut task = send_to_sink(Slow { refusals: 0, taken: vec![], broken: false }, 1);
    let other = Slow { refusals: 3, taken: vec![], broken: false };
    match task.resume::<String>(other, Ok(AsyncSink::Ready)) {
        Ok(Async::Ready(sink)) => assert_eq!(sink.refusals, 3),
        _ => panic!("expected the given sink back"),
    }
    assert!(task.is_done());
}
