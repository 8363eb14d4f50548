use std::sync::mpsc::channel;

use convert_screenshot::pipeline::{process_batch, EventSink, ImageMsg};

fn describe(m: &ImageMsg) -> String {
    match m {
        ImageMsg::Done { filename } => format!("done {}", filename),
        ImageMsg::Error { text } => format!("error {}", text),
        ImageMsg::Finished => "finished".to_string(),
        ImageMsg::Progress { current, total, filename } => format!("progress {}/{} {}", current, total, filename),
    }
}

#[test]
fn failed_image_does_not_stop_batch() {
    let names = vec!["a.png".to_string(), "b.png".to_string(), "c.png".to_string()];
    let (tx, rx) = channel();
    let mut sink = EventSink::new(tx);
    process_batch(&names, |i| if i == 1 { Err("cannot decode b.png".to_string()) } else { Ok(()) }, &mut sink);
    drop(sink);
    assert_eq!(
        rx.iter().map(|m| describe(&m)).collect::<Vec<_>>(),
        vec![
            "progress 1/3 a.png",
            "done a.png",
            "progress 2/3 b.png",
            "error cannot decode b.png",
            "progress 3/3 c.png",
            "done c.png",
            "finished",
        ]
    );
}

#[test]
fn empty_batch_only_finishes() {
    let names: Vec<String> = Vec::new();
    let (tx, rx) = channel();
    let mut sink = EventSink::new(tx);
    process_batch(&names, |_| Ok(()), &mut sink);
    drop(sink);
    assert_eq!(rx.iter().map(|m| describe(&m)).collect::<Vec<_>>(), vec!["finished"]);
}

#[test]
fn all_failures_still_finish_once() {
    let names = vec!["x.jpg".to_string(), "y.jpg".to_string()];
    let (tx, rx) = channel();
    let mut sink = EventSink::new(tx);
    process_batch(&names, |i| Err(format!("bad {}", i)), &mut sink);
    drop(sink);
    let log: Vec<String> = rx.iter().map(|m| describe(&m)).collect();
    assert_eq!(log, vec!["progress 1/2 x.jpg", "error bad 0", "progress 2/2 y.jpg", "error bad 1", "finished"]);
    assert_eq!(log.iter().filter(|s| *s == "finished").count(), 1);
}

#[test]
fn sink_sends_in_order() {
    let (tx, rx) = channel();
    let mut sink = EventSink::new(tx);
    sink.send(ImageMsg::Progress { current: 1, total: 1, filename: "q.png".to_string() });
    sink.send(ImageMsg::Finished);
    drop(sink);
    assert_eq!(rx.iter().map(|m| describe(&m)).collect::<Vec<_>>(), vec!["progress 1/1 q.png", "finished"]);
}
