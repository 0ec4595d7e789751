use joy_live::hub::{report_of, EventBus, SendOutcome, SseService};
use joy_live::stream::{on_delivery, Delivery, StreamStep};
use tokio::sync::broadcast::error::{SendError, TryRecvError};
use tokio::sync::broadcast::Receiver;

/// What a subscriber has waiting, as the event stream sees it; `None` when
/// nothing is waiting yet.
fn next_delivery(rx: &mut Receiver<String>) -> Option<Delivery> {
    match rx.try_recv() {
        Ok(html) => Some(Delivery::Fragment(html)),
        Err(TryRecvError::Lagged(n)) => Some(Delivery::Lagged(n)),
        Err(TryRecvError::Closed) => Some(Delivery::Closed),
        Err(TryRecvError::Empty) => None,
    }
}

/// The event data that a subscriber writes out for everything waiting.
fn drain_events(rx: &mut Receiver<String>) -> Vec<String> {
    let mut out = Vec::new();
    while let Some(d) = next_delivery(rx) {
        match on_delivery(d) {
            StreamStep::Emit(e) => out.push(e.data),
            StreamStep::Skip => {}
            StreamStep::Stop => break,
        }
    }
    out
}

#[test]
fn publish_without_subscribers_reports_zero() {
    let hub = SseService::new(100);
    assert_eq!(hub.live_subscribers(), 0);
    assert_eq!(hub.publish_html("<div>nobody</div>".to_string()).delivered, 0);
}

#[test]
fn publish_reaches_every_subscriber() {
    let hub = SseService::new(100);
    let mut subs: Vec<Receiver<String>> = (0..3).map(|_| hub.subscriber()).collect();
    assert_eq!(hub.publish_html("<b>same</b>".to_string()).delivered, 3);
    for rx in subs.iter_mut() {
        assert_eq!(rx.try_recv().unwrap(), "<b>same</b>");
        assert!(matches!(rx.try_recv(), Err(TryRecvError::Empty)));
    }
}

#[test]
fn subscriber_sees_only_later_fragments() {
    let hub = SseService::new(100);
    let mut early = hub.subscriber();
    hub.publish_html("one".to_string());
    let mut late = hub.subscriber();
    hub.publish_html("two".to_string());
    assert_eq!(drain_events(&mut early), vec!["elements one", "elements two"]);
    assert_eq!(drain_events(&mut late), vec!["elements two"]);
}

#[test]
fn lagging_subscriber_does_not_affect_others() {
    let hub = SseService::new(2);
    let mut slow = hub.subscriber();
    let mut fast = hub.subscriber();
    let mut fast_got = Vec::new();
    for i in 0..5 {
        assert_eq!(hub.publish_html(format!("m{}", i)).delivered, 2);
        fast_got.extend(drain_events(&mut fast));
    }
    assert_eq!(fast_got, vec!["elements m0", "elements m1", "elements m2", "elements m3", "elements m4"]);
    // the slow one skips forward to what its backlog still holds
    assert!(matches!(next_delivery(&mut slow), Some(Delivery::Lagged(3))));
    assert_eq!(drain_events(&mut slow), vec!["elements m3", "elements m4"]);
    // and it keeps receiving afterwards
    hub.publish_html("m5".to_string());
    assert_eq!(drain_events(&mut slow), vec!["elements m5"]);
    assert_eq!(drain_events(&mut fast), vec!["elements m5"]);
}

#[test]
fn dropping_a_subscription_releases_it() {
    let hub = SseService::new(100);
    let a = hub.subscriber();
    let mut b = hub.subscriber();
    assert_eq!(hub.live_subscribers(), 2);
    drop(a);
    assert_eq!(hub.live_subscribers(), 1);
    assert_eq!(hub.publish_html("x".to_string()).delivered, 1);
    assert_eq!(b.try_recv().unwrap(), "x");
    drop(b);
    assert_eq!(hub.live_subscribers(), 0);
    assert_eq!(hub.publish_html("y".to_string()).delivered, 0);
}

#[test]
fn dropped_hub_closes_the_stream() {
    let hub = SseService::new(4);
    let mut rx = hub.subscriber();
    hub.publish_html("last".to_string());
    drop(hub);
    assert!(matches!(next_delivery(&mut rx), Some(Delivery::Fragment(ref s)) if s == "last"));
    assert!(matches!(next_delivery(&mut rx), Some(Delivery::Closed)));
    assert!(matches!(on_delivery(Delivery::Closed), StreamStep::Stop));
}

#[test]
fn end_to_end_two_subscribers() {
    let hub = SseService::new(100);
    let mut s1 = hub.subscriber();
    assert_eq!(hub.publish_html("<div>A</div>".to_string()).delivered, 1);
    let mut got1 = drain_events(&mut s1);
    assert_eq!(got1, vec!["elements <div>A</div>"]);
    let mut s2 = hub.subscriber();
    assert_eq!(hub.publish_html("<div>B</div>".to_string()).delivered, 2);
    got1.extend(drain_events(&mut s1));
    let got2 = drain_events(&mut s2);
    assert_eq!(got1, vec!["elements <div>A</div>", "elements <div>B</div>"]);
    assert_eq!(got2, vec!["elements <div>B</div>"]);
    assert_eq!(got1.len(), 2);
    assert_eq!(got2.len(), 1);
}

#[test]
fn rendered_fragment_is_published() {
    let hub = SseService::new(8);
    let mut rx = hub.subscriber();
    let r = hub.publish_rendered(Ok("<ul></ul>".to_string())).unwrap();
    assert_eq!(r.live, 1);
    assert!(matches!(r.outcome, SendOutcome::Reached(1)));
    assert_eq!(r.delivered, 1);
    assert_eq!(rx.try_recv().unwrap(), "<ul></ul>");
}

#[test]
fn render_failure_is_passed_on_and_not_published() {
    let hub = SseService::new(8);
    let mut rx = hub.subscriber();
    assert!(matches!(hub.publish_rendered(Err("template".to_string())), Err(ref e) if e == "template"));
    assert!(matches!(rx.try_recv(), Err(TryRecvError::Empty)));
}

#[test]
fn report_of_publish_outcomes() {
    let r = report_of(0, &None);
    assert!(r.live == 0 && matches!(r.outcome, SendOutcome::NotSent) && r.delivered == 0);
    let r = report_of(0, &Some(Ok(3)));
    assert!(matches!(r.outcome, SendOutcome::NotSent) && r.delivered == 0);
    let r = report_of(2, &Some(Ok(2)));
    assert!(r.live == 2 && matches!(r.outcome, SendOutcome::Reached(2)) && r.delivered == 2);
    let r = report_of(1, &Some(Err(SendError("x".to_string()))));
    assert!(matches!(r.outcome, SendOutcome::NobodyLeft) && r.delivered == 0);
    let r = report_of(4, &None);
    assert!(matches!(r.outcome, SendOutcome::NobodyLeft) && r.delivered == 0);
}

#[test]
fn publish_on_fresh_hub_sends_nothing() {
    let hub = SseService::new(100);
    let r = hub.publish_html("<div>A</div>".to_string());
    assert_eq!(r.live, 0);
    assert!(matches!(r.outcome, SendOutcome::NotSent));
    assert_eq!(r.delivered, 0);
    let mut later = hub.subscriber();
    assert!(later.try_recv().is_err());
}

#[test]
fn event_bus_without_subscribers_reports_zero() {
    let bus = EventBus::new(16);
    let r = bus.publish("lonely".to_string());
    assert_eq!(r.live, 0);
    assert!(matches!(r.outcome, SendOutcome::NotSent));
    assert_eq!(r.delivered, 0);
}

#[test]
fn event_bus_delivers_to_subscribers() {
    let bus = EventBus::new(16);
    let mut a = bus.subscribe();
    let mut b = bus.subscribe();
    assert_eq!(bus.publish("e".to_string()).delivered, 2);
    assert_eq!(a.try_recv().unwrap(), "e");
    assert_eq!(b.try_recv().unwrap(), "e");
}
