use joy_live::stream::{fragment_event, on_delivery, strip_line_breaks, Delivery, StreamStep, PATCH_EVENT};

#[test]
fn strips_newlines_and_carriage_returns() {
    assert_eq!(strip_line_breaks("<ul>\n  <li>a</li>\r\n</ul>\n"), "<ul>  <li>a</li></ul>");
}

#[test]
fn strip_keeps_text_without_line_breaks() {
    assert_eq!(strip_line_breaks("<div>A</div>"), "<div>A</div>");
    assert_eq!(strip_line_breaks(""), "");
    assert_eq!(strip_line_breaks("\n\r\n"), "");
}

#[test]
fn strip_keeps_other_characters_in_order() {
    assert_eq!(strip_line_breaks("é\tß\n☃"), "é\tß☃");
}

#[test]
fn fragment_event_frames_payload() {
    let e = fragment_event("<div>\nA\n</div>");
    assert_eq!(e.event, "datastar-patch-elements");
    assert_eq!(e.event, PATCH_EVENT);
    assert_eq!(e.data, "elements <div>A</div>");
}

#[test]
fn delivery_of_fragment_emits_one_event() {
    match on_delivery(Delivery::Fragment("<p>x</p>\r\n".to_string())) {
        StreamStep::Emit(e) => {
            assert_eq!(e.event, "datastar-patch-elements");
            assert_eq!(e.data, "elements <p>x</p>");
        }
        _ => panic!("expected an event"),
    }
}

#[test]
fn lag_is_skipped_without_ending_the_stream() {
    assert!(matches!(on_delivery(Delivery::Lagged(5)), StreamStep::Skip));
}

#[test]
fn closed_subscription_stops_the_stream() {
    assert!(matches!(on_delivery(Delivery::Closed), StreamStep::Stop));
}
