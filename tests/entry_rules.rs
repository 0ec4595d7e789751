use joy_live::cards::{card_entry, join_cards};
use joy_live::component::{App, JoyCards};
use joy_live::joy::{is_blank_text, validate};
use joy_live::questions::{check_title, QuestionsService};

#[test]
fn validate_accepts_filled_fields() {
    assert_eq!(validate("late bus", "commute", " sunshine "), Ok(()));
}

#[test]
fn validate_names_first_blank_field() {
    assert_eq!(validate("  ", "", ""), Err("frustration cannot be empty".to_string()));
    assert_eq!(validate("a", "\t\n", ""), Err("context cannot be empty".to_string()));
    assert_eq!(validate("a", "b", "\u{3000}\u{a0}"), Err("joy cannot be empty".to_string()));
}

#[test]
fn blank_means_only_white_space() {
    assert!(is_blank_text(""));
    assert!(is_blank_text(" \t\r\n\u{2003}"));
    assert!(!is_blank_text("  x "));
    assert!(!is_blank_text("\u{200b}"));
}

#[test]
fn title_must_not_be_blank() {
    assert_eq!(check_title("  "), Err("title cannot be empty".to_string()));
    assert_eq!(check_title("Why?"), Ok(()));
}

#[test]
fn missing_card_names_its_uuid() {
    let id: u128 = 0x67e55044_10b1_426f_9247_bb680e5fe0c8;
    let r: Result<u8, String> = card_entry(id, Ok(None));
    assert_eq!(r, Err("Joy not found: 67e55044-10b1-426f-9247-bb680e5fe0c8".to_string()));
}

#[test]
fn found_card_and_lookup_error_pass_through() {
    assert_eq!(card_entry(1, Ok(Some(5u8))), Ok(5u8));
    assert_eq!(card_entry::<u8>(1, Err("db".to_string())), Err("db".to_string()));
}

#[test]
fn cards_join_in_order() {
    let rs = vec![Ok("<a/>".to_string()), Ok("<b/>".to_string()), Ok(String::new())];
    assert_eq!(join_cards(&rs), Ok("<a/><b/>".to_string()));
    assert_eq!(join_cards(&Vec::new()), Ok(String::new()));
}

#[test]
fn cards_fail_with_first_error() {
    let rs = vec![Ok("<a/>".to_string()), Err("e1".to_string()), Err("e2".to_string())];
    assert_eq!(join_cards(&rs), Err("e1".to_string()));
    assert!(matches!(JoyCards::assemble(&rs), Err(ref e) if e == "e1"));
}

#[test]
fn card_list_and_app_hold_their_parts() {
    let rs = vec![Ok("<x/>".to_string()), Ok("<y/>".to_string())];
    let cards = JoyCards::assemble(&rs).unwrap();
    assert_eq!(cards.joy_cards, "<x/><y/>");
    let app = App::new("<form/>".to_string(), cards.joy_cards);
    assert_eq!(app.joy_form, "<form/>");
    assert_eq!(app.joy_cards, "<x/><y/>");
}

#[test]
fn questions_are_kept_per_user_in_order() {
    let mut s = QuestionsService::new();
    assert!(s.list_for_user(1).is_empty());
    s.create(1, "first".to_string());
    s.create(2, "other".to_string());
    s.create(1, "second".to_string());
    let mine = s.list_for_user(1);
    assert_eq!(mine.len(), 2);
    assert_eq!(mine[0].title, "first");
    assert_eq!(mine[1].title, "second");
    assert!(mine.iter().all(|q| q.user_id == 1));
    assert_ne!(mine[0].id, mine[1].id);
    let theirs = s.list_for_user(2);
    assert_eq!(theirs.len(), 1);
    assert_eq!(theirs[0].title, "other");
}

#[test]
fn question_ids_are_random_uuids() {
    let mut s = QuestionsService::new();
    s.create(3, "q".to_string());
    let id = s.list_for_user(3)[0].id;
    assert_eq!((id >> 76) & 0xf, 4);
    assert_eq!((id >> 62) & 0x3, 2);
}
