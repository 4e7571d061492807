use awake_toggle::event::Event;

#[test]
fn menu_ids_are_exact() {
    assert_eq!(Event::Activate.menu_id(), "action");
    assert_eq!(Event::Quit.menu_id(), "quit");
}

#[test]
fn menu_id_reads_back_as_its_event() {
    assert_eq!(Event::from_menu_id(Event::Activate.menu_id()), Some(Event::Activate));
    assert_eq!(Event::from_menu_id(Event::Quit.menu_id()), Some(Event::Quit));
    assert_eq!(Event::from_menu_id("action"), Some(Event::Activate));
    assert_eq!(Event::from_menu_id("quit"), Some(Event::Quit));
}

#[test]
fn unknown_menu_id_is_no_event() {
    assert_eq!(Event::from_menu_id(""), None);
    assert_eq!(Event::from_menu_id("tray"), None);
    assert_eq!(Event::from_menu_id("Quit"), None);
    assert_eq!(Event::from_menu_id("quit "), None);
    assert_eq!(Event::from_menu_id("actio"), None);
    assert_eq!(Event::from_menu_id("actions"), None);
    assert_eq!(Event::from_menu_id("Enable"), None);
}
