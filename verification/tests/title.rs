use logview::keys::Key;
use logview::title::{InputEvent, Msg, Payload, Props, PropsBuilder, TextParts, Title};

#[test]
fn test_ui_layout_components_title() {
    let mut component: Title = Title::new(
        PropsBuilder::default()
            .with_texts(TextParts::new(Some(String::from("Title")), None))
            .build(),
    );
    // Focus
    assert_eq!(component.states.focus, false);
    component.active();
    assert_eq!(component.states.focus, true);
    component.blur();
    assert_eq!(component.states.focus, false);
    // Get value
    assert_eq!(component.get_value(), Payload::Nothing);
    // Event
    assert_eq!(
        component.on(InputEvent::Key(Key::Delete)),
        Msg::OnKey(Key::Delete)
    );
}

#[test]
fn test_title_display_text() {
    let with_title = Title::new(
        PropsBuilder::default()
            .with_texts(TextParts::new(Some(String::from("Log")), None))
            .build(),
    );
    assert_eq!(with_title.display_text(), "Log");

    let without_title = Title::new(PropsBuilder::default().build());
    assert_eq!(without_title.display_text(), "");
}

#[test]
fn test_title_update_replaces_props() {
    let mut component = Title::new(PropsBuilder::default().build());
    assert!(component.props.texts.title.is_none());
    let msg = component.update(
        PropsBuilder::default()
            .with_texts(TextParts::new(Some(String::from("Renamed")), None))
            .build(),
    );
    assert_eq!(msg, Msg::NoOp);
    assert_eq!(component.props.texts.title.as_deref(), Some("Renamed"));
}

#[test]
fn test_title_ignores_resize() {
    let mut component = Title::new(PropsBuilder::default().build());
    assert_eq!(component.on(InputEvent::Resize), Msg::NoOp);
}

#[test]
fn test_props_default_visible() {
    let props: Props = Default::default();
    assert!(props.visible);
    assert!(props.texts.title.is_none());
    assert!(props.texts.body.is_none());
}
