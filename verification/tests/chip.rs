use patternfly_ui::chip::chip;
use patternfly_ui::chip::render_badge;
use patternfly_ui::chip::render_close;
use patternfly_ui::chip::render_icon;
use patternfly_ui::chip::ChipProperties;
use patternfly_ui::chip::ChipStyles;

#[test]
fn default_chip_is_a_plain_container_with_the_base_class() {
    let props = ChipProperties::default();
    let markup = chip(&props);
    assert!(!markup.container_is_button);
    assert_eq!(markup.classes, vec!["pf-v5-c-chip".to_string()]);
    assert_eq!(markup.text, "");
    assert_eq!(markup.icon, None);
    assert_eq!(markup.badge, None);
    assert_eq!(markup.close, None);
}

#[test]
fn draggable_chip_carries_the_draggable_modifier() {
    let props = ChipProperties { draggable: true, ..ChipProperties::default() };
    let markup = chip(&props);
    assert_eq!(
        markup.classes,
        vec!["pf-v5-c-chip".to_string(), "pf-m-draggable".to_string()]
    );
}

#[test]
fn overflow_chip_is_a_button_with_the_overflow_modifier() {
    let props = ChipProperties {
        text: "3 more".to_string(),
        overflow: true,
        draggable: true,
        ..ChipProperties::default()
    };
    let markup = chip(&props);
    assert!(markup.container_is_button);
    assert_eq!(
        markup.classes,
        vec![
            "pf-v5-c-chip".to_string(),
            "pf-m-draggable".to_string(),
            "pf-m-overflow".to_string(),
        ]
    );
    assert_eq!(markup.text, "3 more");
}

#[test]
fn icon_span_appears_exactly_when_an_icon_is_supplied() {
    let without = ChipProperties::default();
    assert_eq!(render_icon(&without), None);

    let with = ChipProperties { icon: true, ..ChipProperties::default() };
    assert_eq!(render_icon(&with), Some("pf-v5-c-chip__icon".to_string()));
    assert_eq!(chip(&with).icon, Some(ChipStyles::CHIP_ICON.to_string()));
}

#[test]
fn badge_appears_exactly_when_one_is_supplied() {
    let without = ChipProperties::default();
    assert_eq!(render_badge(&without), None);

    let with = ChipProperties {
        badge: Some("7".to_string()),
        ..ChipProperties::default()
    };
    assert_eq!(render_badge(&with), Some("7".to_string()));
    assert_eq!(chip(&with).badge, Some("7".to_string()));
}

#[test]
fn close_action_appears_exactly_when_a_callback_is_supplied() {
    let without = ChipProperties::default();
    assert_eq!(render_close(&without), None);

    let with = ChipProperties { onclose: true, ..ChipProperties::default() };
    assert_eq!(render_close(&with), Some("pf-v5-c-chip__actions".to_string()));
    assert_eq!(chip(&with).close, Some("pf-v5-c-chip__actions".to_string()));
}
