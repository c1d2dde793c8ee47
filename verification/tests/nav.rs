use patternfly_ui::nav::nav;
use patternfly_ui::nav::nav_group;
use patternfly_ui::nav::nav_item;
use patternfly_ui::nav::nav_link;
use patternfly_ui::nav::nav_list;
use patternfly_ui::nav::MsgExpandable;
use patternfly_ui::nav::NavExpandable;
use patternfly_ui::nav::NavExpandableProperties;
use patternfly_ui::nav::NavGroupProperties;
use patternfly_ui::nav::NavLinkProperties;

#[test]
fn nav_container_markup() {
    let markup = nav();
    assert_eq!(markup.class, "pf-v5-c-nav");
    assert_eq!(markup.aria_label, "Global");
}

#[test]
fn nav_list_markup() {
    let markup = nav_list();
    assert_eq!(markup.class, "pf-v5-c-nav__list");
    assert_eq!(markup.role, "list");
}

#[test]
fn nav_group_markup() {
    let markup = nav_group(&NavGroupProperties { title: "Settings".to_string() });
    assert_eq!(markup.section_class, "pf-v5-c-nav__section");
    assert_eq!(markup.title_class, "pf-v5-c-nav__section-title");
    assert_eq!(markup.title, "Settings");
    assert_eq!(markup.list.class, "pf-v5-c-nav__list");
    assert_eq!(markup.list.role, "list");
}

#[test]
fn nav_item_markup() {
    let markup = nav_item();
    assert_eq!(markup.item_class, "pf-v5-c-nav__item");
    assert_eq!(markup.link_class, "pf-v5-c-nav__link");
    assert_eq!(markup.href, "#");
}

#[test]
fn nav_link_markup_passes_target_through() {
    let markup = nav_link(&NavLinkProperties {
        href: "https://example.net/docs".to_string(),
        target: Some("_blank".to_string()),
    });
    assert_eq!(markup.item_class, "pf-v5-c-nav__item");
    assert_eq!(markup.link_class, "pf-v5-c-nav__link");
    assert_eq!(markup.href, "https://example.net/docs");
    assert_eq!(markup.target, Some("_blank".to_string()));

    let plain = nav_link(&NavLinkProperties {
        href: "/home".to_string(),
        target: None,
    });
    assert_eq!(plain.target, None);
}

#[test]
fn created_collapsed_group_is_collapsed() {
    let state = NavExpandable::create(false);
    assert!(!state.is_expanded(false));
    assert!(state.is_expanded(true));
}

#[test]
fn created_expanded_group_holds_an_override() {
    let state = NavExpandable::create(true);
    assert!(state.is_expanded(true));
    assert!(state.is_expanded(false));
}

#[test]
fn active_child_expands_a_group_without_override() {
    let mut state = NavExpandable::create(false);
    assert!(state.update(false, MsgExpandable::ChildState(1, true)));
    assert!(state.is_expanded(false));
    assert!(state.update(false, MsgExpandable::ChildState(1, false)));
    assert!(!state.is_expanded(false));
}

#[test]
fn child_state_reports_are_idempotent() {
    let mut state = NavExpandable::create(false);
    state.update(false, MsgExpandable::ChildState(7, true));
    state.update(false, MsgExpandable::ChildState(7, true));
    assert!(state.is_expanded(false));
    state.update(false, MsgExpandable::ChildState(7, false));
    assert!(!state.is_expanded(false));
    state.update(false, MsgExpandable::ChildState(7, false));
    assert!(!state.is_expanded(false));
}

#[test]
fn several_children_keep_the_group_expanded() {
    let mut state = NavExpandable::create(false);
    state.update(false, MsgExpandable::ChildState(1, true));
    state.update(false, MsgExpandable::ChildState(2, true));
    state.update(false, MsgExpandable::ChildState(1, false));
    assert!(state.is_expanded(false));
    state.update(false, MsgExpandable::ChildState(2, false));
    assert!(!state.is_expanded(false));
}

#[test]
fn toggling_negates_the_effective_expansion() {
    let mut state = NavExpandable::create(false);
    state.update(false, MsgExpandable::Toggle);
    assert!(state.is_expanded(false));
    state.update(false, MsgExpandable::Toggle);
    assert!(!state.is_expanded(false));
}

#[test]
fn toggle_overrides_active_children() {
    let mut state = NavExpandable::create(false);
    state.update(false, MsgExpandable::ChildState(3, true));
    assert!(state.is_expanded(false));
    state.update(false, MsgExpandable::Toggle);
    assert!(!state.is_expanded(false));
}

#[test]
fn changed_properties_can_force_expansion() {
    let mut state = NavExpandable::create(false);
    state.update(false, MsgExpandable::Toggle);
    state.update(false, MsgExpandable::Toggle);
    assert!(!state.is_expanded(false));
    assert!(state.changed(true));
    assert!(state.is_expanded(false));
    assert!(state.changed(false));
    assert!(state.is_expanded(false));
}

#[test]
fn first_render_latches_expansion_from_children() {
    let mut state = NavExpandable::create(false);
    state.update(false, MsgExpandable::ChildState(5, true));
    state.rendered(true, false);
    state.update(false, MsgExpandable::ChildState(5, false));
    assert!(state.is_expanded(false));
}

#[test]
fn later_renders_do_not_latch() {
    let mut state = NavExpandable::create(false);
    state.update(false, MsgExpandable::ChildState(5, true));
    state.rendered(false, false);
    state.update(false, MsgExpandable::ChildState(5, false));
    assert!(!state.is_expanded(false));
}

#[test]
fn expanded_group_markup() {
    let props = NavExpandableProperties {
        title: "Cluster".to_string(),
        expanded: false,
    };
    let state = NavExpandable::create(true);
    let markup = state.view(&props);
    assert_eq!(
        markup.classes,
        vec![
            "pf-v5-c-nav__item".to_string(),
            "pf-m-expandable".to_string(),
            "pf-m-expanded".to_string(),
        ]
    );
    assert_eq!(markup.link_class, "pf-v5-c-nav__link");
    assert_eq!(markup.aria_expanded, "true");
    assert_eq!(markup.title, "Cluster");
    assert_eq!(markup.toggle_class, "pf-v5-c-nav__toggle");
    assert_eq!(markup.toggle_icon_class, "pf-v5-c-nav__toggle-icon");
    assert_eq!(markup.subnav_class, "pf-v5-c-nav__subnav");
    assert!(!markup.subnav_hidden);
    assert_eq!(markup.list.class, "pf-v5-c-nav__list");
}

#[test]
fn collapsed_group_markup() {
    let props = NavExpandableProperties::default();
    let state = NavExpandable::create(false);
    let markup = state.view(&props);
    assert_eq!(
        markup.classes,
        vec!["pf-v5-c-nav__item".to_string(), "pf-m-expandable".to_string()]
    );
    assert_eq!(markup.aria_expanded, "false");
    assert!(markup.subnav_hidden);
}
