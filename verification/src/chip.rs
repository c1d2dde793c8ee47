//! The chip component: a small token communicating a value, or an
//! attribute-value pair, in filtering workflows. A chip renders its text with
//! an optional leading icon, an optional count badge and an optional close
//! action, inside a button when it stands for an overflow of further chips
//! and inside a plain container otherwise.

use vstd::prelude::*;

use crate::classes::class_views;
use crate::classes::push_class;

verus! {

/// Class-name vocabulary of the chip component.
pub struct ChipStyles;

impl ChipStyles {
    pub const CHIP: &'static str = "pf-v5-c-chip";

    pub const CHIP_CONTENT: &'static str = "pf-v5-c-chip__content";

    pub const CHIP_TEXT: &'static str = "pf-v5-c-chip__text";

    pub const CHIP_ICON: &'static str = "pf-v5-c-chip__icon";

    pub const CHIP_ACTIONS: &'static str = "pf-v5-c-chip__actions";

    pub const BADGE: &'static str = "pf-v5-c-badge";

    pub const MODIFIERS_READ: &'static str = "pf-m-read";

    pub const MODIFIERS_DRAGGABLE: &'static str = "pf-m-draggable";

    pub const MODIFIERS_OVERFLOW: &'static str = "pf-m-overflow";
}

/// Configuration of a chip. The model records, of the icon and of the close
/// callback, only whether one was supplied: the rendering layer holds the
/// icon glyph and the callback themselves.
#[derive(Clone, Debug, PartialEq)]
pub struct ChipProperties {
    /// Text of the chip.
    pub text: String,
    /// Count badge shown after the text.
    pub badge: Option<String>,
    /// Whether the chip stands for an overflow of further chips.
    pub overflow: bool,
    /// Whether the chip can be dragged.
    pub draggable: bool,
    /// Whether a close callback was supplied.
    pub onclose: bool,
    /// Whether an icon was supplied.
    pub icon: bool,
}

impl Default for ChipProperties {
    /// The default configuration: an empty, plain chip with no badge, icon
    /// or close action.
    fn default() -> (r: Self)
        ensures
            r.text@.len() == 0,
            r.badge is None,
            !r.overflow,
            !r.draggable,
            !r.onclose,
            !r.icon,
    {
        ChipProperties {
            text: String::new(),
            badge: None,
            overflow: false,
            draggable: false,
            onclose: false,
            icon: false,
        }
    }
}

/// Everything variable about the markup of a chip: its outer container, its
/// class list, its text, and which optional parts are present.
#[derive(Clone, Debug, PartialEq)]
pub struct ChipMarkup {
    /// Whether the outer container is a button; otherwise it is a plain
    /// division container.
    pub container_is_button: bool,
    pub classes: Vec<String>,
    pub text: String,
    /// Class of the icon span, present when an icon was supplied.
    pub icon: Option<String>,
    /// Text of the count badge, present when a badge was supplied.
    pub badge: Option<String>,
    /// Class of the close-action span, present when a close callback was
    /// supplied.
    pub close: Option<String>,
}

/// The class tokens of a chip: the base token, then the draggable and
/// overflow modifiers when called for.
pub open spec fn spec_chip_classes(props: &ChipProperties) -> Seq<Seq<char>> {
    seq!["pf-v5-c-chip"@] + (if props.draggable {
        seq!["pf-m-draggable"@]
    } else {
        Seq::<Seq<char>>::empty()
    }) + (if props.overflow {
        seq!["pf-m-overflow"@]
    } else {
        Seq::<Seq<char>>::empty()
    })
}

/// The icon span of a chip: its class, when an icon was supplied.
pub fn render_icon(props: &ChipProperties) -> (r: Option<String>)
    ensures
        r is Some <==> props.icon,
        r is Some ==> r->0@ == "pf-v5-c-chip__icon"@,
{
    if props.icon {
        Some(ChipStyles::CHIP_ICON.to_owned())
    } else {
        None
    }
}

/// The count badge of a chip: its text, when a badge was supplied.
pub fn render_badge(props: &ChipProperties) -> (r: Option<String>)
    ensures
        r is Some <==> props.badge is Some,
        r is Some ==> r->0@ == props.badge->0@,
{
    match &props.badge {
        Some(badge) => Some(badge.clone()),
        None => None,
    }
}

/// The close action of a chip: the class of its span, when a close callback
/// was supplied.
pub fn render_close(props: &ChipProperties) -> (r: Option<String>)
    ensures
        r is Some <==> props.onclose,
        r is Some ==> r->0@ == "pf-v5-c-chip__actions"@,
{
    if props.onclose {
        Some(ChipStyles::CHIP_ACTIONS.to_owned())
    } else {
        None
    }
}

/// Compute the markup of a chip. An overflow chip renders as a button, any
/// other as a plain container; the icon, badge and close parts appear
/// exactly when their properties call for them.
pub fn chip(props: &ChipProperties) -> (r: ChipMarkup)
    ensures
        r.container_is_button == props.overflow,
        class_views(r.classes@) =~= spec_chip_classes(props),
        r.text@ == props.text@,
        r.icon is Some <==> props.icon,
        r.icon is Some ==> r.icon->0@ == "pf-v5-c-chip__icon"@,
        r.badge is Some <==> props.badge is Some,
        r.badge is Some ==> r.badge->0@ == props.badge->0@,
        r.close is Some <==> props.onclose,
        r.close is Some ==> r.close->0@ == "pf-v5-c-chip__actions"@,
{
    let mut classes: Vec<String> = Vec::new();
    push_class(&mut classes, ChipStyles::CHIP);

    if props.draggable {
        push_class(&mut classes, ChipStyles::MODIFIERS_DRAGGABLE);
    }

    // this is only used in the chip group component
    if props.overflow {
        push_class(&mut classes, ChipStyles::MODIFIERS_OVERFLOW);
    }

    ChipMarkup {
        container_is_button: props.overflow,
        classes,
        text: props.text.clone(),
        icon: render_icon(props),
        badge: render_badge(props),
        close: render_close(props),
    }
}

} // verus!
