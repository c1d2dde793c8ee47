//! The accordion component: a stack of expandable panes. An accordion chooses
//! its container tags once, from a single flag, and hands them down to its
//! descendants as a context value so that toggles and content panes render
//! consistently.

use vstd::prelude::*;

use crate::classes::class_views;
use crate::classes::extend_classes;
use crate::classes::push_class;

verus! {

/// Class-name vocabulary of the accordion component.
pub struct AccordionStyles;

impl AccordionStyles {
    pub const ACCORDION: &'static str = "pf-v5-c-accordion";

    pub const ACCORDION_EXPANDABLE_CONTENT: &'static str = "pf-v5-c-accordion__expandable-content";

    pub const ACCORDION_EXPANDABLE_CONTENT_BODY: &'static str =
        "pf-v5-c-accordion__expandable-content-body";

    pub const ACCORDION_TOGGLE: &'static str = "pf-v5-c-accordion__toggle";

    pub const ACCORDION_TOGGLE_ICON: &'static str = "pf-v5-c-accordion__toggle-icon";

    pub const ACCORDION_TOGGLE_TEXT: &'static str = "pf-v5-c-accordion__toggle-text";

    pub const THEME_DARK: &'static str = "pf-v5-theme-dark";

    pub const MODIFIERS_DISPLAY_LG: &'static str = "pf-m-display-lg";

    pub const MODIFIERS_BORDERED: &'static str = "pf-m-bordered";

    pub const MODIFIERS_EXPANDED: &'static str = "pf-m-expanded";

    pub const MODIFIERS_FIXED: &'static str = "pf-m-fixed";
}

/// Heading level used for the toggle container when the accordion is not a
/// definition list.
#[derive(Clone, Debug, PartialEq, Eq, Structural)]
pub enum AccordionHeadingLevel {
    H1,
    H2,
    H3,
    H4,
    H5,
    H6,
}

impl AccordionHeadingLevel {
    /// The heading tag this level renders as.
    pub open spec fn spec_level(&self) -> Seq<char> {
        match self {
            AccordionHeadingLevel::H1 => "h1"@,
            AccordionHeadingLevel::H2 => "h2"@,
            AccordionHeadingLevel::H3 => "h3"@,
            AccordionHeadingLevel::H4 => "h4"@,
            AccordionHeadingLevel::H5 => "h5"@,
            AccordionHeadingLevel::H6 => "h6"@,
        }
    }

    pub fn level(&self) -> (r: &'static str)
        ensures
            r@ == self.spec_level(),
    {
        match self {
            AccordionHeadingLevel::H1 => "h1",
            AccordionHeadingLevel::H2 => "h2",
            AccordionHeadingLevel::H3 => "h3",
            AccordionHeadingLevel::H4 => "h4",
            AccordionHeadingLevel::H5 => "h5",
            AccordionHeadingLevel::H6 => "h6",
        }
    }
}

/// Display size of the accordion: default, or large.
#[derive(Clone, Debug, PartialEq, Eq, Structural)]
pub enum AccordionDisplaySize {
    DEFAULT,
    LG,
}

impl AccordionDisplaySize {
    /// The modifier token this size contributes; empty for the default size.
    pub open spec fn spec_classes(&self) -> Seq<char> {
        match self {
            AccordionDisplaySize::DEFAULT => ""@,
            AccordionDisplaySize::LG => "pf-m-display-lg"@,
        }
    }

    pub fn classes(&self) -> (r: &'static str)
        ensures
            r@ == self.spec_classes(),
    {
        match self {
            AccordionDisplaySize::DEFAULT => "",
            AccordionDisplaySize::LG => AccordionStyles::MODIFIERS_DISPLAY_LG,
        }
    }
}

/// Container tags an accordion passes down to its descendants. Selected once
/// per accordion and immutable for the lifetime of the subtree.
#[derive(Clone, Debug, PartialEq)]
pub struct AccordionContextProps {
    pub content_container: String,
    pub toggle_container: String,
}

/// Configuration of an accordion.
#[derive(Clone, Debug, PartialEq)]
pub struct AccordionProperties {
    /// Additional classes added to the accordion.
    pub class: Vec<String>,
    /// Accessible text for the accordion.
    pub aria_label: Option<String>,
    /// Heading level for the toggle container when not a definition list.
    pub heading_level: AccordionHeadingLevel,
    /// Whether the accordion consumes the available height of its container.
    pub full_height: bool,
    /// Whether the accordion renders as a definition list rather than a div.
    pub as_definition_list: bool,
    /// Whether the accordion has a border.
    pub bordered: bool,
    /// Display size of the accordion.
    pub display_size: AccordionDisplaySize,
}

impl Default for AccordionProperties {
    /// The default configuration: a borderless definition list of default
    /// size with an `h3` heading level and no extra classes.
    fn default() -> (r: Self)
        ensures
            r.class@.len() == 0,
            r.aria_label is None,
            r.heading_level == AccordionHeadingLevel::H3,
            !r.full_height,
            r.as_definition_list,
            !r.bordered,
            r.display_size == AccordionDisplaySize::DEFAULT,
    {
        AccordionProperties {
            class: Vec::new(),
            aria_label: None,
            heading_level: AccordionHeadingLevel::H3,
            full_height: false,
            as_definition_list: true,
            bordered: false,
            display_size: AccordionDisplaySize::DEFAULT,
        }
    }
}

/// Everything variable about the markup of an accordion: its outer container
/// tag, its optional landmark role, its accessible label, its class list,
/// and the context passed to descendants.
#[derive(Clone, Debug, PartialEq)]
pub struct AccordionMarkup {
    pub list_tag: &'static str,
    pub role: Option<&'static str>,
    pub aria_label: Option<String>,
    pub classes: Vec<String>,
    pub context: AccordionContextProps,
}

/// The class tokens of an accordion: the base token, then the border and
/// large-display modifiers when called for, then the caller's own classes.
pub open spec fn spec_accordion_classes(props: &AccordionProperties) -> Seq<Seq<char>> {
    seq!["pf-v5-c-accordion"@] + (if props.bordered {
        seq!["pf-m-bordered"@]
    } else {
        Seq::<Seq<char>>::empty()
    }) + (if props.display_size == AccordionDisplaySize::LG {
        seq!["pf-m-display-lg"@]
    } else {
        Seq::<Seq<char>>::empty()
    }) + class_views(props.class@)
}

/// Compute the markup of an accordion. A definition list renders as `dl` with
/// `dd`/`dt` containers for its descendants; otherwise it renders as `div`
/// with a `div` content container and a heading toggle container, and carries
/// the `region` role when it has an accessible label.
pub fn accordion(props: &AccordionProperties) -> (r: AccordionMarkup)
    ensures
        r.list_tag@ == (if props.as_definition_list {
            "dl"@
        } else {
            "div"@
        }),
        r.role is Some <==> (!props.as_definition_list && props.aria_label is Some),
        r.role is Some ==> r.role->0@ == "region"@,
        r.aria_label is Some <==> props.aria_label is Some,
        r.aria_label is Some ==> r.aria_label->0@ == props.aria_label->0@,
        r.context.content_container@ == (if props.as_definition_list {
            "dd"@
        } else {
            "div"@
        }),
        r.context.toggle_container@ == (if props.as_definition_list {
            "dt"@
        } else {
            props.heading_level.spec_level()
        }),
        class_views(r.classes@) =~= spec_accordion_classes(props),
{
    let list_tag: &'static str = if props.as_definition_list {
        "dl"
    } else {
        "div"
    };

    let role: Option<&'static str> = if !props.as_definition_list && props.aria_label.is_some() {
        Some("region")
    } else {
        None
    };

    let content_container: &'static str = if props.as_definition_list {
        "dd"
    } else {
        "div"
    };
    let toggle_container: &'static str = if props.as_definition_list {
        "dt"
    } else {
        props.heading_level.level()
    };
    let context = AccordionContextProps {
        content_container: content_container.to_owned(),
        toggle_container: toggle_container.to_owned(),
    };

    let mut classes: Vec<String> = Vec::new();
    push_class(&mut classes, AccordionStyles::ACCORDION);
    if props.bordered {
        push_class(&mut classes, AccordionStyles::MODIFIERS_BORDERED);
    }
    match props.display_size {
        AccordionDisplaySize::DEFAULT => {},
        AccordionDisplaySize::LG => {
            push_class(&mut classes, AccordionStyles::MODIFIERS_DISPLAY_LG);
        },
    }
    extend_classes(&mut classes, &props.class);

    let aria_label: Option<String> = match &props.aria_label {
        Some(label) => Some(label.clone()),
        None => None,
    };

    AccordionMarkup { list_tag, role, aria_label, classes, context }
}

/// Configuration of an accordion content pane.
#[derive(Clone, Debug, PartialEq)]
pub struct AccordionContentProperties {
    /// Additional classes added to the content pane.
    pub class: Vec<String>,
    /// Identifies the content pane.
    pub id: String,
    /// Whether the expanded content of the pane is hidden.
    pub hidden: bool,
    /// Whether the content is fixed.
    pub fixed: bool,
    /// Accessible text for the content pane.
    pub aria_label: String,
    /// Id of the controlling toggle that labels the content.
    pub aria_labelledby: String,
    /// Explicit container tag, overriding the accordion context.
    pub component: Option<String>,
    /// Whether the caller supplies its own content body.
    pub custom_content: bool,
}

impl Default for AccordionContentProperties {
    /// The default configuration: visible, not fixed, no identifiers, no
    /// container override.
    fn default() -> (r: Self)
        ensures
            r.class@.len() == 0,
            r.id@.len() == 0,
            !r.hidden,
            !r.fixed,
            r.aria_label@.len() == 0,
            r.aria_labelledby@.len() == 0,
            r.component is None,
            !r.custom_content,
    {
        AccordionContentProperties {
            class: Vec::new(),
            id: String::new(),
            hidden: false,
            fixed: false,
            aria_label: String::new(),
            aria_labelledby: String::new(),
            component: None,
            custom_content: false,
        }
    }
}

/// Why a content pane could not be rendered.
#[derive(Clone, Debug, PartialEq, Eq, Structural)]
pub enum AccordionContentError {
    /// Neither an explicit container tag nor an ancestor accordion context
    /// was supplied, so no container can be chosen.
    MissingContainer,
}

/// Everything variable about the markup of an accordion content pane.
#[derive(Clone, Debug, PartialEq)]
pub struct AccordionContentMarkup {
    pub container: String,
    pub classes: Vec<String>,
    pub hidden: bool,
    pub id: String,
    pub aria_label: String,
    pub aria_labelledby: String,
}

/// The class tokens of a content pane: the base token, the fixed modifier
/// when the content is fixed, the expanded modifier while the pane is
/// visible, then the caller's own classes.
pub open spec fn spec_accordion_content_classes(props: &AccordionContentProperties) -> Seq<
    Seq<char>,
> {
    seq!["pf-v5-c-accordion__expandable-content"@] + (if props.fixed {
        seq!["pf-m-fixed"@]
    } else {
        Seq::<Seq<char>>::empty()
    }) + (if !props.hidden {
        seq!["pf-m-expanded"@]
    } else {
        Seq::<Seq<char>>::empty()
    }) + class_views(props.class@)
}

/// Compute the markup of a content pane. The container tag is the explicit
/// override when one is given, else the content container of the ancestor
/// accordion context; with neither, rendering cannot proceed and the one
/// error of this component is returned.
pub fn accordion_content(
    props: &AccordionContentProperties,
    context: Option<&AccordionContextProps>,
) -> (r: Result<AccordionContentMarkup, AccordionContentError>)
    ensures
        r is Ok <==> (props.component is Some || context is Some),
        r is Err ==> r->Err_0 == AccordionContentError::MissingContainer,
        r is Ok ==> r->Ok_0.container@ == (if props.component is Some {
            props.component->0@
        } else {
            context->0.content_container@
        }),
        r is Ok ==> class_views(r->Ok_0.classes@) =~= spec_accordion_content_classes(props),
        r is Ok ==> r->Ok_0.hidden == props.hidden,
        r is Ok ==> r->Ok_0.id@ == props.id@,
        r is Ok ==> r->Ok_0.aria_label@ == props.aria_label@,
        r is Ok ==> r->Ok_0.aria_labelledby@ == props.aria_labelledby@,
{
    let container: String = if let Some(component) = &props.component {
        component.clone()
    } else if let Some(accordion) = context {
        accordion.content_container.clone()
    } else {
        return Err(AccordionContentError::MissingContainer);
    };

    let mut classes: Vec<String> = Vec::new();
    push_class(&mut classes, AccordionStyles::ACCORDION_EXPANDABLE_CONTENT);
    if props.fixed {
        push_class(&mut classes, AccordionStyles::MODIFIERS_FIXED);
    }
    if !props.hidden {
        push_class(&mut classes, AccordionStyles::MODIFIERS_EXPANDED);
    }
    extend_classes(&mut classes, &props.class);

    Ok(
        AccordionContentMarkup {
            container,
            classes,
            hidden: props.hidden,
            id: props.id.clone(),
            aria_label: props.aria_label.clone(),
            aria_labelledby: props.aria_labelledby.clone(),
        },
    )
}

/// Configuration of an accordion toggle. The toggle renders a fixed markup
/// shape; nothing about it varies beyond these properties.
#[derive(Clone, Debug, PartialEq)]
pub struct AccordionToggleProperties {
    /// Additional classes added to the toggle.
    pub class: Vec<String>,
    /// Whether the expanded content controlled by this toggle is visible.
    pub expanded: bool,
    /// Identifies the toggle.
    pub id: String,
}

} // verus!
