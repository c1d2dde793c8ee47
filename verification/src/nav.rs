//! Navigation controls: a navigation container, lists, groups, items, links,
//! and an expandable group. The expandable group keeps the one piece of
//! interactive state in this library: an optional explicit expansion
//! override together with the set of children currently active, from which
//! its effective expansion is recomputed.

use vstd::prelude::*;

use crate::classes::class_views;
use crate::classes::push_class;

verus! {

/// Identifier of a navigation entry, as reported by a child to its
/// expandable ancestor.
pub type Id = u64;

/// Class-name vocabulary of the navigation component.
pub struct NavStyles;

impl NavStyles {
    pub const NAV: &'static str = "pf-v5-c-nav";

    pub const NAV_LIST: &'static str = "pf-v5-c-nav__list";

    pub const NAV_SECTION: &'static str = "pf-v5-c-nav__section";

    pub const NAV_SECTION_TITLE: &'static str = "pf-v5-c-nav__section-title";

    pub const NAV_ITEM: &'static str = "pf-v5-c-nav__item";

    pub const NAV_LINK: &'static str = "pf-v5-c-nav__link";

    pub const NAV_TOGGLE: &'static str = "pf-v5-c-nav__toggle";

    pub const NAV_TOGGLE_ICON: &'static str = "pf-v5-c-nav__toggle-icon";

    pub const NAV_SUBNAV: &'static str = "pf-v5-c-nav__subnav";

    pub const MODIFIERS_EXPANDABLE: &'static str = "pf-m-expandable";

    pub const MODIFIERS_EXPANDED: &'static str = "pf-m-expanded";
}

/// Everything variable about the markup of the navigation container.
#[derive(Clone, Debug, PartialEq)]
pub struct NavMarkup {
    pub class: String,
    pub aria_label: String,
}

/// Compute the markup of the navigation container: a landmark with the base
/// class and a global accessible label.
pub fn nav() -> (r: NavMarkup)
    ensures
        r.class@ == "pf-v5-c-nav"@,
        r.aria_label@ == "Global"@,
{
    NavMarkup { class: NavStyles::NAV.to_owned(), aria_label: "Global".to_owned() }
}

/// Everything variable about the markup of a navigation list.
#[derive(Clone, Debug, PartialEq)]
pub struct NavListMarkup {
    pub class: String,
    pub role: String,
}

/// Compute the markup of a navigation list: an unordered list with the list
/// class and an explicit list role.
pub fn nav_list() -> (r: NavListMarkup)
    ensures
        r.class@ == "pf-v5-c-nav__list"@,
        r.role@ == "list"@,
{
    NavListMarkup { class: NavStyles::NAV_LIST.to_owned(), role: "list".to_owned() }
}

/// Configuration of a navigation group.
#[derive(Clone, Debug, PartialEq)]
pub struct NavGroupProperties {
    /// Title shown above the group.
    pub title: String,
}

/// Everything variable about the markup of a navigation group: a titled
/// section wrapping a navigation list.
#[derive(Clone, Debug, PartialEq)]
pub struct NavGroupMarkup {
    pub section_class: String,
    pub title_class: String,
    pub title: String,
    pub list: NavListMarkup,
}

/// Compute the markup of a navigation group: a section with a title heading,
/// holding a navigation list of the group's children.
pub fn nav_group(props: &NavGroupProperties) -> (r: NavGroupMarkup)
    ensures
        r.section_class@ == "pf-v5-c-nav__section"@,
        r.title_class@ == "pf-v5-c-nav__section-title"@,
        r.title@ == props.title@,
        r.list.class@ == "pf-v5-c-nav__list"@,
        r.list.role@ == "list"@,
{
    NavGroupMarkup {
        section_class: NavStyles::NAV_SECTION.to_owned(),
        title_class: NavStyles::NAV_SECTION_TITLE.to_owned(),
        title: props.title.clone(),
        list: nav_list(),
    }
}

/// Everything variable about the markup of a navigation item: a list item
/// holding an anchor that triggers a callback when clicked.
#[derive(Clone, Debug, PartialEq)]
pub struct NavItemMarkup {
    pub item_class: String,
    pub link_class: String,
    pub href: String,
}

/// Compute the markup of a navigation item. Its anchor points nowhere: the
/// click is handled by the item's callback.
pub fn nav_item() -> (r: NavItemMarkup)
    ensures
        r.item_class@ == "pf-v5-c-nav__item"@,
        r.link_class@ == "pf-v5-c-nav__link"@,
        r.href@ == "#"@,
{
    NavItemMarkup {
        item_class: NavStyles::NAV_ITEM.to_owned(),
        link_class: NavStyles::NAV_LINK.to_owned(),
        href: "#".to_owned(),
    }
}

/// Configuration of a navigation link.
#[derive(Clone, Debug, PartialEq)]
pub struct NavLinkProperties {
    /// Target of the link.
    pub href: String,
    /// Browsing context the link opens in, if any.
    pub target: Option<String>,
}

/// Everything variable about the markup of a navigation link: a list item
/// holding a plain anchor.
#[derive(Clone, Debug, PartialEq)]
pub struct NavLinkMarkup {
    pub item_class: String,
    pub link_class: String,
    pub href: String,
    pub target: Option<String>,
}

/// Compute the markup of a navigation link: the item and link classes, with
/// the link's target passed through.
pub fn nav_link(props: &NavLinkProperties) -> (r: NavLinkMarkup)
    ensures
        r.item_class@ == "pf-v5-c-nav__item"@,
        r.link_class@ == "pf-v5-c-nav__link"@,
        r.href@ == props.href@,
        r.target is Some <==> props.target is Some,
        r.target is Some ==> r.target->0@ == props.target->0@,
{
    NavLinkMarkup {
        item_class: NavStyles::NAV_ITEM.to_owned(),
        link_class: NavStyles::NAV_LINK.to_owned(),
        href: props.href.clone(),
        target: match &props.target {
            Some(target) => Some(target.clone()),
            None => None,
        },
    }
}

/// Configuration of an expandable navigation group.
#[derive(Clone, Debug, PartialEq)]
pub struct NavExpandableProperties {
    /// Title of the group.
    pub title: String,
    /// Whether the properties ask for the group to be expanded.
    pub expanded: bool,
}

impl Default for NavExpandableProperties {
    /// The default configuration: an untitled group, not expanded.
    fn default() -> (r: Self)
        ensures
            r.title@.len() == 0,
            !r.expanded,
    {
        NavExpandableProperties { title: String::new(), expanded: false }
    }
}

/// A message to an expandable navigation group: the user toggled it, or a
/// child reported whether it is now active.
#[derive(Clone, Debug, PartialEq, Eq, Structural)]
pub enum MsgExpandable {
    Toggle,
    ChildState(Id, bool),
}

/// The active set after a child reports its state: its identifier is
/// inserted when it became active and removed when it ceased to be. Both
/// operations are idempotent: reporting the same state twice leaves the set
/// as one report does.
pub open spec fn spec_child_state(active: Set<Id>, id: Id, state: bool) -> Set<Id> {
    if state {
        active.insert(id)
    } else {
        active.remove(id)
    }
}

/// A child's report is idempotent: reporting the same state twice leaves
/// the active set exactly as reporting it once does.
pub proof fn lemma_child_state_idempotent(active: Set<Id>, id: Id, state: bool)
    ensures
        spec_child_state(spec_child_state(active, id, state), id, state) == spec_child_state(
            active,
            id,
            state,
        ),
{
    if state {
        assert(active.insert(id).insert(id) =~= active.insert(id));
    } else {
        assert(active.remove(id).remove(id) =~= active.remove(id));
    }
}

/// Whether `v` holds `id`.
fn contains_id(v: &Vec<Id>, id: Id) -> (r: bool)
    ensures
        r == v@.contains(id),
{
    let mut i: usize = 0;
    while i < v.len()
        invariant
            i <= v@.len(),
            forall|j: int| 0 <= j < i ==> v@[j] != id,
        decreases v@.len() - i,
    {
        if v[i] == id {
            return true;
        }
        i = i + 1;
    }
    false
}

/// Add `id` to the active list, keeping identifiers unique.
fn insert_id(v: &mut Vec<Id>, id: Id)
    requires
        old(v)@.no_duplicates(),
    ensures
        final(v)@.no_duplicates(),
        final(v)@.to_set() =~= old(v)@.to_set().insert(id),
{
    if !contains_id(v, id) {
        v.push(id);
        proof {
            broadcast use vstd::seq_lib::group_seq_properties;

            assert(v@.no_duplicates());
            assert(v@.to_set() =~= old(v)@.to_set().insert(id));
        }
    } else {
        proof {
            assert(v@.to_set() =~= old(v)@.to_set().insert(id));
        }
    }
}

/// Drop `id` from the active list, keeping identifiers unique.
fn remove_id(v: &mut Vec<Id>, id: Id)
    requires
        old(v)@.no_duplicates(),
    ensures
        final(v)@.no_duplicates(),
        final(v)@.to_set() =~= old(v)@.to_set().remove(id),
{
    let mut i: usize = 0;
    while i < v.len()
        invariant
            i <= v@.len(),
            v@ == old(v)@,
            v@.no_duplicates(),
            forall|j: int| 0 <= j < i ==> v@[j] != id,
        decreases v@.len() - i,
    {
        if v[i] == id {
            let ghost s: Seq<Id> = v@;
            proof {
                assert(s[i as int] == id);
                assert(forall|j: int| 0 <= j < i ==> s[j] != id);
            }
            v.remove(i);
            proof {
                let ii = i as int;
                s.remove_ensures(ii);
                assert(s.no_duplicates());
                assert(v@ == s.remove(ii));
                assert(v@.len() == s.len() - 1);
                assert forall|idx: int| 0 <= idx < ii implies v@[idx] == s[idx] by {
                    assert(s.remove(ii)[idx] == s[idx]);
                }
                assert forall|idx: int| ii <= idx < v@.len() implies v@[idx] == s[idx + 1] by {
                    assert(s.remove(ii)[idx] == s[idx + 1]);
                }
                assert(v@.no_duplicates()) by {
                    assert forall|p: int, q: int|
                        0 <= p < v@.len() && 0 <= q < v@.len() && p != q implies v@[p]
                        != v@[q] by {
                        let sp: int = if p < ii {
                            p
                        } else {
                            p + 1
                        };
                        let sq: int = if q < ii {
                            q
                        } else {
                            q + 1
                        };
                        assert(v@[p] == s[sp]);
                        assert(v@[q] == s[sq]);
                        assert(sp != sq);
                    }
                }
                assert(v@.to_set() =~= old(v)@.to_set().remove(id)) by {
                    assert forall|a: Id| v@.to_set().contains(a) implies old(
                        v,
                    )@.to_set().remove(id).contains(a) by {
                        assert(v@.contains(a));
                        let k = choose|k: int| 0 <= k < v@.len() && v@[k] == a;
                        let sk: int = if k < ii {
                            k
                        } else {
                            k + 1
                        };
                        assert(v@[k] == s[sk]);
                        assert(s[sk] == a);
                        assert(sk != ii);
                        assert(s[sk] != s[ii]);
                        assert(a != id);
                        assert(s.contains(a));
                    }
                    assert forall|a: Id|
                        old(v)@.to_set().remove(id).contains(a) implies v@.to_set().contains(
                        a,
                    ) by {
                        assert(s.contains(a));
                        assert(a != id);
                        let k = choose|k: int| 0 <= k < s.len() && s[k] == a;
                        assert(k != ii);
                        if k < ii {
                            assert(v@[k] == a);
                        } else {
                            assert(v@[k - 1] == s[k]);
                            assert(v@[k - 1] == a);
                        }
                        assert(v@.contains(a));
                    }
                }
            }
            return ;
        }
        i = i + 1;
    }
    proof {
        assert(!v@.contains(id));
        assert(v@.to_set() =~= old(v)@.to_set().remove(id));
    }
}

/// An expandable navigation group: its explicit expansion override and the
/// set of children currently active. Created on mount, mutated by toggle
/// clicks and by child state reports, discarded on unmount.
#[derive(Clone, Debug, PartialEq)]
pub struct NavExpandable {
    expanded: Option<bool>,
    active: Vec<Id>,
}

/// Everything variable about the markup of an expandable navigation group.
#[derive(Clone, Debug, PartialEq)]
pub struct NavExpandableMarkup {
    /// Classes of the list item: base, expandable, and the expanded modifier
    /// while the group is effectively expanded.
    pub classes: Vec<String>,
    pub link_class: String,
    /// Value of the button's expansion attribute: `true` or `false`.
    pub aria_expanded: String,
    pub title: String,
    pub toggle_class: String,
    pub toggle_icon_class: String,
    pub subnav_class: String,
    /// Whether the subordinate list is hidden: the negation of the effective
    /// expansion.
    pub subnav_hidden: bool,
    pub list: NavListMarkup,
}

impl NavExpandable {
    /// Well-formed: the active list holds each identifier at most once.
    pub closed spec fn inv(&self) -> bool {
        self.active@.no_duplicates()
    }

    /// The explicit expansion override, if any.
    pub closed spec fn expanded_state(&self) -> Option<bool> {
        self.expanded
    }

    /// The set of children currently active.
    pub closed spec fn active_set(&self) -> Set<Id> {
        self.active@.to_set()
    }

    /// Effective expansion: the explicit override always wins; without one,
    /// the group is expanded when its properties ask for it or any child is
    /// active.
    pub open spec fn spec_is_expanded(&self, prop_expanded: bool) -> bool {
        match self.expanded_state() {
            Some(b) => b,
            None => prop_expanded || !self.active_set().is_empty(),
        }
    }

    /// Create the state for an expandable group. Properties that ask for
    /// expansion become an explicit override; otherwise the state starts
    /// without one. No child is active yet.
    pub fn create(prop_expanded: bool) -> (r: Self)
        ensures
            r.inv(),
            r.expanded_state() == (if prop_expanded {
                Some(true)
            } else {
                None::<bool>
            }),
            r.active_set() =~= Set::<Id>::empty(),
    {
        let expanded: Option<bool> = match prop_expanded {
            true => Some(true),
            false => None,
        };

        let r = NavExpandable { expanded, active: Vec::new() };
        proof {
            assert(r.active_set() =~= Set::<Id>::empty());
        }
        r
    }

    /// The effective expansion, as rendered.
    pub fn is_expanded(&self, prop_expanded: bool) -> (r: bool)
        ensures
            r == self.spec_is_expanded(prop_expanded),
    {
        // if we have a current state, that will always override.
        match self.expanded {
            Some(b) => b,
            None => {
                // if any child is currently active.
                let active = self.active.len() != 0;
                proof {
                    if self.active@.len() == 0 {
                        assert(self.active_set() =~= Set::<Id>::empty());
                    } else {
                        assert(self.active_set().contains(self.active@[0]));
                    }
                }
                prop_expanded || active
            },
        }
    }

    /// Apply a message. A toggle sets the explicit override to the negation
    /// of the current effective expansion; a child state report adjusts the
    /// active set and leaves the override alone. Either way the group must
    /// re-render.
    pub fn update(&mut self, prop_expanded: bool, msg: MsgExpandable) -> (render: bool)
        requires
            old(self).inv(),
        ensures
            final(self).inv(),
            render,
            match msg {
                MsgExpandable::Toggle => {
                    &&& final(self).expanded_state() == Some(
                        !old(self).spec_is_expanded(prop_expanded),
                    )
                    &&& final(self).active_set() == old(self).active_set()
                },
                MsgExpandable::ChildState(id, state) => {
                    &&& final(self).expanded_state() == old(self).expanded_state()
                    &&& final(self).active_set() =~= spec_child_state(
                        old(self).active_set(),
                        id,
                        state,
                    )
                },
            },
    {
        match msg {
            MsgExpandable::Toggle => {
                let e = self.is_expanded(prop_expanded);
                self.expanded = Some(!e);
            },
            MsgExpandable::ChildState(id, state) => match state {
                true => {
                    insert_id(&mut self.active, id);
                },
                false => {
                    remove_id(&mut self.active, id);
                },
            },
        }
        true
    }

    /// Take changed properties into account: properties that ask for
    /// expansion force the override to expanded; otherwise nothing moves.
    /// The group must re-render either way.
    pub fn changed(&mut self, prop_expanded: bool) -> (render: bool)
        ensures
            render,
            final(self).expanded_state() == (if prop_expanded {
                Some(true)
            } else {
                old(self).expanded_state()
            }),
            final(self).active_set() == old(self).active_set(),
            final(self).inv() == old(self).inv(),
    {
        if prop_expanded {
            self.expanded = Some(true);
        }
        true
    }

    /// After the first render, a group that shows expanded without an
    /// explicit override keeps that state as one, so that it stays open
    /// unless the user toggles it.
    pub fn rendered(&mut self, first_render: bool, prop_expanded: bool)
        ensures
            final(self).expanded_state() == (if first_render && old(self).expanded_state() is None
                && old(self).spec_is_expanded(prop_expanded) {
                Some(true)
            } else {
                old(self).expanded_state()
            }),
            final(self).active_set() == old(self).active_set(),
            final(self).inv() == old(self).inv(),
    {
        if first_render && self.expanded.is_none() && self.is_expanded(prop_expanded) {
            // if this is the first render, and we are expanded, we want to stay that way.
            // Unless a user explicitly toggles.
            self.expanded = Some(true);
        }
    }

    /// Compute the markup of the group: the item classes with the expanded
    /// modifier exactly while the group is effectively expanded, the toggle
    /// button with the matching expansion attribute, and the subordinate
    /// list, hidden exactly while the group is not expanded.
    pub fn view(&self, props: &NavExpandableProperties) -> (r: NavExpandableMarkup)
        ensures
            class_views(r.classes@) =~= (if self.spec_is_expanded(props.expanded) {
                seq!["pf-v5-c-nav__item"@, "pf-m-expandable"@, "pf-m-expanded"@]
            } else {
                seq!["pf-v5-c-nav__item"@, "pf-m-expandable"@]
            }),
            r.link_class@ == "pf-v5-c-nav__link"@,
            r.aria_expanded@ == (if self.spec_is_expanded(props.expanded) {
                "true"@
            } else {
                "false"@
            }),
            r.title@ == props.title@,
            r.toggle_class@ == "pf-v5-c-nav__toggle"@,
            r.toggle_icon_class@ == "pf-v5-c-nav__toggle-icon"@,
            r.subnav_class@ == "pf-v5-c-nav__subnav"@,
            r.subnav_hidden == !self.spec_is_expanded(props.expanded),
            r.list.class@ == "pf-v5-c-nav__list"@,
            r.list.role@ == "list"@,
    {
        let mut classes: Vec<String> = Vec::new();
        push_class(&mut classes, NavStyles::NAV_ITEM);
        push_class(&mut classes, NavStyles::MODIFIERS_EXPANDABLE);

        let expanded = self.is_expanded(props.expanded);

        if expanded {
            push_class(&mut classes, NavStyles::MODIFIERS_EXPANDED);
        }

        let aria_expanded: &'static str = if expanded {
            "true"
        } else {
            "false"
        };

        NavExpandableMarkup {
            classes,
            link_class: NavStyles::NAV_LINK.to_owned(),
            aria_expanded: aria_expanded.to_owned(),
            title: props.title.clone(),
            toggle_class: NavStyles::NAV_TOGGLE.to_owned(),
            toggle_icon_class: NavStyles::NAV_TOGGLE_ICON.to_owned(),
            subnav_class: NavStyles::NAV_SUBNAV.to_owned(),
            subnav_hidden: !expanded,
            list: nav_list(),
        }
    }
}

} // verus!
