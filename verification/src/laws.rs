//! Laws of the façade protocol, proved over the model's transition
//! functions.

use vstd::prelude::*;
use crate::model::DEFAULT_HEIGHT;
use crate::model::DEFAULT_WIDTH;
use crate::model::OptionsModel;
use crate::model::RegistryModel;
use crate::model::create_or_show_next;
use crate::model::create_or_show_status;
use crate::model::default_title;
use crate::model::not_found_msg;
use crate::model::toggle_maximize_next;
use crate::model::toggle_maximize_status;

verus! {

/// Law: a create-or-show request under a fresh label reports "created";
/// repeating it for the same label reports "existing" and never yields a
/// second window — after either call the registry's domain has gained
/// exactly that label, and a map holds at most one window per label.
pub proof fn lemma_create_then_create_again(m: RegistryModel, o: OptionsModel)
    requires
        !m.contains_key(o.label),
    ensures
        create_or_show_status(m, o) == "created"@,
        create_or_show_next(m, o).dom() =~= m.dom().insert(o.label),
        create_or_show_status(create_or_show_next(m, o), o) == "existing"@,
        create_or_show_next(create_or_show_next(m, o), o).dom() =~= m.dom().insert(o.label),
{
}

/// Law: a window created with title, width and height omitted has the
/// default title and the default size.
pub proof fn lemma_create_defaults(m: RegistryModel, o: OptionsModel)
    requires
        !m.contains_key(o.label),
        o.title is None,
        o.width is None,
        o.height is None,
    ensures
        create_or_show_next(m, o)[o.label].title == default_title(),
        create_or_show_next(m, o)[o.label].width == DEFAULT_WIDTH,
        create_or_show_next(m, o)[o.label].height == DEFAULT_HEIGHT,
{
}

/// Law: absent concurrent mutators, toggling is a pure state flip.
/// Starting from a not-maximized window, the first toggle reports
/// "maximized" and sets the flag, the second reports "unmaximized" and
/// restores the registry exactly.
pub proof fn lemma_toggle_alternates(m: RegistryModel, label: Seq<char>)
    requires
        m.contains_key(label),
        !m[label].maximized,
    ensures
        toggle_maximize_status(m, label) == "maximized"@,
        toggle_maximize_next(m, label)[label].maximized,
        toggle_maximize_status(toggle_maximize_next(m, label), label) == "unmaximized"@,
        toggle_maximize_next(toggle_maximize_next(m, label), label) =~= m,
{
}

/// Law: every toggle flips exactly the maximized flag of the named
/// window and touches no other label.
pub proof fn lemma_toggle_flips_only_maximized(m: RegistryModel, label: Seq<char>)
    requires
        m.contains_key(label),
    ensures
        toggle_maximize_next(m, label)[label].maximized == !m[label].maximized,
        toggle_maximize_next(m, label)[label].title == m[label].title,
        toggle_maximize_next(m, label)[label].visible == m[label].visible,
        toggle_maximize_next(m, label)[label].minimized == m[label].minimized,
        forall|other: Seq<char>| other != label && m.contains_key(other)
            ==> toggle_maximize_next(m, label)[other] == m[other],
        toggle_maximize_next(m, label).dom() =~= m.dom(),
{
}

/// Law: the not-found error text carries the offending label verbatim,
/// after the fixed prefix.
pub proof fn lemma_not_found_msg_carries_label(label: Seq<char>)
    ensures
        not_found_msg(label).len() == "window not found: "@.len() + label.len(),
        not_found_msg(label).subrange(
            "window not found: "@.len() as int,
            not_found_msg(label).len() as int,
        ) =~= label,
{
}

} // verus!
