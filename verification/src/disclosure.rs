//! Collapsibles and dialogs: open state, what is mounted, and where focus goes
//! when a non-modal dialog closes.

use vstd::prelude::*;

verus! {

/// `"open"` or `"closed"`, the `data-state` of a collapsible or a dialog.
pub fn open_data_state(open: bool) -> (r: &'static str)
    ensures
        r@ == (if open {
            "open"@
        } else {
            "closed"@
        }),
{
    if open {
        "open"
    } else {
        "closed"
    }
}

/// A dialog is modal unless told otherwise.
pub fn is_modal(modal: Option<bool>) -> (r: bool)
    ensures
        r == (modal != Some(false)),
{
    match modal {
        Some(m) => m,
        None => true,
    }
}

/// A part's own `force_mount` wins over the one its portal was given; neither
/// means not forced.
pub fn resolve_force_mount(own: Option<bool>, portal: Option<bool>) -> (r: bool)
    ensures
        r == (match own {
            Some(f) => f,
            None => portal == Some(true),
        }),
{
    match own {
        Some(f) => f,
        None => match portal {
            Some(f) => f,
            None => false,
        },
    }
}

/// Content, an overlay or a portal is wanted in the tree when forced or open.
pub fn is_requested(force_mount: bool, open: bool) -> (r: bool)
    ensures
        r == (force_mount || open),
{
    force_mount || open
}

/// A dialog overlay is only rendered for a modal dialog, and then while
/// requested or still animating out.
pub fn overlay_is_rendered(modal: bool, present: bool) -> (r: bool)
    ensures
        r == (modal && present),
{
    modal && present
}

/// Collapsible content shows its children while open or still present.
pub fn content_is_open(open: bool, present: bool) -> (r: bool)
    ensures
        r == (open || present),
{
    open || present
}

/// Collapsible content is hidden once it is neither open nor present.
pub fn content_is_hidden(open: bool, present: bool) -> (r: bool)
    ensures
        r == !(open || present),
{
    !content_is_open(open, present)
}

/// What a non-modal dialog remembers between opening and closing: whether the
/// user interacted outside it.
#[derive(Clone, Copy, Debug, PartialEq, Eq, Structural)]
pub struct NonModalFocus {
    pub interacted_outside: bool,
}

/// What to do when a non-modal dialog closes.
#[derive(Clone, Copy, Debug, PartialEq, Eq, Structural)]
pub struct CloseFocus {
    /// Move focus back to the trigger.
    pub focus_trigger: bool,
    /// Prevent the default focus move.
    pub prevent_default: bool,
}

impl NonModalFocus {
    /// A freshly opened dialog: no interaction yet.
    pub fn new() -> (r: NonModalFocus)
        ensures
            !r.interacted_outside,
    {
        NonModalFocus { interacted_outside: false }
    }

    /// On closing: unless the handler prevented the default already, focus
    /// goes back to the trigger when nothing happened outside, and the
    /// default move is prevented. Either way the memory is cleared.
    pub fn close_auto_focus(&mut self, default_prevented: bool) -> (r: CloseFocus)
        ensures
            r.prevent_default == !default_prevented,
            r.focus_trigger == (!default_prevented && !old(self).interacted_outside),
            !final(self).interacted_outside,
    {
        let r = CloseFocus {
            focus_trigger: !default_prevented && !self.interacted_outside,
            prevent_default: !default_prevented,
        };
        self.interacted_outside = false;
        r
    }

    /// On an interaction outside: it is remembered unless its default was
    /// prevented; the returned flag says whether to prevent its default,
    /// which happens when it targets the trigger (the trigger closes the
    /// dialog itself).
    pub fn interact_outside(&mut self, default_prevented: bool, target_in_trigger: bool) -> (r: bool)
        ensures
            r == target_in_trigger,
            final(self).interacted_outside == (old(self).interacted_outside || !default_prevented),
    {
        if !default_prevented {
            self.interacted_outside = true;
        }
        target_in_trigger
    }
}

/// The `style` of collapsible content: the style it was given followed by
/// `"; "`, then the measured height and width as custom properties, each
/// when known. Sizes come as the text of a number of pixels.
pub open spec fn spec_content_style(
    given: Option<Seq<char>>,
    height: Option<Seq<char>>,
    width: Option<Seq<char>>,
) -> Seq<char> {
    (match given {
        Some(g) => g + "; "@,
        None => Seq::empty(),
    }) + (match height {
        Some(h) => "--primitive-collapsible-content-height: "@ + h + "px; "@,
        None => Seq::empty(),
    }) + (match width {
        Some(w) => "--primitive-collapsible-content-width: "@ + w + "px"@,
        None => Seq::empty(),
    })
}

/// The text of an optional string.
pub open spec fn opt_view(s: Option<String>) -> Option<Seq<char>> {
    match s {
        Some(t) => Some(t@),
        None => None,
    }
}

/// The `style` of collapsible content; see [`spec_content_style`].
pub fn content_style(given: &Option<String>, height: &Option<String>, width: &Option<String>) -> (r:
    String)
    ensures
        r@ == spec_content_style(opt_view(*given), opt_view(*height), opt_view(*width)),
{
    let mut s = String::new();
    match given {
        Some(g) => {
            s.append(g.as_str());
            s.append("; ");
        },
        None => {},
    }
    let ghost first = s@;
    match height {
        Some(h) => {
            s.append("--primitive-collapsible-content-height: ");
            s.append(h.as_str());
            s.append("px; ");
        },
        None => {},
    }
    let ghost second = s@;
    match width {
        Some(w) => {
            s.append("--primitive-collapsible-content-width: ");
            s.append(w.as_str());
            s.append("px");
        },
        None => {},
    }
    proof {
        let a: Seq<char> = match opt_view(*given) {
            Some(g) => g + "; "@,
            None => Seq::empty(),
        };
        let b: Seq<char> = match opt_view(*height) {
            Some(h) => "--primitive-collapsible-content-height: "@ + h + "px; "@,
            None => Seq::empty(),
        };
        let c: Seq<char> = match opt_view(*width) {
            Some(w) => "--primitive-collapsible-content-width: "@ + w + "px"@,
            None => Seq::empty(),
        };
        assert(first =~= a);
        assert(second =~= a + b);
        assert(s@ =~= a + b + c);
    }
    s
}

} // verus!
