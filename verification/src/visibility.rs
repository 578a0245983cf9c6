use vstd::prelude::*;

verus! {

/// Whether a user-interface node is drawn: taken from its parent, hidden, or
/// shown.
#[derive(Clone, Copy, Debug, PartialEq, Eq, Structural)]
pub enum Visibility {
    Inherited,
    Hidden,
    Visible,
}

/// A hidden node becomes visible; any other node keeps its visibility.
pub open spec fn shown(v: Visibility) -> Visibility {
    if v == Visibility::Hidden {
        Visibility::Visible
    } else {
        v
    }
}

/// A visible node becomes hidden; any other node keeps its visibility.
pub open spec fn hidden(v: Visibility) -> Visibility {
    if v == Visibility::Visible {
        Visibility::Hidden
    } else {
        v
    }
}

/// Opens the pause menu: every hidden menu node becomes visible.
pub fn show_menu(nodes: &mut Vec<Visibility>)
    ensures
        final(nodes)@.len() == old(nodes)@.len(),
        forall|i: int| 0 <= i < old(nodes)@.len() ==> #[trigger] final(nodes)@[i] == shown(old(nodes)@[i]),
{
    let n = nodes.len();
    let mut i: usize = 0;
    while i < n
        invariant
            n == old(nodes)@.len(),
            nodes@.len() == n,
            i <= n,
            forall|j: int| 0 <= j < i ==> #[trigger] nodes@[j] == shown(old(nodes)@[j]),
            forall|j: int| i <= j < n ==> #[trigger] nodes@[j] == old(nodes)@[j],
        decreases n - i,
    {
        if nodes[i] == Visibility::Hidden {
            nodes.set(i, Visibility::Visible);
        }
        i = i + 1;
    }
}

/// Closes the pause menu: every visible menu node becomes hidden.
pub fn hide_menu(nodes: &mut Vec<Visibility>)
    ensures
        final(nodes)@.len() == old(nodes)@.len(),
        forall|i: int| 0 <= i < old(nodes)@.len() ==> #[trigger] final(nodes)@[i] == hidden(old(nodes)@[i]),
{
    let n = nodes.len();
    let mut i: usize = 0;
    while i < n
        invariant
            n == old(nodes)@.len(),
            nodes@.len() == n,
            i <= n,
            forall|j: int| 0 <= j < i ==> #[trigger] nodes@[j] == hidden(old(nodes)@[j]),
            forall|j: int| i <= j < n ==> #[trigger] nodes@[j] == old(nodes)@[j],
        decreases n - i,
    {
        if nodes[i] == Visibility::Visible {
            nodes.set(i, Visibility::Hidden);
        }
        i = i + 1;
    }
}

/// Opening the menu and closing it again gives every node back the
/// visibility it had, unless it was visible to begin with.
pub proof fn lemma_hide_after_show(v: Visibility)
    requires
        v != Visibility::Visible,
    ensures
        hidden(shown(v)) == v,
{
}

/// Closing the menu and opening it again gives every node back the
/// visibility it had, unless it was hidden to begin with.
pub proof fn lemma_show_after_hide(v: Visibility)
    requires
        v != Visibility::Hidden,
    ensures
        shown(hidden(v)) == v,
{
}

/// Opening an open menu, or closing a closed one, changes nothing.
pub proof fn lemma_show_hide_idempotent(v: Visibility)
    ensures
        shown(shown(v)) == shown(v),
        hidden(hidden(v)) == hidden(v),
{
}

} // verus!
