//! Finding the mode glyph in the taskbar's tree of UI elements: the first
//! element, in depth-first order, that is the on-screen indicator text and
//! shows one of the Japanese mode glyphs.
use vstd::prelude::*;
use crate::common::str_eq;
use crate::japanese;

verus! {

/// The automation id of the indicator's text block.
pub const INDICATOR_ID: &'static str = "InnerTextBlock";

/// What is read of one element of the taskbar, with its children in order.
pub struct UiNode {
    /// Its automation id; `None` where it could not be read.
    pub automation_id: Option<String>,
    /// Whether it is off screen.
    pub offscreen: bool,
    /// Its name (empty where it could not be read).
    pub name: String,
    pub children: Vec<UiNode>,
}

/// Whether `name` is one of the six Japanese mode glyphs.
pub open spec fn is_mode_glyph(name: Seq<char>) -> bool {
    &&& name.len() == 1
    &&& {
        let c = name[0];
        ||| c == '\u{e986}'
        ||| c == '\u{e97e}'
        ||| c == '\u{e987}'
        ||| c == '\u{e981}'
        ||| c == '\u{e988}'
        ||| c == '\u{e982}'
    }
}

/// Whether an element is the on-screen indicator text showing a mode glyph.
pub open spec fn is_glyph_node(n: UiNode) -> bool {
    &&& n.automation_id matches Some(id) && id@ == INDICATOR_ID@
    &&& !n.offscreen
    &&& is_mode_glyph(n.name@)
}

/// The glyph of the first element of the tree `node`, in depth-first order
/// (the element before its children, children in order), that is the
/// indicator showing a mode glyph.
pub open spec fn first_glyph(node: UiNode) -> Option<Seq<char>>
    decreases node,
{
    if is_glyph_node(node) {
        Some(node.name@)
    } else {
        proof {
            assert(decreases_to!(node => node.children));
            assert(decreases_to!(node.children => node.children@));
        }
        first_glyph_seq(node.children@)
    }
}

/// The same search over the trees `nodes`, in order.
pub open spec fn first_glyph_seq(nodes: Seq<UiNode>) -> Option<Seq<char>>
    decreases nodes,
{
    if nodes.len() == 0 {
        None
    } else {
        proof {
            assert(decreases_to!(nodes => nodes[0]));
            assert(decreases_to!(nodes => nodes.subrange(1, nodes.len() as int)));
        }
        match first_glyph(nodes[0]) {
            Some(g) => Some(g),
            None => first_glyph_seq(nodes.subrange(1, nodes.len() as int)),
        }
    }
}

/// Whether `name` is one of the six Japanese mode glyphs.
pub fn is_mode_glyph_name(name: &str) -> (r: bool)
    ensures
        r == is_mode_glyph(name@),
{
    if name.unicode_len() != 1 {
        return false;
    }
    let c = name.get_char(0);
    c == '\u{e986}' || c == '\u{e97e}' || c == '\u{e987}' || c == '\u{e981}' || c == '\u{e988}' || c
        == '\u{e982}'
}

/// Whether an element is the on-screen indicator text showing a mode glyph.
pub fn is_glyph_element(n: &UiNode) -> (r: bool)
    ensures
        r == is_glyph_node(*n),
{
    let id_ok = match &n.automation_id {
        Some(id) => str_eq(id.as_str(), INDICATOR_ID),
        None => false,
    };
    id_ok && !n.offscreen && is_mode_glyph_name(n.name.as_str())
}

/// The glyph of the first indicator element in depth-first order, if any.
pub fn find_ime_char(node: &UiNode) -> (r: Option<String>)
    ensures
        match r {
            Some(g) => first_glyph(*node) == Some(g@),
            None => first_glyph(*node) is None,
        },
    decreases node,
{
    if is_glyph_element(node) {
        return Some(node.name.clone());
    }
    let n = node.children.len();
    let ghost kids = node.children@;
    assert(kids.subrange(0, n as int) =~= kids);
    let mut i: usize = 0;
    while i < n
        invariant
            i <= n,
            n == node.children.len(),
            kids == node.children@,
            !is_glyph_node(*node),
            first_glyph(*node) == first_glyph_seq(kids.subrange(i as int, n as int)),
        decreases n - i,
    {
        proof {
            let rest = kids.subrange(i as int, n as int);
            assert(rest[0] == kids[i as int]);
            assert(rest.subrange(1, rest.len() as int) =~= kids.subrange(i + 1, n as int));
            assert(decreases_to!(node => node.children));
        }
        let found = find_ime_char(&node.children[i]);
        if found.is_some() {
            return found;
        }
        i += 1;
    }
    None
}

/// What the search finds in a tree is always one of the six mode glyphs.
pub proof fn law_found_glyph_is_a_mode_glyph(node: UiNode)
    ensures
        first_glyph(node) matches Some(g) ==> is_mode_glyph(g),
    decreases node,
{
    if !is_glyph_node(node) {
        assert(decreases_to!(node => node.children@));
        lemma_found_in_seq(node.children@);
    }
}

proof fn lemma_found_in_seq(nodes: Seq<UiNode>)
    ensures
        first_glyph_seq(nodes) matches Some(g) ==> is_mode_glyph(g),
    decreases nodes,
{
    if nodes.len() > 0 {
        law_found_glyph_is_a_mode_glyph(nodes[0]);
        lemma_found_in_seq(nodes.subrange(1, nodes.len() as int));
    }
}

/// The search takes exactly the glyphs that name one of the Japanese modes.
pub proof fn law_mode_glyphs_are_the_japanese_modes(g: Seq<char>)
    ensures
        is_mode_glyph(g) <==> japanese::spec_from_glyph(g) != japanese::InputMode::Unknown,
{
}

} // verus!
