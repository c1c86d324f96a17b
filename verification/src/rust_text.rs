//! Free-form text: the escape hatch for anything the model does not
//! otherwise represent.

use vstd::prelude::*;

use crate::indent_string;
use crate::rust_component::has_no_newline;
use crate::rust_component::is_prefix_of;
use crate::rust_component::lemma_concat_no_newline;
use crate::rust_component::lemma_indent_no_newline;
use crate::rust_component::lemma_split_lines_single;
use crate::rust_component::split_lines;
use crate::indent_text;
use crate::rust_component::RustComponent;
use crate::rust_component::RustComponentTrait;

verus! {

/// Some text that cannot be represented by any of the other constructs.
/// It renders verbatim behind the indentation prefix, with no trailing
/// newline forced.
#[derive(Clone, Debug, PartialEq, Hash)]
pub struct RustText {
    pub text: String,
}

/// How free-form text renders: the indentation prefix, then the text
/// verbatim.
pub open spec fn raw_text_ind(t: RustText, ind: Seq<char>) -> Seq<char> {
    ind + t.text@
}

/// The rendering of free-form text at a nesting level.
pub open spec fn raw_text(t: RustText, level: nat) -> Seq<char> {
    raw_text_ind(t, indent_text(level))
}

impl RustText {
    /// Creates a new instance holding the given text.
    pub fn new(text: &str) -> (res: Self)
        ensures
            res.text@ == text@,
    {
        Self { text: text.to_owned() }
    }

    pub(crate) fn render_ind(&self, ind: &str) -> (res: String)
        ensures
            res@ == raw_text_ind(*self, ind@),
    {
        let mut res = String::new();
        res.append(ind);
        res.append(self.text.as_str());
        proof {
            assert(res@ =~= raw_text_ind(*self, ind@));
        }
        res
    }
}

impl RustComponentTrait for RustText {
    open spec fn text_spec(&self, indent_level: nat) -> Seq<char> {
        raw_text(*self, indent_level)
    }

    fn to_rust_string(&self, indent_level: usize) -> (res: String) {
        let ind = indent_string(indent_level);
        self.render_ind(ind.as_str())
    }
}

impl vstd::std_specs::convert::FromSpecImpl<RustText> for RustComponent {
    open spec fn obeys_from_spec() -> bool {
        true
    }

    open spec fn from_spec(v: RustText) -> Self {
        RustComponent::Text(v)
    }
}

impl From<RustText> for RustComponent {
    fn from(v: RustText) -> (res: RustComponent) {
        RustComponent::Text(v)
    }
}


/// A non-empty free-form text rendering with no embedded newline is a
/// single line, prefixed with exactly the indentation of its own level.
pub proof fn lemma_text_line_indent(t: RustText, level: nat)
    requires
        has_no_newline(t.text@),
        t.text@.len() > 0,
    ensures
        split_lines(raw_text(t, level)) == seq![raw_text(t, level)],
        is_prefix_of(indent_text(level), raw_text(t, level)),
{
    let ind = indent_text(level);
    lemma_indent_no_newline(level);
    lemma_concat_no_newline(ind, t.text@);
    lemma_split_lines_single(raw_text(t, level));
    assert(raw_text(t, level).take(ind.len() as int) =~= ind);
}

} // verus!
