//! Variables: `let`, `const` and `static` bindings.

use vstd::prelude::*;

use crate::indent_string;
use crate::indent_text;
use crate::rust_component::has_no_newline;
use crate::rust_component::is_prefix_of;
use crate::rust_component::lemma_concat_no_newline;
use crate::rust_component::lemma_indent_no_newline;
use crate::rust_component::lemma_split_lines_single;
use crate::rust_component::lemma_vis_text_no_newline;
use crate::rust_component::split_lines;
use crate::rust_component::vis_code;
use crate::rust_component::vis_text;
use crate::rust_component::RustComponent;
use crate::rust_component::RustComponentTrait;
use crate::rust_component::Visibility;

verus! {

/// The kind of binding a variable declares.
#[derive(Copy, Clone, Debug, Hash, PartialEq, Eq, Structural)]
pub enum VariableType {
    Static,
    Const,
    Regular,
}

/// A variable in Rust: a binding keyword, a name, and optional mutability,
/// type, value and visibility.  An empty string stands for an absent type
/// or value and suppresses the corresponding fragment.
#[derive(Clone, Debug, Hash, PartialEq)]
pub struct RustVariable {
    pub visibility: Visibility,
    pub name: String,
    pub value: String,
    pub tp: String,
    pub variable_type: VariableType,
    pub is_mut: bool,
}

/// The binding keyword, trailing space included.
pub open spec fn variable_kind_text(k: VariableType) -> Seq<char> {
    match k {
        VariableType::Static => "static "@,
        VariableType::Const => "const "@,
        VariableType::Regular => "let "@,
    }
}

/// How a variable renders: a single line, no trailing newline, every
/// optional fragment omitted entirely when its source is empty.
pub open spec fn variable_text_ind(v: RustVariable, ind: Seq<char>) -> Seq<char> {
    let vis_part = if v.visibility == Visibility::Private {
        Seq::<char>::empty()
    } else {
        vis_text(v.visibility) + " "@
    };
    let mut_part = if v.is_mut {
        "mut "@
    } else {
        Seq::<char>::empty()
    };
    let type_part = if v.tp@.len() == 0 {
        Seq::<char>::empty()
    } else {
        ": "@ + v.tp@
    };
    let value_part = if v.value@.len() == 0 {
        Seq::<char>::empty()
    } else {
        " = "@ + v.value@
    };
    ind + vis_part + variable_kind_text(v.variable_type) + mut_part + v.name@ + type_part
        + value_part + ";"@
}

/// The rendering of a variable at a nesting level.
pub open spec fn variable_text(v: RustVariable, level: nat) -> Seq<char> {
    variable_text_ind(v, indent_text(level))
}

impl RustVariable {
    /// Creates a new `let` variable.
    pub fn new_let(name: &str) -> (res: Self)
        ensures
            res.name@ == name@,
            res.visibility == Visibility::Private,
            res.value@ == Seq::<char>::empty(),
            res.tp@ == Seq::<char>::empty(),
            res.variable_type == VariableType::Regular,
            res.is_mut == false,
    {
        Self {
            visibility: Visibility::Private,
            name: name.to_owned(),
            value: String::new(),
            tp: String::new(),
            variable_type: VariableType::Regular,
            is_mut: false,
        }
    }

    /// Creates a new constant.
    pub fn new_const(name: &str) -> (res: Self)
        ensures
            res.name@ == name@,
            res.visibility == Visibility::Private,
            res.value@ == Seq::<char>::empty(),
            res.tp@ == Seq::<char>::empty(),
            res.variable_type == VariableType::Const,
            res.is_mut == false,
    {
        Self {
            visibility: Visibility::Private,
            name: name.to_owned(),
            value: String::new(),
            tp: String::new(),
            variable_type: VariableType::Const,
            is_mut: false,
        }
    }

    /// Creates a new static variable.
    pub fn new_static(name: &str) -> (res: Self)
        ensures
            res.name@ == name@,
            res.visibility == Visibility::Private,
            res.value@ == Seq::<char>::empty(),
            res.tp@ == Seq::<char>::empty(),
            res.variable_type == VariableType::Static,
            res.is_mut == false,
    {
        Self {
            visibility: Visibility::Private,
            name: name.to_owned(),
            value: String::new(),
            tp: String::new(),
            variable_type: VariableType::Static,
            is_mut: false,
        }
    }

    /// Sets the value for the variable, returning the variable for chaining.
    pub fn with_value(self, value: &str) -> (res: Self)
        ensures
            res.value@ == value@,
            res == (RustVariable { value: res.value, ..self }),
    {
        let mut this = self;
        this.set_value(value);
        this
    }

    /// Sets an explicit type for the variable.
    pub fn with_type(self, tp: &str) -> (res: Self)
        ensures
            res.tp@ == tp@,
            res == (RustVariable { tp: res.tp, ..self }),
    {
        let mut this = self;
        this.set_type(tp);
        this
    }

    /// Marks the variable as mutable.
    pub fn with_mut(self) -> (res: Self)
        ensures
            res == (RustVariable { is_mut: true, ..self }),
    {
        let mut this = self;
        this.set_mut(true);
        this
    }

    /// Sets the variable's visibility.
    pub fn with_visibility(self, visibility: Visibility) -> (res: Self)
        ensures
            res == (RustVariable { visibility, ..self }),
    {
        let mut this = self;
        this.set_visibility(visibility);
        this
    }

    /// Sets the value for the variable.
    pub fn set_value(&mut self, value: &str)
        ensures
            final(self).value@ == value@,
            *final(self) == (RustVariable { value: final(self).value, ..*old(self) }),
    {
        self.value = value.to_owned();
    }

    /// Sets an explicit type for the variable.
    pub fn set_type(&mut self, tp: &str)
        ensures
            final(self).tp@ == tp@,
            *final(self) == (RustVariable { tp: final(self).tp, ..*old(self) }),
    {
        self.tp = tp.to_owned();
    }

    /// Marks the variable as mutable or immutable.
    pub fn set_mut(&mut self, mutable: bool)
        ensures
            *final(self) == (RustVariable { is_mut: mutable, ..*old(self) }),
    {
        self.is_mut = mutable;
    }

    /// Sets the variable's visibility.
    pub fn set_visibility(&mut self, visibility: Visibility)
        ensures
            *final(self) == (RustVariable { visibility, ..*old(self) }),
    {
        self.visibility = visibility;
    }

    pub(crate) fn render_ind(&self, ind: &str) -> (res: String)
        ensures
            res@ == variable_text_ind(*self, ind@),
    {
        let mut res = String::new();
        res.append(ind);
        match self.visibility {
            Visibility::Private => {}
            _ => {
                res.append(vis_code(self.visibility));
                res.append(" ");
            }
        }
        match self.variable_type {
            VariableType::Static => res.append("static "),
            VariableType::Const => res.append("const "),
            VariableType::Regular => res.append("let "),
        }
        if self.is_mut {
            res.append("mut ");
        }
        res.append(self.name.as_str());
        if !self.tp.as_str().is_empty() {
            res.append(": ");
            res.append(self.tp.as_str());
        }
        if !self.value.as_str().is_empty() {
            res.append(" = ");
            res.append(self.value.as_str());
        }
        res.append(";");
        proof {
            assert(res@ =~= variable_text_ind(*self, ind@));
        }
        res
    }
}

impl RustComponentTrait for RustVariable {
    open spec fn text_spec(&self, indent_level: nat) -> Seq<char> {
        variable_text(*self, indent_level)
    }

    fn to_rust_string(&self, indent_level: usize) -> (res: String) {
        let ind = indent_string(indent_level);
        self.render_ind(ind.as_str())
    }
}

impl vstd::std_specs::convert::FromSpecImpl<RustVariable> for RustComponent {
    open spec fn obeys_from_spec() -> bool {
        true
    }

    open spec fn from_spec(v: RustVariable) -> Self {
        RustComponent::Variable(v)
    }
}

impl From<RustVariable> for RustComponent {
    fn from(v: RustVariable) -> (res: RustComponent) {
        RustComponent::Variable(v)
    }
}


/// A plain `let` binding with no optional pieces set renders to exactly
/// the minimal form: no visibility word, no `mut`, no `: type` and no
/// ` = value` fragment appears.
pub proof fn lemma_variable_render_minimal(v: RustVariable, level: nat)
    requires
        v.visibility == Visibility::Private,
        v.variable_type == VariableType::Regular,
        v.is_mut == false,
        v.tp@.len() == 0,
        v.value@.len() == 0,
    ensures
        variable_text(v, level) == indent_text(level) + "let "@ + v.name@ + ";"@,
{
    assert(variable_text(v, level) =~= indent_text(level) + "let "@ + v.name@ + ";"@);
}


/// A variable rendering is a single line, prefixed with exactly the
/// indentation of its own level, when none of its fragments holds a
/// newline.
pub proof fn lemma_variable_line_indent(v: RustVariable, level: nat)
    requires
        has_no_newline(v.name@),
        has_no_newline(v.tp@),
        has_no_newline(v.value@),
    ensures
        split_lines(variable_text(v, level)) == seq![variable_text(v, level)],
        is_prefix_of(indent_text(level), variable_text(v, level)),
{
    reveal_strlit(" ");
    reveal_strlit("static ");
    reveal_strlit("const ");
    reveal_strlit("let ");
    reveal_strlit("mut ");
    reveal_strlit(": ");
    reveal_strlit(" = ");
    reveal_strlit(";");
    let ind = indent_text(level);
    lemma_indent_no_newline(level);
    lemma_vis_text_no_newline(v.visibility);
    let vis_part = if v.visibility == Visibility::Private {
        Seq::<char>::empty()
    } else {
        vis_text(v.visibility) + " "@
    };
    if v.visibility != Visibility::Private {
        lemma_concat_no_newline(vis_text(v.visibility), " "@);
    }
    let mut_part = if v.is_mut {
        "mut "@
    } else {
        Seq::<char>::empty()
    };
    let type_part = if v.tp@.len() == 0 {
        Seq::<char>::empty()
    } else {
        ": "@ + v.tp@
    };
    if v.tp@.len() != 0 {
        lemma_concat_no_newline(": "@, v.tp@);
    }
    let value_part = if v.value@.len() == 0 {
        Seq::<char>::empty()
    } else {
        " = "@ + v.value@
    };
    if v.value@.len() != 0 {
        lemma_concat_no_newline(" = "@, v.value@);
    }
    let kind = variable_kind_text(v.variable_type);
    assert(has_no_newline(kind));
    lemma_concat_no_newline(ind, vis_part);
    lemma_concat_no_newline(ind + vis_part, kind);
    lemma_concat_no_newline(ind + vis_part + kind, mut_part);
    lemma_concat_no_newline(ind + vis_part + kind + mut_part, v.name@);
    lemma_concat_no_newline(ind + vis_part + kind + mut_part + v.name@, type_part);
    lemma_concat_no_newline(ind + vis_part + kind + mut_part + v.name@ + type_part, value_part);
    lemma_concat_no_newline(
        ind + vis_part + kind + mut_part + v.name@ + type_part + value_part,
        ";"@,
    );
    assert(has_no_newline(variable_text(v, level)));
    assert(variable_text(v, level).len() > 0);
    lemma_split_lines_single(variable_text(v, level));
    assert(variable_text(v, level).take(ind.len() as int) =~= ind);
}

} // verus!
