//! Functions and methods: name, optional qualifier and visibility, raw
//! argument strings, optional return type, and a pre-formatted body that is
//! re-indented line by line.

use vstd::prelude::*;

use crate::indent_string;
use crate::indent_text;
use crate::indent_unit;
use crate::rust_component::create_template_string;
use crate::rust_component::has_no_newline;
use crate::rust_component::indented_block_text;
use crate::rust_component::is_prefix_of;
use crate::rust_component::lemma_concat_no_newline;
use crate::rust_component::lemma_generic_clause_no_newline;
use crate::rust_component::lemma_indent_no_newline;
use crate::rust_component::lemma_join_text_no_newline;
use crate::rust_component::lemma_split_lines_block;
use crate::rust_component::lemma_split_lines_line;
use crate::rust_component::lemma_split_lines_no_newline;
use crate::rust_component::lemma_vis_text_no_newline;
use crate::rust_component::split_lines_from;
use crate::rust_component::generic_clause;
use crate::rust_component::join_strings;
use crate::rust_component::join_text;
use crate::rust_component::lines_block;
use crate::rust_component::push_lines_block;
use crate::rust_component::split_lines;
use crate::rust_component::split_lines_vec;
use crate::rust_component::vis_code;
use crate::rust_component::vis_text;
use crate::rust_component::RustComponent;
use crate::rust_component::RustComponentTrait;
use crate::rust_component::Visibility;

verus! {

/// A function or method in Rust.
///
/// The body is caller-supplied pre-formatted statement text; rendering only
/// splits it into lines and re-indents each line one level deeper than the
/// signature.  Every optional piece (visibility, qualifier, return type)
/// contributes nothing at all when absent.
#[derive(Clone, Debug, Hash, PartialEq)]
pub struct RustMethod {
    pub name: String,
    pub fn_type: String,
    pub visibility: Visibility,
    pub arguments: Vec<String>,
    pub return_type: String,
    pub body: String,
    pub templates: Vec<String>,
    pub lifetimes: Vec<String>,
}

/// How a method renders: the signature line, each body line one level
/// deeper, and a closing brace line.
pub open spec fn method_text_ind(m: RustMethod, ind: Seq<char>) -> Seq<char> {
    let vis_part = if m.visibility == Visibility::Private {
        Seq::<char>::empty()
    } else {
        vis_text(m.visibility) + " "@
    };
    let qualifier_part = if m.fn_type@.len() == 0 {
        Seq::<char>::empty()
    } else {
        m.fn_type@ + " "@
    };
    let return_part = if m.return_type@.len() == 0 {
        Seq::<char>::empty()
    } else {
        "-> "@ + m.return_type@ + " "@
    };
    ind + vis_part + qualifier_part + "fn "@ + m.name@ + generic_clause(
        m.templates.deep_view(),
        m.lifetimes.deep_view(),
    ) + "("@ + join_text(m.arguments.deep_view(), ", "@) + ") "@ + return_part + "{\n"@
        + lines_block(split_lines(m.body@), ind + indent_unit(), "\n"@) + ind + "}\n"@
}

/// The rendering of a method at a nesting level.
pub open spec fn method_text(m: RustMethod, level: nat) -> Seq<char> {
    method_text_ind(m, indent_text(level))
}

impl RustMethod {
    /// Creates a new private method with the given name and nothing else.
    pub fn new(name: &str) -> (res: Self)
        ensures
            res.name@ == name@,
            res.fn_type@ == Seq::<char>::empty(),
            res.visibility == Visibility::Private,
            res.arguments@ == Seq::<String>::empty(),
            res.return_type@ == Seq::<char>::empty(),
            res.body@ == Seq::<char>::empty(),
            res.templates@ == Seq::<String>::empty(),
            res.lifetimes@ == Seq::<String>::empty(),
    {
        Self {
            name: name.to_owned(),
            fn_type: String::new(),
            visibility: Visibility::Private,
            arguments: Vec::new(),
            return_type: String::new(),
            body: String::new(),
            templates: Vec::new(),
            lifetimes: Vec::new(),
        }
    }

    /// Sets the function qualifier, for example `unsafe` or `const`.
    pub fn with_fn_type(self, tp: &str) -> (res: Self)
        ensures
            res.fn_type@ == tp@,
            res == (RustMethod { fn_type: res.fn_type, ..self }),
    {
        let mut this = self;
        this.set_fn_type(tp);
        this
    }

    /// Sets the visibility for this method.
    pub fn with_visibility(self, visibility: Visibility) -> (res: Self)
        ensures
            res == (RustMethod { visibility, ..self }),
    {
        let mut this = self;
        this.set_visibility(visibility);
        this
    }

    /// Appends an argument, given as raw parameter text.
    pub fn with_argument(self, arg: &str) -> (res: Self)
        ensures
            res.arguments.deep_view() == self.arguments.deep_view().push(arg@),
            res == (RustMethod { arguments: res.arguments, ..self }),
    {
        let mut this = self;
        this.push_argument(arg);
        this
    }

    /// Sets the return type.
    pub fn with_return_type(self, return_type: &str) -> (res: Self)
        ensures
            res.return_type@ == return_type@,
            res == (RustMethod { return_type: res.return_type, ..self }),
    {
        let mut this = self;
        this.set_return_type(return_type);
        this
    }

    /// Sets the body of the method; at render time its lines are split and
    /// re-indented one level deeper than the signature.
    pub fn with_body(self, body: &str) -> (res: Self)
        ensures
            res.body@ == body@,
            res == (RustMethod { body: res.body, ..self }),
    {
        let mut this = self;
        this.set_body(body);
        this
    }

    /// Appends a type parameter to the generic clause.
    pub fn with_template(self, template: &str) -> (res: Self)
        ensures
            res.templates.deep_view() == self.templates.deep_view().push(template@),
            res == (RustMethod { templates: res.templates, ..self }),
    {
        let mut this = self;
        this.push_template(template);
        this
    }

    /// Appends a lifetime; only the identifier is given, the apostrophe is
    /// added at render time.
    pub fn with_lifetime(self, lifetime: &str) -> (res: Self)
        ensures
            res.lifetimes.deep_view() == self.lifetimes.deep_view().push(lifetime@),
            res == (RustMethod { lifetimes: res.lifetimes, ..self }),
    {
        let mut this = self;
        this.push_lifetime(lifetime);
        this
    }

    /// Sets the function qualifier, for example `unsafe` or `const`.
    pub fn set_fn_type(&mut self, tp: &str)
        ensures
            final(self).fn_type@ == tp@,
            *final(self) == (RustMethod { fn_type: final(self).fn_type, ..*old(self) }),
    {
        self.fn_type = tp.to_owned();
    }

    /// Sets the visibility for this method.
    pub fn set_visibility(&mut self, visibility: Visibility)
        ensures
            *final(self) == (RustMethod { visibility, ..*old(self) }),
    {
        self.visibility = visibility;
    }

    /// Appends an argument, given as raw parameter text.
    pub fn push_argument(&mut self, argument: &str)
        ensures
            final(self).arguments.deep_view() == old(self).arguments.deep_view().push(argument@),
            *final(self) == (RustMethod { arguments: final(self).arguments, ..*old(self) }),
    {
        self.arguments.push(argument.to_owned());
        proof {
            assert(self.arguments.deep_view() =~= old(self).arguments.deep_view().push(argument@));
        }
    }

    /// Sets the return type.
    pub fn set_return_type(&mut self, return_type: &str)
        ensures
            final(self).return_type@ == return_type@,
            *final(self) == (RustMethod { return_type: final(self).return_type, ..*old(self) }),
    {
        self.return_type = return_type.to_owned();
    }

    /// Sets the body of the method; at render time its lines are split and
    /// re-indented one level deeper than the signature.
    pub fn set_body(&mut self, body: &str)
        ensures
            final(self).body@ == body@,
            *final(self) == (RustMethod { body: final(self).body, ..*old(self) }),
    {
        self.body = body.to_owned();
    }

    /// Appends a type parameter to the generic clause.
    pub fn push_template(&mut self, template: &str)
        ensures
            final(self).templates.deep_view() == old(self).templates.deep_view().push(template@),
            *final(self) == (RustMethod { templates: final(self).templates, ..*old(self) }),
    {
        self.templates.push(template.to_owned());
        proof {
            assert(self.templates.deep_view() =~= old(self).templates.deep_view().push(template@));
        }
    }

    /// Appends a lifetime; only the identifier is given, the apostrophe is
    /// added at render time.
    pub fn push_lifetime(&mut self, lifetime: &str)
        ensures
            final(self).lifetimes.deep_view() == old(self).lifetimes.deep_view().push(lifetime@),
            *final(self) == (RustMethod { lifetimes: final(self).lifetimes, ..*old(self) }),
    {
        self.lifetimes.push(lifetime.to_owned());
        proof {
            assert(self.lifetimes.deep_view() =~= old(self).lifetimes.deep_view().push(lifetime@));
        }
    }

    pub(crate) fn render_ind(&self, ind: &str) -> (res: String)
        ensures
            res@ == method_text_ind(*self, ind@),
    {
        let mut res = String::new();
        res.append(ind);
        match self.visibility {
            Visibility::Private => {}
            _ => {
                res.append(vis_code(self.visibility));
                res.append(" ");
            }
        }
        if !self.fn_type.as_str().is_empty() {
            res.append(self.fn_type.as_str());
            res.append(" ");
        }
        res.append("fn ");
        res.append(self.name.as_str());
        let generics = create_template_string(&self.templates, &self.lifetimes);
        res.append(generics.as_str());
        res.append("(");
        let args = join_strings(&self.arguments, ", ");
        res.append(args.as_str());
        res.append(") ");
        if !self.return_type.as_str().is_empty() {
            res.append("-> ");
            res.append(self.return_type.as_str());
            res.append(" ");
        }
        res.append("{\n");
        let mut body_ind = ind.to_owned();
        body_ind.append("    ");
        let body_lines = split_lines_vec(self.body.as_str());
        push_lines_block(&mut res, &body_lines, body_ind.as_str(), "\n");
        res.append(ind);
        res.append("}\n");
        proof {
            assert(res@ =~= method_text_ind(*self, ind@));
        }
        res
    }
}

impl RustComponentTrait for RustMethod {
    open spec fn text_spec(&self, indent_level: nat) -> Seq<char> {
        method_text(*self, indent_level)
    }

    fn to_rust_string(&self, indent_level: usize) -> (res: String) {
        let ind = indent_string(indent_level);
        self.render_ind(ind.as_str())
    }
}

impl vstd::std_specs::convert::FromSpecImpl<RustMethod> for RustComponent {
    open spec fn obeys_from_spec() -> bool {
        true
    }

    open spec fn from_spec(v: RustMethod) -> Self {
        RustComponent::Method(v)
    }
}

impl From<RustMethod> for RustComponent {
    fn from(v: RustMethod) -> (res: RustComponent) {
        RustComponent::Method(v)
    }
}


/// A method with no optional pieces set renders to exactly the minimal
/// form: no visibility or qualifier words, no generic brackets, and no
/// return-type arrow appear.
pub proof fn lemma_method_render_minimal(m: RustMethod, level: nat)
    requires
        m.visibility == Visibility::Private,
        m.fn_type@.len() == 0,
        m.return_type@.len() == 0,
        m.templates@.len() == 0,
        m.lifetimes@.len() == 0,
    ensures
        method_text(m, level) == indent_text(level) + "fn "@ + m.name@ + "("@ + join_text(
            m.arguments.deep_view(),
            ", "@,
        ) + ") "@ + "{\n"@ + lines_block(
            split_lines(m.body@),
            indent_text(level) + indent_unit(),
            "\n"@,
        ) + indent_text(level) + "}\n"@,
{
    assert(m.templates.deep_view().len() == 0);
    assert(m.lifetimes.deep_view().len() == 0);
    assert(m.lifetimes.deep_view().map_values(
        |l: Seq<char>| crate::rust_component::lifetime_item_text(l),
    ).len() == 0);
    assert(generic_clause(m.templates.deep_view(), m.lifetimes.deep_view())
        == Seq::<char>::empty());
    assert(method_text(m, level) =~= indent_text(level) + "fn "@ + m.name@ + "("@ + join_text(
        m.arguments.deep_view(),
        ", "@,
    ) + ") "@ + "{\n"@ + lines_block(
        split_lines(m.body@),
        indent_text(level) + indent_unit(),
        "\n"@,
    ) + indent_text(level) + "}\n"@);
}


/// Line structure of a method rendering: when no fragment holds an
/// embedded newline, the rendering splits into the signature line and the
/// closing brace line, each prefixed with exactly the indentation of the
/// method's own level, with one line per body line in between, each
/// prefixed with exactly one more indentation unit.
#[verifier::rlimit(100)]
pub proof fn lemma_method_line_indents(m: RustMethod, level: nat)
    requires
        has_no_newline(m.name@),
        has_no_newline(m.fn_type@),
        has_no_newline(m.return_type@),
        forall|i: int| 0 <= i < m.arguments.deep_view().len() ==> has_no_newline(
            #[trigger] m.arguments.deep_view()[i],
        ),
        forall|i: int| 0 <= i < m.templates.deep_view().len() ==> has_no_newline(
            #[trigger] m.templates.deep_view()[i],
        ),
        forall|i: int| 0 <= i < m.lifetimes.deep_view().len() ==> has_no_newline(
            #[trigger] m.lifetimes.deep_view()[i],
        ),
    ensures
        ({
            let lines = crate::rust_component::split_lines(method_text(m, level));
            &&& lines.len() == 2 + crate::rust_component::split_lines(m.body@).len()
            &&& forall|i: int|
                0 <= i < lines.len() ==> is_prefix_of(indent_text(level), #[trigger] lines[i])
            &&& forall|i: int|
                1 <= i < lines.len() - 1 ==> is_prefix_of(
                    indent_text(level + 1),
                    #[trigger] lines[i],
                )
            &&& indented_block_text(method_text(m, level), indent_text(level))
        }),
{
    reveal_strlit("fn ");
    reveal_strlit("(");
    reveal_strlit(") ");
    reveal_strlit("-> ");
    reveal_strlit(" ");
    reveal_strlit("{");
    reveal_strlit("{\n");
    reveal_strlit("}");
    reveal_strlit("\n");
    reveal_strlit("}\n");
    reveal_strlit(", ");
    let ind = indent_text(level);
    let ind1 = indent_text(level + 1);
    assert(ind1 == ind + indent_unit());
    lemma_indent_no_newline(level);
    lemma_indent_no_newline(level + 1);
    let g = generic_clause(m.templates.deep_view(), m.lifetimes.deep_view());
    lemma_generic_clause_no_newline(m.templates.deep_view(), m.lifetimes.deep_view());
    let vis_part = if m.visibility == Visibility::Private {
        Seq::<char>::empty()
    } else {
        vis_text(m.visibility) + " "@
    };
    lemma_vis_text_no_newline(m.visibility);
    if m.visibility != Visibility::Private {
        lemma_concat_no_newline(vis_text(m.visibility), " "@);
    }
    assert(has_no_newline(vis_part));
    let qualifier_part = if m.fn_type@.len() == 0 {
        Seq::<char>::empty()
    } else {
        m.fn_type@ + " "@
    };
    if m.fn_type@.len() != 0 {
        lemma_concat_no_newline(m.fn_type@, " "@);
    }
    assert(has_no_newline(qualifier_part));
    let return_part = if m.return_type@.len() == 0 {
        Seq::<char>::empty()
    } else {
        "-> "@ + m.return_type@ + " "@
    };
    if m.return_type@.len() != 0 {
        lemma_concat_no_newline("-> "@, m.return_type@);
        lemma_concat_no_newline("-> "@ + m.return_type@, " "@);
    }
    assert(has_no_newline(return_part));
    let argsj = join_text(m.arguments.deep_view(), ", "@);
    lemma_join_text_no_newline(m.arguments.deep_view(), ", "@);
    let sig = ind + vis_part + qualifier_part + "fn "@ + m.name@ + g + "("@ + argsj + ") "@
        + return_part + "{"@;
    lemma_concat_no_newline(ind, vis_part);
    lemma_concat_no_newline(ind + vis_part, qualifier_part);
    lemma_concat_no_newline(ind + vis_part + qualifier_part, "fn "@);
    lemma_concat_no_newline(ind + vis_part + qualifier_part + "fn "@, m.name@);
    lemma_concat_no_newline(ind + vis_part + qualifier_part + "fn "@ + m.name@, g);
    lemma_concat_no_newline(ind + vis_part + qualifier_part + "fn "@ + m.name@ + g, "("@);
    lemma_concat_no_newline(ind + vis_part + qualifier_part + "fn "@ + m.name@ + g + "("@, argsj);
    lemma_concat_no_newline(
        ind + vis_part + qualifier_part + "fn "@ + m.name@ + g + "("@ + argsj,
        ") "@,
    );
    lemma_concat_no_newline(
        ind + vis_part + qualifier_part + "fn "@ + m.name@ + g + "("@ + argsj + ") "@,
        return_part,
    );
    lemma_concat_no_newline(
        ind + vis_part + qualifier_part + "fn "@ + m.name@ + g + "("@ + argsj + ") "@
            + return_part,
        "{"@,
    );
    assert(has_no_newline(sig));
    let body_lines = crate::rust_component::split_lines(m.body@);
    lemma_split_lines_no_newline(m.body@, Seq::empty());
    assert(forall|i: int| 0 <= i < body_lines.len() ==> has_no_newline(#[trigger] body_lines[i]));
    let closing = ind + "}"@;
    assert(has_no_newline("}"@));
    lemma_concat_no_newline(ind, "}"@);
    let rest = closing + "\n"@;
    let block = lines_block(body_lines, ind1, "\n"@);
    assert("\n"@ =~= Seq::<char>::empty() + "\n"@);
    assert(lines_block(body_lines, ind1, "\n"@) == lines_block(
        body_lines,
        ind1,
        Seq::<char>::empty() + "\n"@,
    ));
    lemma_split_lines_block(body_lines, ind1, Seq::<char>::empty(), rest);
    assert(rest =~= closing + "\n"@ + Seq::<char>::empty());
    lemma_split_lines_line(closing, Seq::<char>::empty());
    assert(split_lines_from(Seq::<char>::empty(), Seq::<char>::empty())
        == Seq::<Seq<char>>::empty());
    assert(split_lines_from(rest, Seq::empty()) =~= seq![closing]);
    let mapped = body_lines.map_values(|x: Seq<char>| ind1 + x + Seq::<char>::empty());
    let tail1 = block + rest;
    assert(split_lines_from(tail1, Seq::empty()) =~= mapped + seq![closing]);
    assert(method_text(m, level) =~= sig + "\n"@ + tail1);
    lemma_split_lines_line(sig, tail1);
    let lines = crate::rust_component::split_lines(method_text(m, level));
    assert(lines =~= seq![sig] + (mapped + seq![closing]));
    assert(lines.len() == 2 + body_lines.len());
    assert forall|i: int| 0 <= i < lines.len() implies is_prefix_of(ind, #[trigger] lines[i]) by {
        if i == 0 {
            assert(lines[i] == sig);
            assert(lines[i].take(ind.len() as int) =~= ind);
        } else if i < lines.len() - 1 {
            assert(lines[i] == mapped[i - 1]);
            assert(lines[i] == ind1 + body_lines[i - 1] + Seq::<char>::empty());
            assert(lines[i].take(ind.len() as int) =~= ind);
        } else {
            assert(lines[i] == closing);
            assert(lines[i].take(ind.len() as int) =~= ind);
        }
    }
    assert forall|i: int| 1 <= i < lines.len() - 1 implies is_prefix_of(
        ind1,
        #[trigger] lines[i],
    ) by {
        assert(lines[i] == mapped[i - 1]);
        assert(lines[i] == ind1 + body_lines[i - 1] + Seq::<char>::empty());
        assert(lines[i].take(ind1.len() as int) =~= ind1);
    }
    assert(method_text(m, level).len() > 0);
    assert(method_text(m, level).last() == '\n');
}

} // verus!
