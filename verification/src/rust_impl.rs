//! Implementation blocks: a target name (possibly a `Trait for Type`
//! phrase), separate generic parameters for the `impl` side and the target
//! side, and an ordered sequence of child constructs.

use vstd::prelude::*;

use crate::indent_text;
use crate::indent_unit;
use crate::rust_component::component_text_ind;
use crate::rust_component::components_block;
use crate::rust_component::has_no_newline;
use crate::rust_component::indented_block_text;
use crate::rust_component::is_prefix_of;
use crate::rust_component::lemma_concat_no_newline;
use crate::rust_component::lemma_generic_clause_no_newline;
use crate::rust_component::lemma_indent_no_newline;
use crate::rust_component::lemma_spaced_components_lines_prefixed;
use crate::rust_component::lemma_split_lines_line;
use crate::rust_component::lemma_split_spaced_components_block;
use crate::rust_component::spaced_components_lines;
use crate::rust_component::split_lines;
use crate::rust_component::split_lines_from;
use crate::rust_component::create_template_string;
use crate::rust_component::generic_clause;
use crate::rust_component::push_components_block;
use crate::rust_component::RustComponent;
use crate::rust_component::RustComponentTrait;

verus! {

/// An `impl` block in Rust.
///
/// Lifetimes and type parameters are tracked separately for the
/// `impl<...>` side and the `Target<...>` side; the plain `with_lifetime`,
/// `with_template`, `push_lifetime` and `push_template` operations set
/// both sides at once.
#[derive(Debug, Hash, PartialEq)]
pub struct RustImplementation {
    pub name: String,
    pub components: Vec<RustComponent>,
    pub impl_lifetimes: Vec<String>,
    pub target_lifetimes: Vec<String>,
    pub impl_templates: Vec<String>,
    pub target_templates: Vec<String>,
    pub extra: String,
}

/// How an implementation block renders: the `impl<...> Name<...>` line
/// with the optional `extra` text before the opening brace, each child
/// rendered one level deeper and followed by one blank line, and a
/// closing brace line.
pub open spec fn impl_text_ind(im: RustImplementation, ind: Seq<char>) -> Seq<char>
    decreases im,
{
    let head = ind + "impl"@ + generic_clause(
        im.impl_templates.deep_view(),
        im.impl_lifetimes.deep_view(),
    ) + " "@ + im.name@ + generic_clause(
        im.target_templates.deep_view(),
        im.target_lifetimes.deep_view(),
    );
    let open_part = if im.extra@.len() == 0 {
        " {"@
    } else {
        " "@ + im.extra@ + " {"@
    };
    head + open_part + "\n"@ + components_block(
        im.components,
        im.components@.len() as int,
        ind + indent_unit(),
        "\n"@,
    ) + ind + "}\n"@
}

/// The rendering of an implementation block at a nesting level.
pub open spec fn impl_text(im: RustImplementation, level: nat) -> Seq<char> {
    impl_text_ind(im, indent_text(level))
}

impl RustImplementation {
    /// Creates a new empty implementation block for the given target name.
    pub fn new(name: &str) -> (res: Self)
        ensures
            res.name@ == name@,
            res.components@ == Seq::<RustComponent>::empty(),
            res.impl_lifetimes@ == Seq::<String>::empty(),
            res.target_lifetimes@ == Seq::<String>::empty(),
            res.impl_templates@ == Seq::<String>::empty(),
            res.target_templates@ == Seq::<String>::empty(),
            res.extra@ == Seq::<char>::empty(),
    {
        Self {
            name: name.to_owned(),
            components: Vec::new(),
            impl_lifetimes: Vec::new(),
            target_lifetimes: Vec::new(),
            impl_templates: Vec::new(),
            target_templates: Vec::new(),
            extra: String::new(),
        }
    }

    /// Creates a new empty implementation of a trait for a type: the
    /// target name becomes `lhs for rhs`.
    pub fn new_for(lhs: &str, rhs: &str) -> (res: Self)
        ensures
            res.name@ == lhs@ + " for "@ + rhs@,
            res.components@ == Seq::<RustComponent>::empty(),
            res.impl_lifetimes@ == Seq::<String>::empty(),
            res.target_lifetimes@ == Seq::<String>::empty(),
            res.impl_templates@ == Seq::<String>::empty(),
            res.target_templates@ == Seq::<String>::empty(),
            res.extra@ == Seq::<char>::empty(),
    {
        let mut name = lhs.to_owned();
        name.append(" for ");
        name.append(rhs);
        Self {
            name,
            components: Vec::new(),
            impl_lifetimes: Vec::new(),
            target_lifetimes: Vec::new(),
            impl_templates: Vec::new(),
            target_templates: Vec::new(),
            extra: String::new(),
        }
    }

    /// Appends a child construct.
    pub fn with_component(self, component: RustComponent) -> (res: Self)
        ensures
            res.components@ == self.components@.push(component),
            res == (RustImplementation { components: res.components, ..self }),
    {
        let mut this = self;
        this.push_component(component);
        this
    }

    /// Appends a lifetime to both the `impl` side and the target side.
    pub fn with_lifetime(self, lifetime: &str) -> (res: Self)
        ensures
            res.impl_lifetimes.deep_view() == self.impl_lifetimes.deep_view().push(lifetime@),
            res.target_lifetimes.deep_view() == self.target_lifetimes.deep_view().push(lifetime@),
            res == (RustImplementation {
                impl_lifetimes: res.impl_lifetimes,
                target_lifetimes: res.target_lifetimes,
                ..self
            }),
    {
        let mut this = self;
        this.push_lifetime(lifetime);
        this
    }

    /// Appends a lifetime to the `impl` side only.
    pub fn with_impl_lifetime(self, lifetime: &str) -> (res: Self)
        ensures
            res.impl_lifetimes.deep_view() == self.impl_lifetimes.deep_view().push(lifetime@),
            res == (RustImplementation { impl_lifetimes: res.impl_lifetimes, ..self }),
    {
        let mut this = self;
        this.push_impl_lifetime(lifetime);
        this
    }

    /// Appends a lifetime to the target side only.
    pub fn with_target_lifetime(self, lifetime: &str) -> (res: Self)
        ensures
            res.target_lifetimes.deep_view() == self.target_lifetimes.deep_view().push(lifetime@),
            res == (RustImplementation { target_lifetimes: res.target_lifetimes, ..self }),
    {
        let mut this = self;
        this.push_target_lifetime(lifetime);
        this
    }

    /// Appends a type parameter to both the `impl` side and the target
    /// side.
    pub fn with_template(self, template: &str) -> (res: Self)
        ensures
            res.impl_templates.deep_view() == self.impl_templates.deep_view().push(template@),
            res.target_templates.deep_view() == self.target_templates.deep_view().push(template@),
            res == (RustImplementation {
                impl_templates: res.impl_templates,
                target_templates: res.target_templates,
                ..self
            }),
    {
        let mut this = self;
        this.push_template(template);
        this
    }

    /// Appends a type parameter to the `impl` side only.
    pub fn with_impl_template(self, template: &str) -> (res: Self)
        ensures
            res.impl_templates.deep_view() == self.impl_templates.deep_view().push(template@),
            res == (RustImplementation { impl_templates: res.impl_templates, ..self }),
    {
        let mut this = self;
        this.push_impl_template(template);
        this
    }

    /// Appends a type parameter to the target side only.
    pub fn with_target_template(self, template: &str) -> (res: Self)
        ensures
            res.target_templates.deep_view() == self.target_templates.deep_view().push(template@),
            res == (RustImplementation { target_templates: res.target_templates, ..self }),
    {
        let mut this = self;
        this.push_target_template(template);
        this
    }

    /// Sets the raw text inserted right before the opening brace.
    pub fn with_extra(self, extra: &str) -> (res: Self)
        ensures
            res.extra@ == extra@,
            res == (RustImplementation { extra: res.extra, ..self }),
    {
        let mut this = self;
        this.set_extra(extra);
        this
    }

    /// Appends a child construct.
    pub fn push_component(&mut self, component: RustComponent)
        ensures
            final(self).components@ == old(self).components@.push(component),
            *final(self) == (RustImplementation {
                components: final(self).components,
                ..*old(self)
            }),
    {
        self.components.push(component);
    }

    /// Appends a lifetime to both the `impl` side and the target side.
    pub fn push_lifetime(&mut self, lifetime: &str)
        ensures
            final(self).impl_lifetimes.deep_view() == old(self).impl_lifetimes.deep_view().push(
                lifetime@,
            ),
            final(self).target_lifetimes.deep_view() == old(self).target_lifetimes.deep_view().push(
                lifetime@,
            ),
            *final(self) == (RustImplementation {
                impl_lifetimes: final(self).impl_lifetimes,
                target_lifetimes: final(self).target_lifetimes,
                ..*old(self)
            }),
    {
        self.push_impl_lifetime(lifetime);
        self.push_target_lifetime(lifetime);
    }

    /// Appends a lifetime to the `impl` side only.
    pub fn push_impl_lifetime(&mut self, lifetime: &str)
        ensures
            final(self).impl_lifetimes.deep_view() == old(self).impl_lifetimes.deep_view().push(
                lifetime@,
            ),
            *final(self) == (RustImplementation {
                impl_lifetimes: final(self).impl_lifetimes,
                ..*old(self)
            }),
    {
        self.impl_lifetimes.push(lifetime.to_owned());
        proof {
            assert(self.impl_lifetimes.deep_view() =~= old(self).impl_lifetimes.deep_view().push(
                lifetime@,
            ));
        }
    }

    /// Appends a lifetime to the target side only.
    pub fn push_target_lifetime(&mut self, lifetime: &str)
        ensures
            final(self).target_lifetimes.deep_view() == old(self).target_lifetimes.deep_view().push(
                lifetime@,
            ),
            *final(self) == (RustImplementation {
                target_lifetimes: final(self).target_lifetimes,
                ..*old(self)
            }),
    {
        self.target_lifetimes.push(lifetime.to_owned());
        proof {
            assert(self.target_lifetimes.deep_view()
                =~= old(self).target_lifetimes.deep_view().push(lifetime@));
        }
    }

    /// Appends a type parameter to both the `impl` side and the target
    /// side.
    pub fn push_template(&mut self, template: &str)
        ensures
            final(self).impl_templates.deep_view() == old(self).impl_templates.deep_view().push(
                template@,
            ),
            final(self).target_templates.deep_view() == old(self).target_templates.deep_view().push(
                template@,
            ),
            *final(self) == (RustImplementation {
                impl_templates: final(self).impl_templates,
                target_templates: final(self).target_templates,
                ..*old(self)
            }),
    {
        self.push_impl_template(template);
        self.push_target_template(template);
    }

    /// Appends a type parameter to the `impl` side only.
    pub fn push_impl_template(&mut self, template: &str)
        ensures
            final(self).impl_templates.deep_view() == old(self).impl_templates.deep_view().push(
                template@,
            ),
            *final(self) == (RustImplementation {
                impl_templates: final(self).impl_templates,
                ..*old(self)
            }),
    {
        self.impl_templates.push(template.to_owned());
        proof {
            assert(self.impl_templates.deep_view() =~= old(self).impl_templates.deep_view().push(
                template@,
            ));
        }
    }

    /// Appends a type parameter to the target side only.
    pub fn push_target_template(&mut self, template: &str)
        ensures
            final(self).target_templates.deep_view() == old(self).target_templates.deep_view().push(
                template@,
            ),
            *final(self) == (RustImplementation {
                target_templates: final(self).target_templates,
                ..*old(self)
            }),
    {
        self.target_templates.push(template.to_owned());
        proof {
            assert(self.target_templates.deep_view()
                =~= old(self).target_templates.deep_view().push(template@));
        }
    }

    /// Sets the raw text inserted right before the opening brace.
    pub fn set_extra(&mut self, extra: &str)
        ensures
            final(self).extra@ == extra@,
            *final(self) == (RustImplementation { extra: final(self).extra, ..*old(self) }),
    {
        self.extra = extra.to_owned();
    }

    pub(crate) fn render_ind(&self, ind: &str) -> (res: String)
        ensures
            res@ == impl_text_ind(*self, ind@),
        decreases *self,
    {
        let mut res = String::new();
        res.append(ind);
        res.append("impl");
        let impl_generics = create_template_string(&self.impl_templates, &self.impl_lifetimes);
        res.append(impl_generics.as_str());
        res.append(" ");
        res.append(self.name.as_str());
        let target_generics = create_template_string(
            &self.target_templates,
            &self.target_lifetimes,
        );
        res.append(target_generics.as_str());
        if !self.extra.as_str().is_empty() {
            res.append(" ");
            res.append(self.extra.as_str());
        }
        res.append(" {");
        res.append("\n");
        let mut child_ind = ind.to_owned();
        child_ind.append("    ");
        push_components_block(&mut res, &self.components, child_ind.as_str(), "\n");
        res.append(ind);
        res.append("}\n");
        proof {
            assert(res@ =~= impl_text_ind(*self, ind@));
        }
        res
    }
}

impl RustComponentTrait for RustImplementation {
    open spec fn text_spec(&self, indent_level: nat) -> Seq<char> {
        impl_text(*self, indent_level)
    }

    fn to_rust_string(&self, indent_level: usize) -> (res: String) {
        let ind = crate::indent_string(indent_level);
        self.render_ind(ind.as_str())
    }
}

impl vstd::std_specs::convert::FromSpecImpl<RustImplementation> for RustComponent {
    open spec fn obeys_from_spec() -> bool {
        true
    }

    open spec fn from_spec(v: RustImplementation) -> Self {
        RustComponent::Implementation(v)
    }
}

impl From<RustImplementation> for RustComponent {
    fn from(v: RustImplementation) -> (res: RustComponent) {
        RustComponent::Implementation(v)
    }
}


/// An implementation block with no generic parameters and no `extra` text
/// renders to exactly the minimal form: no brackets and no inserted text
/// appear around the target name.
pub proof fn lemma_impl_render_minimal(im: RustImplementation, level: nat)
    requires
        im.impl_templates@.len() == 0,
        im.impl_lifetimes@.len() == 0,
        im.target_templates@.len() == 0,
        im.target_lifetimes@.len() == 0,
        im.extra@.len() == 0,
    ensures
        impl_text(im, level) == indent_text(level) + "impl"@ + " "@ + im.name@ + " {"@ + "\n"@
            + components_block(
            im.components,
            im.components@.len() as int,
            indent_text(level) + indent_unit(),
            "\n"@,
        ) + indent_text(level) + "}\n"@,
{
    assert(im.impl_templates.deep_view().len() == 0);
    assert(im.impl_lifetimes.deep_view().len() == 0);
    assert(im.impl_lifetimes.deep_view().map_values(
        |l: Seq<char>| crate::rust_component::lifetime_item_text(l),
    ).len() == 0);
    assert(im.target_templates.deep_view().len() == 0);
    assert(im.target_lifetimes.deep_view().len() == 0);
    assert(im.target_lifetimes.deep_view().map_values(
        |l: Seq<char>| crate::rust_component::lifetime_item_text(l),
    ).len() == 0);
    assert(generic_clause(im.impl_templates.deep_view(), im.impl_lifetimes.deep_view())
        == Seq::<char>::empty());
    assert(generic_clause(im.target_templates.deep_view(), im.target_lifetimes.deep_view())
        == Seq::<char>::empty());
    assert(impl_text(im, level) =~= indent_text(level) + "impl"@ + " "@ + im.name@ + " {"@
        + "\n"@ + components_block(
        im.components,
        im.components@.len() as int,
        indent_text(level) + indent_unit(),
        "\n"@,
    ) + indent_text(level) + "}\n"@);
}


/// Line structure of an implementation block rendering, for children
/// that each render as complete indented blocks: the `impl` line and the
/// closing brace line are each prefixed with exactly the indentation of
/// the block's own level, and every child line is prefixed with exactly
/// one more indentation unit, with one blank separator line after each
/// child.
#[verifier::rlimit(100)]
pub proof fn lemma_impl_line_indents(im: RustImplementation, level: nat)
    requires
        has_no_newline(im.name@),
        has_no_newline(im.extra@),
        forall|i: int| 0 <= i < im.impl_templates.deep_view().len() ==> has_no_newline(
            #[trigger] im.impl_templates.deep_view()[i],
        ),
        forall|i: int| 0 <= i < im.impl_lifetimes.deep_view().len() ==> has_no_newline(
            #[trigger] im.impl_lifetimes.deep_view()[i],
        ),
        forall|i: int| 0 <= i < im.target_templates.deep_view().len() ==> has_no_newline(
            #[trigger] im.target_templates.deep_view()[i],
        ),
        forall|i: int| 0 <= i < im.target_lifetimes.deep_view().len() ==> has_no_newline(
            #[trigger] im.target_lifetimes.deep_view()[i],
        ),
        forall|i: int| 0 <= i < im.components@.len() ==> indented_block_text(
            component_text_ind(#[trigger] im.components@[i], indent_text(level + 1)),
            indent_text(level + 1),
        ),
    ensures
        ({
            let lines = split_lines(impl_text(im, level));
            &&& lines.len() == 2 + spaced_components_lines(
                im.components,
                im.components@.len() as int,
                indent_text(level + 1),
            ).len()
            &&& is_prefix_of(indent_text(level), lines[0])
            &&& is_prefix_of(indent_text(level), lines[lines.len() - 1])
            &&& forall|i: int|
                1 <= i < lines.len() - 1 ==> is_prefix_of(
                    indent_text(level + 1),
                    #[trigger] lines[i],
                ) || lines[i] == Seq::<char>::empty()
        }),
{
    reveal_strlit("impl");
    reveal_strlit(" ");
    reveal_strlit(" {");
    reveal_strlit("}");
    reveal_strlit("\n");
    reveal_strlit("}\n");
    let ind = indent_text(level);
    let ind1 = indent_text(level + 1);
    assert(ind1 == ind + indent_unit());
    lemma_indent_no_newline(level);
    lemma_indent_no_newline(level + 1);
    let gi = generic_clause(im.impl_templates.deep_view(), im.impl_lifetimes.deep_view());
    let gt = generic_clause(im.target_templates.deep_view(), im.target_lifetimes.deep_view());
    lemma_generic_clause_no_newline(im.impl_templates.deep_view(), im.impl_lifetimes.deep_view());
    lemma_generic_clause_no_newline(
        im.target_templates.deep_view(),
        im.target_lifetimes.deep_view(),
    );
    let head = ind + "impl"@ + gi + " "@ + im.name@ + gt;
    lemma_concat_no_newline(ind, "impl"@);
    lemma_concat_no_newline(ind + "impl"@, gi);
    lemma_concat_no_newline(ind + "impl"@ + gi, " "@);
    lemma_concat_no_newline(ind + "impl"@ + gi + " "@, im.name@);
    lemma_concat_no_newline(ind + "impl"@ + gi + " "@ + im.name@, gt);
    let open_part = if im.extra@.len() == 0 {
        " {"@
    } else {
        " "@ + im.extra@ + " {"@
    };
    if im.extra@.len() != 0 {
        lemma_concat_no_newline(" "@, im.extra@);
        lemma_concat_no_newline(" "@ + im.extra@, " {"@);
    }
    let header_line = head + open_part;
    lemma_concat_no_newline(head, open_part);
    let n = im.components@.len() as int;
    let block = components_block(im.components, n, ind1, "\n"@);
    let closing = ind + "}"@;
    assert(has_no_newline("}"@));
    lemma_concat_no_newline(ind, "}"@);
    let rest = closing + "\n"@;
    assert(ind + "}\n"@ =~= rest);
    let tail1 = block + rest;
    assert(components_block(im.components, n, ind + indent_unit(), "\n"@) == block);
    assert(impl_text(im, level) =~= header_line + "\n"@ + tail1);
    lemma_split_lines_line(header_line, tail1);
    assert(forall|i: int| 0 <= i < n ==> (#[trigger] component_text_ind(
        im.components[i],
        ind1,
    )).len() > 0 && component_text_ind(im.components[i], ind1).last() == '\n');
    lemma_split_spaced_components_block(im.components, n, ind1, rest);
    assert(rest =~= closing + "\n"@ + Seq::<char>::empty());
    lemma_split_lines_line(closing, Seq::<char>::empty());
    assert(split_lines_from(Seq::<char>::empty(), Seq::<char>::empty())
        == Seq::<Seq<char>>::empty());
    assert(split_lines_from(rest, Seq::empty()) =~= seq![closing]);
    let child_lines = spaced_components_lines(im.components, n, ind1);
    assert(split_lines_from(tail1, Seq::empty()) =~= child_lines + seq![closing]);
    let lines = split_lines(impl_text(im, level));
    assert(lines =~= seq![header_line] + child_lines + seq![closing]);
    assert(lines.len() == 2 + child_lines.len());
    assert(lines[0] == header_line);
    assert(lines[0].take(ind.len() as int) =~= ind);
    assert(lines[lines.len() - 1] == closing);
    assert(lines[lines.len() - 1].take(ind.len() as int) =~= ind);
    lemma_spaced_components_lines_prefixed(im.components, n, ind1);
    assert forall|i: int| 1 <= i < lines.len() - 1 implies is_prefix_of(
        ind1,
        #[trigger] lines[i],
    ) || lines[i] == Seq::<char>::empty() by {
        assert(lines[i] == child_lines[i - 1]);
    }
}

} // verus!
