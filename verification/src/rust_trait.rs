//! Traits: a named construct with raw bound strings, generic parameters,
//! and an ordered sequence of child constructs, each followed by a blank
//! line.

use vstd::prelude::*;

use crate::indent_text;
use crate::indent_unit;
use crate::rust_component::component_text_ind;
use crate::rust_component::components_block;
use crate::rust_component::has_no_newline;
use crate::rust_component::indented_block_text;
use crate::rust_component::is_prefix_of;
use crate::rust_component::lemma_concat_no_newline;
use crate::rust_component::lemma_generic_clause_no_newline;
use crate::rust_component::lemma_indent_no_newline;
use crate::rust_component::lemma_join_text_no_newline;
use crate::rust_component::lemma_spaced_components_lines_prefixed;
use crate::rust_component::lemma_split_lines_line;
use crate::rust_component::lemma_split_spaced_components_block;
use crate::rust_component::lemma_vis_text_no_newline;
use crate::rust_component::spaced_components_lines;
use crate::rust_component::split_lines;
use crate::rust_component::split_lines_from;
use crate::rust_component::create_template_string;
use crate::rust_component::generic_clause;
use crate::rust_component::join_strings;
use crate::rust_component::join_text;
use crate::rust_component::push_components_block;
use crate::rust_component::vis_code;
use crate::rust_component::vis_text;
use crate::rust_component::RustComponent;
use crate::rust_component::RustComponentTrait;
use crate::rust_component::Visibility;

verus! {

/// A trait in Rust: a name, a visibility, raw bound strings joined after
/// a colon, generic parameters, child constructs, and raw `cfg`/`extra`
/// text slots.
#[derive(Debug, PartialEq, Hash)]
pub struct RustTrait {
    pub name: String,
    pub visibility: Visibility,
    pub bounds: Vec<String>,
    pub components: Vec<RustComponent>,
    pub lifetimes: Vec<String>,
    pub templates: Vec<String>,
    pub cfg: String,
    pub extra: String,
}

/// The declaration text of a trait, from the visibility keyword to the
/// opening brace, exclusive of indentation.
pub open spec fn trait_decl_text(t: RustTrait) -> Seq<char> {
    let vis_part = if t.visibility == Visibility::Private {
        Seq::<char>::empty()
    } else {
        vis_text(t.visibility) + " "@
    };
    let bounds_part = if t.bounds@.len() == 0 {
        Seq::<char>::empty()
    } else {
        ": "@ + join_text(t.bounds.deep_view(), " + "@)
    };
    let extra_part = if t.extra@.len() == 0 {
        Seq::<char>::empty()
    } else {
        " "@ + t.extra@
    };
    vis_part + "trait "@ + t.name@ + generic_clause(t.templates.deep_view(), t.lifetimes.deep_view())
        + bounds_part + extra_part + " {"@
}

/// How a trait renders: the optional `cfg` line, the declaration line with
/// bounds after a colon and the optional `extra` text, each child rendered
/// one level deeper followed by a blank line, and a closing brace line.
pub open spec fn trait_text_ind(t: RustTrait, ind: Seq<char>) -> Seq<char>
    decreases t,
{
    let cfg_part = if t.cfg@.len() == 0 {
        Seq::<char>::empty()
    } else {
        t.cfg@ + "\n"@ + ind
    };
    ind + cfg_part + trait_decl_text(t) + "\n"@ + components_block(
        t.components,
        t.components@.len() as int,
        ind + indent_unit(),
        "\n"@,
    ) + ind + "}\n"@
}

/// The rendering of a trait at a nesting level.
pub open spec fn trait_text(t: RustTrait, level: nat) -> Seq<char> {
    trait_text_ind(t, indent_text(level))
}

impl RustTrait {
    /// Creates a new private trait with the given name and nothing else.
    pub fn new(name: &str) -> (res: Self)
        ensures
            res.name@ == name@,
            res.visibility == Visibility::Private,
            res.bounds@ == Seq::<String>::empty(),
            res.components@ == Seq::<RustComponent>::empty(),
            res.lifetimes@ == Seq::<String>::empty(),
            res.templates@ == Seq::<String>::empty(),
            res.cfg@ == Seq::<char>::empty(),
            res.extra@ == Seq::<char>::empty(),
    {
        Self {
            name: name.to_owned(),
            visibility: Visibility::Private,
            bounds: Vec::new(),
            components: Vec::new(),
            lifetimes: Vec::new(),
            templates: Vec::new(),
            cfg: String::new(),
            extra: String::new(),
        }
    }

    /// Sets the visibility for this trait.
    pub fn with_visibility(self, visibility: Visibility) -> (res: Self)
        ensures
            res == (RustTrait { visibility, ..self }),
    {
        let mut this = self;
        this.set_visibility(visibility);
        this
    }

    /// Appends a raw trait bound.
    pub fn with_bound(self, bound: &str) -> (res: Self)
        ensures
            res.bounds.deep_view() == self.bounds.deep_view().push(bound@),
            res == (RustTrait { bounds: res.bounds, ..self }),
    {
        let mut this = self;
        this.push_bound(bound);
        this
    }

    /// Appends a child construct.  The caller is responsible for adding
    /// only constructs that are valid inside a trait body.
    pub fn with_component(self, component: RustComponent) -> (res: Self)
        ensures
            res.components@ == self.components@.push(component),
            res == (RustTrait { components: res.components, ..self }),
    {
        let mut this = self;
        this.push_component(component);
        this
    }

    /// Appends a lifetime; only the identifier is given, the apostrophe is
    /// added at render time.
    pub fn with_lifetime(self, lifetime: &str) -> (res: Self)
        ensures
            res.lifetimes.deep_view() == self.lifetimes.deep_view().push(lifetime@),
            res == (RustTrait { lifetimes: res.lifetimes, ..self }),
    {
        let mut this = self;
        this.push_lifetime(lifetime);
        this
    }

    /// Appends a type parameter to the generic clause.
    pub fn with_template(self, template: &str) -> (res: Self)
        ensures
            res.templates.deep_view() == self.templates.deep_view().push(template@),
            res == (RustTrait { templates: res.templates, ..self }),
    {
        let mut this = self;
        this.push_template(template);
        this
    }

    /// Sets the raw line emitted right before the declaration.
    pub fn with_cfg(self, cfg: &str) -> (res: Self)
        ensures
            res.cfg@ == cfg@,
            res == (RustTrait { cfg: res.cfg, ..self }),
    {
        let mut this = self;
        this.set_cfg(cfg);
        this
    }

    /// Sets the raw text inserted right before the opening brace.
    pub fn with_extra(self, extra: &str) -> (res: Self)
        ensures
            res.extra@ == extra@,
            res == (RustTrait { extra: res.extra, ..self }),
    {
        let mut this = self;
        this.set_extra(extra);
        this
    }

    /// Sets the visibility for this trait.
    pub fn set_visibility(&mut self, visibility: Visibility)
        ensures
            *final(self) == (RustTrait { visibility, ..*old(self) }),
    {
        self.visibility = visibility;
    }

    /// Appends a raw trait bound.
    pub fn push_bound(&mut self, bound: &str)
        ensures
            final(self).bounds.deep_view() == old(self).bounds.deep_view().push(bound@),
            *final(self) == (RustTrait { bounds: final(self).bounds, ..*old(self) }),
    {
        self.bounds.push(bound.to_owned());
        proof {
            assert(self.bounds.deep_view() =~= old(self).bounds.deep_view().push(bound@));
        }
    }

    /// Appends a child construct.  The caller is responsible for adding
    /// only constructs that are valid inside a trait body.
    pub fn push_component(&mut self, component: RustComponent)
        ensures
            final(self).components@ == old(self).components@.push(component),
            *final(self) == (RustTrait { components: final(self).components, ..*old(self) }),
    {
        self.components.push(component);
    }

    /// Appends a lifetime; only the identifier is given, the apostrophe is
    /// added at render time.
    pub fn push_lifetime(&mut self, lifetime: &str)
        ensures
            final(self).lifetimes.deep_view() == old(self).lifetimes.deep_view().push(lifetime@),
            *final(self) == (RustTrait { lifetimes: final(self).lifetimes, ..*old(self) }),
    {
        self.lifetimes.push(lifetime.to_owned());
        proof {
            assert(self.lifetimes.deep_view() =~= old(self).lifetimes.deep_view().push(lifetime@));
        }
    }

    /// Appends a type parameter to the generic clause.
    pub fn push_template(&mut self, template: &str)
        ensures
            final(self).templates.deep_view() == old(self).templates.deep_view().push(template@),
            *final(self) == (RustTrait { templates: final(self).templates, ..*old(self) }),
    {
        self.templates.push(template.to_owned());
        proof {
            assert(self.templates.deep_view() =~= old(self).templates.deep_view().push(template@));
        }
    }

    /// Sets the raw line emitted right before the declaration.
    pub fn set_cfg(&mut self, cfg: &str)
        ensures
            final(self).cfg@ == cfg@,
            *final(self) == (RustTrait { cfg: final(self).cfg, ..*old(self) }),
    {
        self.cfg = cfg.to_owned();
    }

    /// Sets the raw text inserted right before the opening brace.
    pub fn set_extra(&mut self, extra: &str)
        ensures
            final(self).extra@ == extra@,
            *final(self) == (RustTrait { extra: final(self).extra, ..*old(self) }),
    {
        self.extra = extra.to_owned();
    }

    #[verifier::rlimit(60)]
    pub(crate) fn render_ind(&self, ind: &str) -> (res: String)
        ensures
            res@ == trait_text_ind(*self, ind@),
        decreases *self,
    {
        let mut res = String::new();
        res.append(ind);
        if !self.cfg.as_str().is_empty() {
            res.append(self.cfg.as_str());
            res.append("\n");
            res.append(ind);
        }
        match self.visibility {
            Visibility::Private => {}
            _ => {
                res.append(vis_code(self.visibility));
                res.append(" ");
            }
        }
        res.append("trait ");
        res.append(self.name.as_str());
        let generics = create_template_string(&self.templates, &self.lifetimes);
        res.append(generics.as_str());
        if self.bounds.len() > 0 {
            res.append(": ");
            let joined = join_strings(&self.bounds, " + ");
            res.append(joined.as_str());
        }
        if !self.extra.as_str().is_empty() {
            res.append(" ");
            res.append(self.extra.as_str());
        }
        res.append(" {\n");
        let mut child_ind = ind.to_owned();
        child_ind.append("    ");
        push_components_block(&mut res, &self.components, child_ind.as_str(), "\n");
        res.append(ind);
        res.append("}\n");
        proof {
            reveal_strlit(" {\n");
            reveal_strlit(" {");
            reveal_strlit("\n");
            assert(" {\n"@ =~= " {"@ + "\n"@);
            assert(res@ =~= trait_text_ind(*self, ind@));
        }
        res
    }
}

impl RustComponentTrait for RustTrait {
    open spec fn text_spec(&self, indent_level: nat) -> Seq<char> {
        trait_text(*self, indent_level)
    }

    fn to_rust_string(&self, indent_level: usize) -> (res: String) {
        let ind = crate::indent_string(indent_level);
        self.render_ind(ind.as_str())
    }
}

impl vstd::std_specs::convert::FromSpecImpl<RustTrait> for RustComponent {
    open spec fn obeys_from_spec() -> bool {
        true
    }

    open spec fn from_spec(v: RustTrait) -> Self {
        RustComponent::Trait(v)
    }
}

impl From<RustTrait> for RustComponent {
    fn from(v: RustTrait) -> (res: RustComponent) {
        RustComponent::Trait(v)
    }
}


/// A private trait with no optional pieces set renders to exactly the
/// minimal form: no `cfg` line, no visibility word, no generic brackets,
/// no bounds colon and no `extra` text appear.
pub proof fn lemma_trait_render_minimal(t: RustTrait, level: nat)
    requires
        t.visibility == Visibility::Private,
        t.cfg@.len() == 0,
        t.extra@.len() == 0,
        t.bounds@.len() == 0,
        t.templates@.len() == 0,
        t.lifetimes@.len() == 0,
    ensures
        trait_text(t, level) == indent_text(level) + "trait "@ + t.name@ + " {\n"@
            + components_block(
            t.components,
            t.components@.len() as int,
            indent_text(level) + indent_unit(),
            "\n"@,
        ) + indent_text(level) + "}\n"@,
{
    assert(t.templates.deep_view().len() == 0);
    assert(t.lifetimes.deep_view().len() == 0);
    assert(t.lifetimes.deep_view().map_values(
        |l: Seq<char>| crate::rust_component::lifetime_item_text(l),
    ).len() == 0);
    assert(t.bounds@.len() == 0);
    assert(generic_clause(t.templates.deep_view(), t.lifetimes.deep_view())
        == Seq::<char>::empty());
    reveal_strlit(" {\n");
    reveal_strlit(" {");
    reveal_strlit("\n");
    assert(" {\n"@ =~= " {"@ + "\n"@);
    assert(trait_text(t, level) =~= indent_text(level) + "trait "@ + t.name@ + " {\n"@
        + components_block(
        t.components,
        t.components@.len() as int,
        indent_text(level) + indent_unit(),
        "\n"@,
    ) + indent_text(level) + "}\n"@);
}



pub(crate) proof fn lemma_trait_decl_no_newline(t: RustTrait)
    requires
        has_no_newline(t.name@),
        has_no_newline(t.extra@),
        forall|i: int| 0 <= i < t.bounds.deep_view().len() ==> has_no_newline(
            #[trigger] t.bounds.deep_view()[i],
        ),
        forall|i: int| 0 <= i < t.templates.deep_view().len() ==> has_no_newline(
            #[trigger] t.templates.deep_view()[i],
        ),
        forall|i: int| 0 <= i < t.lifetimes.deep_view().len() ==> has_no_newline(
            #[trigger] t.lifetimes.deep_view()[i],
        ),
    ensures
        has_no_newline(trait_decl_text(t)),
{
    reveal_strlit("trait ");
    reveal_strlit(" ");
    reveal_strlit(": ");
    reveal_strlit(" + ");
    reveal_strlit(" {");
    let g = generic_clause(t.templates.deep_view(), t.lifetimes.deep_view());
    lemma_generic_clause_no_newline(t.templates.deep_view(), t.lifetimes.deep_view());
    lemma_vis_text_no_newline(t.visibility);
    let vis_part = if t.visibility == Visibility::Private {
        Seq::<char>::empty()
    } else {
        vis_text(t.visibility) + " "@
    };
    if t.visibility != Visibility::Private {
        lemma_concat_no_newline(vis_text(t.visibility), " "@);
    }
    let bounds_part = if t.bounds@.len() == 0 {
        Seq::<char>::empty()
    } else {
        ": "@ + join_text(t.bounds.deep_view(), " + "@)
    };
    if t.bounds@.len() != 0 {
        lemma_join_text_no_newline(t.bounds.deep_view(), " + "@);
        lemma_concat_no_newline(": "@, join_text(t.bounds.deep_view(), " + "@));
    }
    let extra_part = if t.extra@.len() == 0 {
        Seq::<char>::empty()
    } else {
        " "@ + t.extra@
    };
    if t.extra@.len() != 0 {
        lemma_concat_no_newline(" "@, t.extra@);
    }
    lemma_concat_no_newline(vis_part, "trait "@);
    lemma_concat_no_newline(vis_part + "trait "@, t.name@);
    lemma_concat_no_newline(vis_part + "trait "@ + t.name@, g);
    lemma_concat_no_newline(vis_part + "trait "@ + t.name@ + g, bounds_part);
    lemma_concat_no_newline(vis_part + "trait "@ + t.name@ + g + bounds_part, extra_part);
    lemma_concat_no_newline(
        vis_part + "trait "@ + t.name@ + g + bounds_part + extra_part,
        " {"@,
    );
}

/// Line structure of a trait rendering, for children that each render as
/// complete indented blocks: the optional `cfg` line, the declaration
/// line and the closing brace line are each prefixed with exactly the
/// indentation of the trait's own level, and every child line is prefixed
/// with exactly one more indentation unit, with one blank separator line
/// after each child.
#[verifier::rlimit(100)]
pub proof fn lemma_trait_line_indents(t: RustTrait, level: nat)
    requires
        has_no_newline(t.name@),
        has_no_newline(t.cfg@),
        has_no_newline(t.extra@),
        forall|i: int| 0 <= i < t.bounds.deep_view().len() ==> has_no_newline(
            #[trigger] t.bounds.deep_view()[i],
        ),
        forall|i: int| 0 <= i < t.templates.deep_view().len() ==> has_no_newline(
            #[trigger] t.templates.deep_view()[i],
        ),
        forall|i: int| 0 <= i < t.lifetimes.deep_view().len() ==> has_no_newline(
            #[trigger] t.lifetimes.deep_view()[i],
        ),
        forall|i: int| 0 <= i < t.components@.len() ==> indented_block_text(
            component_text_ind(#[trigger] t.components@[i], indent_text(level + 1)),
            indent_text(level + 1),
        ),
    ensures
        ({
            let lines = split_lines(trait_text(t, level));
            let cfg_count: int = if t.cfg@.len() == 0 {
                0int
            } else {
                1int
            };
            &&& lines.len() == cfg_count + 2 + spaced_components_lines(
                t.components,
                t.components@.len() as int,
                indent_text(level + 1),
            ).len()
            &&& forall|i: int|
                0 <= i <= cfg_count ==> is_prefix_of(indent_text(level), #[trigger] lines[i])
            &&& is_prefix_of(indent_text(level), lines[lines.len() - 1])
            &&& forall|i: int|
                cfg_count + 1 <= i < lines.len() - 1 ==> is_prefix_of(
                    indent_text(level + 1),
                    #[trigger] lines[i],
                ) || lines[i] == Seq::<char>::empty()
        }),
{
    reveal_strlit(" {\n");
    reveal_strlit(" {");
    reveal_strlit("}");
    reveal_strlit("\n");
    reveal_strlit("}\n");
    let ind = indent_text(level);
    let ind1 = indent_text(level + 1);
    assert(ind1 == ind + indent_unit());
    lemma_indent_no_newline(level);
    lemma_indent_no_newline(level + 1);
    lemma_trait_decl_no_newline(t);
    let header_line = ind + trait_decl_text(t);
    lemma_concat_no_newline(ind, trait_decl_text(t));
    let n = t.components@.len() as int;
    let block = components_block(t.components, n, ind1, "\n"@);
    let closing = ind + "}"@;
    assert(has_no_newline("}"@));
    lemma_concat_no_newline(ind, "}"@);
    let rest = closing + "\n"@;
    assert(ind + "}\n"@ =~= rest);
    let tail1 = block + rest;
    assert(components_block(t.components, n, ind + indent_unit(), "\n"@) == block);
    assert(forall|i: int| 0 <= i < n ==> (#[trigger] component_text_ind(
        t.components[i],
        ind1,
    )).len() > 0 && component_text_ind(t.components[i], ind1).last() == '\n');
    lemma_split_spaced_components_block(t.components, n, ind1, rest);
    assert(rest =~= closing + "\n"@ + Seq::<char>::empty());
    lemma_split_lines_line(closing, Seq::<char>::empty());
    assert(split_lines_from(Seq::<char>::empty(), Seq::<char>::empty())
        == Seq::<Seq<char>>::empty());
    assert(split_lines_from(rest, Seq::empty()) =~= seq![closing]);
    let child_lines = spaced_components_lines(t.components, n, ind1);
    assert(split_lines_from(tail1, Seq::empty()) =~= child_lines + seq![closing]);
    let lines = split_lines(trait_text(t, level));
    let cfg_count: int = if t.cfg@.len() == 0 {
        0int
    } else {
        1int
    };
    if t.cfg@.len() == 0 {
        assert(trait_text(t, level) =~= header_line + "\n"@ + tail1);
        lemma_split_lines_line(header_line, tail1);
        assert(lines =~= seq![header_line] + child_lines + seq![closing]);
    } else {
        let cfg_line = ind + t.cfg@;
        lemma_concat_no_newline(ind, t.cfg@);
        assert(trait_text(t, level) =~= cfg_line + "\n"@ + (header_line + "\n"@ + tail1));
        lemma_split_lines_line(cfg_line, header_line + "\n"@ + tail1);
        lemma_split_lines_line(header_line, tail1);
        assert(lines =~= seq![cfg_line] + (seq![header_line] + (child_lines + seq![closing])));
    }
    assert(lines.len() == cfg_count + 2 + child_lines.len());
    assert forall|i: int| 0 <= i <= cfg_count implies is_prefix_of(ind, #[trigger] lines[i]) by {
        if i < cfg_count {
            assert(lines[i] == ind + t.cfg@);
            assert(lines[i].take(ind.len() as int) =~= ind);
        } else {
            assert(lines[i] == header_line);
            assert(lines[i].take(ind.len() as int) =~= ind);
        }
    }
    assert(lines[lines.len() - 1] == closing);
    assert(lines[lines.len() - 1].take(ind.len() as int) =~= ind);
    lemma_spaced_components_lines_prefixed(t.components, n, ind1);
    assert forall|i: int| cfg_count + 1 <= i < lines.len() - 1 implies is_prefix_of(
        ind1,
        #[trigger] lines[i],
    ) || lines[i] == Seq::<char>::empty() by {
        assert(lines[i] == child_lines[i - cfg_count - 1]);
    }
}

} // verus!
