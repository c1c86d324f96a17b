//! Structs: a named construct with ordered fields, optional visibility,
//! generic parameters, and raw `extra`/`cfg` text slots.

use vstd::prelude::*;

use crate::indent_string;
use crate::indent_text;
use crate::indent_unit;
use crate::rust_component::create_template_string;
use crate::rust_component::has_no_newline;
use crate::rust_component::indented_block_text;
use crate::rust_component::is_prefix_of;
use crate::rust_component::lemma_concat_no_newline;
use crate::rust_component::lemma_field_text_no_newline;
use crate::rust_component::lemma_generic_clause_no_newline;
use crate::rust_component::lemma_indent_no_newline;
use crate::rust_component::lemma_split_lines_block;
use crate::rust_component::lemma_split_lines_line;
use crate::rust_component::lemma_vis_text_no_newline;
use crate::rust_component::split_lines;
use crate::rust_component::split_lines_from;
use crate::rust_component::field_text;
use crate::rust_component::generic_clause;
use crate::rust_component::lines_block;
use crate::rust_component::push_fields_block;
use crate::rust_component::vis_code;
use crate::rust_component::vis_text;
use crate::rust_component::Field;
use crate::rust_component::RustComponent;
use crate::rust_component::RustComponentTrait;
use crate::rust_component::Visibility;

verus! {

/// A struct in Rust.
///
/// `extra` is raw text inserted between the generic clause and the opening
/// brace (a where-clause, say); `cfg` is raw text emitted as a full line
/// immediately before the declaration (an attribute, say).  Both default
/// to empty, and an empty value suppresses the fragment entirely.
#[derive(Clone, Debug, Hash, PartialEq)]
pub struct RustStruct {
    pub name: String,
    pub fields: Vec<Field>,
    pub visibility: Visibility,
    pub templates: Vec<String>,
    pub lifetimes: Vec<String>,
    pub extra: String,
    pub cfg: String,
}

/// The declaration line of a struct, from the visibility keyword to the
/// opening brace.
pub open spec fn struct_decl_text(s: RustStruct) -> Seq<char> {
    let head = if s.visibility == Visibility::Private {
        "struct "@ + s.name@ + generic_clause(s.templates.deep_view(), s.lifetimes.deep_view())
    } else {
        vis_text(s.visibility) + " "@ + "struct "@ + s.name@ + generic_clause(
            s.templates.deep_view(),
            s.lifetimes.deep_view(),
        )
    };
    if s.extra@.len() == 0 {
        head + " {"@
    } else {
        head + " "@ + s.extra@ + " {"@
    }
}

/// How a struct renders: the optional `cfg` line, the declaration line,
/// one field per line one level deeper, and a closing brace line.
pub open spec fn struct_text_ind(s: RustStruct, ind: Seq<char>) -> Seq<char> {
    let cfg_part = if s.cfg@.len() == 0 {
        Seq::<char>::empty()
    } else {
        ind + s.cfg@ + "\n"@
    };
    cfg_part + ind + struct_decl_text(s) + "\n"@ + lines_block(
        s.fields@.map_values(|f: Field| field_text(f)),
        ind + indent_unit(),
        ",\n"@,
    ) + ind + "}\n"@
}

/// The rendering of a struct at a nesting level.
pub open spec fn struct_text(s: RustStruct, level: nat) -> Seq<char> {
    struct_text_ind(s, indent_text(level))
}

impl RustStruct {
    /// Creates a new private struct with the given name and nothing else.
    pub fn new(name: &str) -> (res: Self)
        ensures
            res.name@ == name@,
            res.fields@ == Seq::<Field>::empty(),
            res.visibility == Visibility::Private,
            res.templates@ == Seq::<String>::empty(),
            res.lifetimes@ == Seq::<String>::empty(),
            res.extra@ == Seq::<char>::empty(),
            res.cfg@ == Seq::<char>::empty(),
    {
        Self {
            name: name.to_owned(),
            fields: Vec::new(),
            visibility: Visibility::Private,
            templates: Vec::new(),
            lifetimes: Vec::new(),
            extra: String::new(),
            cfg: String::new(),
        }
    }

    /// Appends a field, returning the struct for chaining.
    pub fn with_field(self, field: Field) -> (res: Self)
        ensures
            res.fields@ == self.fields@.push(field),
            res == (RustStruct { fields: res.fields, ..self }),
    {
        let mut this = self;
        this.push_field(field);
        this
    }

    /// Sets the visibility of the struct.
    pub fn with_visibility(self, visibility: Visibility) -> (res: Self)
        ensures
            res == (RustStruct { visibility, ..self }),
    {
        let mut this = self;
        this.set_visibility(visibility);
        this
    }

    /// Appends a type parameter to the generic clause.
    pub fn with_template(self, template_identifier: &str) -> (res: Self)
        ensures
            res.templates.deep_view() == self.templates.deep_view().push(template_identifier@),
            res == (RustStruct { templates: res.templates, ..self }),
    {
        let mut this = self;
        this.push_template(template_identifier);
        this
    }

    /// Appends a lifetime; only the identifier is given, the apostrophe is
    /// added at render time.
    pub fn with_lifetime(self, lifetime_identifier: &str) -> (res: Self)
        ensures
            res.lifetimes.deep_view() == self.lifetimes.deep_view().push(lifetime_identifier@),
            res == (RustStruct { lifetimes: res.lifetimes, ..self }),
    {
        let mut this = self;
        this.push_lifetime(lifetime_identifier);
        this
    }

    /// Sets the raw text inserted right before the opening brace.
    pub fn with_extra(self, extra: &str) -> (res: Self)
        ensures
            res.extra@ == extra@,
            res == (RustStruct { extra: res.extra, ..self }),
    {
        let mut this = self;
        this.set_extra(extra);
        this
    }

    /// Sets the raw line emitted right before the declaration.
    pub fn with_cfg(self, cfg: &str) -> (res: Self)
        ensures
            res.cfg@ == cfg@,
            res == (RustStruct { cfg: res.cfg, ..self }),
    {
        let mut this = self;
        this.set_cfg(cfg);
        this
    }

    /// Appends a field.
    pub fn push_field(&mut self, field: Field)
        ensures
            final(self).fields@ == old(self).fields@.push(field),
            *final(self) == (RustStruct { fields: final(self).fields, ..*old(self) }),
    {
        self.fields.push(field);
    }

    /// Sets the visibility of the struct.
    pub fn set_visibility(&mut self, visibility: Visibility)
        ensures
            *final(self) == (RustStruct { visibility, ..*old(self) }),
    {
        self.visibility = visibility;
    }

    /// Appends a type parameter to the generic clause.
    pub fn push_template(&mut self, template_identifier: &str)
        ensures
            final(self).templates.deep_view() == old(self).templates.deep_view().push(
                template_identifier@,
            ),
            *final(self) == (RustStruct { templates: final(self).templates, ..*old(self) }),
    {
        self.templates.push(template_identifier.to_owned());
        proof {
            assert(self.templates.deep_view() =~= old(self).templates.deep_view().push(
                template_identifier@,
            ));
        }
    }

    /// Appends a lifetime; only the identifier is given, the apostrophe is
    /// added at render time.
    pub fn push_lifetime(&mut self, lifetime_identifier: &str)
        ensures
            final(self).lifetimes.deep_view() == old(self).lifetimes.deep_view().push(
                lifetime_identifier@,
            ),
            *final(self) == (RustStruct { lifetimes: final(self).lifetimes, ..*old(self) }),
    {
        self.lifetimes.push(lifetime_identifier.to_owned());
        proof {
            assert(self.lifetimes.deep_view() =~= old(self).lifetimes.deep_view().push(
                lifetime_identifier@,
            ));
        }
    }

    /// Sets the raw text inserted right before the opening brace.
    pub fn set_extra(&mut self, extra: &str)
        ensures
            final(self).extra@ == extra@,
            *final(self) == (RustStruct { extra: final(self).extra, ..*old(self) }),
    {
        self.extra = extra.to_owned();
    }

    /// Sets the raw line emitted right before the declaration.
    pub fn set_cfg(&mut self, cfg: &str)
        ensures
            final(self).cfg@ == cfg@,
            *final(self) == (RustStruct { cfg: final(self).cfg, ..*old(self) }),
    {
        self.cfg = cfg.to_owned();
    }

    pub(crate) fn render_ind(&self, ind: &str) -> (res: String)
        ensures
            res@ == struct_text_ind(*self, ind@),
    {
        let mut res = String::new();
        if !self.cfg.as_str().is_empty() {
            res.append(ind);
            res.append(self.cfg.as_str());
            res.append("\n");
        }
        res.append(ind);
        match self.visibility {
            Visibility::Private => {}
            _ => {
                res.append(vis_code(self.visibility));
                res.append(" ");
            }
        }
        res.append("struct ");
        res.append(self.name.as_str());
        let generics = create_template_string(&self.templates, &self.lifetimes);
        res.append(generics.as_str());
        if !self.extra.as_str().is_empty() {
            res.append(" ");
            res.append(self.extra.as_str());
        }
        res.append(" {");
        res.append("\n");
        let mut field_ind = ind.to_owned();
        field_ind.append("    ");
        push_fields_block(&mut res, &self.fields, field_ind.as_str());
        res.append(ind);
        res.append("}\n");
        proof {
            assert(res@ =~= struct_text_ind(*self, ind@));
        }
        res
    }
}

impl RustComponentTrait for RustStruct {
    open spec fn text_spec(&self, indent_level: nat) -> Seq<char> {
        struct_text(*self, indent_level)
    }

    fn to_rust_string(&self, indent_level: usize) -> (res: String) {
        let ind = indent_string(indent_level);
        self.render_ind(ind.as_str())
    }
}

impl vstd::std_specs::convert::FromSpecImpl<RustStruct> for RustComponent {
    open spec fn obeys_from_spec() -> bool {
        true
    }

    open spec fn from_spec(v: RustStruct) -> Self {
        RustComponent::Struct(v)
    }
}

impl From<RustStruct> for RustComponent {
    fn from(v: RustStruct) -> (res: RustComponent) {
        RustComponent::Struct(v)
    }
}


/// A private struct with no optional pieces set renders to exactly the
/// minimal form: no `cfg` line, no visibility word, no generic brackets
/// and no `extra` text appear.
pub proof fn lemma_struct_render_minimal(s: RustStruct, level: nat)
    requires
        s.visibility == Visibility::Private,
        s.cfg@.len() == 0,
        s.extra@.len() == 0,
        s.templates@.len() == 0,
        s.lifetimes@.len() == 0,
    ensures
        struct_text(s, level) == indent_text(level) + "struct "@ + s.name@ + " {"@ + "\n"@
            + lines_block(
            s.fields@.map_values(|f: Field| field_text(f)),
            indent_text(level) + indent_unit(),
            ",\n"@,
        ) + indent_text(level) + "}\n"@,
{
    assert(s.templates.deep_view().len() == 0);
    assert(s.lifetimes.deep_view().len() == 0);
    assert(s.lifetimes.deep_view().map_values(
        |l: Seq<char>| crate::rust_component::lifetime_item_text(l),
    ).len() == 0);
    assert(generic_clause(s.templates.deep_view(), s.lifetimes.deep_view())
        == Seq::<char>::empty());
    assert(struct_text(s, level) =~= indent_text(level) + "struct "@ + s.name@ + " {"@ + "\n"@
        + lines_block(
        s.fields@.map_values(|f: Field| field_text(f)),
        indent_text(level) + indent_unit(),
        ",\n"@,
    ) + indent_text(level) + "}\n"@);
}


pub(crate) proof fn lemma_struct_decl_no_newline(s: RustStruct)
    requires
        has_no_newline(s.name@),
        has_no_newline(s.extra@),
        forall|i: int| 0 <= i < s.templates.deep_view().len() ==> has_no_newline(
            #[trigger] s.templates.deep_view()[i],
        ),
        forall|i: int| 0 <= i < s.lifetimes.deep_view().len() ==> has_no_newline(
            #[trigger] s.lifetimes.deep_view()[i],
        ),
    ensures
        has_no_newline(struct_decl_text(s)),
{
    reveal_strlit("struct ");
    reveal_strlit(" ");
    reveal_strlit(" {");
    lemma_vis_text_no_newline(s.visibility);
    lemma_generic_clause_no_newline(s.templates.deep_view(), s.lifetimes.deep_view());
    let g = generic_clause(s.templates.deep_view(), s.lifetimes.deep_view());
    if s.visibility == Visibility::Private {
        lemma_concat_no_newline("struct "@, s.name@);
        lemma_concat_no_newline("struct "@ + s.name@, g);
    } else {
        lemma_concat_no_newline(crate::rust_component::vis_text(s.visibility), " "@);
        lemma_concat_no_newline(crate::rust_component::vis_text(s.visibility) + " "@, "struct "@);
        lemma_concat_no_newline(
            crate::rust_component::vis_text(s.visibility) + " "@ + "struct "@,
            s.name@,
        );
        lemma_concat_no_newline(
            crate::rust_component::vis_text(s.visibility) + " "@ + "struct "@ + s.name@,
            g,
        );
    }
    let head = if s.visibility == Visibility::Private {
        "struct "@ + s.name@ + g
    } else {
        crate::rust_component::vis_text(s.visibility) + " "@ + "struct "@ + s.name@ + g
    };
    assert(has_no_newline(head));
    if s.extra@.len() == 0 {
        lemma_concat_no_newline(head, " {"@);
    } else {
        lemma_concat_no_newline(head, " "@);
        lemma_concat_no_newline(head + " "@, s.extra@);
        lemma_concat_no_newline(head + " "@ + s.extra@, " {"@);
    }
}

/// Line structure of a struct rendering: when no fragment holds an
/// embedded newline, the rendering splits into the optional `cfg` line,
/// the declaration line and the closing brace line, each prefixed with
/// exactly the indentation of the struct's own level, and one line per
/// field, each prefixed with exactly one more indentation unit.
pub proof fn lemma_struct_line_indents(s: RustStruct, level: nat)
    requires
        has_no_newline(s.name@),
        has_no_newline(s.cfg@),
        has_no_newline(s.extra@),
        forall|i: int| 0 <= i < s.templates.deep_view().len() ==> has_no_newline(
            #[trigger] s.templates.deep_view()[i],
        ),
        forall|i: int| 0 <= i < s.lifetimes.deep_view().len() ==> has_no_newline(
            #[trigger] s.lifetimes.deep_view()[i],
        ),
        forall|i: int| 0 <= i < s.fields@.len() ==> has_no_newline(#[trigger] s.fields@[i].name@)
            && has_no_newline(s.fields@[i].field_type@),
    ensures
        ({
            let lines = split_lines(struct_text(s, level));
            let cfg_count: int = if s.cfg@.len() == 0 {
                0int
            } else {
                1int
            };
            &&& lines.len() == cfg_count + 2 + s.fields@.len()
            &&& forall|i: int|
                0 <= i < lines.len() ==> is_prefix_of(indent_text(level), #[trigger] lines[i])
            &&& forall|i: int|
                cfg_count + 1 <= i < lines.len() - 1 ==> is_prefix_of(
                    indent_text(level + 1),
                    #[trigger] lines[i],
                )
            &&& indented_block_text(struct_text(s, level), indent_text(level))
        }),
{
    reveal_strlit("}");
    reveal_strlit("\n");
    reveal_strlit("}\n");
    let ind = indent_text(level);
    let ind1 = indent_text(level + 1);
    assert(ind1 == ind + indent_unit());
    lemma_indent_no_newline(level);
    lemma_indent_no_newline(level + 1);
    lemma_struct_decl_no_newline(s);
    let decl_line = ind + struct_decl_text(s);
    lemma_concat_no_newline(ind, struct_decl_text(s));
    let mapped_fields = s.fields@.map_values(|f: Field| field_text(f));
    assert forall|i: int| 0 <= i < mapped_fields.len() implies has_no_newline(
        #[trigger] mapped_fields[i],
    ) by {
        lemma_field_text_no_newline(s.fields@[i]);
    }
    let block = lines_block(mapped_fields, ind1, ",\n"@);
    let closing = ind + "}"@;
    assert(has_no_newline("}"@));
    lemma_concat_no_newline(ind, "}"@);
    let rest = closing + "\n"@;
    assert(ind + "}\n"@ =~= rest);
    let tail1 = block + rest;
    reveal_strlit(",");
    reveal_strlit(",\n");
    assert(",\n"@ =~= ","@ + "\n"@);
    assert(has_no_newline(","@));
    lemma_split_lines_block(mapped_fields, ind1, ","@, rest);
    assert(lines_block(mapped_fields, ind1, ",\n"@) == lines_block(
        mapped_fields,
        ind1,
        ","@ + "\n"@,
    ));
    assert(rest =~= closing + "\n"@ + Seq::<char>::empty());
    lemma_split_lines_line(closing, Seq::<char>::empty());
    assert(split_lines_from(Seq::<char>::empty(), Seq::<char>::empty())
        == Seq::<Seq<char>>::empty());
    assert(split_lines_from(rest, Seq::empty()) =~= seq![closing]);
    let field_lines = mapped_fields.map_values(|x: Seq<char>| ind1 + x + ","@);
    assert(split_lines_from(tail1, Seq::empty()) =~= field_lines + seq![closing]);
    let lines = split_lines(struct_text(s, level));
    if s.cfg@.len() == 0 {
        assert(struct_text(s, level) =~= decl_line + "\n"@ + tail1);
        lemma_split_lines_line(decl_line, tail1);
        assert(lines =~= seq![decl_line] + (field_lines + seq![closing]));
    } else {
        let cfg_line = ind + s.cfg@;
        lemma_concat_no_newline(ind, s.cfg@);
        assert(struct_text(s, level) =~= cfg_line + "\n"@ + (decl_line + "\n"@ + tail1));
        lemma_split_lines_line(cfg_line, decl_line + "\n"@ + tail1);
        lemma_split_lines_line(decl_line, tail1);
        assert(lines =~= seq![cfg_line] + (seq![decl_line] + (field_lines + seq![closing])));
    }
    let cfg_count: int = if s.cfg@.len() == 0 {
        0int
    } else {
        1int
    };
    assert(lines.len() == cfg_count + 2 + s.fields@.len());
    assert forall|i: int| 0 <= i < lines.len() implies is_prefix_of(ind, #[trigger] lines[i]) by {
        if i < cfg_count {
            assert(lines[i] == ind + s.cfg@);
            assert(lines[i].take(ind.len() as int) =~= ind);
        } else if i == cfg_count {
            assert(lines[i] == decl_line);
            assert(lines[i].take(ind.len() as int) =~= ind);
        } else if i < lines.len() - 1 {
            assert(lines[i] == field_lines[i - cfg_count - 1]);
            assert(lines[i] == ind1 + mapped_fields[i - cfg_count - 1] + ","@);
            assert(lines[i].take(ind.len() as int) =~= ind);
        } else {
            assert(lines[i] == closing);
            assert(lines[i].take(ind.len() as int) =~= ind);
        }
    }
    assert forall|i: int| cfg_count + 1 <= i < lines.len() - 1 implies is_prefix_of(
        ind1,
        #[trigger] lines[i],
    ) by {
        assert(lines[i] == field_lines[i - cfg_count - 1]);
        assert(lines[i] == ind1 + mapped_fields[i - cfg_count - 1] + ","@);
        assert(lines[i].take(ind1.len() as int) =~= ind1);
    }
    assert(struct_text(s, level).len() > 0);
    assert(struct_text(s, level).last() == '\n');
}

} // verus!
