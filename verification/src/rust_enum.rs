//! Enums: a named construct with ordered variants, where each variant is
//! struct-shaped, value-shaped (positional types), or empty.

use vstd::prelude::*;

use crate::indent_string;
use crate::indent_text;
use crate::indent_unit;
use crate::rust_component::create_template_string;
use crate::rust_component::has_no_newline;
use crate::rust_component::indented_block_text;
use crate::rust_component::is_prefix_of;
use crate::rust_component::lemma_concat_no_newline;
use crate::rust_component::lemma_generic_clause_no_newline;
use crate::rust_component::lemma_indent_no_newline;
use crate::rust_component::lemma_join_text_no_newline;
use crate::rust_component::lemma_split_lines_block;
use crate::rust_component::lemma_split_lines_line;
use crate::rust_component::lemma_vis_text_no_newline;
use crate::rust_component::split_lines;
use crate::rust_component::split_lines_from;
use crate::rust_component::dec_text;
use crate::rust_component::generic_clause;
use crate::rust_component::join_strings;
use crate::rust_component::join_text;
use crate::rust_component::lines_block;
use crate::rust_component::plain_field_text;
use crate::rust_component::push_plain_fields_block;
use crate::rust_component::usize_string;
use crate::rust_component::vis_code;
use crate::rust_component::vis_text;
use crate::rust_component::Field;
use crate::rust_component::RustComponent;
use crate::rust_component::RustComponentTrait;
use crate::rust_component::Visibility;

verus! {

/// An enum in Rust: a name, ordered variants, and the same optional
/// visibility, generic-parameter and `extra`/`cfg` slots a struct has.
#[derive(Clone, Debug, Hash, PartialEq)]
pub struct RustEnum {
    pub name: String,
    pub visibility: Visibility,
    pub variants: Vec<EnumVariant>,
    pub templates: Vec<String>,
    pub lifetimes: Vec<String>,
    pub extra: String,
    pub cfg: String,
}

/// One variant of an enum: struct-shaped with named fields, value-shaped
/// with positional types, or empty.
///
/// Field visibility inside a struct-shaped variant is ignored at render
/// time.
#[derive(Clone, Debug, Hash, PartialEq)]
pub enum EnumVariant {
    StructVariant { name: String, fields: Vec<Field> },
    ValueVariant { name: String, types: Vec<String> },
    EmptyVariant { name: String },
}

/// Builds an enum variant, inferring its shape from what was added: any
/// named field forces a struct-shaped variant, only unnamed values give a
/// value-shaped variant, and nothing at all gives an empty variant.
///
/// Mixing named fields and unnamed values on one builder is a caller
/// error: the variant comes out struct-shaped, with the unnamed values
/// keeping their automatically generated positional names.
#[derive(Debug)]
pub struct EnumVariantBuilder {
    pub name: String,
    pub struct_variant: bool,
    pub fields: Vec<(String, String)>,
}

/// How a variant renders, without a trailing newline: `Name,` when empty,
/// `Name(t1, t2),` when value-shaped, and a braced block of `name: type,`
/// lines when struct-shaped.
pub open spec fn variant_text_ind(v: EnumVariant, ind: Seq<char>) -> Seq<char> {
    match v {
        EnumVariant::StructVariant { name, fields } => ind + name@ + " {\n"@ + lines_block(
            fields@.map_values(|f: Field| plain_field_text(f)),
            ind + indent_unit(),
            ",\n"@,
        ) + ind + "},"@,
        EnumVariant::ValueVariant { name, types } => ind + name@ + "("@ + join_text(
            types.deep_view(),
            ", "@,
        ) + "),"@,
        EnumVariant::EmptyVariant { name } => ind + name@ + ","@,
    }
}

/// The rendering of a variant at a nesting level.
pub open spec fn variant_text(v: EnumVariant, level: nat) -> Seq<char> {
    variant_text_ind(v, indent_text(level))
}

/// The declaration line of an enum, from the visibility keyword to the
/// opening brace.
pub open spec fn enum_decl_text(e: RustEnum) -> Seq<char> {
    let head = if e.visibility == Visibility::Private {
        "enum "@ + e.name@ + generic_clause(e.templates.deep_view(), e.lifetimes.deep_view())
    } else {
        vis_text(e.visibility) + " "@ + "enum "@ + e.name@ + generic_clause(
            e.templates.deep_view(),
            e.lifetimes.deep_view(),
        )
    };
    if e.extra@.len() == 0 {
        head + " {"@
    } else {
        head + " "@ + e.extra@ + " {"@
    }
}

/// How an enum renders: the optional `cfg` line, the declaration line,
/// each variant rendered one level deeper on its own line, and a closing
/// brace line.
pub open spec fn enum_text_ind(e: RustEnum, ind: Seq<char>) -> Seq<char> {
    let cfg_part = if e.cfg@.len() == 0 {
        Seq::<char>::empty()
    } else {
        ind + e.cfg@ + "\n"@
    };
    cfg_part + ind + enum_decl_text(e) + "\n"@ + lines_block(
        e.variants@.map_values(|v: EnumVariant| variant_text_ind(v, ind + indent_unit())),
        Seq::<char>::empty(),
        "\n"@,
    ) + ind + "}\n"@
}

/// The rendering of an enum at a nesting level.
pub open spec fn enum_text(e: RustEnum, level: nat) -> Seq<char> {
    enum_text_ind(e, indent_text(level))
}

impl RustEnum {
    /// Creates a new private enum with the given name and nothing else.
    pub fn new(name: &str) -> (res: Self)
        ensures
            res.name@ == name@,
            res.visibility == Visibility::Private,
            res.variants@ == Seq::<EnumVariant>::empty(),
            res.templates@ == Seq::<String>::empty(),
            res.lifetimes@ == Seq::<String>::empty(),
            res.extra@ == Seq::<char>::empty(),
            res.cfg@ == Seq::<char>::empty(),
    {
        Self {
            name: name.to_owned(),
            visibility: Visibility::Private,
            variants: Vec::new(),
            templates: Vec::new(),
            lifetimes: Vec::new(),
            extra: String::new(),
            cfg: String::new(),
        }
    }

    /// Appends a variant, returning the enum for chaining.
    pub fn with_variant(self, variant: EnumVariant) -> (res: Self)
        ensures
            res.variants@ == self.variants@.push(variant),
            res == (RustEnum { variants: res.variants, ..self }),
    {
        let mut this = self;
        this.push_variant(variant);
        this
    }

    /// Sets the visibility for the enum.
    pub fn with_visibility(self, visibility: Visibility) -> (res: Self)
        ensures
            res == (RustEnum { visibility, ..self }),
    {
        let mut this = self;
        this.set_visibility(visibility);
        this
    }

    /// Appends a type parameter to the generic clause.
    pub fn with_template(self, template_identifier: &str) -> (res: Self)
        ensures
            res.templates.deep_view() == self.templates.deep_view().push(template_identifier@),
            res == (RustEnum { templates: res.templates, ..self }),
    {
        let mut this = self;
        this.push_template(template_identifier);
        this
    }

    /// Appends a lifetime; only the identifier is given, the apostrophe is
    /// added at render time.
    pub fn with_lifetime(self, lifetime_identifier: &str) -> (res: Self)
        ensures
            res.lifetimes.deep_view() == self.lifetimes.deep_view().push(lifetime_identifier@),
            res == (RustEnum { lifetimes: res.lifetimes, ..self }),
    {
        let mut this = self;
        this.push_lifetime(lifetime_identifier);
        this
    }

    /// Sets the raw text inserted right before the opening brace.
    pub fn with_extra(self, extra: &str) -> (res: Self)
        ensures
            res.extra@ == extra@,
            res == (RustEnum { extra: res.extra, ..self }),
    {
        let mut this = self;
        this.set_extra(extra);
        this
    }

    /// Sets the raw line emitted right before the declaration.
    pub fn with_cfg(self, cfg: &str) -> (res: Self)
        ensures
            res.cfg@ == cfg@,
            res == (RustEnum { cfg: res.cfg, ..self }),
    {
        let mut this = self;
        this.set_cfg(cfg);
        this
    }

    /// Appends a variant.
    pub fn push_variant(&mut self, variant: EnumVariant)
        ensures
            final(self).variants@ == old(self).variants@.push(variant),
            *final(self) == (RustEnum { variants: final(self).variants, ..*old(self) }),
    {
        self.variants.push(variant);
    }

    /// Sets the visibility of this enum.
    pub fn set_visibility(&mut self, visibility: Visibility)
        ensures
            *final(self) == (RustEnum { visibility, ..*old(self) }),
    {
        self.visibility = visibility;
    }

    /// Appends a type parameter to the generic clause.
    pub fn push_template(&mut self, template_identifier: &str)
        ensures
            final(self).templates.deep_view() == old(self).templates.deep_view().push(
                template_identifier@,
            ),
            *final(self) == (RustEnum { templates: final(self).templates, ..*old(self) }),
    {
        self.templates.push(template_identifier.to_owned());
        proof {
            assert(self.templates.deep_view() =~= old(self).templates.deep_view().push(
                template_identifier@,
            ));
        }
    }

    /// Appends a lifetime; only the identifier is given, the apostrophe is
    /// added at render time.
    pub fn push_lifetime(&mut self, lifetime_identifier: &str)
        ensures
            final(self).lifetimes.deep_view() == old(self).lifetimes.deep_view().push(
                lifetime_identifier@,
            ),
            *final(self) == (RustEnum { lifetimes: final(self).lifetimes, ..*old(self) }),
    {
        self.lifetimes.push(lifetime_identifier.to_owned());
        proof {
            assert(self.lifetimes.deep_view() =~= old(self).lifetimes.deep_view().push(
                lifetime_identifier@,
            ));
        }
    }

    /// Sets the raw text inserted right before the opening brace.
    pub fn set_extra(&mut self, extra: &str)
        ensures
            final(self).extra@ == extra@,
            *final(self) == (RustEnum { extra: final(self).extra, ..*old(self) }),
    {
        self.extra = extra.to_owned();
    }

    /// Sets the raw line emitted right before the declaration.
    pub fn set_cfg(&mut self, cfg: &str)
        ensures
            final(self).cfg@ == cfg@,
            *final(self) == (RustEnum { cfg: final(self).cfg, ..*old(self) }),
    {
        self.cfg = cfg.to_owned();
    }

    pub(crate) fn render_ind(&self, ind: &str) -> (res: String)
        ensures
            res@ == enum_text_ind(*self, ind@),
    {
        let ghost mapped = self.variants@.map_values(
            |v: EnumVariant| variant_text_ind(v, ind@ + indent_unit()),
        );
        let mut res = String::new();
        if !self.cfg.as_str().is_empty() {
            res.append(ind);
            res.append(self.cfg.as_str());
            res.append("\n");
        }
        res.append(ind);
        match self.visibility {
            Visibility::Private => {}
            _ => {
                res.append(vis_code(self.visibility));
                res.append(" ");
            }
        }
        res.append("enum ");
        res.append(self.name.as_str());
        let generics = create_template_string(&self.templates, &self.lifetimes);
        res.append(generics.as_str());
        if !self.extra.as_str().is_empty() {
            res.append(" ");
            res.append(self.extra.as_str());
        }
        res.append(" {");
        res.append("\n");
        let ghost before_variants = res@;
        let mut child_ind = ind.to_owned();
        child_ind.append("    ");
        let mut i: usize = 0;
        proof {
            assert(res@ =~= before_variants + lines_block(
                mapped.take(0),
                Seq::<char>::empty(),
                "\n"@,
            ));
        }
        while i < self.variants.len()
            invariant
                i <= self.variants.len(),
                child_ind@ == ind@ + indent_unit(),
                mapped == self.variants@.map_values(
                    |v: EnumVariant| variant_text_ind(v, ind@ + indent_unit()),
                ),
                res@ == before_variants + lines_block(
                    mapped.take(i as int),
                    Seq::<char>::empty(),
                    "\n"@,
                ),
            decreases self.variants.len() - i,
        {
            let line = self.variants[i].render_ind(child_ind.as_str());
            res.append(line.as_str());
            res.append("\n");
            proof {
                assert(mapped.take(i + 1).drop_last() =~= mapped.take(i as int));
                assert(mapped.take(i + 1).last() == mapped[i as int]);
                assert(res@ =~= before_variants + lines_block(
                    mapped.take(i + 1),
                    Seq::<char>::empty(),
                    "\n"@,
                ));
            }
            i = i + 1;
        }
        proof {
            assert(mapped.take(self.variants.len() as int) =~= mapped);
        }
        res.append(ind);
        res.append("}\n");
        proof {
            assert(res@ =~= enum_text_ind(*self, ind@));
        }
        res
    }
}

impl EnumVariant {
    /// Creates a new struct-shaped variant from ready-made fields.
    pub fn new_struct(name: &str, fields: Vec<Field>) -> (res: Self)
        ensures
            res matches EnumVariant::StructVariant { name: n, fields: fs } && n@ == name@ && fs
                == fields,
    {
        Self::StructVariant { name: name.to_owned(), fields }
    }

    /// Creates a new value-shaped variant from ready-made positional types.
    pub fn new_value(name: &str, types: Vec<String>) -> (res: Self)
        ensures
            res matches EnumVariant::ValueVariant { name: n, types: ts } && n@ == name@ && ts
                == types,
    {
        Self::ValueVariant { name: name.to_owned(), types }
    }

    /// Creates a new empty variant.
    pub fn new_empty(name: &str) -> (res: Self)
        ensures
            res matches EnumVariant::EmptyVariant { name: n } && n@ == name@,
    {
        Self::EmptyVariant { name: name.to_owned() }
    }

    /// Creates a new builder for a variant with the given name.
    pub fn build(name: &str) -> (res: EnumVariantBuilder)
        ensures
            res.name@ == name@,
            res.struct_variant == false,
            res.fields@ == Seq::<(String, String)>::empty(),
    {
        EnumVariantBuilder::new(name)
    }

    pub(crate) fn render_ind(&self, ind: &str) -> (res: String)
        ensures
            res@ == variant_text_ind(*self, ind@),
    {
        let mut res = String::new();
        res.append(ind);
        match self {
            EnumVariant::StructVariant { name, fields } => {
                res.append(name.as_str());
                res.append(" {\n");
                let mut field_ind = ind.to_owned();
                field_ind.append("    ");
                push_plain_fields_block(&mut res, fields, field_ind.as_str());
                res.append(ind);
                res.append("},");
            }
            EnumVariant::ValueVariant { name, types } => {
                res.append(name.as_str());
                res.append("(");
                let joined = join_strings(types, ", ");
                res.append(joined.as_str());
                res.append("),");
            }
            EnumVariant::EmptyVariant { name } => {
                res.append(name.as_str());
                res.append(",");
            }
        }
        proof {
            assert(res@ =~= variant_text_ind(*self, ind@));
        }
        res
    }
}

impl EnumVariantBuilder {
    /// Creates a new builder for a variant with the given name.
    pub fn new(name: &str) -> (res: Self)
        ensures
            res.name@ == name@,
            res.struct_variant == false,
            res.fields@ == Seq::<(String, String)>::empty(),
    {
        Self { name: name.to_owned(), struct_variant: false, fields: Vec::new() }
    }

    /// Finishes building and produces the variant the added entries call
    /// for: struct-shaped if any named field was added, empty if nothing
    /// was added, value-shaped otherwise.
    pub fn build(self) -> (res: EnumVariant)
        ensures
            self.struct_variant ==> (res matches EnumVariant::StructVariant { name: n, fields: fs }
                && n == self.name && fs@ == self.fields@.map_values(
                |p: (String, String)| Field {
                    name: p.0,
                    field_type: p.1,
                    visibility: Visibility::Private,
                },
            )),
            !self.struct_variant && self.fields@.len() == 0 ==> res == (EnumVariant::EmptyVariant {
                name: self.name,
            }),
            !self.struct_variant && self.fields@.len() > 0 ==> (res matches
                EnumVariant::ValueVariant { name: n, types: ts } && n == self.name && ts@
                == self.fields@.map_values(|p: (String, String)| p.1)),
    {
        let EnumVariantBuilder { name, struct_variant, fields } = self;
        if struct_variant {
            let converted = Self::into_fields(fields);
            EnumVariant::StructVariant { name, fields: converted }
        } else if fields.len() == 0 {
            proof {
                assert(fields@.len() == 0);
            }
            EnumVariant::EmptyVariant { name }
        } else {
            let converted = Self::into_types(fields);
            EnumVariant::ValueVariant { name, types: converted }
        }
    }

    /// Adds a named field, forcing a struct-shaped variant.
    pub fn with_field(self, name: &str, tp: &str) -> (res: Self)
        ensures
            res.fields.deep_view() == self.fields.deep_view().push((name@, tp@)),
            res.struct_variant == true,
            res == (EnumVariantBuilder { struct_variant: true, fields: res.fields, ..self }),
    {
        let mut this = self;
        this.push_field(name, tp);
        this
    }

    /// Adds an unnamed value under an automatically generated positional
    /// name.
    pub fn with_value(self, tp: &str) -> (res: Self)
        ensures
            res.fields.deep_view() == self.fields.deep_view().push(
                (dec_text(self.fields@.len() as nat), tp@),
            ),
            res == (EnumVariantBuilder { fields: res.fields, ..self }),
    {
        let mut this = self;
        this.push_value(tp);
        this
    }

    /// Adds a named field, forcing a struct-shaped variant.
    pub fn push_field(&mut self, name: &str, tp: &str)
        ensures
            final(self).fields.deep_view() == old(self).fields.deep_view().push((name@, tp@)),
            final(self).struct_variant == true,
            *final(self) == (EnumVariantBuilder {
                struct_variant: true,
                fields: final(self).fields,
                ..*old(self)
            }),
    {
        self.struct_variant = true;
        self.fields.push((name.to_owned(), tp.to_owned()));
        proof {
            assert(self.fields.deep_view() =~= old(self).fields.deep_view().push((name@, tp@)));
        }
    }

    /// Adds an unnamed value under an automatically generated positional
    /// name: the decimal index of the entry.
    pub fn push_value(&mut self, tp: &str)
        ensures
            final(self).fields.deep_view() == old(self).fields.deep_view().push(
                (dec_text(old(self).fields@.len() as nat), tp@),
            ),
            *final(self) == (EnumVariantBuilder { fields: final(self).fields, ..*old(self) }),
    {
        let positional = usize_string(self.fields.len());
        self.fields.push((positional, tp.to_owned()));
        proof {
            assert(self.fields.deep_view() =~= old(self).fields.deep_view().push(
                (dec_text(old(self).fields@.len() as nat), tp@),
            ));
        }
    }

    fn into_fields(pairs: Vec<(String, String)>) -> (res: Vec<Field>)
        ensures
            res@ == pairs@.map_values(
                |p: (String, String)| Field { name: p.0, field_type: p.1, visibility: Visibility::Private },
            ),
    {
        let ghost orig = pairs@;
        let ghost mapped = orig.map_values(
            |p: (String, String)| Field { name: p.0, field_type: p.1, visibility: Visibility::Private },
        );
        let mut pairs = pairs;
        let mut res: Vec<Field> = Vec::new();
        proof {
            assert(orig.skip(0) =~= orig);
            assert(res@ =~= mapped.take(0));
        }
        while pairs.len() > 0
            invariant
                res@.len() + pairs@.len() == orig.len(),
                pairs@ == orig.skip(res@.len() as int),
                mapped == orig.map_values(
                    |p: (String, String)| Field {
                        name: p.0,
                        field_type: p.1,
                        visibility: Visibility::Private,
                    },
                ),
                res@ == mapped.take(res@.len() as int),
            decreases pairs.len(),
        {
            let ghost k = res@.len() as int;
            let p = pairs.remove(0);
            proof {
                assert(p == orig[k]);
                assert(pairs@ =~= orig.skip(k + 1));
            }
            res.push(Field::private_fast(p.0, p.1));
            proof {
                assert(res@ =~= mapped.take(k + 1));
            }
        }
        proof {
            assert(mapped.take(res@.len() as int) =~= mapped);
        }
        res
    }

    fn into_types(pairs: Vec<(String, String)>) -> (res: Vec<String>)
        ensures
            res@ == pairs@.map_values(|p: (String, String)| p.1),
    {
        let ghost orig = pairs@;
        let ghost mapped = orig.map_values(|p: (String, String)| p.1);
        let mut pairs = pairs;
        let mut res: Vec<String> = Vec::new();
        proof {
            assert(orig.skip(0) =~= orig);
            assert(res@ =~= mapped.take(0));
        }
        while pairs.len() > 0
            invariant
                res@.len() + pairs@.len() == orig.len(),
                pairs@ == orig.skip(res@.len() as int),
                mapped == orig.map_values(|p: (String, String)| p.1),
                res@ == mapped.take(res@.len() as int),
            decreases pairs.len(),
        {
            let ghost k = res@.len() as int;
            let p = pairs.remove(0);
            proof {
                assert(p == orig[k]);
                assert(pairs@ =~= orig.skip(k + 1));
            }
            res.push(p.1);
            proof {
                assert(res@ =~= mapped.take(k + 1));
            }
        }
        proof {
            assert(mapped.take(res@.len() as int) =~= mapped);
        }
        res
    }
}

impl RustComponentTrait for RustEnum {
    open spec fn text_spec(&self, indent_level: nat) -> Seq<char> {
        enum_text(*self, indent_level)
    }

    fn to_rust_string(&self, indent_level: usize) -> (res: String) {
        let ind = indent_string(indent_level);
        self.render_ind(ind.as_str())
    }
}

impl RustComponentTrait for EnumVariant {
    open spec fn text_spec(&self, indent_level: nat) -> Seq<char> {
        variant_text(*self, indent_level)
    }

    fn to_rust_string(&self, indent_level: usize) -> (res: String) {
        let ind = indent_string(indent_level);
        self.render_ind(ind.as_str())
    }
}

impl vstd::std_specs::convert::FromSpecImpl<RustEnum> for RustComponent {
    open spec fn obeys_from_spec() -> bool {
        true
    }

    open spec fn from_spec(v: RustEnum) -> Self {
        RustComponent::Enum(v)
    }
}

impl From<RustEnum> for RustComponent {
    fn from(v: RustEnum) -> (res: RustComponent) {
        RustComponent::Enum(v)
    }
}

impl vstd::std_specs::convert::FromSpecImpl<EnumVariant> for RustComponent {
    open spec fn obeys_from_spec() -> bool {
        true
    }

    open spec fn from_spec(v: EnumVariant) -> Self {
        RustComponent::EnumVariant(v)
    }
}

impl From<EnumVariant> for RustComponent {
    fn from(v: EnumVariant) -> (res: RustComponent) {
        RustComponent::EnumVariant(v)
    }
}


/// A private enum with no optional pieces set renders to exactly the
/// minimal form: no `cfg` line, no visibility word, no generic brackets
/// and no `extra` text appear.
pub proof fn lemma_enum_render_minimal(e: RustEnum, level: nat)
    requires
        e.visibility == Visibility::Private,
        e.cfg@.len() == 0,
        e.extra@.len() == 0,
        e.templates@.len() == 0,
        e.lifetimes@.len() == 0,
    ensures
        enum_text(e, level) == indent_text(level) + "enum "@ + e.name@ + " {"@ + "\n"@
            + lines_block(
            e.variants@.map_values(
                |v: EnumVariant| variant_text_ind(v, indent_text(level) + indent_unit()),
            ),
            Seq::<char>::empty(),
            "\n"@,
        ) + indent_text(level) + "}\n"@,
{
    assert(e.templates.deep_view().len() == 0);
    assert(e.lifetimes.deep_view().len() == 0);
    assert(e.lifetimes.deep_view().map_values(
        |l: Seq<char>| crate::rust_component::lifetime_item_text(l),
    ).len() == 0);
    assert(generic_clause(e.templates.deep_view(), e.lifetimes.deep_view())
        == Seq::<char>::empty());
    assert(enum_text(e, level) =~= indent_text(level) + "enum "@ + e.name@ + " {"@ + "\n"@
        + lines_block(
        e.variants@.map_values(
            |v: EnumVariant| variant_text_ind(v, indent_text(level) + indent_unit()),
        ),
        Seq::<char>::empty(),
        "\n"@,
    ) + indent_text(level) + "}\n"@);
}


pub(crate) proof fn lemma_enum_decl_no_newline(e: RustEnum)
    requires
        has_no_newline(e.name@),
        has_no_newline(e.extra@),
        forall|i: int| 0 <= i < e.templates.deep_view().len() ==> has_no_newline(
            #[trigger] e.templates.deep_view()[i],
        ),
        forall|i: int| 0 <= i < e.lifetimes.deep_view().len() ==> has_no_newline(
            #[trigger] e.lifetimes.deep_view()[i],
        ),
    ensures
        has_no_newline(enum_decl_text(e)),
{
    reveal_strlit("enum ");
    reveal_strlit(" ");
    reveal_strlit(" {");
    lemma_vis_text_no_newline(e.visibility);
    lemma_generic_clause_no_newline(e.templates.deep_view(), e.lifetimes.deep_view());
    let g = generic_clause(e.templates.deep_view(), e.lifetimes.deep_view());
    if e.visibility == Visibility::Private {
        lemma_concat_no_newline("enum "@, e.name@);
        lemma_concat_no_newline("enum "@ + e.name@, g);
    } else {
        lemma_concat_no_newline(crate::rust_component::vis_text(e.visibility), " "@);
        lemma_concat_no_newline(crate::rust_component::vis_text(e.visibility) + " "@, "enum "@);
        lemma_concat_no_newline(
            crate::rust_component::vis_text(e.visibility) + " "@ + "enum "@,
            e.name@,
        );
        lemma_concat_no_newline(
            crate::rust_component::vis_text(e.visibility) + " "@ + "enum "@ + e.name@,
            g,
        );
    }
    let head = if e.visibility == Visibility::Private {
        "enum "@ + e.name@ + g
    } else {
        crate::rust_component::vis_text(e.visibility) + " "@ + "enum "@ + e.name@ + g
    };
    assert(has_no_newline(head));
    if e.extra@.len() == 0 {
        lemma_concat_no_newline(head, " {"@);
    } else {
        lemma_concat_no_newline(head, " "@);
        lemma_concat_no_newline(head + " "@, e.extra@);
        lemma_concat_no_newline(head + " "@ + e.extra@, " {"@);
    }
}

/// Holds of variants that render on a single line: empty and value-shaped
/// variants whose fragments hold no newline.
pub open spec fn single_line_variant(v: EnumVariant) -> bool {
    match v {
        EnumVariant::StructVariant { .. } => false,
        EnumVariant::ValueVariant { name, types } => has_no_newline(name@) && forall|i: int|
            0 <= i < types.deep_view().len() ==> has_no_newline(#[trigger] types.deep_view()[i]),
        EnumVariant::EmptyVariant { name } => has_no_newline(name@),
    }
}

pub(crate) proof fn lemma_variant_text_no_newline(v: EnumVariant, ind: Seq<char>)
    requires
        single_line_variant(v),
        has_no_newline(ind),
    ensures
        has_no_newline(variant_text_ind(v, ind)),
{
    reveal_strlit(",");
    reveal_strlit("(");
    reveal_strlit("),");
    reveal_strlit(", ");
    match v {
        EnumVariant::StructVariant { .. } => {}
        EnumVariant::ValueVariant { name, types } => {
            lemma_join_text_no_newline(types.deep_view(), ", "@);
            lemma_concat_no_newline(ind, name@);
            lemma_concat_no_newline(ind + name@, "("@);
            lemma_concat_no_newline(ind + name@ + "("@, join_text(types.deep_view(), ", "@));
            lemma_concat_no_newline(
                ind + name@ + "("@ + join_text(types.deep_view(), ", "@),
                "),"@,
            );
        }
        EnumVariant::EmptyVariant { name } => {
            lemma_concat_no_newline(ind, name@);
            lemma_concat_no_newline(ind + name@, ","@);
        }
    }
}

/// Line structure of an enum rendering, for enums whose variants each
/// render on a single line: the optional `cfg` line, the declaration line
/// and the closing brace line are each prefixed with exactly the
/// indentation of the enum's own level, and every variant line is
/// prefixed with exactly one more indentation unit.
#[verifier::rlimit(60)]
pub proof fn lemma_enum_line_indents(e: RustEnum, level: nat)
    requires
        has_no_newline(e.name@),
        has_no_newline(e.cfg@),
        has_no_newline(e.extra@),
        forall|i: int| 0 <= i < e.templates.deep_view().len() ==> has_no_newline(
            #[trigger] e.templates.deep_view()[i],
        ),
        forall|i: int| 0 <= i < e.lifetimes.deep_view().len() ==> has_no_newline(
            #[trigger] e.lifetimes.deep_view()[i],
        ),
        forall|i: int| 0 <= i < e.variants@.len() ==> single_line_variant(#[trigger] e.variants@[i]),
    ensures
        ({
            let lines = split_lines(enum_text(e, level));
            let cfg_count: int = if e.cfg@.len() == 0 {
                0int
            } else {
                1int
            };
            &&& lines.len() == cfg_count + 2 + e.variants@.len()
            &&& forall|i: int|
                0 <= i < lines.len() ==> is_prefix_of(indent_text(level), #[trigger] lines[i])
            &&& forall|i: int|
                cfg_count + 1 <= i < lines.len() - 1 ==> is_prefix_of(
                    indent_text(level + 1),
                    #[trigger] lines[i],
                )
            &&& indented_block_text(enum_text(e, level), indent_text(level))
        }),
{
    reveal_strlit("}");
    reveal_strlit("\n");
    reveal_strlit("}\n");
    let ind = indent_text(level);
    let ind1 = indent_text(level + 1);
    assert(ind1 == ind + indent_unit());
    lemma_indent_no_newline(level);
    lemma_indent_no_newline(level + 1);
    lemma_enum_decl_no_newline(e);
    let decl_line = ind + enum_decl_text(e);
    lemma_concat_no_newline(ind, enum_decl_text(e));
    let mapped = e.variants@.map_values(|v: EnumVariant| variant_text_ind(v, ind + indent_unit()));
    assert forall|i: int| 0 <= i < mapped.len() implies has_no_newline(#[trigger] mapped[i]) by {
        lemma_variant_text_no_newline(e.variants@[i], ind + indent_unit());
    }
    let block = lines_block(mapped, Seq::<char>::empty(), "\n"@);
    let closing = ind + "}"@;
    assert(has_no_newline("}"@));
    lemma_concat_no_newline(ind, "}"@);
    let rest = closing + "\n"@;
    assert(ind + "}\n"@ =~= rest);
    let tail1 = block + rest;
    assert("\n"@ =~= Seq::<char>::empty() + "\n"@);
    assert(lines_block(mapped, Seq::<char>::empty(), "\n"@) == lines_block(
        mapped,
        Seq::<char>::empty(),
        Seq::<char>::empty() + "\n"@,
    ));
    lemma_split_lines_block(mapped, Seq::<char>::empty(), Seq::<char>::empty(), rest);
    assert(rest =~= closing + "\n"@ + Seq::<char>::empty());
    lemma_split_lines_line(closing, Seq::<char>::empty());
    assert(split_lines_from(Seq::<char>::empty(), Seq::<char>::empty())
        == Seq::<Seq<char>>::empty());
    assert(split_lines_from(rest, Seq::empty()) =~= seq![closing]);
    let variant_lines = mapped.map_values(
        |x: Seq<char>| Seq::<char>::empty() + x + Seq::<char>::empty(),
    );
    assert(split_lines_from(tail1, Seq::empty()) =~= variant_lines + seq![closing]);
    let lines = split_lines(enum_text(e, level));
    if e.cfg@.len() == 0 {
        assert(enum_text(e, level) =~= decl_line + "\n"@ + tail1);
        lemma_split_lines_line(decl_line, tail1);
        assert(lines =~= seq![decl_line] + (variant_lines + seq![closing]));
    } else {
        let cfg_line = ind + e.cfg@;
        lemma_concat_no_newline(ind, e.cfg@);
        assert(enum_text(e, level) =~= cfg_line + "\n"@ + (decl_line + "\n"@ + tail1));
        lemma_split_lines_line(cfg_line, decl_line + "\n"@ + tail1);
        lemma_split_lines_line(decl_line, tail1);
        assert(lines =~= seq![cfg_line] + (seq![decl_line] + (variant_lines + seq![closing])));
    }
    let cfg_count: int = if e.cfg@.len() == 0 {
        0int
    } else {
        1int
    };
    assert(lines.len() == cfg_count + 2 + e.variants@.len());
    assert forall|i: int| 0 <= i < lines.len() implies is_prefix_of(ind, #[trigger] lines[i]) by {
        if i < cfg_count {
            assert(lines[i] == ind + e.cfg@);
            assert(lines[i].take(ind.len() as int) =~= ind);
        } else if i == cfg_count {
            assert(lines[i] == decl_line);
            assert(lines[i].take(ind.len() as int) =~= ind);
        } else if i < lines.len() - 1 {
            let v = e.variants@[i - cfg_count - 1];
            assert(lines[i] == variant_lines[i - cfg_count - 1]);
            assert(lines[i] == Seq::<char>::empty() + variant_text_ind(v, ind + indent_unit())
                + Seq::<char>::empty());
            match v {
                EnumVariant::StructVariant { .. } => {
                    assert(false);
                }
                EnumVariant::ValueVariant { name, types } => {
                    assert(lines[i].take(ind.len() as int) =~= ind);
                }
                EnumVariant::EmptyVariant { name } => {
                    assert(lines[i].take(ind.len() as int) =~= ind);
                }
            }
        } else {
            assert(lines[i] == closing);
            assert(lines[i].take(ind.len() as int) =~= ind);
        }
    }
    assert forall|i: int| cfg_count + 1 <= i < lines.len() - 1 implies is_prefix_of(
        ind1,
        #[trigger] lines[i],
    ) by {
        let v = e.variants@[i - cfg_count - 1];
        assert(lines[i] == variant_lines[i - cfg_count - 1]);
        assert(lines[i] == Seq::<char>::empty() + variant_text_ind(v, ind + indent_unit())
            + Seq::<char>::empty());
        match v {
            EnumVariant::StructVariant { .. } => {
                assert(false);
            }
            EnumVariant::ValueVariant { name, types } => {
                assert(lines[i].take(ind1.len() as int) =~= ind1);
            }
            EnumVariant::EmptyVariant { name } => {
                assert(lines[i].take(ind1.len() as int) =~= ind1);
            }
        }
    }
    assert(enum_text(e, level).len() > 0);
    assert(enum_text(e, level).last() == '\n');
}

} // verus!
