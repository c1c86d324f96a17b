//! Modules: a named construct holding raw import lines and an ordered
//! sequence of child constructs.

use vstd::prelude::*;

use crate::indent_text;
use crate::indent_unit;
use crate::rust_component::component_text_ind;
use crate::rust_component::components_lines;
use crate::rust_component::has_no_newline;
use crate::rust_component::indented_block_text;
use crate::rust_component::is_prefix_of;
use crate::rust_component::lemma_components_lines_prefixed;
use crate::rust_component::lemma_concat_no_newline;
use crate::rust_component::lemma_indent_no_newline;
use crate::rust_component::lemma_prefix_extends;
use crate::rust_component::lemma_split_components_block;
use crate::rust_component::lemma_split_lines_line;
use crate::rust_component::split_lines;
use crate::rust_component::split_lines_from;
use crate::rust_component::components_block;
use crate::rust_component::lines_block;
use crate::rust_component::RustComponent;
use crate::rust_component::RustComponentTrait;
use crate::rust_component::Visibility;

verus! {

/// A module in Rust: a name, a visibility, raw import lines, child
/// constructs, and a raw `cfg` line emitted before the declaration.
#[derive(Debug, Hash, PartialEq)]
pub struct RustModule {
    pub name: String,
    pub visibility: Visibility,
    pub imports: Vec<String>,
    pub components: Vec<RustComponent>,
    pub cfg_options: String,
}

/// The declaration keyword of a module, visibility included.
pub open spec fn module_decl_word(v: Visibility) -> Seq<char> {
    match v {
        Visibility::Private => "mod "@,
        Visibility::Public => "pub mod "@,
        Visibility::CrateVisible => "pub(crate) mod "@,
    }
}

/// How a module renders: the optional `cfg` line, the declaration line,
/// each import as `import;` one level deeper followed by one blank line
/// when any import exists, each child rendered one level deeper, and a
/// closing brace line.
pub open spec fn module_text_ind(m: RustModule, ind: Seq<char>) -> Seq<char>
    decreases m,
{
    let cfg_part = if m.cfg_options@.len() == 0 {
        Seq::<char>::empty()
    } else {
        ind + m.cfg_options@ + "\n"@
    };
    let decl_word = module_decl_word(m.visibility);
    let imports_part = if m.imports@.len() == 0 {
        Seq::<char>::empty()
    } else {
        lines_block(m.imports.deep_view(), ind + indent_unit(), ";\n"@) + "\n"@
    };
    cfg_part + ind + decl_word + m.name@ + " {\n"@ + imports_part + components_block(
        m.components,
        m.components@.len() as int,
        ind + indent_unit(),
        Seq::<char>::empty(),
    ) + ind + "}\n"@
}

/// The rendering of a module at a nesting level.
pub open spec fn module_text(m: RustModule, level: nat) -> Seq<char> {
    module_text_ind(m, indent_text(level))
}

impl RustModule {
    /// Creates a new private module with the given name and nothing else.
    pub fn new(name: &str) -> (res: Self)
        ensures
            res.name@ == name@,
            res.visibility == Visibility::Private,
            res.imports@ == Seq::<String>::empty(),
            res.components@ == Seq::<RustComponent>::empty(),
            res.cfg_options@ == Seq::<char>::empty(),
    {
        Self {
            name: name.to_owned(),
            visibility: Visibility::Private,
            cfg_options: String::new(),
            imports: Vec::new(),
            components: Vec::new(),
        }
    }

    /// Sets the raw line emitted right before the declaration.
    pub fn with_cfg(self, option: &str) -> (res: Self)
        ensures
            res.cfg_options@ == option@,
            res == (RustModule { cfg_options: res.cfg_options, ..self }),
    {
        let mut this = self;
        this.set_cfg(option);
        this
    }

    /// Sets the visibility of the module.
    pub fn with_visibility(self, visibility: Visibility) -> (res: Self)
        ensures
            res == (RustModule { visibility, ..self }),
    {
        let mut this = self;
        this.set_visibility(visibility);
        this
    }

    /// Appends a raw import line, given without the trailing semicolon.
    pub fn with_import(self, import: &str) -> (res: Self)
        ensures
            res.imports.deep_view() == self.imports.deep_view().push(import@),
            res == (RustModule { imports: res.imports, ..self }),
    {
        let mut this = self;
        this.push_import(import);
        this
    }

    /// Replaces the child constructs with the given sequence.
    pub fn with_components(self, components: Vec<RustComponent>) -> (res: Self)
        ensures
            res == (RustModule { components, ..self }),
    {
        let mut this = self;
        this.set_components(components);
        this
    }

    /// Appends a child construct.
    pub fn with_component(self, component: RustComponent) -> (res: Self)
        ensures
            res.components@ == self.components@.push(component),
            res == (RustModule { components: res.components, ..self }),
    {
        let mut this = self;
        this.push_component(component);
        this
    }

    /// Sets the raw line emitted right before the declaration.
    pub fn set_cfg(&mut self, option: &str)
        ensures
            final(self).cfg_options@ == option@,
            *final(self) == (RustModule { cfg_options: final(self).cfg_options, ..*old(self) }),
    {
        self.cfg_options = option.to_owned();
    }

    /// Sets the visibility of the module.
    pub fn set_visibility(&mut self, visibility: Visibility)
        ensures
            *final(self) == (RustModule { visibility, ..*old(self) }),
    {
        self.visibility = visibility;
    }

    /// Replaces the child constructs with the given sequence.
    pub fn set_components(&mut self, components: Vec<RustComponent>)
        ensures
            *final(self) == (RustModule { components, ..*old(self) }),
    {
        self.components = components;
    }

    /// Appends a child construct.
    pub fn push_component(&mut self, component: RustComponent)
        ensures
            final(self).components@ == old(self).components@.push(component),
            *final(self) == (RustModule { components: final(self).components, ..*old(self) }),
    {
        self.components.push(component);
    }

    /// Appends a raw import line, given without the trailing semicolon.
    pub fn push_import(&mut self, import: &str)
        ensures
            final(self).imports.deep_view() == old(self).imports.deep_view().push(import@),
            *final(self) == (RustModule { imports: final(self).imports, ..*old(self) }),
    {
        self.imports.push(import.to_owned());
        proof {
            assert(self.imports.deep_view() =~= old(self).imports.deep_view().push(import@));
        }
    }

    pub(crate) fn render_ind(&self, ind: &str) -> (res: String)
        ensures
            res@ == module_text_ind(*self, ind@),
        decreases *self,
    {
        let mut res = String::new();
        if !self.cfg_options.as_str().is_empty() {
            res.append(ind);
            res.append(self.cfg_options.as_str());
            res.append("\n");
        }
        res.append(ind);
        match self.visibility {
            Visibility::Private => res.append("mod "),
            Visibility::Public => res.append("pub mod "),
            Visibility::CrateVisible => res.append("pub(crate) mod "),
        }
        res.append(self.name.as_str());
        res.append(" {\n");
        let mut child_ind = ind.to_owned();
        child_ind.append("    ");
        if self.imports.len() > 0 {
            crate::rust_component::push_lines_block(
                &mut res,
                &self.imports,
                child_ind.as_str(),
                ";\n",
            );
            res.append("\n");
        }
        crate::rust_component::push_components_block(
            &mut res,
            &self.components,
            child_ind.as_str(),
            "",
        );
        res.append(ind);
        res.append("}\n");
        proof {
            reveal_strlit("");
            assert(""@ =~= Seq::<char>::empty());
            assert(res@ =~= module_text_ind(*self, ind@));
        }
        res
    }
}

impl RustComponentTrait for RustModule {
    open spec fn text_spec(&self, indent_level: nat) -> Seq<char> {
        module_text(*self, indent_level)
    }

    fn to_rust_string(&self, indent_level: usize) -> (res: String) {
        let ind = crate::indent_string(indent_level);
        self.render_ind(ind.as_str())
    }
}

impl vstd::std_specs::convert::FromSpecImpl<RustModule> for RustComponent {
    open spec fn obeys_from_spec() -> bool {
        true
    }

    open spec fn from_spec(v: RustModule) -> Self {
        RustComponent::Module(v)
    }
}

impl From<RustModule> for RustComponent {
    fn from(v: RustModule) -> (res: RustComponent) {
        RustComponent::Module(v)
    }
}


/// A private module with no `cfg` line and no imports renders to exactly
/// the minimal form: the declaration line, the children, and the closing
/// brace line, with no import block and no blank line.
pub proof fn lemma_module_render_minimal(m: RustModule, level: nat)
    requires
        m.visibility == Visibility::Private,
        m.cfg_options@.len() == 0,
        m.imports@.len() == 0,
    ensures
        module_text(m, level) == indent_text(level) + "mod "@ + m.name@ + " {\n"@
            + components_block(
            m.components,
            m.components@.len() as int,
            indent_text(level) + indent_unit(),
            Seq::<char>::empty(),
        ) + indent_text(level) + "}\n"@,
{
    assert(module_text(m, level) =~= indent_text(level) + "mod "@ + m.name@ + " {\n"@
        + components_block(
        m.components,
        m.components@.len() as int,
        indent_text(level) + indent_unit(),
        Seq::<char>::empty(),
    ) + indent_text(level) + "}\n"@);
}


/// Line structure of a module rendering, for a module without imports
/// whose children each render as complete indented blocks: the optional
/// `cfg` line, the declaration line and the closing brace line are each
/// prefixed with exactly the indentation of the module's own level, and
/// every child line is prefixed with exactly one more indentation unit.
#[verifier::rlimit(60)]
pub proof fn lemma_module_line_indents(m: RustModule, level: nat)
    requires
        has_no_newline(m.name@),
        has_no_newline(m.cfg_options@),
        m.imports@.len() == 0,
        forall|i: int| 0 <= i < m.components@.len() ==> indented_block_text(
            component_text_ind(#[trigger] m.components@[i], indent_text(level + 1)),
            indent_text(level + 1),
        ),
    ensures
        ({
            let lines = split_lines(module_text(m, level));
            let child_lines = components_lines(
                m.components,
                m.components@.len() as int,
                indent_text(level + 1),
            );
            let cfg_lines: Seq<Seq<char>> = if m.cfg_options@.len() == 0 {
                Seq::empty()
            } else {
                seq![indent_text(level) + m.cfg_options@]
            };
            let cfg_count: int = cfg_lines.len() as int;
            &&& lines == cfg_lines + seq![
                indent_text(level) + module_decl_word(m.visibility) + m.name@ + " {"@,
            ] + child_lines + seq![indent_text(level) + "}"@]
            &&& forall|i: int|
                0 <= i < lines.len() ==> is_prefix_of(indent_text(level), #[trigger] lines[i])
            &&& forall|i: int|
                cfg_count + 1 <= i < lines.len() - 1 ==> is_prefix_of(
                    indent_text(level + 1),
                    #[trigger] lines[i],
                )
        }),
{
    reveal_strlit("mod ");
    reveal_strlit("pub mod ");
    reveal_strlit("pub(crate) mod ");
    reveal_strlit(" {");
    reveal_strlit(" {\n");
    reveal_strlit("}");
    reveal_strlit("\n");
    reveal_strlit("}\n");
    let ind = indent_text(level);
    let ind1 = indent_text(level + 1);
    assert(ind1 == ind + indent_unit());
    lemma_indent_no_newline(level);
    lemma_indent_no_newline(level + 1);
    let word = module_decl_word(m.visibility);
    assert(has_no_newline(word));
    let decl_line = ind + word + m.name@ + " {"@;
    lemma_concat_no_newline(ind, word);
    lemma_concat_no_newline(ind + word, m.name@);
    lemma_concat_no_newline(ind + word + m.name@, " {"@);
    let n = m.components@.len() as int;
    assert(forall|i: int| 0 <= i < n ==> (#[trigger] component_text_ind(
        m.components[i],
        ind1,
    )).len() > 0 && component_text_ind(m.components[i], ind1).last() == '\n');
    let block = crate::rust_component::components_block(m.components, n, ind1, Seq::<char>::empty());
    let closing = ind + "}"@;
    assert(has_no_newline("}"@));
    lemma_concat_no_newline(ind, "}"@);
    let rest = closing + "\n"@;
    assert(ind + "}\n"@ =~= rest);
    let tail1 = block + rest;
    assert(components_block(m.components, n, ind + indent_unit(), Seq::<char>::empty()) == block);
    lemma_split_lines_line(decl_line, tail1);
    lemma_split_components_block(m.components, n, ind1, rest);
    assert(rest =~= closing + "\n"@ + Seq::<char>::empty());
    lemma_split_lines_line(closing, Seq::<char>::empty());
    assert(split_lines_from(Seq::<char>::empty(), Seq::<char>::empty())
        == Seq::<Seq<char>>::empty());
    assert(split_lines_from(rest, Seq::empty()) =~= seq![closing]);
    let child_lines = components_lines(m.components, n, ind1);
    assert(split_lines_from(tail1, Seq::empty()) =~= child_lines + seq![closing]);
    let lines = split_lines(module_text(m, level));
    let cfg_count: int = if m.cfg_options@.len() == 0 {
        0int
    } else {
        1int
    };
    if m.cfg_options@.len() == 0 {
        assert(module_text(m, level) =~= decl_line + "\n"@ + tail1) by {
            assert(" {\n"@ =~= " {"@ + "\n"@);
        }
        assert(lines =~= seq![decl_line] + child_lines + seq![closing]);
    } else {
        let cfg_line = ind + m.cfg_options@;
        lemma_concat_no_newline(ind, m.cfg_options@);
        assert(module_text(m, level) =~= cfg_line + "\n"@ + (decl_line + "\n"@ + tail1)) by {
            assert(" {\n"@ =~= " {"@ + "\n"@);
        }
        lemma_split_lines_line(cfg_line, decl_line + "\n"@ + tail1);
        assert(lines =~= seq![cfg_line] + (seq![decl_line] + (child_lines + seq![closing])));
    }
    assert(lines.len() == cfg_count + 2 + child_lines.len());
    lemma_components_lines_prefixed(m.components, n, ind1);
    assert forall|i: int| cfg_count + 1 <= i < lines.len() - 1 implies is_prefix_of(
        ind1,
        #[trigger] lines[i],
    ) by {
        assert(lines[i] == child_lines[i - cfg_count - 1]);
    }
    assert forall|i: int| 0 <= i < lines.len() implies is_prefix_of(ind, #[trigger] lines[i]) by {
        if i < cfg_count {
            assert(lines[i] == ind + m.cfg_options@);
            assert(lines[i].take(ind.len() as int) =~= ind);
        } else if i == cfg_count {
            assert(lines[i] == decl_line);
            assert(lines[i].take(ind.len() as int) =~= ind);
        } else if i < lines.len() - 1 {
            assert(is_prefix_of(ind1, lines[i]));
            lemma_prefix_extends(ind, indent_unit(), lines[i]);
        } else {
            assert(lines[i] == closing);
            assert(lines[i].take(ind.len() as int) =~= ind);
        }
    }
}

} // verus!
