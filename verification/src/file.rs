//! The file assembler: orders a doc comment, imports, free-form top and
//! bottom text and a sequence of root constructs, and joins their rendered
//! text with blank-line separators, omitting every empty section.

use vstd::prelude::*;

use crate::rust_component::component_text_ind;
use crate::rust_component::join_strings;
use crate::rust_component::join_text;
use crate::rust_component::RustComponent;

verus! {

/// A file of Rust code: root constructs, raw import lines, an optional
/// file doc comment, and optional free-form text blocks at the top and
/// bottom.
pub struct RustFile {
    pub root_components: Vec<RustComponent>,
    pub imports: Vec<String>,
    pub file_docstring: String,
    pub top_misc: String,
    pub bottom_misc: String,
}

/// The doc-comment block built from caller text: scanning `rest` with
/// `cur` holding the line in progress, every line (its newline kept) is
/// prefixed with the doc-comment marker.
pub open spec fn doc_text_from(rest: Seq<char>, cur: Seq<char>) -> Seq<char>
    decreases rest.len(),
{
    if rest.len() == 0 {
        if cur.len() == 0 {
            Seq::empty()
        } else {
            "//! "@ + cur
        }
    } else if rest.first() == '\n' {
        "//! "@ + cur.push('\n') + doc_text_from(rest.drop_first(), Seq::empty())
    } else {
        doc_text_from(rest.drop_first(), cur.push(rest.first()))
    }
}

/// The doc-comment block for the given caller text: each of its lines
/// prefixed with `//! `.
pub open spec fn doc_text(s: Seq<char>) -> Seq<char> {
    doc_text_from(s, Seq::empty())
}

/// The root constructs of a file, each rendered at nesting level zero.
pub open spec fn rendered_roots(cs: Vec<RustComponent>) -> Seq<Seq<char>> {
    Seq::new(cs@.len(), |i: int| component_text_ind(cs[i], Seq::<char>::empty()))
}

/// The sections of `into_rust_code`, in order, before they are joined with
/// newlines: every non-empty section is followed by one empty entry, and
/// the rendered roots share a single trailing empty entry.
pub open spec fn file_into_lines(f: RustFile) -> Seq<Seq<char>> {
    let doc_part = if f.file_docstring@.len() == 0 {
        Seq::<Seq<char>>::empty()
    } else {
        seq![f.file_docstring@, Seq::<char>::empty()]
    };
    let imports_part = if f.imports@.len() == 0 {
        Seq::<Seq<char>>::empty()
    } else {
        f.imports.deep_view().map_values(|s: Seq<char>| s + ";"@) + seq![Seq::<char>::empty()]
    };
    let top_part = if f.top_misc@.len() == 0 {
        Seq::<Seq<char>>::empty()
    } else {
        seq![f.top_misc@, Seq::<char>::empty()]
    };
    let roots_tail = if f.root_components@.len() == 0 {
        Seq::<Seq<char>>::empty()
    } else {
        seq![Seq::<char>::empty()]
    };
    let bottom_part = if f.bottom_misc@.len() == 0 {
        Seq::<Seq<char>>::empty()
    } else {
        seq![f.bottom_misc@, Seq::<char>::empty()]
    };
    doc_part + imports_part + top_part + rendered_roots(f.root_components) + roots_tail
        + bottom_part
}

/// What `into_rust_code` produces: the sections joined with newlines.
pub open spec fn file_into_text(f: RustFile) -> Seq<char> {
    join_text(file_into_lines(f), "\n"@)
}

/// The sections of `to_rust_code`, in order, before they are joined with
/// newlines: every empty section is omitted, every non-empty section is
/// followed by one empty entry, and every rendered root is followed by
/// its own empty entry.
pub open spec fn file_to_lines(f: RustFile) -> Seq<Seq<char>> {
    let doc_part = if f.file_docstring@.len() == 0 {
        Seq::<Seq<char>>::empty()
    } else {
        seq![f.file_docstring@, Seq::<char>::empty()]
    };
    let imports_part = if f.imports@.len() == 0 {
        Seq::<Seq<char>>::empty()
    } else {
        f.imports.deep_view().map_values(|s: Seq<char>| s + ";"@) + seq![Seq::<char>::empty()]
    };
    let top_part = if f.top_misc@.len() == 0 {
        Seq::<Seq<char>>::empty()
    } else {
        seq![f.top_misc@, Seq::<char>::empty()]
    };
    let bottom_part = if f.bottom_misc@.len() == 0 {
        Seq::<Seq<char>>::empty()
    } else {
        seq![f.bottom_misc@, Seq::<char>::empty()]
    };
    doc_part + imports_part + top_part + spaced_roots(
        f.root_components,
        f.root_components@.len() as int,
    ) + bottom_part
}

/// The first `n` root constructs, each rendered at nesting level zero and
/// followed by an empty entry.
pub open spec fn spaced_roots(cs: Vec<RustComponent>, n: int) -> Seq<Seq<char>>
    decreases cs, n,
{
    if n <= 0 || n > cs@.len() {
        Seq::empty()
    } else {
        spaced_roots(cs, n - 1) + seq![
            component_text_ind(cs[n - 1], Seq::<char>::empty()),
            Seq::<char>::empty(),
        ]
    }
}

/// What `to_rust_code` produces: the sections joined with newlines.
pub open spec fn file_to_text(f: RustFile) -> Seq<char> {
    join_text(file_to_lines(f), "\n"@)
}

impl RustFile {
    /// Creates a new empty file.
    pub fn new() -> (res: Self)
        ensures
            res.root_components@ == Seq::<RustComponent>::empty(),
            res.imports@ == Seq::<String>::empty(),
            res.file_docstring@ == Seq::<char>::empty(),
            res.top_misc@ == Seq::<char>::empty(),
            res.bottom_misc@ == Seq::<char>::empty(),
    {
        Self {
            root_components: Vec::new(),
            imports: Vec::new(),
            file_docstring: String::new(),
            top_misc: String::new(),
            bottom_misc: String::new(),
        }
    }

    /// Replaces the root constructs with the given sequence.
    pub fn with_components(self, root_components: Vec<RustComponent>) -> (res: Self)
        ensures
            res == (RustFile { root_components, ..self }),
    {
        let mut this = self;
        this.root_components = root_components;
        this
    }

    /// Appends a root construct.
    pub fn with_component(self, component: RustComponent) -> (res: Self)
        ensures
            res.root_components@ == self.root_components@.push(component),
            res == (RustFile { root_components: res.root_components, ..self }),
    {
        let mut this = self;
        this.push_component(component);
        this
    }

    /// Replaces the import lines with the given sequence.
    pub fn with_imports(self, imports: Vec<String>) -> (res: Self)
        ensures
            res == (RustFile { imports, ..self }),
    {
        let mut this = self;
        this.imports = imports;
        this
    }

    /// Appends a raw import line, given without the trailing semicolon.
    pub fn with_import(self, import: &str) -> (res: Self)
        ensures
            res.imports.deep_view() == self.imports.deep_view().push(import@),
            res == (RustFile { imports: res.imports, ..self }),
    {
        let mut this = self;
        let owned = import.to_owned();
        this.imports.push(owned);
        proof {
            assert(this.imports.deep_view() =~= self.imports.deep_view().push(import@));
        }
        this
    }

    /// Documents the file with the given text: each of its lines is
    /// independently prefixed with the doc-comment marker.
    pub fn with_file_docstring(self, s: &str) -> (res: Self)
        ensures
            res.file_docstring@ == doc_text(s@),
            res == (RustFile { file_docstring: res.file_docstring, ..self }),
    {
        let mut this = self;
        this.file_docstring = build_docstring(s);
        this
    }

    /// Sets a free-form text block for the top of the file.
    pub fn with_top_string(self, s: &str) -> (res: Self)
        ensures
            res.top_misc@ == s@,
            res == (RustFile { top_misc: res.top_misc, ..self }),
    {
        let mut this = self;
        this.top_misc = s.to_owned();
        this
    }

    /// Sets a free-form text block for the bottom of the file.
    pub fn with_bottom_string(self, s: &str) -> (res: Self)
        ensures
            res.bottom_misc@ == s@,
            res == (RustFile { bottom_misc: res.bottom_misc, ..self }),
    {
        let mut this = self;
        this.bottom_misc = s.to_owned();
        this
    }

    /// Appends a root construct.
    pub fn push_component(&mut self, component: RustComponent)
        ensures
            final(self).root_components@ == old(self).root_components@.push(component),
            *final(self) == (RustFile {
                root_components: final(self).root_components,
                ..*old(self)
            }),
    {
        self.root_components.push(component);
    }

    /// Appends an import line, given without the trailing semicolon.
    pub fn push_import(&mut self, import: String)
        ensures
            final(self).imports@ == old(self).imports@.push(import),
            *final(self) == (RustFile { imports: final(self).imports, ..*old(self) }),
    {
        self.imports.push(import);
    }

    /// Consumes the file and produces its contents as Rust code: the doc
    /// comment, the imports, the top block, the root constructs and the
    /// bottom block, joined with blank-line separators, every empty
    /// section omitted.
    pub fn into_rust_code(self) -> (res: String)
        ensures
            res@ == file_into_text(self),
    {
        let ghost spec_lines = file_into_lines(self);
        let RustFile { root_components, imports, file_docstring, top_misc, bottom_misc } = self;
        let ghost doc_part = if file_docstring@.len() == 0 {
            Seq::<Seq<char>>::empty()
        } else {
            seq![file_docstring@, Seq::<char>::empty()]
        };
        let ghost mapped = imports.deep_view().map_values(|s: Seq<char>| s + ";"@);
        let ghost imports_part = if imports@.len() == 0 {
            Seq::<Seq<char>>::empty()
        } else {
            mapped + seq![Seq::<char>::empty()]
        };
        let ghost top_part = if top_misc@.len() == 0 {
            Seq::<Seq<char>>::empty()
        } else {
            seq![top_misc@, Seq::<char>::empty()]
        };
        let ghost roots = rendered_roots(root_components);
        let mut lines: Vec<String> = Vec::new();
        if !file_docstring.as_str().is_empty() {
            lines.push(file_docstring);
            lines.push(String::new());
            proof {
                assert(lines.deep_view() =~= doc_part);
            }
        }
        proof {
            assert(lines.deep_view() =~= doc_part);
        }
        let ghost doc_done = lines.deep_view();
        if imports.len() > 0 {
            let mut i: usize = 0;
            while i < imports.len()
                invariant
                    i <= imports.len(),
                    mapped == imports.deep_view().map_values(|s: Seq<char>| s + ";"@),
                    lines.deep_view() == doc_done + mapped.take(i as int),
                decreases imports.len() - i,
            {
                let mut line = imports[i].clone();
                line.append(";");
                let ghost pre = lines.deep_view();
                lines.push(line);
                proof {
                    assert(lines.deep_view() =~= pre.push(mapped[i as int]));
                    assert(lines.deep_view() =~= doc_done + mapped.take(i + 1));
                }
                i = i + 1;
            }
            proof {
                assert(mapped.take(imports.len() as int) =~= mapped);
            }
            let ghost pre = lines.deep_view();
            lines.push(String::new());
            proof {
                assert(lines.deep_view() =~= pre.push(Seq::<char>::empty()));
                assert(lines.deep_view() =~= doc_part + imports_part);
            }
        }
        proof {
            assert(lines.deep_view() =~= doc_part + imports_part);
        }
        if !top_misc.as_str().is_empty() {
            let ghost pre = lines.deep_view();
            lines.push(top_misc);
            lines.push(String::new());
            proof {
                assert(lines.deep_view() =~= pre + seq![top_misc@, Seq::<char>::empty()]);
            }
        }
        proof {
            assert(lines.deep_view() =~= doc_part + imports_part + top_part);
        }
        let ghost top_done = lines.deep_view();
        let mut i: usize = 0;
        while i < root_components.len()
            invariant
                i <= root_components.len(),
                roots == rendered_roots(root_components),
                lines.deep_view() == top_done + roots.take(i as int),
            decreases root_components.len() - i,
        {
            let rendered = root_components[i].to_rust_string(0);
            let ghost pre = lines.deep_view();
            lines.push(rendered);
            proof {
                assert(lines.deep_view() =~= pre.push(roots[i as int]));
                assert(lines.deep_view() =~= top_done + roots.take(i + 1));
            }
            i = i + 1;
        }
        proof {
            assert(roots.take(root_components.len() as int) =~= roots);
        }
        if root_components.len() > 0 {
            let ghost pre = lines.deep_view();
            lines.push(String::new());
            proof {
                assert(lines.deep_view() =~= pre.push(Seq::<char>::empty()));
            }
        }
        if !bottom_misc.as_str().is_empty() {
            let ghost pre = lines.deep_view();
            lines.push(bottom_misc);
            lines.push(String::new());
            proof {
                assert(lines.deep_view() =~= pre + seq![bottom_misc@, Seq::<char>::empty()]);
            }
        }
        proof {
            assert(lines.deep_view() =~= spec_lines);
        }
        let res = join_strings(&lines, "\n");
        res
    }

    /// Produces the contents of this file as Rust code without consuming
    /// it: the doc comment, the imports, the top block, the root
    /// constructs and the bottom block, joined with blank-line
    /// separators, every empty section omitted and every root construct
    /// followed by its own blank-line separator.
    pub fn to_rust_code(&self) -> (res: String)
        ensures
            res@ == file_to_text(*self),
    {
        let ghost spec_lines = file_to_lines(*self);
        let ghost doc_part = if self.file_docstring@.len() == 0 {
            Seq::<Seq<char>>::empty()
        } else {
            seq![self.file_docstring@, Seq::<char>::empty()]
        };
        let ghost mapped = self.imports.deep_view().map_values(|s: Seq<char>| s + ";"@);
        let ghost imports_part = if self.imports@.len() == 0 {
            Seq::<Seq<char>>::empty()
        } else {
            mapped + seq![Seq::<char>::empty()]
        };
        let ghost top_part = if self.top_misc@.len() == 0 {
            Seq::<Seq<char>>::empty()
        } else {
            seq![self.top_misc@, Seq::<char>::empty()]
        };
        let mut lines: Vec<String> = Vec::new();
        if !self.file_docstring.as_str().is_empty() {
            lines.push(self.file_docstring.clone());
            lines.push(String::new());
            proof {
                assert(lines.deep_view() =~= doc_part);
            }
        }
        proof {
            assert(lines.deep_view() =~= doc_part);
        }
        let ghost doc_done = lines.deep_view();
        if self.imports.len() > 0 {
            let mut i: usize = 0;
            while i < self.imports.len()
                invariant
                    i <= self.imports.len(),
                    mapped == self.imports.deep_view().map_values(|s: Seq<char>| s + ";"@),
                    lines.deep_view() == doc_done + mapped.take(i as int),
                decreases self.imports.len() - i,
            {
                let mut line = self.imports[i].clone();
                line.append(";");
                let ghost pre = lines.deep_view();
                lines.push(line);
                proof {
                    assert(lines.deep_view() =~= pre.push(mapped[i as int]));
                    assert(lines.deep_view() =~= doc_done + mapped.take(i + 1));
                }
                i = i + 1;
            }
            proof {
                assert(mapped.take(self.imports.len() as int) =~= mapped);
            }
            let ghost pre = lines.deep_view();
            lines.push(String::new());
            proof {
                assert(lines.deep_view() =~= pre.push(Seq::<char>::empty()));
                assert(lines.deep_view() =~= doc_part + imports_part);
            }
        }
        proof {
            assert(lines.deep_view() =~= doc_part + imports_part);
        }
        if !self.top_misc.as_str().is_empty() {
            let ghost pre = lines.deep_view();
            lines.push(self.top_misc.clone());
            lines.push(String::new());
            proof {
                assert(lines.deep_view() =~= pre + seq![self.top_misc@, Seq::<char>::empty()]);
            }
        }
        proof {
            assert(lines.deep_view() =~= doc_part + imports_part + top_part);
        }
        let ghost top_done = lines.deep_view();
        let mut i: usize = 0;
        while i < self.root_components.len()
            invariant
                i <= self.root_components.len(),
                top_done == doc_part + imports_part + top_part,
                doc_part == (if self.file_docstring@.len() == 0 {
                    Seq::<Seq<char>>::empty()
                } else {
                    seq![self.file_docstring@, Seq::<char>::empty()]
                }),
                mapped == self.imports.deep_view().map_values(|s: Seq<char>| s + ";"@),
                imports_part == (if self.imports@.len() == 0 {
                    Seq::<Seq<char>>::empty()
                } else {
                    mapped + seq![Seq::<char>::empty()]
                }),
                top_part == (if self.top_misc@.len() == 0 {
                    Seq::<Seq<char>>::empty()
                } else {
                    seq![self.top_misc@, Seq::<char>::empty()]
                }),
                lines.deep_view() == top_done + spaced_roots(self.root_components, i as int),
            decreases self.root_components.len() - i,
        {
            let rendered = self.root_components[i].to_rust_string(0);
            let ghost pre = lines.deep_view();
            lines.push(rendered);
            lines.push(String::new());
            proof {
                assert(lines.deep_view() =~= pre + seq![
                    component_text_ind(self.root_components[i as int], Seq::<char>::empty()),
                    Seq::<char>::empty(),
                ]);
                assert(lines.deep_view() =~= top_done + spaced_roots(
                    self.root_components,
                    i + 1,
                ));
            }
            i = i + 1;
        }
        if !self.bottom_misc.as_str().is_empty() {
            let ghost pre = lines.deep_view();
            lines.push(self.bottom_misc.clone());
            lines.push(String::new());
            proof {
                assert(lines.deep_view() =~= pre + seq![self.bottom_misc@, Seq::<char>::empty()]);
            }
        }
        proof {
            assert(lines.deep_view() =~= spec_lines);
        }
        let res = join_strings(&lines, "\n");
        res
    }
}

/// Builds the doc-comment block for the given text, as `doc_text`
/// describes.
fn build_docstring(s: &str) -> (res: String)
    ensures
        res@ == doc_text(s@),
{
    let n = s.unicode_len();
    let mut res = String::new();
    let mut start: usize = 0;
    let mut i: usize = 0;
    proof {
        assert(s@.subrange(0, n as int) =~= s@);
        assert(s@.subrange(0, 0) =~= Seq::<char>::empty());
        assert(res@ + doc_text_from(s@, Seq::empty()) =~= doc_text(s@));
    }
    while i < n
        invariant
            start <= i <= n,
            n == s@.len(),
            doc_text(s@) == res@ + doc_text_from(
                s@.subrange(i as int, n as int),
                s@.subrange(start as int, i as int),
            ),
        decreases n - i,
    {
        let c = s.get_char(i);
        if c == '\n' {
            res.append("//! ");
            let piece = s.substring_char(start, i + 1);
            res.append(piece);
            proof {
                let cur = s@.subrange(start as int, i as int);
                let tail = s@.subrange(i as int, n as int);
                assert(tail.first() == '\n');
                assert(tail.drop_first() =~= s@.subrange(i + 1, n as int));
                assert(cur.push('\n') =~= s@.subrange(start as int, i + 1));
                assert(s@.subrange(i + 1, i + 1) =~= Seq::<char>::empty());
            }
            start = i + 1;
        } else {
            proof {
                let tail = s@.subrange(i as int, n as int);
                assert(tail.first() == s@[i as int]);
                assert(tail.drop_first() =~= s@.subrange(i + 1, n as int));
                assert(s@.subrange(start as int, i + 1) =~= s@.subrange(start as int, i as int).push(
                    s@[i as int],
                ));
            }
        }
        i = i + 1;
    }
    proof {
        assert(s@.subrange(n as int, n as int).len() == 0);
    }
    if start < n {
        res.append("//! ");
        let piece = s.substring_char(start, n);
        res.append(piece);
        proof {
            assert(s@.subrange(start as int, n as int).len() > 0);
        }
    } else {
        proof {
            assert(s@.subrange(start as int, n as int).len() == 0);
        }
    }
    res
}

} // verus!
