//! The shared vocabulary of the emitter: visibility levels, fields, the
//! closed union of construct kinds, and the formatting helpers every
//! construct uses (generic clauses, joined lists, line splitting).

use vstd::prelude::*;

use crate::indent_string;
use crate::indent_text;
use crate::rust_enum::enum_text_ind;
use crate::rust_enum::variant_text_ind;
use crate::rust_enum::EnumVariant;
use crate::rust_enum::RustEnum;
use crate::rust_impl::impl_text_ind;
use crate::rust_impl::RustImplementation;
use crate::rust_method::method_text_ind;
use crate::rust_method::RustMethod;
use crate::rust_module::module_text_ind;
use crate::rust_module::RustModule;
use crate::rust_struct::struct_text_ind;
use crate::rust_struct::RustStruct;
use crate::rust_text::raw_text_ind;
use crate::rust_text::RustText;
use crate::rust_trait::trait_text_ind;
use crate::rust_trait::RustTrait;
use crate::rust_variable::variable_text_ind;
use crate::rust_variable::RustVariable;

verus! {

/// The three levels of visibility a generated item can have.
#[derive(Copy, Clone, Debug, PartialEq, Eq, Structural, Hash)]
pub enum Visibility {
    Private,
    Public,
    /// Renders as `pub(crate)`.
    CrateVisible,
}

/// The keyword a visibility level renders to: empty, `pub`, or `pub(crate)`.
pub open spec fn vis_text(v: Visibility) -> Seq<char> {
    match v {
        Visibility::Private => Seq::empty(),
        Visibility::Public => "pub"@,
        Visibility::CrateVisible => "pub(crate)"@,
    }
}

/// The visibility keyword as a string slice.
pub(crate) fn vis_code(v: Visibility) -> (res: &'static str)
    ensures
        res@ == vis_text(v),
{
    proof {
        reveal_strlit("");
    }
    match v {
        Visibility::Private => "",
        Visibility::Public => "pub",
        Visibility::CrateVisible => "pub(crate)",
    }
}

/// Implemented by every construct that can be rendered as Rust code.
///
/// `text_spec` is the mathematical statement of what the construct renders
/// to at a given nesting level; `to_rust_string` produces exactly that text.
pub trait RustComponentTrait {
    /// The rendering of this construct at the given nesting level, as a
    /// sequence of characters.
    spec fn text_spec(&self, indent_level: nat) -> Seq<char>;

    /// Represent this object as Rust code indented to the desired level.
    fn to_rust_string(&self, indent_level: usize) -> (res: String)
        ensures
            res@ == self.text_spec(indent_level as nat),
    ;
}

/// A field of a struct or of a struct-shaped enum variant: a name, a
/// declared type, and a visibility level.
#[derive(Clone, Debug, Hash, PartialEq)]
pub struct Field {
    pub name: String,
    pub field_type: String,
    pub visibility: Visibility,
}

impl Field {
    /// Creates a new field with the given visibility.
    pub fn new(name: &str, field_type: &str, visibility: Visibility) -> (res: Self)
        ensures
            res.name@ == name@,
            res.field_type@ == field_type@,
            res.visibility == visibility,
    {
        Self { name: name.to_owned(), field_type: field_type.to_owned(), visibility }
    }

    /// Creates a new private field.
    pub fn private(name: &str, field_type: &str) -> (res: Self)
        ensures
            res.name@ == name@,
            res.field_type@ == field_type@,
            res.visibility == Visibility::Private,
    {
        Self::new(name, field_type, Visibility::Private)
    }

    /// Creates a new private field from owned strings, without reallocating.
    pub(crate) fn private_fast(name: String, field_type: String) -> (res: Self)
        ensures
            res == (Field { name, field_type, visibility: Visibility::Private }),
    {
        Self { name, field_type, visibility: Visibility::Private }
    }
}

/// How a field renders inside a struct body: `name: type`, preceded by the
/// visibility keyword and a space when the field is not private.
pub open spec fn field_text(f: Field) -> Seq<char> {
    if f.visibility == Visibility::Private {
        f.name@ + ": "@ + f.field_type@
    } else {
        vis_text(f.visibility) + " "@ + f.name@ + ": "@ + f.field_type@
    }
}

/// How a field renders inside a struct-shaped enum variant: `name: type`,
/// with the visibility level ignored.
pub open spec fn plain_field_text(f: Field) -> Seq<char> {
    f.name@ + ": "@ + f.field_type@
}

/// Appends `field_text(*f)` to `out`.
pub(crate) fn push_field_code(out: &mut String, f: &Field)
    ensures
        final(out)@ == old(out)@ + field_text(*f),
{
    match f.visibility {
        Visibility::Private => {}
        _ => {
            out.append(vis_code(f.visibility));
            out.append(" ");
        }
    }
    out.append(f.name.as_str());
    out.append(": ");
    out.append(f.field_type.as_str());
    proof {
        assert(out@ =~= old(out)@ + field_text(*f));
    }
}

/// Appends `plain_field_text(*f)` to `out`.
pub(crate) fn push_plain_field_code(out: &mut String, f: &Field)
    ensures
        final(out)@ == old(out)@ + plain_field_text(*f),
{
    out.append(f.name.as_str());
    out.append(": ");
    out.append(f.field_type.as_str());
    proof {
        assert(out@ =~= old(out)@ + plain_field_text(*f));
    }
}

/// The given parts joined with the separator between consecutive parts.
pub open spec fn join_text(parts: Seq<Seq<char>>, sep: Seq<char>) -> Seq<char>
    decreases parts.len(),
{
    if parts.len() == 0 {
        Seq::empty()
    } else if parts.len() == 1 {
        parts[0]
    } else {
        join_text(parts.drop_last(), sep) + sep + parts.last()
    }
}

/// Joins the given strings with the separator between consecutive entries.
pub(crate) fn join_strings(parts: &Vec<String>, sep: &str) -> (res: String)
    ensures
        res@ == join_text(parts.deep_view(), sep@),
{
    let ghost dv = parts.deep_view();
    let mut res = String::new();
    let mut i: usize = 0;
    while i < parts.len()
        invariant
            i <= parts.len(),
            dv == parts.deep_view(),
            res@ == join_text(dv.take(i as int), sep@),
        decreases parts.len() - i,
    {
        if i > 0 {
            res.append(sep);
        }
        res.append(parts[i].as_str());
        proof {
            assert(dv.take(i + 1).drop_last() =~= dv.take(i as int));
            assert(dv.take(i + 1).last() == dv[i as int]);
            assert(res@ =~= join_text(dv.take(i + 1), sep@));
        }
        i = i + 1;
    }
    proof {
        assert(dv.take(parts.len() as int) =~= dv);
    }
    res
}

/// A lifetime identifier as it appears in a generic clause: `'` then the
/// identifier.
pub open spec fn lifetime_item_text(l: Seq<char>) -> Seq<char> {
    "'"@ + l
}

/// A sequence of lifetime identifiers rendered as a comma-separated list,
/// each prefixed with an apostrophe, in insertion order.
pub open spec fn lifetimes_text(ls: Seq<Seq<char>>) -> Seq<char> {
    join_text(ls.map_values(|l: Seq<char>| lifetime_item_text(l)), ", "@)
}

/// Renders lifetime identifiers as `'a, 'b`, in insertion order.
pub fn create_lifetime_string(lifetimes: &Vec<String>) -> (res: String)
    ensures
        res@ == lifetimes_text(lifetimes.deep_view()),
{
    let ghost dv = lifetimes.deep_view();
    let ghost mapped = dv.map_values(|l: Seq<char>| lifetime_item_text(l));
    let mut res = String::new();
    let mut i: usize = 0;
    while i < lifetimes.len()
        invariant
            i <= lifetimes.len(),
            dv == lifetimes.deep_view(),
            mapped == dv.map_values(|l: Seq<char>| lifetime_item_text(l)),
            res@ == join_text(mapped.take(i as int), ", "@),
        decreases lifetimes.len() - i,
    {
        if i > 0 {
            res.append(", ");
        }
        res.append("'");
        res.append(lifetimes[i].as_str());
        proof {
            assert(mapped.take(i + 1).drop_last() =~= mapped.take(i as int));
            assert(mapped.take(i + 1).last() == mapped[i as int]);
            assert(mapped[i as int] == lifetime_item_text(dv[i as int]));
            assert(res@ =~= join_text(mapped.take(i + 1), ", "@));
        }
        i = i + 1;
    }
    proof {
        assert(mapped.take(lifetimes.len() as int) =~= mapped);
    }
    res
}

/// The bracketed generic clause combining lifetimes and type parameters.
///
/// Lifetimes always come first, each list keeps its insertion order, and
/// the whole clause (brackets included) is omitted when both rendered lists
/// are empty.
pub open spec fn generic_clause(templates: Seq<Seq<char>>, lifetimes: Seq<Seq<char>>) -> Seq<char> {
    let t = join_text(templates, ", "@);
    let l = lifetimes_text(lifetimes);
    if l.len() == 0 && t.len() == 0 {
        Seq::empty()
    } else if l.len() == 0 {
        "<"@ + t + ">"@
    } else if t.len() == 0 {
        "<"@ + l + ">"@
    } else {
        "<"@ + l + ", "@ + t + ">"@
    }
}

/// Renders the generic clause for the given type parameters and lifetimes,
/// as `generic_clause` describes.
pub fn create_template_string(templates: &Vec<String>, lifetimes: &Vec<String>) -> (res: String)
    ensures
        res@ == generic_clause(templates.deep_view(), lifetimes.deep_view()),
{
    let t = join_strings(templates, ", ");
    let l = create_lifetime_string(lifetimes);
    let mut res = String::new();
    if l.as_str().is_empty() && t.as_str().is_empty() {
        proof {
            assert(res@ =~= generic_clause(templates.deep_view(), lifetimes.deep_view()));
        }
        return res;
    }
    res.append("<");
    if l.as_str().is_empty() {
        res.append(t.as_str());
    } else if t.as_str().is_empty() {
        res.append(l.as_str());
    } else {
        res.append(l.as_str());
        res.append(", ");
        res.append(t.as_str());
    }
    res.append(">");
    proof {
        assert(res@ =~= generic_clause(templates.deep_view(), lifetimes.deep_view()));
    }
    res
}

/// A block of lines: each entry prefixed with the same indentation and
/// followed by the same suffix, concatenated in order.
pub open spec fn lines_block(xs: Seq<Seq<char>>, ind: Seq<char>, suffix: Seq<char>) -> Seq<char>
    decreases xs.len(),
{
    if xs.len() == 0 {
        Seq::empty()
    } else {
        lines_block(xs.drop_last(), ind, suffix) + ind + xs.last() + suffix
    }
}

/// Splitting text into lines, scanning `rest` with `cur` holding the
/// characters of the line in progress.  A final line without a trailing
/// newline still counts; a trailing newline adds no empty line.
pub open spec fn split_lines_from(rest: Seq<char>, cur: Seq<char>) -> Seq<Seq<char>>
    decreases rest.len(),
{
    if rest.len() == 0 {
        if cur.len() == 0 {
            Seq::empty()
        } else {
            seq![cur]
        }
    } else if rest.first() == '\n' {
        seq![cur] + split_lines_from(rest.drop_first(), Seq::empty())
    } else {
        split_lines_from(rest.drop_first(), cur.push(rest.first()))
    }
}

/// The lines of a text, split at `'\n'`, the newlines themselves excluded.
pub open spec fn split_lines(s: Seq<char>) -> Seq<Seq<char>> {
    split_lines_from(s, Seq::empty())
}

/// Splits a string into its lines, as `split_lines` describes.
pub(crate) fn split_lines_vec(s: &str) -> (res: Vec<String>)
    ensures
        res.deep_view() == split_lines(s@),
{
    let n = s.unicode_len();
    let mut res: Vec<String> = Vec::new();
    let mut start: usize = 0;
    let mut i: usize = 0;
    proof {
        assert(s@.subrange(0, n as int) =~= s@);
        assert(s@.subrange(0, 0) =~= Seq::<char>::empty());
        assert(res.deep_view() + split_lines_from(s@, Seq::empty()) =~= split_lines(s@));
    }
    while i < n
        invariant
            start <= i <= n,
            n == s@.len(),
            split_lines(s@) == res.deep_view() + split_lines_from(
                s@.subrange(i as int, n as int),
                s@.subrange(start as int, i as int),
            ),
        decreases n - i,
    {
        let c = s.get_char(i);
        if c == '\n' {
            let piece = s.substring_char(start, i);
            let ghost pre_dv = res.deep_view();
            let owned = piece.to_owned();
            res.push(owned);
            proof {
                let cur = s@.subrange(start as int, i as int);
                let tail = s@.subrange(i as int, n as int);
                assert(tail.first() == '\n');
                assert(tail.drop_first() =~= s@.subrange(i + 1, n as int));
                assert(res.deep_view() =~= pre_dv.push(cur));
                assert(res.deep_view() + split_lines_from(s@.subrange(i + 1, n as int), Seq::empty())
                    =~= pre_dv + split_lines_from(tail, cur));
                assert(s@.subrange(i + 1, i + 1) =~= Seq::<char>::empty());
            }
            start = i + 1;
        } else {
            proof {
                let tail = s@.subrange(i as int, n as int);
                assert(tail.first() == s@[i as int]);
                assert(tail.drop_first() =~= s@.subrange(i + 1, n as int));
                assert(s@.subrange(start as int, i + 1) =~= s@.subrange(start as int, i as int).push(
                    s@[i as int],
                ));
            }
        }
        i = i + 1;
    }
    proof {
        assert(s@.subrange(n as int, n as int).len() == 0);
    }
    if start < n {
        let piece = s.substring_char(start, n);
        let ghost pre_dv = res.deep_view();
        let owned = piece.to_owned();
        res.push(owned);
        proof {
            let cur = s@.subrange(start as int, n as int);
            assert(cur.len() > 0);
            assert(res.deep_view() =~= pre_dv.push(cur));
            assert(res.deep_view() =~= pre_dv + seq![cur]);
        }
    } else {
        proof {
            assert(s@.subrange(start as int, n as int).len() == 0);
            assert(res.deep_view() + Seq::<Seq<char>>::empty() =~= res.deep_view());
        }
    }
    res
}

/// Appends a block line for every entry of `xs`: indentation, the entry,
/// then the suffix.
pub(crate) fn push_lines_block(out: &mut String, xs: &Vec<String>, ind: &str, suffix: &str)
    ensures
        final(out)@ == old(out)@ + lines_block(xs.deep_view(), ind@, suffix@),
{
    let ghost dv = xs.deep_view();
    let mut i: usize = 0;
    proof {
        assert(old(out)@ + lines_block(dv.take(0), ind@, suffix@) =~= old(out)@);
    }
    while i < xs.len()
        invariant
            i <= xs.len(),
            dv == xs.deep_view(),
            out@ == old(out)@ + lines_block(dv.take(i as int), ind@, suffix@),
        decreases xs.len() - i,
    {
        out.append(ind);
        out.append(xs[i].as_str());
        out.append(suffix);
        proof {
            assert(dv.take(i + 1).drop_last() =~= dv.take(i as int));
            assert(dv.take(i + 1).last() == dv[i as int]);
            assert(out@ =~= old(out)@ + lines_block(dv.take(i + 1), ind@, suffix@));
        }
        i = i + 1;
    }
    proof {
        assert(dv.take(xs.len() as int) =~= dv);
    }
}

/// Appends a `name: type,` line for every field, visibility included.
pub(crate) fn push_fields_block(out: &mut String, fs: &Vec<Field>, ind: &str)
    ensures
        final(out)@ == old(out)@ + lines_block(
            fs@.map_values(|f: Field| field_text(f)),
            ind@,
            ",\n"@,
        ),
{
    let ghost mapped = fs@.map_values(|f: Field| field_text(f));
    let mut i: usize = 0;
    proof {
        assert(old(out)@ + lines_block(mapped.take(0), ind@, ",\n"@) =~= old(out)@);
    }
    while i < fs.len()
        invariant
            i <= fs.len(),
            mapped == fs@.map_values(|f: Field| field_text(f)),
            out@ == old(out)@ + lines_block(mapped.take(i as int), ind@, ",\n"@),
        decreases fs.len() - i,
    {
        out.append(ind);
        push_field_code(out, &fs[i]);
        out.append(",\n");
        proof {
            assert(mapped.take(i + 1).drop_last() =~= mapped.take(i as int));
            assert(mapped.take(i + 1).last() == mapped[i as int]);
            assert(out@ =~= old(out)@ + lines_block(mapped.take(i + 1), ind@, ",\n"@));
        }
        i = i + 1;
    }
    proof {
        assert(mapped.take(fs.len() as int) =~= mapped);
    }
}

/// Appends a `name: type,` line for every field, visibility ignored.
pub(crate) fn push_plain_fields_block(out: &mut String, fs: &Vec<Field>, ind: &str)
    ensures
        final(out)@ == old(out)@ + lines_block(
            fs@.map_values(|f: Field| plain_field_text(f)),
            ind@,
            ",\n"@,
        ),
{
    let ghost mapped = fs@.map_values(|f: Field| plain_field_text(f));
    let mut i: usize = 0;
    proof {
        assert(old(out)@ + lines_block(mapped.take(0), ind@, ",\n"@) =~= old(out)@);
    }
    while i < fs.len()
        invariant
            i <= fs.len(),
            mapped == fs@.map_values(|f: Field| plain_field_text(f)),
            out@ == old(out)@ + lines_block(mapped.take(i as int), ind@, ",\n"@),
        decreases fs.len() - i,
    {
        out.append(ind);
        push_plain_field_code(out, &fs[i]);
        out.append(",\n");
        proof {
            assert(mapped.take(i + 1).drop_last() =~= mapped.take(i as int));
            assert(mapped.take(i + 1).last() == mapped[i as int]);
            assert(out@ =~= old(out)@ + lines_block(mapped.take(i + 1), ind@, ",\n"@));
        }
        i = i + 1;
    }
    proof {
        assert(mapped.take(fs.len() as int) =~= mapped);
    }
}

/// The character for a single decimal digit.
pub open spec fn digit_char(d: nat) -> char {
    if d == 0 {
        '0'
    } else if d == 1 {
        '1'
    } else if d == 2 {
        '2'
    } else if d == 3 {
        '3'
    } else if d == 4 {
        '4'
    } else if d == 5 {
        '5'
    } else if d == 6 {
        '6'
    } else if d == 7 {
        '7'
    } else if d == 8 {
        '8'
    } else {
        '9'
    }
}

/// The decimal rendering of a natural number, most significant digit first.
pub open spec fn dec_text(n: nat) -> Seq<char>
    decreases n,
{
    if n < 10 {
        seq![digit_char(n)]
    } else {
        dec_text(n / 10).push(digit_char(n % 10))
    }
}

fn digit_str(d: usize) -> (res: &'static str)
    requires
        d < 10,
    ensures
        res@ == seq![digit_char(d as nat)],
{
    proof {
        reveal_strlit("0");
        reveal_strlit("1");
        reveal_strlit("2");
        reveal_strlit("3");
        reveal_strlit("4");
        reveal_strlit("5");
        reveal_strlit("6");
        reveal_strlit("7");
        reveal_strlit("8");
        reveal_strlit("9");
    }
    let res = match d {
        0 => "0",
        1 => "1",
        2 => "2",
        3 => "3",
        4 => "4",
        5 => "5",
        6 => "6",
        7 => "7",
        8 => "8",
        _ => "9",
    };
    proof {
        assert(res@ =~= seq![digit_char(d as nat)]);
    }
    res
}

fn push_decimal(out: &mut String, n: usize)
    ensures
        final(out)@ == old(out)@ + dec_text(n as nat),
    decreases n,
{
    if n >= 10 {
        push_decimal(out, n / 10);
    }
    out.append(digit_str(n % 10));
    proof {
        if n >= 10 {
            assert(out@ =~= old(out)@ + dec_text(n as nat));
        } else {
            assert(out@ =~= old(out)@ + dec_text(n as nat));
        }
    }
}

/// Renders a number in decimal, for automatically named positional entries.
pub(crate) fn usize_string(n: usize) -> (res: String)
    ensures
        res@ == dec_text(n as nat),
{
    let mut res = String::new();
    push_decimal(&mut res, n);
    proof {
        assert(Seq::<char>::empty() + dec_text(n as nat) =~= dec_text(n as nat));
    }
    res
}

/// The closed union of every construct kind.  Each concrete construct type
/// converts into it, so heterogeneous ordered collections of children can
/// be built.
#[derive(Debug, PartialEq, Hash)]
pub enum RustComponent {
    Module(RustModule),
    Struct(RustStruct),
    Enum(RustEnum),
    EnumVariant(EnumVariant),
    Method(RustMethod),
    Implementation(RustImplementation),
    Trait(RustTrait),
    Variable(RustVariable),
    Text(RustText),
}

/// How any construct renders: dispatch on the construct kind.
pub open spec fn component_text_ind(c: RustComponent, ind: Seq<char>) -> Seq<char>
    decreases c,
{
    match c {
        RustComponent::Module(m) => module_text_ind(m, ind),
        RustComponent::Struct(s) => struct_text_ind(s, ind),
        RustComponent::Enum(e) => enum_text_ind(e, ind),
        RustComponent::EnumVariant(v) => variant_text_ind(v, ind),
        RustComponent::Method(m) => method_text_ind(m, ind),
        RustComponent::Implementation(im) => impl_text_ind(im, ind),
        RustComponent::Trait(t) => trait_text_ind(t, ind),
        RustComponent::Variable(v) => variable_text_ind(v, ind),
        RustComponent::Text(t) => raw_text_ind(t, ind),
    }
}

/// The rendering of any construct at a nesting level.
pub open spec fn component_text(c: RustComponent, level: nat) -> Seq<char> {
    component_text_ind(c, indent_text(level))
}

/// The first `n` children of `cs`, each rendered at the child indentation
/// prefix and followed by the separator, concatenated in order.
pub open spec fn components_block(
    cs: Vec<RustComponent>,
    n: int,
    child_ind: Seq<char>,
    sep: Seq<char>,
) -> Seq<char>
    decreases cs, n,
{
    if n <= 0 || n > cs@.len() {
        Seq::empty()
    } else {
        components_block(cs, n - 1, child_ind, sep) + component_text_ind(cs[n - 1], child_ind)
            + sep
    }
}

/// Appends every child of `cs`, each rendered at the child indentation
/// prefix and followed by the separator.
pub(crate) fn push_components_block(
    out: &mut String,
    cs: &Vec<RustComponent>,
    child_ind: &str,
    sep: &str,
)
    ensures
        final(out)@ == old(out)@ + components_block(*cs, cs@.len() as int, child_ind@, sep@),
    decreases *cs,
{
    let mut i: usize = 0;
    proof {
        assert(old(out)@ + components_block(*cs, 0, child_ind@, sep@) =~= old(out)@);
    }
    while i < cs.len()
        invariant
            i <= cs.len(),
            out@ == old(out)@ + components_block(*cs, i as int, child_ind@, sep@),
        decreases cs.len() - i,
    {
        let rendered = cs[i].render_ind(child_ind);
        out.append(rendered.as_str());
        out.append(sep);
        proof {
            assert(out@ =~= old(out)@ + components_block(*cs, i + 1, child_ind@, sep@));
        }
        i = i + 1;
    }
}

impl RustComponent {
    /// Represent this construct as Rust code indented to the desired
    /// level.
    pub fn to_rust_string(&self, indent_level: usize) -> (res: String)
        ensures
            res@ == component_text(*self, indent_level as nat),
    {
        let ind = indent_string(indent_level);
        self.render_ind(ind.as_str())
    }

    pub(crate) fn render_ind(&self, ind: &str) -> (res: String)
        ensures
            res@ == component_text_ind(*self, ind@),
        decreases *self,
    {
        match self {
            RustComponent::Module(m) => m.render_ind(ind),
            RustComponent::Struct(s) => s.render_ind(ind),
            RustComponent::Enum(e) => e.render_ind(ind),
            RustComponent::EnumVariant(v) => v.render_ind(ind),
            RustComponent::Method(m) => m.render_ind(ind),
            RustComponent::Implementation(im) => im.render_ind(ind),
            RustComponent::Trait(t) => t.render_ind(ind),
            RustComponent::Variable(v) => v.render_ind(ind),
            RustComponent::Text(t) => t.render_ind(ind),
        }
    }
}

/// Holds when the text contains no newline character.
pub open spec fn has_no_newline(s: Seq<char>) -> bool {
    forall|i: int| 0 <= i < s.len() ==> s[i] != '\n'
}

/// Holds when `p` is the leading text of `s`.
pub open spec fn is_prefix_of(p: Seq<char>, s: Seq<char>) -> bool {
    p.len() <= s.len() && s.take(p.len() as int) == p
}

/// Concatenation preserves the absence of newlines.
pub(crate) proof fn lemma_concat_no_newline(a: Seq<char>, b: Seq<char>)
    requires
        has_no_newline(a),
        has_no_newline(b),
    ensures
        has_no_newline(a + b),
{
    assert forall|i: int| 0 <= i < (a + b).len() implies (a + b)[i] != '\n' by {
        if i < a.len() {
            assert((a + b)[i] == a[i]);
        } else {
            assert((a + b)[i] == b[i - a.len()]);
        }
    }
}

/// A join of newline-free parts with a newline-free separator is
/// newline-free.
pub(crate) proof fn lemma_join_text_no_newline(parts: Seq<Seq<char>>, sep: Seq<char>)
    requires
        has_no_newline(sep),
        forall|i: int| 0 <= i < parts.len() ==> has_no_newline(#[trigger] parts[i]),
    ensures
        has_no_newline(join_text(parts, sep)),
    decreases parts.len(),
{
    if parts.len() == 0 {
    } else if parts.len() == 1 {
        assert(has_no_newline(parts[0]));
    } else {
        assert(forall|i: int| 0 <= i < parts.drop_last().len() ==> has_no_newline(
            #[trigger] parts.drop_last()[i],
        ));
        lemma_join_text_no_newline(parts.drop_last(), sep);
        lemma_concat_no_newline(join_text(parts.drop_last(), sep), sep);
        lemma_concat_no_newline(join_text(parts.drop_last(), sep) + sep, parts.last());
    }
}

/// The indentation prefix never contains a newline.
pub(crate) proof fn lemma_indent_no_newline(level: nat)
    ensures
        has_no_newline(indent_text(level)),
    decreases level,
{
    reveal_strlit("    ");
    if level == 0 {
    } else {
        lemma_indent_no_newline((level - 1) as nat);
        lemma_concat_no_newline(indent_text((level - 1) as nat), crate::indent_unit());
    }
}

/// The visibility keyword never contains a newline.
pub(crate) proof fn lemma_vis_text_no_newline(v: Visibility)
    ensures
        has_no_newline(vis_text(v)),
{
    reveal_strlit("pub");
    reveal_strlit("pub(crate)");
}

/// A field line never contains a newline when its name and type do not.
pub(crate) proof fn lemma_field_text_no_newline(f: Field)
    requires
        has_no_newline(f.name@),
        has_no_newline(f.field_type@),
    ensures
        has_no_newline(field_text(f)),
        has_no_newline(plain_field_text(f)),
{
    reveal_strlit(": ");
    reveal_strlit(" ");
    lemma_vis_text_no_newline(f.visibility);
    lemma_concat_no_newline(f.name@, ": "@);
    lemma_concat_no_newline(f.name@ + ": "@, f.field_type@);
    lemma_concat_no_newline(vis_text(f.visibility), " "@);
    lemma_concat_no_newline(vis_text(f.visibility) + " "@, f.name@);
    lemma_concat_no_newline(vis_text(f.visibility) + " "@ + f.name@, ": "@);
    lemma_concat_no_newline(vis_text(f.visibility) + " "@ + f.name@ + ": "@, f.field_type@);
}

/// A generic clause never contains a newline when none of its entries do.
pub(crate) proof fn lemma_generic_clause_no_newline(
    templates: Seq<Seq<char>>,
    lifetimes: Seq<Seq<char>>,
)
    requires
        forall|i: int| 0 <= i < templates.len() ==> has_no_newline(#[trigger] templates[i]),
        forall|i: int| 0 <= i < lifetimes.len() ==> has_no_newline(#[trigger] lifetimes[i]),
    ensures
        has_no_newline(generic_clause(templates, lifetimes)),
{
    reveal_strlit(", ");
    reveal_strlit("'");
    reveal_strlit("<");
    reveal_strlit(">");
    lemma_join_text_no_newline(templates, ", "@);
    let mapped = lifetimes.map_values(|l: Seq<char>| lifetime_item_text(l));
    assert forall|i: int| 0 <= i < mapped.len() implies has_no_newline(#[trigger] mapped[i]) by {
        assert(mapped[i] == "'"@ + lifetimes[i]);
        lemma_concat_no_newline("'"@, lifetimes[i]);
    }
    lemma_join_text_no_newline(mapped, ", "@);
    let t = join_text(templates, ", "@);
    let l = lifetimes_text(lifetimes);
    if l.len() == 0 && t.len() == 0 {
    } else if l.len() == 0 {
        lemma_concat_no_newline("<"@, t);
        lemma_concat_no_newline("<"@ + t, ">"@);
    } else if t.len() == 0 {
        lemma_concat_no_newline("<"@, l);
        lemma_concat_no_newline("<"@ + l, ">"@);
    } else {
        lemma_concat_no_newline("<"@, l);
        lemma_concat_no_newline("<"@ + l, ", "@);
        lemma_concat_no_newline("<"@ + l + ", "@, t);
        lemma_concat_no_newline("<"@ + l + ", "@ + t, ">"@);
    }
}

/// Scanning newline-free text moves it whole into the line in progress.
pub(crate) proof fn lemma_split_lines_skip(a: Seq<char>, b: Seq<char>, cur: Seq<char>)
    requires
        has_no_newline(a),
    ensures
        split_lines_from(a + b, cur) == split_lines_from(b, cur + a),
    decreases a.len(),
{
    if a.len() == 0 {
        assert(a + b =~= b);
        assert(cur + a =~= cur);
    } else {
        let ab = a + b;
        assert(ab.first() == a[0]);
        assert(a[0] != '\n');
        assert(ab.drop_first() =~= a.drop_first() + b);
        assert(forall|i: int| 0 <= i < a.drop_first().len() ==> a.drop_first()[i] != '\n');
        lemma_split_lines_skip(a.drop_first(), b, cur.push(a.first()));
        assert(cur.push(a.first()) + a.drop_first() =~= cur + a);
    }
}

/// A newline finishes the line in progress.
pub(crate) proof fn lemma_split_lines_newline(b: Seq<char>, cur: Seq<char>)
    ensures
        split_lines_from("\n"@ + b, cur) == seq![cur] + split_lines_from(b, Seq::empty()),
{
    reveal_strlit("\n");
    let nb = "\n"@ + b;
    assert(nb.first() == '\n');
    assert(nb.drop_first() =~= b);
}

/// A newline-terminated, newline-free line splits off whole.
pub(crate) proof fn lemma_split_lines_line(line: Seq<char>, rest: Seq<char>)
    requires
        has_no_newline(line),
    ensures
        split_lines_from(line + "\n"@ + rest, Seq::empty()) == seq![line] + split_lines_from(
            rest,
            Seq::empty(),
        ),
{
    assert(line + "\n"@ + rest =~= line + ("\n"@ + rest));
    lemma_split_lines_skip(line, "\n"@ + rest, Seq::empty());
    assert(Seq::<char>::empty() + line =~= line);
    lemma_split_lines_newline(rest, line);
}

/// Unfolding a block of lines from the front.
pub(crate) proof fn lemma_lines_block_front(xs: Seq<Seq<char>>, ind: Seq<char>, suffix: Seq<char>)
    requires
        xs.len() > 0,
    ensures
        lines_block(xs, ind, suffix) == ind + xs.first() + suffix + lines_block(
            xs.drop_first(),
            ind,
            suffix,
        ),
    decreases xs.len(),
{
    if xs.len() == 1 {
        assert(xs.drop_last().len() == 0);
        assert(xs.drop_first().len() == 0);
        assert(xs.first() == xs.last());
        assert(lines_block(xs.drop_last(), ind, suffix) == Seq::<char>::empty());
        assert(lines_block(xs.drop_first(), ind, suffix) == Seq::<char>::empty());
        assert(lines_block(xs, ind, suffix) =~= ind + xs.first() + suffix + lines_block(
            xs.drop_first(),
            ind,
            suffix,
        ));
    } else {
        lemma_lines_block_front(xs.drop_last(), ind, suffix);
        assert(xs.drop_last().first() == xs.first());
        assert(xs.drop_last().drop_first() =~= xs.drop_first().drop_last());
        assert(xs.drop_first().last() == xs.last());
        assert(xs.drop_first().len() > 0);
        assert(lines_block(xs, ind, suffix) == lines_block(xs.drop_last(), ind, suffix) + ind
            + xs.last() + suffix);
        assert(lines_block(xs.drop_first(), ind, suffix) == lines_block(
            xs.drop_first().drop_last(),
            ind,
            suffix,
        ) + ind + xs.drop_first().last() + suffix);
        assert(lines_block(xs.drop_first().drop_last(), ind, suffix) == lines_block(
            xs.drop_last().drop_first(),
            ind,
            suffix,
        ));
        let x0 = ind + xs.first() + suffix;
        let bb = lines_block(xs.drop_last().drop_first(), ind, suffix);
        assert(lines_block(xs, ind, suffix) == (x0 + bb) + ind + xs.last() + suffix);
        assert(ind + xs.first() + suffix + lines_block(xs.drop_first(), ind, suffix) == x0 + (bb
            + ind + xs.last() + suffix));
        assert((x0 + bb) + ind + xs.last() + suffix =~= x0 + (bb + ind + xs.last() + suffix));
    }
}

/// A block of newline-free entries whose suffix ends in a newline splits
/// into one line per entry, each `indentation + entry + suffix body`,
/// followed by the lines of whatever comes after the block.
pub(crate) proof fn lemma_split_lines_block(
    xs: Seq<Seq<char>>,
    ind: Seq<char>,
    suf: Seq<char>,
    rest: Seq<char>,
)
    requires
        has_no_newline(ind),
        has_no_newline(suf),
        forall|i: int| 0 <= i < xs.len() ==> has_no_newline(#[trigger] xs[i]),
    ensures
        split_lines_from(lines_block(xs, ind, suf + "\n"@) + rest, Seq::empty()) == xs.map_values(
            |x: Seq<char>| ind + x + suf,
        ) + split_lines_from(rest, Seq::empty()),
    decreases xs.len(),
{
    reveal_strlit("\n");
    let f = |x: Seq<char>| ind + x + suf;
    if xs.len() == 0 {
        assert(lines_block(xs, ind, suf + "\n"@) + rest =~= rest);
        assert(xs.map_values(f).len() == 0);
        assert(xs.map_values(f) + split_lines_from(rest, Seq::empty()) =~= split_lines_from(
            rest,
            Seq::empty(),
        ));
    } else {
        lemma_lines_block_front(xs, ind, suf + "\n"@);
        let line = ind + xs.first() + suf;
        lemma_concat_no_newline(ind, xs.first());
        lemma_concat_no_newline(ind + xs.first(), suf);
        let tail_text = lines_block(xs.drop_first(), ind, suf + "\n"@) + rest;
        assert(lines_block(xs, ind, suf + "\n"@) + rest =~= line + "\n"@ + tail_text);
        lemma_split_lines_line(line, tail_text);
        assert(forall|i: int| 0 <= i < xs.drop_first().len() ==> has_no_newline(
            #[trigger] xs.drop_first()[i],
        ));
        lemma_split_lines_block(xs.drop_first(), ind, suf, rest);
        assert(xs.map_values(f) =~= seq![line] + xs.drop_first().map_values(f));
        assert(split_lines_from(lines_block(xs, ind, suf + "\n"@) + rest, Seq::empty())
            =~= xs.map_values(f) + split_lines_from(rest, Seq::empty()));
    }
}

/// Every line that splitting produces is newline-free.
pub(crate) proof fn lemma_split_lines_no_newline(s: Seq<char>, cur: Seq<char>)
    requires
        has_no_newline(cur),
    ensures
        forall|i: int| 0 <= i < split_lines_from(s, cur).len() ==> has_no_newline(
            #[trigger] split_lines_from(s, cur)[i],
        ),
    decreases s.len(),
{
    let r = split_lines_from(s, cur);
    if s.len() == 0 {
    } else if s.first() == '\n' {
        lemma_split_lines_no_newline(s.drop_first(), Seq::empty());
        let rr = split_lines_from(s.drop_first(), Seq::empty());
        assert forall|i: int| 0 <= i < r.len() implies has_no_newline(#[trigger] r[i]) by {
            if i == 0 {
                assert(r[i] == cur);
            } else {
                assert(r[i] == rr[i - 1]);
            }
        }
    } else {
        assert(has_no_newline(cur.push(s.first()))) by {
            let c2 = cur.push(s.first());
            assert(forall|i: int| 0 <= i < c2.len() ==> c2[i] != '\n');
        }
        lemma_split_lines_no_newline(s.drop_first(), cur.push(s.first()));
        let rr = split_lines_from(s.drop_first(), cur.push(s.first()));
        assert forall|i: int| 0 <= i < r.len() implies has_no_newline(#[trigger] r[i]) by {
            assert(r[i] == rr[i]);
        }
    }
}

/// Rendering is deterministic: two renderings of one construct at one
/// nesting level are identical, character for character.  Together with
/// each `to_rust_string` contract this gives idempotence: repeated calls
/// with no intervening mutation produce byte-identical output.
pub proof fn lemma_render_deterministic(c: RustComponent, level: nat, r1: Seq<char>, r2: Seq<char>)
    requires
        r1 == component_text(c, level),
        r2 == component_text(c, level),
    ensures
        r1 == r2,
{
}

/// Joined lists keep insertion order: appending an entry to a non-empty
/// list appends it at the end of the joined text, after one separator.
pub proof fn lemma_join_text_push(parts: Seq<Seq<char>>, sep: Seq<char>, x: Seq<char>)
    requires
        parts.len() > 0,
    ensures
        join_text(parts.push(x), sep) == join_text(parts, sep) + sep + x,
{
    assert(parts.push(x).drop_last() =~= parts);
    assert(parts.push(x).last() == x);
}

/// A rendered non-empty lifetime list is never empty text: every entry
/// carries at least its apostrophe.
pub proof fn lemma_lifetimes_text_nonempty(ls: Seq<Seq<char>>)
    requires
        ls.len() > 0,
    ensures
        lifetimes_text(ls).len() > 0,
{
    reveal_strlit("'");
    let mapped = ls.map_values(|l: Seq<char>| lifetime_item_text(l));
    assert(mapped.last() == lifetime_item_text(ls.last()));
    assert(mapped.last().len() >= 1);
    if ls.len() == 1 {
        assert(lifetimes_text(ls) == mapped[0]);
    }
}

/// In a generic clause holding both lifetimes and rendered type
/// parameters, every lifetime precedes every type parameter: the clause
/// is the bracketed lifetime list, a comma and a space, then the
/// bracketed type-parameter list, each list in insertion order.
pub proof fn lemma_generic_clause_lifetimes_first(
    templates: Seq<Seq<char>>,
    lifetimes: Seq<Seq<char>>,
)
    requires
        lifetimes.len() > 0,
        join_text(templates, ", "@).len() > 0,
    ensures
        generic_clause(templates, lifetimes) == "<"@ + lifetimes_text(lifetimes) + ", "@
            + join_text(templates, ", "@) + ">"@,
{
    lemma_lifetimes_text_nonempty(lifetimes);
}

/// Appending a lifetime to a non-empty list appends it, apostrophe
/// prefixed, at the end of the rendered lifetime list.
pub proof fn lemma_lifetimes_text_push(ls: Seq<Seq<char>>, l: Seq<char>)
    requires
        ls.len() > 0,
    ensures
        lifetimes_text(ls.push(l)) == lifetimes_text(ls) + ", "@ + lifetime_item_text(l),
{
    let f = |x: Seq<char>| lifetime_item_text(x);
    assert(ls.push(l).map_values(f) =~= ls.map_values(f).push(lifetime_item_text(l)));
    lemma_join_text_push(ls.map_values(f), ", "@, lifetime_item_text(l));
}


/// Newline-free, non-empty text is a single line.
pub(crate) proof fn lemma_split_lines_single(s: Seq<char>)
    requires
        has_no_newline(s),
        s.len() > 0,
    ensures
        split_lines(s) == seq![s],
{
    assert(s =~= s + Seq::<char>::empty());
    lemma_split_lines_skip(s, Seq::<char>::empty(), Seq::<char>::empty());
    assert(Seq::<char>::empty() + s =~= s);
}


/// Splitting distributes over concatenation at a newline boundary.
pub(crate) proof fn lemma_split_from_append(a: Seq<char>, b: Seq<char>, cur: Seq<char>)
    requires
        a.len() > 0,
        a.last() == '\n',
    ensures
        split_lines_from(a + b, cur) == split_lines_from(a, cur) + split_lines_from(
            b,
            Seq::empty(),
        ),
    decreases a.len(),
{
    if a.len() == 1 {
        assert(a.first() == '\n');
        assert((a + b).first() == '\n');
        assert((a + b).drop_first() =~= b);
        assert(a.drop_first().len() == 0);
        assert(split_lines_from(a, cur) =~= seq![cur]);
        assert(split_lines_from(a + b, cur) =~= split_lines_from(a, cur) + split_lines_from(
            b,
            Seq::empty(),
        ));
    } else if a.first() == '\n' {
        assert((a + b).first() == '\n');
        assert((a + b).drop_first() =~= a.drop_first() + b);
        assert(a.drop_first().last() == a.last());
        lemma_split_from_append(a.drop_first(), b, Seq::empty());
        assert(split_lines_from(a + b, cur) =~= split_lines_from(a, cur) + split_lines_from(
            b,
            Seq::empty(),
        ));
    } else {
        assert((a + b).first() == a.first());
        assert((a + b).drop_first() =~= a.drop_first() + b);
        assert(a.drop_first().last() == a.last());
        lemma_split_from_append(a.drop_first(), b, cur.push(a.first()));
        assert(split_lines_from(a + b, cur) =~= split_lines_from(a, cur) + split_lines_from(
            b,
            Seq::empty(),
        ));
    }
}

/// Holds of rendered text that forms a complete block behind an
/// indentation prefix: it is non-empty, ends with a newline, and every
/// one of its lines carries the prefix.
pub open spec fn indented_block_text(t: Seq<char>, ind: Seq<char>) -> bool {
    &&& t.len() > 0
    &&& t.last() == '\n'
    &&& forall|i: int| 0 <= i < split_lines(t).len() ==> is_prefix_of(
        ind,
        #[trigger] split_lines(t)[i],
    )
}

/// The lines of the first `n` children of `cs`, each child rendered at
/// the child indentation prefix, concatenated in order.
pub open spec fn components_lines(cs: Vec<RustComponent>, n: int, child_ind: Seq<char>) -> Seq<
    Seq<char>,
>
    decreases cs, n,
{
    if n <= 0 || n > cs@.len() {
        Seq::empty()
    } else {
        components_lines(cs, n - 1, child_ind) + split_lines(
            component_text_ind(cs[n - 1], child_ind),
        )
    }
}

/// A block of newline-terminated children splits into the concatenation
/// of the children's own lines, followed by the lines of whatever comes
/// after the block.
pub(crate) proof fn lemma_split_components_block(
    cs: Vec<RustComponent>,
    n: int,
    child_ind: Seq<char>,
    rest: Seq<char>,
)
    requires
        0 <= n <= cs@.len(),
        forall|i: int| 0 <= i < n ==> (#[trigger] component_text_ind(cs[i], child_ind)).len() > 0
            && component_text_ind(cs[i], child_ind).last() == '\n',
    ensures
        split_lines_from(components_block(cs, n, child_ind, Seq::empty()) + rest, Seq::empty())
            == components_lines(cs, n, child_ind) + split_lines_from(rest, Seq::empty()),
    decreases n,
{
    if n <= 0 {
        assert(components_block(cs, n, child_ind, Seq::empty()) + rest =~= rest);
        assert(components_lines(cs, n, child_ind) + split_lines_from(rest, Seq::empty())
            =~= split_lines_from(rest, Seq::empty()));
    } else {
        let t = component_text_ind(cs[n - 1], child_ind);
        assert(components_block(cs, n, child_ind, Seq::empty()) == components_block(
            cs,
            n - 1,
            child_ind,
            Seq::empty(),
        ) + t + Seq::<char>::empty());
        assert(components_block(cs, n, child_ind, Seq::empty()) + rest =~= components_block(
            cs,
            n - 1,
            child_ind,
            Seq::empty(),
        ) + (t + rest));
        lemma_split_components_block(cs, n - 1, child_ind, t + rest);
        lemma_split_from_append(t, rest, Seq::empty());
        assert(split_lines_from(components_block(cs, n, child_ind, Seq::empty()) + rest,
            Seq::empty()) =~= components_lines(cs, n, child_ind) + split_lines_from(
            rest,
            Seq::empty(),
        ));
    }
}


/// A prefix of a prefix is a prefix.
pub(crate) proof fn lemma_prefix_extends(p: Seq<char>, q: Seq<char>, s: Seq<char>)
    requires
        is_prefix_of(p + q, s),
    ensures
        is_prefix_of(p, s),
{
    assert(s.take(p.len() as int) =~= s.take((p + q).len() as int).take(p.len() as int));
    assert((p + q).take(p.len() as int) =~= p);
}

/// Every line contributed by a sequence of indented child blocks carries
/// the child indentation prefix.
pub(crate) proof fn lemma_components_lines_prefixed(
    cs: Vec<RustComponent>,
    n: int,
    child_ind: Seq<char>,
)
    requires
        0 <= n <= cs@.len(),
        forall|i: int| 0 <= i < n ==> indented_block_text(
            component_text_ind(#[trigger] cs[i], child_ind),
            child_ind,
        ),
    ensures
        forall|j: int| 0 <= j < components_lines(cs, n, child_ind).len() ==> is_prefix_of(
            child_ind,
            #[trigger] components_lines(cs, n, child_ind)[j],
        ),
    decreases n,
{
    if n <= 0 {
    } else {
        lemma_components_lines_prefixed(cs, n - 1, child_ind);
        let prior = components_lines(cs, n - 1, child_ind);
        let own = split_lines(component_text_ind(cs[n - 1], child_ind));
        assert forall|j: int| 0 <= j < components_lines(cs, n, child_ind).len() implies
            is_prefix_of(child_ind, #[trigger] components_lines(cs, n, child_ind)[j]) by {
            if j < prior.len() {
                assert(components_lines(cs, n, child_ind)[j] == prior[j]);
            } else {
                assert(components_lines(cs, n, child_ind)[j] == own[j - prior.len()]);
            }
        }
    }
}


/// The lines of the first `n` children of `cs`, each child rendered at
/// the child indentation prefix and followed by one blank separator line.
pub open spec fn spaced_components_lines(
    cs: Vec<RustComponent>,
    n: int,
    child_ind: Seq<char>,
) -> Seq<Seq<char>>
    decreases cs, n,
{
    if n <= 0 || n > cs@.len() {
        Seq::empty()
    } else {
        spaced_components_lines(cs, n - 1, child_ind) + split_lines(
            component_text_ind(cs[n - 1], child_ind),
        ) + seq![Seq::<char>::empty()]
    }
}

/// A block of newline-terminated children, each followed by a newline
/// separator, splits into the children's own lines with one blank line
/// after each child, followed by the lines of whatever comes after.
pub(crate) proof fn lemma_split_spaced_components_block(
    cs: Vec<RustComponent>,
    n: int,
    child_ind: Seq<char>,
    rest: Seq<char>,
)
    requires
        0 <= n <= cs@.len(),
        forall|i: int| 0 <= i < n ==> (#[trigger] component_text_ind(cs[i], child_ind)).len() > 0
            && component_text_ind(cs[i], child_ind).last() == '\n',
    ensures
        split_lines_from(components_block(cs, n, child_ind, "\n"@) + rest, Seq::empty())
            == spaced_components_lines(cs, n, child_ind) + split_lines_from(rest, Seq::empty()),
    decreases n,
{
    reveal_strlit("\n");
    if n <= 0 {
        assert(components_block(cs, n, child_ind, "\n"@) + rest =~= rest);
        assert(spaced_components_lines(cs, n, child_ind) + split_lines_from(rest, Seq::empty())
            =~= split_lines_from(rest, Seq::empty()));
    } else {
        let t = component_text_ind(cs[n - 1], child_ind);
        assert(components_block(cs, n, child_ind, "\n"@) == components_block(
            cs,
            n - 1,
            child_ind,
            "\n"@,
        ) + t + "\n"@);
        assert(components_block(cs, n, child_ind, "\n"@) + rest =~= components_block(
            cs,
            n - 1,
            child_ind,
            "\n"@,
        ) + (t + ("\n"@ + rest)));
        lemma_split_spaced_components_block(cs, n - 1, child_ind, t + ("\n"@ + rest));
        lemma_split_from_append(t, "\n"@ + rest, Seq::empty());
        lemma_split_lines_newline(rest, Seq::empty());
        assert(split_lines_from(components_block(cs, n, child_ind, "\n"@) + rest, Seq::empty())
            =~= spaced_components_lines(cs, n, child_ind) + split_lines_from(
            rest,
            Seq::empty(),
        ));
    }
}

/// Every line contributed by a sequence of spaced child blocks is either
/// a blank separator line or carries the child indentation prefix.
pub(crate) proof fn lemma_spaced_components_lines_prefixed(
    cs: Vec<RustComponent>,
    n: int,
    child_ind: Seq<char>,
)
    requires
        0 <= n <= cs@.len(),
        forall|i: int| 0 <= i < n ==> indented_block_text(
            component_text_ind(#[trigger] cs[i], child_ind),
            child_ind,
        ),
    ensures
        forall|j: int| 0 <= j < spaced_components_lines(cs, n, child_ind).len() ==> is_prefix_of(
            child_ind,
            #[trigger] spaced_components_lines(cs, n, child_ind)[j],
        ) || spaced_components_lines(cs, n, child_ind)[j] == Seq::<char>::empty(),
    decreases n,
{
    if n <= 0 {
    } else {
        lemma_spaced_components_lines_prefixed(cs, n - 1, child_ind);
        let prior = spaced_components_lines(cs, n - 1, child_ind);
        let own = split_lines(component_text_ind(cs[n - 1], child_ind));
        assert forall|j: int| 0 <= j < spaced_components_lines(cs, n, child_ind).len() implies
            is_prefix_of(child_ind, #[trigger] spaced_components_lines(cs, n, child_ind)[j])
            || spaced_components_lines(cs, n, child_ind)[j] == Seq::<char>::empty() by {
            if j < prior.len() {
                assert(spaced_components_lines(cs, n, child_ind)[j] == prior[j]);
            } else if j < prior.len() + own.len() {
                assert(spaced_components_lines(cs, n, child_ind)[j] == own[j - prior.len()]);
            } else {
                assert(spaced_components_lines(cs, n, child_ind)[j] == Seq::<char>::empty());
            }
        }
    }
}

} // verus!
