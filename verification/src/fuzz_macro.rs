use vstd::prelude::*;

use crate::run::{entry_test_name, listed_line_names_target};
use crate::targets::{ENTRY_SUFFIX, line_target};
use crate::text::str_eq;

verus! {

/// The options of the `test_fuzz` attribute.
pub struct TestFuzzOpts {
    /// The name that the fuzz target goes by in place of the function's.
    pub rename: Option<String>,
    /// Leave the function as it is.
    pub skip: bool,
}

/// One argument of the `test_fuzz` attribute, as the macro writes it back.
pub enum OptArg {
    /// `rename = "<name>"`
    Rename(String),
    /// `skip`
    Skip,
}

pub enum OptArgView {
    Rename(Seq<char>),
    Skip,
}

impl View for OptArg {
    type V = OptArgView;

    open spec fn view(&self) -> OptArgView {
        match self {
            OptArg::Rename(n) => OptArgView::Rename(n@),
            OptArg::Skip => OptArgView::Skip,
        }
    }
}

/// The kind of one generic argument of a path segment.
#[derive(Clone, Copy, Debug, PartialEq, Eq, Structural)]
pub enum GenericArgShape {
    Type,
    Other,
}

/// The arguments of a path segment.
pub enum ArgsShape {
    /// No arguments.
    Bare,
    AngleBracketed(Vec<GenericArgShape>),
    Parenthesized,
}

pub enum ArgsShapeView {
    Bare,
    AngleBracketed(Seq<GenericArgShape>),
    Parenthesized,
}

impl View for ArgsShape {
    type V = ArgsShapeView;

    open spec fn view(&self) -> ArgsShapeView {
        match self {
            ArgsShape::Bare => ArgsShapeView::Bare,
            ArgsShape::AngleBracketed(args) => ArgsShapeView::AngleBracketed(args@),
            ArgsShape::Parenthesized => ArgsShapeView::Parenthesized,
        }
    }
}

/// One segment of a path: an identifier and its arguments.
pub struct SegmentShape {
    pub ident: String,
    pub arguments: ArgsShape,
}

pub struct SegmentShapeView {
    pub ident: Seq<char>,
    pub arguments: ArgsShapeView,
}

impl View for SegmentShape {
    type V = SegmentShapeView;

    open spec fn view(&self) -> SegmentShapeView {
        SegmentShapeView { ident: self.ident@, arguments: self.arguments@ }
    }
}

/// A path: whether it has a qualified self type (or, for an attribute's
/// path, a leading `::`), and its segments.
pub struct PathShape {
    pub qualified: bool,
    pub segments: Vec<SegmentShape>,
}

/// A type, as far as the macro tells types apart.
pub enum TypeShape {
    Path(PathShape),
    Reference(Box<TypeShape>),
    Slice,
    Other,
}

/// One input of a function's signature.
pub enum FnArgShape {
    Receiver,
    Typed(TypeShape),
}

/// How an argument is stored with the fuzz target's recorded arguments and
/// handed back to the function.
#[derive(Clone, Copy, Debug, PartialEq, Eq, Structural)]
pub enum ArgMapping {
    /// `self`: stored as the self type, cloned.
    Receiver,
    /// `std::sync::Arc<T>`: stored as `T`.
    Arc,
    /// `&str`: stored as a `String`.
    Str,
    /// `&[T]`: stored as a `Vec<T>`.
    Slice,
    /// `&T`: stored as `T`, cloned.
    Ref,
    /// Anything else: stored as it is.
    Plain,
}

/// How the harness calls the function with the recorded arguments.
#[derive(Clone, Copy, Debug, PartialEq, Eq, Structural)]
pub enum CallForm {
    /// `args.0.f(args.1, ..)`
    Method,
    /// `SelfTy::f(args.0, ..)`
    Associated,
    /// `super::f(args.0, ..)`
    Free,
}

// ---------------------------------------------------------------------------
// Specifications
// ---------------------------------------------------------------------------

pub open spec fn segments_view(p: PathShape) -> Seq<SegmentShapeView> {
    p.segments@.map_values(|s: SegmentShape| s@)
}

/// The last segment's arguments, where the path is unqualified and its
/// identifiers are `other`, with no arguments on any segment but the last.
pub open spec fn type_path_match(p: PathShape, other: Seq<Seq<char>>) -> Option<ArgsShapeView> {
    let segs = segments_view(p);
    if !p.qualified && segs.len() > 0 && segs.len() == other.len() && (forall|i: int|
        0 <= i < segs.len() ==> (#[trigger] segs[i]).ident == other[i]) && (forall|i: int|
        0 <= i < segs.len() - 1 ==> (#[trigger] segs[i]).arguments is Bare) {
        Some(segs.last().arguments)
    } else {
        None
    }
}

pub open spec fn arc_path() -> Seq<Seq<char>> {
    seq!["std"@, "sync"@, "Arc"@]
}

pub open spec fn str_path() -> Seq<Seq<char>> {
    seq!["str"@]
}

/// `std::sync::Arc` with exactly one generic argument, a type.
pub open spec fn is_arc_of_type(p: PathShape) -> bool {
    match type_path_match(p, arc_path()) {
        Some(ArgsShapeView::AngleBracketed(args)) => args.len() == 1 && args[0] == GenericArgShape::Type,
        _ => false,
    }
}

pub open spec fn ref_mapping_spec(elem: TypeShape) -> ArgMapping {
    match elem {
        TypeShape::Path(p) => if type_path_match(p, str_path()) == Some(ArgsShapeView::Bare) {
            ArgMapping::Str
        } else {
            ArgMapping::Ref
        },
        TypeShape::Slice => ArgMapping::Slice,
        _ => ArgMapping::Ref,
    }
}

pub open spec fn arg_mapping(arg: FnArgShape) -> ArgMapping {
    match arg {
        FnArgShape::Receiver => ArgMapping::Receiver,
        FnArgShape::Typed(TypeShape::Path(p)) => if is_arc_of_type(p) {
            ArgMapping::Arc
        } else {
            ArgMapping::Plain
        },
        FnArgShape::Typed(TypeShape::Reference(elem)) => ref_mapping_spec(*elem),
        FnArgShape::Typed(_) => ArgMapping::Plain,
    }
}

pub open spec fn arg_mapping_fn() -> spec_fn(FnArgShape) -> ArgMapping {
    |a: FnArgShape| arg_mapping(a)
}

/// The name of the module that holds a fuzz target's harness.
pub open spec fn harness_module_name(rename: Option<Seq<char>>, ident: Seq<char>) -> Seq<char> {
    let name = match rename {
        Some(r) => r,
        None => ident,
    };
    name + "_fuzz"@
}

pub open spec fn rename_view(opts: TestFuzzOpts) -> Option<Seq<char>> {
    match opts.rename {
        Some(r) => Some(r@),
        None => None,
    }
}

/// The attribute arguments that state the options, in the order written.
pub open spec fn opt_args_spec(rename: Option<Seq<char>>, skip: bool) -> Seq<OptArgView> {
    (match rename {
        Some(n) => seq![OptArgView::Rename(n)],
        None => Seq::empty(),
    }) + (if skip {
        seq![OptArgView::Skip]
    } else {
        Seq::empty()
    })
}

/// `syn::Path::is_ident`: no leading `::`, one segment, no arguments, that identifier.
pub open spec fn path_is_ident(p: PathShape, ident: Seq<char>) -> bool {
    let segs = segments_view(p);
    !p.qualified && segs.len() == 1 && segs[0].arguments is Bare && segs[0].ident == ident
}

// ---------------------------------------------------------------------------
// Executable functions
// ---------------------------------------------------------------------------

fn clone_args(a: &ArgsShape) -> (r: ArgsShape)
    ensures
        r@ == a@,
{
    match a {
        ArgsShape::Bare => ArgsShape::Bare,
        ArgsShape::AngleBracketed(args) => {
            let mut out: Vec<GenericArgShape> = Vec::new();
            let mut i: usize = 0;
            while i < args.len()
                invariant
                    i <= args.len(),
                    out@ == args@.subrange(0, i as int),
                decreases args.len() - i,
            {
                out.push(args[i]);
                i = i + 1;
            }
            assert(args@.subrange(0, args.len() as int) == args@);
            ArgsShape::AngleBracketed(out)
        },
        ArgsShape::Parenthesized => ArgsShape::Parenthesized,
    }
}

/// The arguments of a type path's last segment, where the path (unqualified)
/// is exactly `other` once those arguments are set aside.
pub fn match_type_path(path: &PathShape, other: &[&str]) -> (r: Option<ArgsShape>)
    ensures
        match r {
            Some(a) => type_path_match(*path, other@.map_values(|s: &str| s@)) == Some(a@),
            None => type_path_match(*path, other@.map_values(|s: &str| s@)) is None,
        },
{
    let ghost segs = segments_view(*path);
    let ghost oth = other@.map_values(|s: &str| s@);
    let n = path.segments.len();
    if path.qualified || n == 0 || n != other.len() {
        return None;
    }
    let mut i: usize = 0;
    while i < n
        invariant
            i <= n,
            n == path.segments.len(),
            n == other.len(),
            segs == segments_view(*path),
            oth == other@.map_values(|s: &str| s@),
            forall|k: int| 0 <= k < i ==> (#[trigger] segs[k]).ident == oth[k],
            forall|k: int| 0 <= k < i && k < n - 1 ==> (#[trigger] segs[k]).arguments is Bare,
        decreases n - i,
    {
        let seg = &path.segments[i];
        if !str_eq(seg.ident.as_str(), other[i]) {
            assert(segs[i as int].ident != oth[i as int]);
            return None;
        }
        if i + 1 < n {
            match &seg.arguments {
                ArgsShape::Bare => {},
                _ => {
                    assert(!(segs[i as int].arguments is Bare));
                    return None;
                },
            }
        }
        i = i + 1;
    }
    Some(clone_args(&path.segments[n - 1].arguments))
}

/// Whether a type path is `std::sync::Arc<T>` for a type `T`.
pub fn is_arc_arg(path: &PathShape) -> (r: bool)
    ensures
        r == is_arc_of_type(*path),
{
    let arc: [&str; 3] = ["std", "sync", "Arc"];
    let m = match_type_path(path, arc.as_slice());
    proof {
        assert(arc@.map_values(|s: &str| s@) =~= arc_path());
    }
    match m {
        Some(ArgsShape::AngleBracketed(args)) => args.len() == 1 && args[0] == GenericArgShape::Type,
        _ => false,
    }
}

/// How a `&T` argument is stored: `&str` as a `String`, `&[T]` as a `Vec<T>`,
/// any other `&T` as a `T`.
pub fn map_ref_arg(elem: &TypeShape) -> (r: ArgMapping)
    ensures
        r == ref_mapping_spec(*elem),
{
    match elem {
        TypeShape::Path(p) => {
            let strs: [&str; 1] = ["str"];
            let m = match_type_path(p, strs.as_slice());
            proof {
                assert(strs@.map_values(|s: &str| s@) =~= str_path());
            }
            match m {
                Some(ArgsShape::Bare) => ArgMapping::Str,
                _ => ArgMapping::Ref,
            }
        },
        TypeShape::Slice => ArgMapping::Slice,
        _ => ArgMapping::Ref,
    }
}

/// How one input of the function is stored and handed back.
pub fn map_arg(arg: &FnArgShape) -> (r: ArgMapping)
    ensures
        r == arg_mapping(*arg),
{
    match arg {
        FnArgShape::Receiver => ArgMapping::Receiver,
        FnArgShape::Typed(TypeShape::Path(p)) => if is_arc_arg(p) {
            ArgMapping::Arc
        } else {
            ArgMapping::Plain
        },
        FnArgShape::Typed(TypeShape::Reference(elem)) => map_ref_arg(&**elem),
        FnArgShape::Typed(_) => ArgMapping::Plain,
    }
}

/// Whether the function takes `self` first, and how each input is stored.
pub fn map_args(inputs: &Vec<FnArgShape>) -> (r: (bool, Vec<ArgMapping>))
    ensures
        r.0 == (inputs.len() > 0 && inputs@[0] is Receiver),
        r.1@ == inputs@.map_values(arg_mapping_fn()),
{
    let mut out: Vec<ArgMapping> = Vec::new();
    let mut i: usize = 0;
    while i < inputs.len()
        invariant
            i <= inputs.len(),
            out@ == inputs@.subrange(0, i as int).map_values(arg_mapping_fn()),
        decreases inputs.len() - i,
    {
        out.push(map_arg(&inputs[i]));
        assert(inputs@.subrange(0, i + 1).map_values(arg_mapping_fn()) =~= out@);
        i = i + 1;
    }
    assert(inputs@.subrange(0, inputs.len() as int) =~= inputs@);
    let receiver = if inputs.len() > 0 {
        match &inputs[0] {
            FnArgShape::Receiver => true,
            _ => false,
        }
    } else {
        false
    };
    (receiver, out)
}

/// How the harness calls the function: as a method where it takes `self`, as
/// an associated function inside an `impl`, and otherwise through `super`.
pub fn call_form(receiver: bool, in_impl: bool) -> (r: CallForm)
    ensures
        r == (if receiver {
            CallForm::Method
        } else if in_impl {
            CallForm::Associated
        } else {
            CallForm::Free
        }),
{
    if receiver {
        CallForm::Method
    } else if in_impl {
        CallForm::Associated
    } else {
        CallForm::Free
    }
}

/// The name of the module holding the harness: the fuzz target's name (the
/// function's, unless renamed) followed by `_fuzz`.
pub fn mod_ident_name(opts: &TestFuzzOpts, target_ident: &str) -> (r: String)
    ensures
        r@ == harness_module_name(rename_view(*opts), target_ident@),
{
    let mut name = match &opts.rename {
        Some(r) => r.clone(),
        None => target_ident.to_owned(),
    };
    name.append("_fuzz");
    name
}

/// Whether an attribute's path is the single identifier `ident`.
pub fn is_ident(path: &PathShape, ident: &str) -> (r: bool)
    ensures
        r == path_is_ident(*path, ident@),
{
    if path.qualified || path.segments.len() != 1 {
        return false;
    }
    match &path.segments[0].arguments {
        ArgsShape::Bare => str_eq(path.segments[0].ident.as_str(), ident),
        _ => false,
    }
}

/// The first of a method's attributes that is `test_fuzz`, if any.
pub fn find_test_fuzz_attr(attr_paths: &Vec<PathShape>) -> (r: Option<usize>)
    ensures
        match r {
            Some(i) => {
                &&& i < attr_paths.len()
                &&& path_is_ident(attr_paths@[i as int], "test_fuzz"@)
                &&& forall|k: int| 0 <= k < i ==> !path_is_ident(#[trigger] attr_paths@[k], "test_fuzz"@)
            },
            None => forall|k: int|
                0 <= k < attr_paths.len() ==> !path_is_ident(#[trigger] attr_paths@[k], "test_fuzz"@),
        },
{
    let mut i: usize = 0;
    while i < attr_paths.len()
        invariant
            i <= attr_paths.len(),
            forall|k: int| 0 <= k < i ==> !path_is_ident(#[trigger] attr_paths@[k], "test_fuzz"@),
        decreases attr_paths.len() - i,
    {
        if is_ident(&attr_paths[i], "test_fuzz") {
            return Some(i);
        }
        i = i + 1;
    }
    None
}

/// The options written back on a method once its harness is generated: the
/// same, with `skip` set, so that the attribute leaves the method alone.
pub fn skipped_opts(opts: &TestFuzzOpts) -> (r: TestFuzzOpts)
    ensures
        r.skip,
        rename_view(r) == rename_view(*opts),
{
    TestFuzzOpts {
        rename: match &opts.rename {
            Some(r) => Some(r.clone()),
            None => None,
        },
        skip: true,
    }
}

/// The attribute arguments that state the options: `rename = ".."` where
/// renamed, then `skip` where skipping.
pub fn opt_args(opts: &TestFuzzOpts) -> (r: Vec<OptArg>)
    ensures
        r@.map_values(|a: OptArg| a@) == opt_args_spec(rename_view(*opts), opts.skip),
{
    let mut args: Vec<OptArg> = Vec::new();
    match &opts.rename {
        Some(n) => args.push(OptArg::Rename(n.clone())),
        None => {},
    }
    if opts.skip {
        args.push(OptArg::Skip);
    }
    assert(args@.map_values(|a: OptArg| a@) =~= opt_args_spec(rename_view(*opts), opts.skip));
    args
}

// ---------------------------------------------------------------------------
// Laws
// ---------------------------------------------------------------------------

/// The entry test of a generated harness, `<path>::<name>_fuzz::entry`, is
/// listed by its test executable under the fuzz target's name `<path>::<name>`,
/// where `<name>` is the rename if one was given and the function's name if not.
pub proof fn harness_entry_is_listed(path: Seq<char>, rename: Option<Seq<char>>, ident: Seq<char>)
    ensures
        line_target(path + harness_module_name(rename, ident) + "::entry"@ + ": test"@) == Some(
            path + match rename {
                Some(r) => r,
                None => ident,
            },
        ),
{
    let name = match rename {
        Some(r) => r,
        None => ident,
    };
    reveal_strlit("_fuzz");
    reveal_strlit("::entry");
    reveal_strlit("_fuzz::entry");
    assert("_fuzz"@ + "::entry"@ =~= ENTRY_SUFFIX@);
    assert(path + harness_module_name(rename, ident) + "::entry"@ =~= entry_test_name(path + name));
    listed_line_names_target(path + name);
}

} // verus!
