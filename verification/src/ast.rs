//! The attribute-metadata model that the annotation parser works on.
//!
//! A derivation pass starts from a struct declaration together with its
//! attached annotations. This module models that input with plain data:
//! identifiers and literal texts are ASCII byte vectors, paths are lists of
//! segments, and an annotation is a small tree of `Meta` nodes, one level per
//! pair of parentheses. The annotation parser and the code generator are
//! specified and verified over these types; turning host-language syntax into
//! them (and generated descriptions back out) is plain conversion that lives
//! outside the verified library.

use vstd::prelude::*;

verus! {

broadcast use vstd::seq::group_seq_axioms;

/// A path: an optional leading `::` followed by identifier segments.
#[derive(Debug)]
pub struct MetaPath {
    pub leading_colon: bool,
    pub segments: Vec<Vec<u8>>,
}

/// A literal argument of an annotation.
#[derive(Debug)]
pub enum MetaLit {
    /// A string literal; the vector holds the text between the quotes.
    Str(Vec<u8>),
    /// An integer literal.
    Int(u64),
    /// A boolean literal.
    Bool(bool),
}

/// One annotation node: a bare path, a parenthesised list, or `path = literal`.
#[derive(Debug)]
pub enum Meta {
    Path(MetaPath),
    List(MetaPath, Vec<NestedMeta>),
    NameValue(MetaPath, MetaLit),
}

/// An argument inside a parenthesised annotation list.
#[derive(Debug)]
pub enum NestedMeta {
    Meta(Meta),
    Lit(MetaLit),
}

/// One named field of the struct under derivation: its name, the verbatim
/// text of its declared type, and its attached annotations.
#[derive(Debug)]
pub struct Field {
    pub name: Vec<u8>,
    pub ty: Vec<u8>,
    pub attrs: Vec<Meta>,
}

/// The field list of the type under derivation.
#[derive(Debug)]
pub enum Fields {
    Named(Vec<Field>),
    Unnamed,
    Unit,
}

/// The body of the type under derivation.
#[derive(Debug)]
pub enum TypeData {
    Struct(Fields),
    Enum,
    Union,
}

/// The whole input of one derivation pass.
#[derive(Debug)]
pub struct ConfigTableStruct {
    pub attrs: Vec<Meta>,
    pub ident: Vec<u8>,
    pub data: TypeData,
}

/// The mathematical value of a `MetaPath`.
pub ghost struct SpecPath {
    pub leading_colon: bool,
    pub segments: Seq<Seq<u8>>,
}

impl View for MetaPath {
    type V = SpecPath;

    open spec fn view(&self) -> SpecPath {
        SpecPath {
            leading_colon: self.leading_colon,
            segments: Seq::new(self.segments@.len(), |i: int| self.segments@[i]@),
        }
    }
}

/// True when the path is the plain single identifier `s` (no leading `::`).
pub open spec fn spec_path_is_ident(p: SpecPath, s: Seq<u8>) -> bool {
    &&& !p.leading_colon
    &&& p.segments.len() == 1
    &&& p.segments[0] == s
}

/// The framework's own annotation name.
pub open spec fn snec_name() -> Seq<u8> {
    seq!['s' as u8, 'n' as u8, 'e' as u8, 'c' as u8]
}

/// True for the path node of an annotation that belongs to this framework.
pub open spec fn spec_is_snec_path(p: SpecPath) -> bool {
    spec_path_is_ident(p, snec_name())
}

/// The path at the root of an annotation node.
pub open spec fn spec_meta_path_of(m: Meta) -> SpecPath {
    match m {
        Meta::Path(p) => p@,
        Meta::List(p, _) => p@,
        Meta::NameValue(p, _) => p@,
    }
}

/// True for an annotation node that belongs to this framework.
pub open spec fn spec_is_snec_attr(m: Meta) -> bool {
    spec_is_snec_path(spec_meta_path_of(m))
}

/// The mathematical value of an optional value: the payload is replaced by
/// its view.
pub open spec fn opt_view<T: View>(o: Option<T>) -> Option<T::V> {
    match o {
        Option::Some(t) => Option::Some(t@),
        Option::None => Option::None,
    }
}

/// Compares two byte vectors.
pub fn bytes_eq(a: &Vec<u8>, b: &Vec<u8>) -> (r: bool)
    ensures
        r == (a@ == b@),
{
    if a.len() != b.len() {
        assert(a@.len() != b@.len());
        return false;
    }
    let n: usize = a.len();
    let mut i: usize = 0;
    while i < n
        invariant
            n == a@.len() == b@.len(),
            i <= n,
            forall|k: int| 0 <= k < i ==> a@[k] == b@[k],
        decreases n - i,
    {
        if a[i] != b[i] {
            return false;
        }
        i = i + 1;
    }
    proof {
        assert(a@ =~= b@);
    }
    true
}

/// Copies a byte vector.
pub fn bytes_copy(a: &Vec<u8>) -> (r: Vec<u8>)
    ensures
        r@ == a@,
{
    let n: usize = a.len();
    let mut r: Vec<u8> = Vec::new();
    let mut i: usize = 0;
    while i < n
        invariant
            n == a@.len(),
            i <= n,
            r@ == a@.subrange(0, i as int),
        decreases n - i,
    {
        r.push(a[i]);
        proof {
            assert(r@ =~= a@.subrange(0, i + 1 as int));
        }
        i = i + 1;
    }
    proof {
        assert(a@.subrange(0, n as int) =~= a@);
    }
    r
}

/// Copies the bytes of `a` between positions `i` and `j`.
pub fn bytes_range(a: &Vec<u8>, i: usize, j: usize) -> (r: Vec<u8>)
    requires
        i <= j <= a@.len(),
    ensures
        r@ == a@.subrange(i as int, j as int),
{
    let mut r: Vec<u8> = Vec::new();
    let mut k: usize = i;
    while k < j
        invariant
            i <= k <= j <= a@.len(),
            r@ == a@.subrange(i as int, k as int),
        decreases j - k,
    {
        r.push(a[k]);
        proof {
            assert(r@ =~= a@.subrange(i as int, k as int + 1));
        }
        k = k + 1;
    }
    r
}

/// Copies a path.
pub fn path_copy(p: &MetaPath) -> (r: MetaPath)
    ensures
        r@ == p@,
{
    let n: usize = p.segments.len();
    let mut segments: Vec<Vec<u8>> = Vec::new();
    let mut i: usize = 0;
    while i < n
        invariant
            n == p.segments@.len(),
            i <= n,
            segments@.len() == i,
            forall|k: int| 0 <= k < i ==> #[trigger] segments@[k]@ == p.segments@[k]@,
        decreases n - i,
    {
        let seg = bytes_copy(&p.segments[i]);
        let ghost segv: Seq<u8> = seg@;
        segments.push(seg);
        proof {
            assert(segments@[i as int]@ == segv);
        }
        i = i + 1;
    }
    let r = MetaPath { leading_colon: p.leading_colon, segments };
    proof {
        assert(r@.segments =~= p@.segments);
    }
    r
}

/// The byte text `snec`.
pub fn snec_name_bytes() -> (r: Vec<u8>)
    ensures
        r@ == snec_name(),
{
    let r: Vec<u8> = vec!['s' as u8, 'n' as u8, 'e' as u8, 'c' as u8];
    proof {
        assert(r@ =~= snec_name());
    }
    r
}

/// True when `p` is the plain single identifier `s`.
pub fn path_is_ident(p: &MetaPath, s: &Vec<u8>) -> (r: bool)
    ensures
        r == spec_path_is_ident(p@, s@),
{
    if p.leading_colon || p.segments.len() != 1 {
        return false;
    }
    proof {
        assert(p@.segments[0] == p.segments@[0]@);
    }
    bytes_eq(&p.segments[0], s)
}

/// True for an annotation node that belongs to this framework.
pub fn is_snec_attr(m: &Meta) -> (r: bool)
    ensures
        r == spec_is_snec_attr(*m),
{
    let kw = snec_name_bytes();
    match m {
        Meta::Path(p) => path_is_ident(p, &kw),
        Meta::List(p, _) => path_is_ident(p, &kw),
        Meta::NameValue(p, _) => path_is_ident(p, &kw),
    }
}

} // verus!
