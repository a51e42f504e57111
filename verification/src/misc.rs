//! Small helpers of the code generator: name case conversion, path
//! construction, and the fixed defaults that apply when the struct-level
//! annotations leave an option unset.

use vstd::prelude::*;
use crate::ast::{is_snec_attr, spec_is_snec_attr, Meta, MetaPath, SpecPath};
use crate::ast::snec_name;

verus! {

broadcast use vstd::seq::group_seq_axioms;

/// The ASCII upper-case counterpart of `b`; bytes outside `a..=z` are kept.
pub open spec fn spec_ascii_upper(b: u8) -> u8 {
    if 'a' as u8 <= b && b <= 'z' as u8 {
        (b - 32) as u8
    } else {
        b
    }
}

/// One step of the `snake_case` to `CamelCase` conversion, carrying whether
/// the previous byte was an underscore (or the start of the name).
/// Underscores are dropped; a byte that follows one or more underscores, or
/// starts the name, is upper-cased; every other byte is kept unchanged.
pub open spec fn camel_of_from(s: Seq<u8>, after_underscore: bool) -> Seq<u8>
    decreases s.len(),
{
    if s.len() == 0 {
        Seq::empty()
    } else if s[0] == '_' as u8 {
        camel_of_from(s.drop_first(), true)
    } else {
        let b = if after_underscore {
            spec_ascii_upper(s[0])
        } else {
            s[0]
        };
        seq![b] + camel_of_from(s.drop_first(), false)
    }
}

/// The `snake_case` name `s` in `CamelCase` form.
pub open spec fn camel_of(s: Seq<u8>) -> Seq<u8> {
    camel_of_from(s, true)
}

/// The ASCII upper-case counterpart of `b`.
pub fn ascii_upper(b: u8) -> (r: u8)
    ensures
        r == spec_ascii_upper(b),
{
    if 'a' as u8 <= b && b <= 'z' as u8 {
        b - 32
    } else {
        b
    }
}

/// Converts a `snake_case` identifier to a `CamelCase` one. Consecutive
/// underscores count as a single separator; all non-underscore bytes other
/// than those starting a word are preserved unchanged.
pub fn snake_to_camel(name: &Vec<u8>) -> (r: Vec<u8>)
    ensures
        r@ == camel_of(name@),
{
    let n: usize = name.len();
    let mut r: Vec<u8> = Vec::new();
    let mut after_underscore: bool = true;
    let mut i: usize = 0;
    proof {
        assert(name@.skip(0) =~= name@);
    }
    while i < n
        invariant
            n == name@.len(),
            i <= n,
            camel_of(name@) == r@ + camel_of_from(name@.skip(i as int), after_underscore),
        decreases n - i,
    {
        let b = name[i];
        proof {
            assert(name@.skip(i as int)[0] == name@[i as int]);
            assert(name@.skip(i as int).drop_first() =~= name@.skip(i as int + 1));
        }
        let ghost pre: Seq<u8> = r@;
        let ghost rest: Seq<u8> = name@.skip(i as int);
        if b == '_' as u8 {
            after_underscore = true;
        } else {
            let c = if after_underscore {
                ascii_upper(b)
            } else {
                b
            };
            r.push(c);
            proof {
                assert(camel_of_from(rest, after_underscore) == seq![c] + camel_of_from(
                    rest.drop_first(),
                    false,
                ));
                assert(pre + (seq![c] + camel_of_from(rest.drop_first(), false)) =~= (pre + seq![c])
                    + camel_of_from(rest.drop_first(), false));
            }
            after_underscore = false;
        }
        i = i + 1;
    }
    proof {
        assert(name@.skip(n as int) =~= Seq::<u8>::empty());
        assert(r@ + Seq::<u8>::empty() =~= r@);
    }
    r
}

/// Converting a converted name again changes nothing, whichever way the
/// conversion starts.
proof fn lemma_camel_from_idempotent(s: Seq<u8>, after_underscore: bool)
    ensures
        camel_of_from(camel_of_from(s, after_underscore), after_underscore) == camel_of_from(
            s,
            after_underscore,
        ),
    decreases s.len(),
{
    if s.len() == 0 {
    } else if s[0] == '_' as u8 {
        lemma_camel_from_idempotent(s.drop_first(), true);
    } else {
        let b = if after_underscore {
            spec_ascii_upper(s[0])
        } else {
            s[0]
        };
        let rest = camel_of_from(s.drop_first(), false);
        let whole = camel_of_from(s, after_underscore);
        assert(whole == seq![b] + rest);
        assert(whole.len() > 0);
        assert(whole[0] == b);
        assert(whole.drop_first() =~= rest);
        if after_underscore {
            assert(spec_ascii_upper(b) == b);
        }
        lemma_camel_from_idempotent(s.drop_first(), false);
        assert(camel_of_from(whole, after_underscore) == seq![b] + camel_of_from(rest, false));
    }
}

/// Case conversion is idempotent: a name already in `CamelCase` form comes
/// out unchanged when the `snake_case` conversion is applied to it again.
pub proof fn lemma_snake_to_camel_idempotent(s: Seq<u8>)
    ensures
        camel_of(camel_of(s)) == camel_of(s),
{
    lemma_camel_from_idempotent(s, true);
}

/// Joins two identifiers into the two-segment path `x::y`.
pub fn concat_to_path(x: Vec<u8>, y: Vec<u8>) -> (r: MetaPath)
    ensures
        r@.leading_colon == false,
        r@.segments == seq![x@, y@],
{
    let ghost xv: Seq<u8> = x@;
    let ghost yv: Seq<u8> = y@;
    let mut segments: Vec<Vec<u8>> = Vec::new();
    segments.push(x);
    segments.push(y);
    let r = MetaPath { leading_colon: false, segments };
    proof {
        assert(r@.segments =~= seq![xv, yv]);
    }
    r
}

/// The name of the no-op receiver type.
pub open spec fn empty_receiver_name() -> Seq<u8> {
    seq![
        'E' as u8,
        'm' as u8,
        'p' as u8,
        't' as u8,
        'y' as u8,
        'R' as u8,
        'e' as u8,
        'c' as u8,
        'e' as u8,
        'i' as u8,
        'v' as u8,
        'e' as u8,
        'r' as u8,
    ]
}

/// The default receiver path `::snec::EmptyReceiver`.
pub open spec fn spec_default_receiver_path() -> SpecPath {
    SpecPath { leading_colon: true, segments: seq![snec_name(), empty_receiver_name()] }
}

/// The path `::snec::EmptyReceiver`, used both as the default receiver
/// constructor expression and as the default receiver type.
pub fn default_receiver_path() -> (r: MetaPath)
    ensures
        r@ == spec_default_receiver_path(),
{
    let snec: Vec<u8> = vec!['s' as u8, 'n' as u8, 'e' as u8, 'c' as u8];
    let empty: Vec<u8> = vec![
        'E' as u8,
        'm' as u8,
        'p' as u8,
        't' as u8,
        'y' as u8,
        'R' as u8,
        'e' as u8,
        'c' as u8,
        'e' as u8,
        'i' as u8,
        'v' as u8,
        'e' as u8,
        'r' as u8,
    ];
    let ghost sv: Seq<u8> = snec@;
    let ghost ev: Seq<u8> = empty@;
    let mut segments: Vec<Vec<u8>> = Vec::new();
    segments.push(snec);
    segments.push(empty);
    let r = MetaPath { leading_colon: true, segments };
    proof {
        assert(sv =~= snec_name());
        assert(ev =~= empty_receiver_name());
        assert(r@.segments =~= spec_default_receiver_path().segments);
    }
    r
}

/// The default receiver constructor expression, `::snec::EmptyReceiver`.
pub fn default_receiver_expr() -> (r: MetaPath)
    ensures
        r@ == spec_default_receiver_path(),
{
    default_receiver_path()
}

/// The default receiver type, `::snec::EmptyReceiver`.
pub fn default_receiver_type() -> (r: MetaPath)
    ensures
        r@ == spec_default_receiver_path(),
{
    default_receiver_path()
}

/// The default name of the generated entry module.
pub open spec fn entries_name() -> Seq<u8> {
    seq!['e' as u8, 'n' as u8, 't' as u8, 'r' as u8, 'i' as u8, 'e' as u8, 's' as u8]
}

/// The identifier `entries`, the default entry module name.
pub fn default_entry_module() -> (r: Vec<u8>)
    ensures
        r@ == entries_name(),
{
    let r: Vec<u8> = vec!['e' as u8, 'n' as u8, 't' as u8, 'r' as u8, 'i' as u8, 'e' as u8,
        's' as u8];
    proof {
        assert(r@ =~= entries_name());
    }
    r
}

/// The annotations of `attrs` that belong to this framework, in order.
pub open spec fn spec_snec_attrs(attrs: Seq<Meta>) -> Seq<Meta>
    decreases attrs.len(),
{
    if attrs.len() == 0 {
        Seq::empty()
    } else if spec_is_snec_attr(attrs[0]) {
        seq![attrs[0]] + spec_snec_attrs(attrs.drop_first())
    } else {
        spec_snec_attrs(attrs.drop_first())
    }
}

/// An annotation outside the framework's namespace is invisible: inserting
/// one anywhere in an annotation list leaves the framework's view of the
/// list unchanged, so the whole derivation ignores it.
pub proof fn lemma_unrelated_attr_ignored(attrs: Seq<Meta>, i: int, m: Meta)
    requires
        0 <= i <= attrs.len(),
        !spec_is_snec_attr(m),
    ensures
        spec_snec_attrs(attrs.insert(i, m)) == spec_snec_attrs(attrs),
    decreases attrs.len(),
{
    let with = attrs.insert(i, m);
    if i == 0 {
        assert(with[0] == m);
        assert(with.drop_first() =~= attrs);
    } else {
        assert(with[0] == attrs[0]);
        assert(with.drop_first() =~= attrs.drop_first().insert(i - 1, m));
        lemma_unrelated_attr_ignored(attrs.drop_first(), i - 1, m);
    }
}

/// Keeps the annotations that belong to this framework, dropping every
/// unrelated one, in their original order.
pub fn filter_to_snec_attributes(attrs: Vec<Meta>) -> (r: Vec<Meta>)
    ensures
        r@ == spec_snec_attrs(attrs@),
{
    let ghost orig: Seq<Meta> = attrs@;
    let mut rest = attrs;
    let mut r: Vec<Meta> = Vec::new();
    while rest.len() > 0
        invariant
            spec_snec_attrs(orig) == r@ + spec_snec_attrs(rest@),
        decreases rest@.len(),
    {
        let ghost before: Seq<Meta> = rest@;
        let m = rest.remove(0);
        proof {
            assert(before.remove(0) =~= before.drop_first());
            assert(rest@ == before.drop_first());
        }
        let ghost pre: Seq<Meta> = r@;
        if is_snec_attr(&m) {
            let ghost mv: Meta = m;
            r.push(m);
            proof {
                assert(pre + (seq![mv] + spec_snec_attrs(before.drop_first())) =~= (pre + seq![mv])
                    + spec_snec_attrs(before.drop_first()));
            }
        }
    }
    proof {
        assert(r@ + Seq::<Meta>::empty() =~= r@);
    }
    r
}

} // verus!
