//! The deterministic rules of the façade generator that are worth stating
//! exactly: a method grows a builder precisely when, after flattening the
//! `options` object into its properties, strictly more than one optional
//! parameter remains. Methods under that threshold stay direct calls.
use vstd::prelude::*;

verus! {

broadcast use vstd::seq::group_seq_axioms, vstd::std_specs::vec::group_vec_axioms;

/// What the builder rule needs to know of one declared argument: whether it
/// is required, whether it is the flattened `options` object, and how many
/// properties that object declares.
#[derive(Clone, Copy, PartialEq, Eq, Structural, Debug)]
pub struct ArgShape {
    pub required: bool,
    pub is_options: bool,
    pub property_count: usize,
}

/// How many optional parameters one argument contributes: itself when
/// optional, plus its own properties when it is a non-empty `options`
/// object.
pub open spec fn optional_weight(a: ArgShape) -> int {
    (if a.required {
        0int
    } else {
        1int
    }) + (if a.is_options && a.property_count > 0 {
        a.property_count as int
    } else {
        0int
    })
}

/// Total optional parameters of a member after flattening `options`.
pub open spec fn optional_count(args: Seq<ArgShape>) -> int
    decreases args.len(),
{
    if args.len() == 0 {
        0
    } else {
        optional_count(args.drop_last()) + optional_weight(args.last())
    }
}

/// The builder rule: a builder is emitted exactly when strictly more than
/// one optional parameter remains after flattening.
pub open spec fn builder_rule(args: Seq<ArgShape>) -> bool {
    optional_count(args) >= 2
}

/// Decides the builder rule for a member's arguments.
pub fn needs_builder(args: &Vec<ArgShape>) -> (r: bool)
    ensures
        r == builder_rule(args@),
{
    let mut count: usize = 0;
    let mut i: usize = 0;
    while i < args.len()
        invariant
            i <= args@.len(),
            count <= usize::MAX - 2,
            count == if optional_count(args@.subrange(0, i as int)) > 2 {
                2int
            } else {
                optional_count(args@.subrange(0, i as int))
            },
        decreases args@.len() - i,
    {
        let a = args[i];
        if !a.required {
            if count < 2 {
                count += 1;
            }
        }
        if a.is_options && a.property_count > 0 {
            if a.property_count >= 2 || count + 1 >= 2 {
                count = 2;
            } else {
                count += a.property_count;
            }
        }
        i += 1;
        proof {
            let pre = args@.subrange(0, i as int);
            assert(pre.drop_last() =~= args@.subrange(0, i - 1));
            assert(pre.last() == args@[i - 1]);
            lemma_optional_count_nonneg(args@.subrange(0, i - 1));
        }
    }
    proof {
        assert(args@.subrange(0, args@.len() as int) =~= args@);
    }
    count >= 2
}

/// The optional count never goes negative.
proof fn lemma_optional_count_nonneg(args: Seq<ArgShape>)
    ensures
        optional_count(args) >= 0,
    decreases args.len(),
{
    if args.len() > 0 {
        lemma_optional_count_nonneg(args.drop_last());
    }
}

} // verus!
