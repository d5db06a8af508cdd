//! Names for the code that is derived for an enumerated space.
use vstd::prelude::*;
use vstd::seq_lib::seq_to_set_is_finite;
use vstd::set_lib::{lemma_int_range, lemma_len_subset, set_int_range};

verus! {

/// The name that is made of `k` letters `R`.
pub open spec fn run_of_r(k: nat) -> Seq<char> {
    Seq::new(k, |i: int| 'R')
}

/// Whether one of the names is the given name.
pub open spec fn taken(names: Seq<String>, name: Seq<char>) -> bool {
    exists|i: int| 0 <= i < names.len() && (#[trigger] names[i])@ == name
}

/// Makes the name of `k` letters `R` by `str::repeat`, which hands back its
/// string `k` times over.
#[verifier::external_body]
fn repeated_r(k: usize) -> (r: String)
    ensures
        r@ == run_of_r(k as nat),
{
    "R".repeat(k)
}

/// Checks whether one of the names is the given name.
fn is_taken(names: &[String], name: &String) -> (b: bool)
    ensures
        b == taken(names@, name@),
{
    let mut i: usize = 0;
    while i < names.len()
        invariant
            i <= names@.len(),
            forall|k: int| 0 <= k < i ==> (#[trigger] names@[k])@ != name@,
        decreases names@.len() - i,
    {
        if names[i] == *name {
            return true;
        }
        i += 1;
    }
    false
}

/// Names of different lengths are different names, so that the names `R`,
/// `RR` and so on up to `k` letters cannot all be taken by fewer than `k`
/// names.
proof fn taken_runs_are_few(names: Seq<String>, k: nat)
    requires
        forall|j: nat| 1 <= j <= k ==> taken(names, #[trigger] run_of_r(j)),
    ensures
        k <= names.len(),
{
    broadcast use seq_to_set_is_finite;

    let lengths = Seq::new(names.len(), |i: int| names[i]@.len() as int);
    let found = lengths.to_set();
    let wanted = set_int_range(1, k as int + 1);
    lengths.lemma_cardinality_of_set();
    lemma_int_range(1, k as int + 1);
    assert forall|x: int| wanted.contains(x) implies found.contains(x) by {
        assert(taken(names, run_of_r(x as nat)));
        let i = choose|i: int| 0 <= i < names.len() && (#[trigger] names[i])@ == run_of_r(x as nat);
        assert(lengths[i] == x);
    }
    lemma_len_subset(wanted, found);
}

/// Picks the name for the type of real numbers in derived code: the shortest
/// of the names `R`, `RR`, `RRR` and so on that is not the name of a type
/// parameter.
pub fn r_ident(type_params: &[String]) -> (ident: String)
    requires
        type_params@.len() < usize::MAX,
    ensures
        ident@.len() >= 1,
        ident@ == run_of_r(ident@.len()),
        !taken(type_params@, ident@),
        forall|j: nat| 1 <= j < ident@.len() ==> taken(type_params@, #[trigger] run_of_r(j)),
{
    let mut k: usize = 1;
    let mut ident = repeated_r(1);
    loop
        invariant
            1 <= k <= type_params@.len() + 1,
            type_params@.len() < usize::MAX,
            ident@ == run_of_r(k as nat),
            forall|j: nat| 1 <= j < k ==> taken(type_params@, #[trigger] run_of_r(j)),
        ensures
            ident@ == run_of_r(k as nat),
            !taken(type_params@, ident@),
            forall|j: nat| 1 <= j < k ==> taken(type_params@, #[trigger] run_of_r(j)),
        decreases type_params@.len() + 1 - k,
    {
        if !is_taken(type_params, &ident) {
            break ;
        }
        proof {
            taken_runs_are_few(type_params@, k as nat);
        }
        k += 1;
        ident = repeated_r(k);
    }
    ident
}

} // verus!
