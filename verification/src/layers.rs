use vstd::prelude::*;

verus! {

/// The layer names the application requests in debug configurations.
pub open spec fn spec_validation_layers() -> Seq<Seq<char>> {
    seq!["VK_LAYER_KHRONOS_validation"@]
}

/// One of the strings in `available` spells `name`.
pub open spec fn contains_name(available: Seq<String>, name: Seq<char>) -> bool {
    exists|j: int| 0 <= j < available.len() && available[j]@ == name
}

/// Every requested validation layer occurs among the names in `available`.
pub open spec fn validation_layers_supported(available: Seq<String>) -> bool {
    forall|i: int|
        0 <= i < spec_validation_layers().len() ==> contains_name(
            available,
            spec_validation_layers()[i],
        )
}

/// The requested validation layer names, as owned strings in the order of
/// `spec_validation_layers`.
pub fn validation_layers() -> (r: Vec<String>)
    ensures
        r@.len() == spec_validation_layers().len(),
        forall|i: int| 0 <= i < r@.len() ==> r@[i]@ == spec_validation_layers()[i],
{
    let mut names: Vec<String> = Vec::new();
    names.push("VK_LAYER_KHRONOS_validation".to_owned());
    names
}

/// Linear scan for one layer name among the advertised ones.
pub fn layer_present(available: &Vec<String>, name: &String) -> (r: bool)
    ensures
        r == contains_name(available@, name@),
{
    let mut j: usize = 0;
    while j < available.len()
        invariant
            j <= available@.len(),
            forall|k: int| 0 <= k < j ==> available@[k]@ != name@,
        decreases available@.len() - j,
    {
        if available[j] == *name {
            return true;
        }
        j += 1;
    }
    false
}

/// Every name in `required` occurs among the names in `available`.
pub fn layers_all_present(available: &Vec<String>, required: &Vec<String>) -> (r: bool)
    ensures
        r == forall|i: int| 0 <= i < required@.len() ==> contains_name(available@, required@[i]@),
{
    let mut i: usize = 0;
    while i < required.len()
        invariant
            i <= required@.len(),
            forall|k: int| 0 <= k < i ==> contains_name(available@, required@[k]@),
        decreases required@.len() - i,
    {
        if !layer_present(available, &required[i]) {
            return false;
        }
        i += 1;
    }
    true
}

/// True exactly when every requested validation layer is among the
/// advertised layer names in `available`.
pub fn check_validation_layers_support(available: &Vec<String>) -> (r: bool)
    ensures
        r == validation_layers_supported(available@),
{
    let required = validation_layers();
    let r = layers_all_present(available, &required);
    proof {
        if r {
            assert forall|i: int|
                0 <= i < spec_validation_layers().len() implies contains_name(
                available@,
                spec_validation_layers()[i],
            ) by {
                assert(contains_name(available@, required@[i]@));
                assert(required@[i]@ == spec_validation_layers()[i]);
            }
        } else {
            let i = choose|i: int|
                0 <= i < required@.len() && !contains_name(available@, required@[i]@);
            assert(required@[i]@ == spec_validation_layers()[i]);
            assert(!contains_name(available@, spec_validation_layers()[i]));
        }
    }
    r
}

} // verus!
