//! The device extensions that presentation needs, and set operations on
//! lists of extension names.
use vstd::prelude::*;

verus! {

/// The name under which the swapchain device extension is reported.
pub open spec fn swapchain_extension_name() -> Seq<char> {
    seq!['V', 'K', '_', 'K', 'H', 'R', '_', 's', 'w', 'a', 'p', 'c', 'h', 'a', 'i', 'n']
}

/// `names` holds an entry equal to `n`.
pub open spec fn has_name(names: Seq<String>, n: Seq<char>) -> bool {
    exists|j: int| 0 <= j < names.len() && #[trigger] names[j]@ == n
}

/// Every name in `required` occurs in `supported`.
pub open spec fn is_superset(supported: Seq<String>, required: Seq<String>) -> bool {
    forall|i: int| 0 <= i < required.len() ==> has_name(supported, #[trigger] required[i]@)
}

/// `acc` followed by each name of `more`, in order, that is not already
/// among the names before it.
pub open spec fn extend_unique(acc: Seq<String>, more: Seq<String>) -> Seq<String>
    decreases more.len(),
{
    if more.len() == 0 {
        acc
    } else {
        let prev = extend_unique(acc, more.drop_last());
        if has_name(prev, more.last()@) {
            prev
        } else {
            prev.push(more.last())
        }
    }
}

/// The extensions a device must support to present to a surface.
pub fn required_device_extensions() -> (r: Vec<String>)
    ensures
        r@.len() == 1,
        r@[0]@ == swapchain_extension_name(),
{
    let mut r: Vec<String> = Vec::new();
    let name = String::from_str("VK_KHR_swapchain");
    proof {
        reveal_strlit("VK_KHR_swapchain");
    }
    r.push(name);
    assert(r@[0]@ =~= swapchain_extension_name());
    r
}

proof fn lemma_has_name_push(s: Seq<String>, x: String)
    ensures
        forall|n: Seq<char>| has_name(s.push(x), n) <==> (has_name(s, n) || x@ == n),
{
    assert forall|n: Seq<char>| has_name(s.push(x), n) <==> (has_name(s, n) || x@ == n) by {
        let t = s.push(x);
        if has_name(s, n) {
            let j = choose|j: int| 0 <= j < s.len() && #[trigger] s[j]@ == n;
            assert(t[j] == s[j]);
        }
        if x@ == n {
            assert(t[s.len() as int] == x);
        }
        if has_name(t, n) {
            let j = choose|j: int| 0 <= j < t.len() && #[trigger] t[j]@ == n;
            if j < s.len() {
                assert(t[j] == s[j]);
            }
        }
    }
}

/// Whether `names` holds an entry equal to `name`.
fn contains_name(names: &Vec<String>, name: &String) -> (r: bool)
    ensures
        r == has_name(names@, name@),
{
    let mut j: usize = 0;
    while j < names.len()
        invariant
            j <= names@.len(),
            forall|k: int| 0 <= k < j ==> names@[k]@ != name@,
        decreases names@.len() - j,
    {
        if names[j] == *name {
            return true;
        }
        j = j + 1;
    }
    false
}

/// Whether every extension in `required` is among `supported`.
pub fn supports_extensions(supported: &Vec<String>, required: &Vec<String>) -> (r: bool)
    ensures
        r == is_superset(supported@, required@),
{
    let mut i: usize = 0;
    while i < required.len()
        invariant
            i <= required@.len(),
            forall|k: int| 0 <= k < i ==> has_name(supported@, #[trigger] required@[k]@),
        decreases required@.len() - i,
    {
        if !contains_name(supported, &required[i]) {
            return false;
        }
        i = i + 1;
    }
    true
}

/// The extensions to enable on a logical device: those the device itself
/// requires, followed by each name of `catalog` not already among them.
pub fn enabled_device_extensions(device_required: &Vec<String>, catalog: &Vec<String>) -> (r: Vec<
    String,
>)
    ensures
        r@ == extend_unique(device_required@, catalog@),
        forall|n: Seq<char>|
            has_name(r@, n) <==> (has_name(device_required@, n) || has_name(catalog@, n)),
        r@.len() <= device_required@.len() + catalog@.len(),
        r@.subrange(0, device_required@.len() as int) == device_required@,
{
    let mut r: Vec<String> = Vec::new();
    let mut i: usize = 0;
    while i < device_required.len()
        invariant
            i <= device_required@.len(),
            r@ == device_required@.subrange(0, i as int),
        decreases device_required@.len() - i,
    {
        r.push(device_required[i].clone());
        i = i + 1;
        assert(r@ =~= device_required@.subrange(0, i as int));
    }
    assert(r@ =~= device_required@);
    let mut k: usize = 0;
    while k < catalog.len()
        invariant
            k <= catalog@.len(),
            device_required@.len() <= r@.len() <= device_required@.len() + k,
            r@ == extend_unique(device_required@, catalog@.subrange(0, k as int)),
            r@.subrange(0, device_required@.len() as int) == device_required@,
            forall|n: Seq<char>|
                has_name(r@, n) <==> (has_name(device_required@, n) || has_name(
                    catalog@.subrange(0, k as int),
                    n,
                )),
        decreases catalog@.len() - k,
    {
        let ghost before = r@;
        proof {
            let c1 = catalog@.subrange(0, k + 1);
            assert(c1.drop_last() =~= catalog@.subrange(0, k as int));
            assert(c1.last() == catalog@[k as int]);
        }
        if !contains_name(&r, &catalog[k]) {
            r.push(catalog[k].clone());
            assert(r@.subrange(0, device_required@.len() as int) =~= before.subrange(
                0,
                device_required@.len() as int,
            ));
            proof {
                lemma_has_name_push(before, catalog@[k as int]);
            }
        }
        proof {
            assert(catalog@.subrange(0, k + 1) =~= catalog@.subrange(0, k as int).push(
                catalog@[k as int],
            ));
            lemma_has_name_push(catalog@.subrange(0, k as int), catalog@[k as int]);
            assert forall|n: Seq<char>|
                has_name(r@, n) <==> (has_name(device_required@, n) || has_name(
                    catalog@.subrange(0, k + 1),
                    n,
                )) by {
                assert(has_name(before, n) <==> (has_name(device_required@, n) || has_name(
                    catalog@.subrange(0, k as int),
                    n,
                )));
            }
        }
        k = k + 1;
    }
    assert(catalog@.subrange(0, catalog@.len() as int) =~= catalog@);
    r
}

} // verus!
