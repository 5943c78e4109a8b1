//! Applying a transform to every element of a list, in two ways that agree.

use vstd::prelude::*;

verus! {

/// `f` may be called on every element of `input`.
pub open spec fn accepts_all<F: Fn(i32) -> i32>(f: F, input: Seq<i32>) -> bool {
    forall|i: int| 0 <= i < input.len() ==> call_requires(f, (#[trigger] input[i],))
}

/// `output` is `input` with `f` applied to every element: both have the same
/// length, and each element of `output` is a result of `f` on the element of
/// `input` at the same place.
pub open spec fn mapped_by<F: Fn(i32) -> i32>(f: F, input: Seq<i32>, output: Seq<i32>) -> bool {
    &&& output.len() == input.len()
    &&& forall|i: int|
        0 <= i < input.len() ==> call_ensures(f, (input[i],), #[trigger] output[i])
}

/// `f` returns the same result whenever it is given the same argument.
pub open spec fn is_pure<F: Fn(i32) -> i32>(f: F) -> bool {
    forall|x: i32, y: i32, z: i32|
        #[trigger] call_ensures(f, (x,), y) && #[trigger] call_ensures(f, (x,), z) ==> y == z
}

/// `f` returns `g(x)` on every argument `x`, and nothing else.
pub open spec fn computes<F: Fn(i32) -> i32>(f: F, g: spec_fn(i32) -> i32) -> bool {
    forall|x: i32, y: i32| #[trigger] call_ensures(f, (x,), y) ==> y == g(x)
}

/// Applies `f` to every element of `vec`, overwriting each element with its
/// image, and returns the list.
pub fn process_vector<F>(vec: Vec<i32>, f: F) -> (result: Vec<i32>) where F: Fn(i32) -> i32
    requires
        accepts_all(f, vec@),
    ensures
        mapped_by(f, vec@, result@),
{
    let mut result = vec;
    let mut i: usize = 0;
    while i < result.len()
        invariant
            i <= result.len(),
            result.len() == vec.len(),
            accepts_all(f, vec@),
            forall|j: int| 0 <= j < i ==> call_ensures(f, (vec@[j],), #[trigger] result@[j]),
            forall|j: int| i <= j < result.len() ==> result@[j] == vec@[j],
        decreases result.len() - i,
    {
        let x = result[i];
        result.set(i, f(x));
        i += 1;
    }
    result
}

/// Applies `f` to every element of `vec` in turn and collects the images in a
/// new list.
pub fn process_vector_with_loop<F>(vec: Vec<i32>, f: F) -> (result: Vec<i32>) where
    F: Fn(i32) -> i32,

    requires
        accepts_all(f, vec@),
    ensures
        mapped_by(f, vec@, result@),
{
    let mut result: Vec<i32> = Vec::new();
    for x in items: vec
        invariant
            items.seq() == vec@,
            accepts_all(f, vec@),
            result.len() == items.index(),
            forall|j: int|
                0 <= j < items.index() ==> call_ensures(f, (vec@[j],), #[trigger] result@[j]),
    {
        result.push(f(x));
    }
    result
}

/// With a pure transform the two ways of applying it cannot differ: any two
/// lists that are `input` mapped by `f` are the same list.
pub proof fn lemma_pure_outputs_agree<F: Fn(i32) -> i32>(
    f: F,
    input: Seq<i32>,
    first: Seq<i32>,
    second: Seq<i32>,
)
    requires
        is_pure(f),
        mapped_by(f, input, first),
        mapped_by(f, input, second),
    ensures
        first == second,
        first.len() == input.len(),
{
    assert(first =~= second);
}

/// Where `f` computes the function `g`, a list mapped by `f` is `g` applied
/// element by element: as long as the input, and in the input's order.
pub proof fn lemma_output_is_map<F: Fn(i32) -> i32>(
    f: F,
    g: spec_fn(i32) -> i32,
    input: Seq<i32>,
    output: Seq<i32>,
)
    requires
        computes(f, g),
        mapped_by(f, input, output),
    ensures
        is_pure(f),
        output.len() == input.len(),
        forall|i: int| 0 <= i < input.len() ==> #[trigger] output[i] == g(input[i]),
        output == input.map_values(g),
{
    assert(output =~= input.map_values(g));
}

} // verus!
