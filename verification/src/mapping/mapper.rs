//! The mapper contract and pipelines of mappers.
//!
//! A mapper turns a value into a value of the same type. A pipeline
//! applies its mappers one after another, the first one first. Nothing is
//! assumed about what an implementation of `map` computes: what a pipeline
//! returns is stated in terms of what its stages return.

use vstd::prelude::*;

verus! {

/// Trait for mapping functions
pub trait Mapper {
    /// The values that are mapped.
    type Value;

    /// Get the name of this mapper
    fn name(&self) -> &str;

    /// Map an input value to an output value
    fn map(&self, input: Self::Value) -> Self::Value;
}

/// `output` is what `mapper.map(input)` may return.
pub open spec fn maps_to<M: Mapper>(mapper: M, input: M::Value, output: M::Value) -> bool {
    call_ensures(M::map, (&mapper, input), output)
}

/// `output` is what comes out when `input` is handed to the first stage,
/// its result to the second, and so on to the last.
pub open spec fn passes<M: Mapper>(stages: Seq<M>, input: M::Value, output: M::Value) -> bool
    decreases stages.len(),
{
    if stages.len() == 0 {
        output == input
    } else {
        exists|mid: M::Value|
            passes(stages.drop_last(), input, mid) && #[trigger] maps_to(
                stages.last(),
                mid,
                output,
            )
    }
}

/// A pipeline of mappers applied in sequence
pub struct MappingPipeline<M: Mapper> {
    mappers: Vec<M>,
}

impl<M: Mapper> View for MappingPipeline<M> {
    type V = Seq<M>;

    closed spec fn view(&self) -> Seq<M> {
        self.mappers@
    }
}

impl<M: Mapper> MappingPipeline<M> {
    /// Create an empty pipeline
    pub fn new() -> (pipeline: Self)
        ensures
            pipeline@ == Seq::<M>::empty(),
    {
        MappingPipeline { mappers: Vec::new() }
    }

    /// Add a mapper to the pipeline (builder pattern): it becomes the
    /// last stage.
    pub fn with(self, mapper: M) -> (pipeline: Self)
        ensures
            pipeline@ == self@.push(mapper),
    {
        let mut mappers = self.mappers;
        mappers.push(mapper);
        MappingPipeline { mappers }
    }

    /// Apply all mappers in sequence
    pub fn apply(&self, value: M::Value) -> (output: M::Value)
        ensures
            passes(self@, value, output),
    {
        let ghost input = value;
        let mut value = value;
        let mut i: usize = 0;
        while i < self.mappers.len()
            invariant
                i <= self.mappers.len(),
                passes(self.mappers@.take(i as int), input, value),
            decreases self.mappers.len() - i,
        {
            let ghost mid = value;
            value = self.mappers[i].map(value);
            proof {
                let stages = self.mappers@.take(i + 1);
                assert(stages.drop_last() =~= self.mappers@.take(i as int));
                assert(maps_to(stages.last(), mid, value));
            }
            i += 1;
        }
        proof {
            assert(self.mappers@.take(self.mappers@.len() as int) =~= self.mappers@);
        }
        value
    }

    /// Check if the pipeline is empty
    pub fn is_empty(&self) -> (empty: bool)
        ensures
            empty == (self@.len() == 0),
    {
        self.mappers.len() == 0
    }
}

/// The empty pipeline hands every value through unchanged, and nothing
/// else.
pub proof fn lemma_empty_is_identity<M: Mapper>(input: M::Value, output: M::Value)
    ensures
        passes(Seq::<M>::empty(), input, output) <==> output == input,
{
}

/// A pipeline with one stage more hands what the others give to that
/// stage.
pub proof fn lemma_last_stage_last<M: Mapper>(
    stages: Seq<M>,
    mapper: M,
    input: M::Value,
    mid: M::Value,
    output: M::Value,
)
    requires
        passes(stages, input, mid),
        maps_to(mapper, mid, output),
    ensures
        passes(stages.push(mapper), input, output),
{
    assert(stages.push(mapper).drop_last() =~= stages);
    assert(stages.push(mapper).last() == mapper);
}

/// Applying one pipeline after another is applying the two joined: a
/// pipeline is the composition of its stages from left to right.
pub proof fn lemma_apply_composes<M: Mapper>(
    first: Seq<M>,
    second: Seq<M>,
    input: M::Value,
    mid: M::Value,
    output: M::Value,
)
    requires
        passes(first, input, mid),
        passes(second, mid, output),
    ensures
        passes(first + second, input, output),
    decreases second.len(),
{
    if second.len() == 0 {
        assert(first + second =~= first);
    } else {
        let between = choose|between: M::Value|
            passes(second.drop_last(), mid, between) && #[trigger] maps_to(
                second.last(),
                between,
                output,
            );
        lemma_apply_composes(first, second.drop_last(), input, mid, between);
        assert((first + second).drop_last() =~= first + second.drop_last());
        assert((first + second).last() == second.last());
    }
}

} // verus!
