//! The list of the models that the server holds.

use vstd::prelude::*;

verus! {

/// What the server tells of how a model was made.
#[derive(Debug, Clone, PartialEq, Eq)]
pub struct ModelDetails {
    pub format: String,
    pub family: String,
    pub families: Vec<String>,
    pub parameter_size: String,
    pub quantization_level: String,
}

/// One model that the server holds.
#[derive(Debug, Clone, PartialEq, Eq)]
pub struct Model {
    pub name: String,
    pub modified_at: String,
    pub size: i64,
    pub digest: String,
    pub details: ModelDetails,
}

/// The answer to the question which models the server holds.
#[derive(Debug, Clone, PartialEq, Eq)]
pub struct ListResponse {
    pub models: Vec<Model>,
}

/// The names of `models`, in order.
pub open spec fn names_of(models: Seq<Model>) -> Seq<Seq<char>> {
    models.map_values(|model: Model| model.name@)
}

/// The texts of `names`, in order.
pub open spec fn texts_of(names: Seq<String>) -> Seq<Seq<char>> {
    names.map_values(|name: String| name@)
}

impl ListResponse {
    /// The names of the models, in the order in which the server lists them.
    pub fn names(&self) -> (names: Vec<String>)
        ensures
            texts_of(names@) == names_of(self.models@),
    {
        let mut names: Vec<String> = Vec::new();
        let mut i: usize = 0;
        while i < self.models.len()
            invariant
                i <= self.models.len(),
                names@.len() == i,
                texts_of(names@) == names_of(self.models@.subrange(0, i as int)),
            decreases self.models.len() - i,
        {
            let ghost before = names@;
            names.push(self.models[i].name.clone());
            i += 1;
            assert forall|k: int| 0 <= k < i implies texts_of(names@)[k] == names_of(
                self.models@.subrange(0, i as int),
            )[k] by {
                if k < i - 1 {
                    assert(texts_of(before)[k] == names_of(
                        self.models@.subrange(0, i - 1),
                    )[k]);
                }
            }
            assert(texts_of(names@) =~= names_of(self.models@.subrange(0, i as int)));
        }
        assert(self.models@.subrange(0, i as int) =~= self.models@);
        names
    }
}

} // verus!
