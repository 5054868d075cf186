//! The menu of models: one entry for each model, the chosen one checked.

use crate::ollama::generate::chars_of;
use vstd::prelude::*;

verus! {

/// An entry of the menu of models.
#[derive(Debug, Clone, PartialEq, Eq)]
pub struct ModelEntry {
    pub name: String,
    pub checked: bool,
}

/// The entry for the model `name` when `selected` is the chosen model.
pub open spec fn entry_for(name: Seq<char>, selected: Option<Seq<char>>) -> (Seq<char>, bool) {
    (name, selected == Some(name))
}

/// The name and the mark of each entry, in order.
pub open spec fn entries_of(entries: Seq<ModelEntry>) -> Seq<(Seq<char>, bool)> {
    entries.map_values(|entry: ModelEntry| (entry.name@, entry.checked))
}

/// The menu of models: an entry for each of `models`, in order, checked
/// where the model is the chosen one.
pub fn model_menu(models: &Vec<String>, selected_model: Option<String>) -> (entries: Vec<
    ModelEntry,
>)
    ensures
        entries@.len() == models@.len(),
        forall|i: int|
            0 <= i < models@.len() ==> #[trigger] entries_of(entries@)[i] == entry_for(
                models@[i]@,
                chars_of(selected_model),
            ),
{
    let mut entries: Vec<ModelEntry> = Vec::new();
    let mut i: usize = 0;
    while i < models.len()
        invariant
            i <= models.len(),
            entries@.len() == i,
            forall|k: int|
                0 <= k < i ==> #[trigger] entries_of(entries@)[k] == entry_for(
                    models@[k]@,
                    chars_of(selected_model),
                ),
        decreases models.len() - i,
    {
        let checked = match &selected_model {
            Some(selected) => *selected == models[i],
            None => false,
        };
        let ghost before = entries@;
        entries.push(ModelEntry { name: models[i].clone(), checked });
        i += 1;
        assert forall|k: int| 0 <= k < i implies #[trigger] entries_of(entries@)[k] == entry_for(
            models@[k]@,
            chars_of(selected_model),
        ) by {
            if k < i - 1 {
                assert(entries_of(before)[k] == entries_of(entries@)[k]);
            }
        }
    }
    entries
}

} // verus!
