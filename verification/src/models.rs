//! The model catalog: providers, models, and lookup by full identifier.

pub mod openai;

use vstd::prelude::*;

use crate::text::str_eq;

verus! {

/// The model used when none is chosen.
pub const DEFAULT_MODEL: &'static str = "openai/gpt-5.6-sol";

/// A model provider.
#[derive(Debug, Clone, Copy, PartialEq, Eq, Structural)]
pub enum Providers {
    OpenAI,
    Anthropic,
    MoonshotAI,
}

/// Kinds of input or output a model handles.
#[derive(Debug, Clone, Copy, PartialEq, Eq, Structural)]
pub enum Modalities {
    Text,
    Image,
    File,
    Audio,
    Video,
}

/// A model and what it supports. Prices are kept outside the library, as
/// they are floating-point amounts.
pub struct Model {
    pub provider: Providers,
    pub identifier: String,
    pub name: String,
    pub context_window: u64,
    pub input_formats: Vec<Modalities>,
    pub output_formats: Vec<Modalities>,
    pub reasoning: bool,
    pub structured_output: bool,
    pub tool_call: bool,
    pub streaming: bool,
    pub caching: bool,
    pub updated: String,
}

/// Why no model was selected.
#[derive(Debug)]
pub enum ModelError {
    /// No model is registered under this identifier.
    UnknownModel(String),
}

impl Providers {
    /// The provider's part of a model identifier.
    pub open spec fn spec_slug(self) -> Seq<char> {
        match self {
            Providers::OpenAI => "openai"@,
            Providers::Anthropic => "anthropic"@,
            Providers::MoonshotAI => "moonshotai"@,
        }
    }

    /// The provider's part of a model identifier.
    pub fn slug(&self) -> (s: String)
        ensures
            s@ == self.spec_slug(),
    {
        match self {
            Providers::OpenAI => String::from_str("openai"),
            Providers::Anthropic => String::from_str("anthropic"),
            Providers::MoonshotAI => String::from_str("moonshotai"),
        }
    }
}

impl Model {
    /// `provider/identifier`, the name under which the model is selected.
    pub open spec fn spec_full_identifier(&self) -> Seq<char> {
        self.provider.spec_slug() + "/"@ + self.identifier@
    }

    /// `provider/identifier`, the name under which the model is selected.
    pub fn full_identifier(&self) -> (s: String)
        ensures
            s@ == self.spec_full_identifier(),
    {
        let s = self.provider.slug();
        let s = s.concat("/");
        s.concat(self.identifier.as_str())
    }
}

/// The model registered under `id` among `entries`, if any.
pub open spec fn registry_lookup(entries: Seq<Model>, id: Seq<char>) -> Option<Model> {
    if exists|i: int| 0 <= i < entries.len() && #[trigger] entries[i].spec_full_identifier() == id {
        Some(
            entries[choose|i: int|
                0 <= i < entries.len() && #[trigger] entries[i].spec_full_identifier() == id],
        )
    } else {
        None
    }
}

/// No two entries share a full identifier.
pub open spec fn distinct_identifiers(entries: Seq<Model>) -> bool {
    forall|i: int, j: int|
        0 <= i < entries.len() && 0 <= j < entries.len() && i != j
            ==> #[trigger] entries[i].spec_full_identifier() != #[trigger] entries[j].spec_full_identifier()
}

/// With distinct identifiers, the entry found under an identifier is the one at its position.
pub proof fn lemma_lookup_at(entries: Seq<Model>, i: int)
    requires
        distinct_identifiers(entries),
        0 <= i < entries.len(),
    ensures
        registry_lookup(entries, entries[i].spec_full_identifier()) == Some(entries[i]),
{
    let id = entries[i].spec_full_identifier();
    assert(entries[i].spec_full_identifier() == id);
    let j = choose|j: int| 0 <= j < entries.len() && #[trigger] entries[j].spec_full_identifier() == id;
    if j != i {
        assert(entries[j].spec_full_identifier() != entries[i].spec_full_identifier());
    }
}

/// Models by full identifier, each identifier at most once.
pub struct ModelRegistry {
    models: Vec<Model>,
}

impl ModelRegistry {
    /// The registered models, in the order first registered.
    pub closed spec fn entries(&self) -> Seq<Model> {
        self.models@
    }

    /// No identifier is registered twice.
    pub open spec fn wf(&self) -> bool {
        distinct_identifiers(self.entries())
    }

    /// The model registered under `id`, if any.
    pub open spec fn lookup(&self, id: Seq<char>) -> Option<Model> {
        registry_lookup(self.entries(), id)
    }

    /// An empty registry.
    pub fn new() -> (r: Self)
        ensures
            r.wf(),
            r.entries() == Seq::<Model>::empty(),
    {
        ModelRegistry { models: Vec::new() }
    }

    /// The number of registered models.
    pub fn len(&self) -> (n: usize)
        ensures
            n == self.entries().len(),
    {
        self.models.len()
    }

    fn position(&self, id: &str) -> (r: Option<usize>)
        requires
            self.wf(),
        ensures
            match r {
                Some(i) => i < self.entries().len() && self.entries()[i as int].spec_full_identifier()
                    == id@,
                None => forall|i: int|
                    0 <= i < self.entries().len() ==> #[trigger] self.entries()[i].spec_full_identifier()
                        != id@,
            },
    {
        let mut i: usize = 0;
        while i < self.models.len()
            invariant
                i <= self.models@.len(),
                forall|j: int|
                    0 <= j < i ==> #[trigger] self.models@[j].spec_full_identifier() != id@,
            decreases self.models.len() - i,
        {
            let full = self.models[i].full_identifier();
            if str_eq(full.as_str(), id) {
                return Some(i);
            }
            i = i + 1;
        }
        None
    }

    /// Registers `m` under its full identifier, replacing any model registered
    /// under the same identifier, as a map's `insert` does.
    pub fn insert(&mut self, m: Model)
        requires
            old(self).wf(),
        ensures
            final(self).wf(),
            final(self).lookup(m.spec_full_identifier()) == Some(m),
            forall|id: Seq<char>|
                id != m.spec_full_identifier() ==> #[trigger] final(self).lookup(id) == old(
                    self,
                ).lookup(id),
            old(self).lookup(m.spec_full_identifier()) is None ==> final(self).entries() == old(
                self,
            ).entries().push(m),
    {
        let full = m.full_identifier();
        match self.position(full.as_str()) {
            Some(i) => {
                let ghost before = self.models@;
                self.models.set(i, m);
                let ghost after = self.models@;
                proof {
                    assert(after == before.update(i as int, m));
                    assert forall|a: int, b: int|
                        0 <= a < after.len() && 0 <= b < after.len() && a != b implies #[trigger] after[a].spec_full_identifier()
                        != #[trigger] after[b].spec_full_identifier() by {
                        assert(before[a].spec_full_identifier() != before[b].spec_full_identifier());
                    }
                    lemma_lookup_at(after, i as int);
                    assert forall|id: Seq<char>|
                        id != m.spec_full_identifier() implies #[trigger] registry_lookup(after, id)
                        == registry_lookup(before, id) by {
                        if exists|k: int| 0 <= k < before.len() && #[trigger] before[k].spec_full_identifier() == id {
                            let k = choose|k: int| 0 <= k < before.len() && #[trigger] before[k].spec_full_identifier() == id;
                            assert(k != i);
                            assert(after[k] == before[k]);
                            lemma_lookup_at(before, k);
                            lemma_lookup_at(after, k);
                        } else {
                            assert forall|k: int| 0 <= k < after.len() implies #[trigger] after[k].spec_full_identifier() != id by {
                                if k != i {
                                    assert(after[k] == before[k]);
                                }
                            }
                        }
                    }
                    assert(before[i as int].spec_full_identifier() == m.spec_full_identifier());
                    lemma_lookup_at(before, i as int);
                }
            },
            None => {
                let ghost before = self.models@;
                self.models.push(m);
                let ghost after = self.models@;
                proof {
                    assert(after == before.push(m));
                    assert forall|a: int, b: int|
                        0 <= a < after.len() && 0 <= b < after.len() && a != b implies #[trigger] after[a].spec_full_identifier()
                        != #[trigger] after[b].spec_full_identifier() by {
                        if a < before.len() && b < before.len() {
                            assert(before[a].spec_full_identifier() != before[b].spec_full_identifier());
                        } else if a < before.len() {
                            assert(before[a].spec_full_identifier() != m.spec_full_identifier());
                        } else {
                            assert(before[b].spec_full_identifier() != m.spec_full_identifier());
                        }
                    }
                    lemma_lookup_at(after, before.len() as int);
                    assert forall|id: Seq<char>|
                        id != m.spec_full_identifier() implies #[trigger] registry_lookup(after, id)
                        == registry_lookup(before, id) by {
                        if exists|k: int| 0 <= k < before.len() && #[trigger] before[k].spec_full_identifier() == id {
                            let k = choose|k: int| 0 <= k < before.len() && #[trigger] before[k].spec_full_identifier() == id;
                            assert(after[k] == before[k]);
                            lemma_lookup_at(before, k);
                            lemma_lookup_at(after, k);
                        } else {
                            assert forall|k: int| 0 <= k < after.len() implies #[trigger] after[k].spec_full_identifier() != id by {
                                if k < before.len() {
                                    assert(after[k] == before[k]);
                                }
                            }
                        }
                    }
                    assert forall|k: int| 0 <= k < before.len() implies #[trigger] before[k].spec_full_identifier() != m.spec_full_identifier() by {}
                }
            },
        }
    }

    /// The model registered under `id`, if any.
    pub fn get(&self, id: &str) -> (r: Option<&Model>)
        requires
            self.wf(),
        ensures
            match r {
                Some(m) => self.lookup(id@) == Some(*m),
                None => self.lookup(id@) is None,
            },
    {
        match self.position(id) {
            Some(i) => {
                proof {
                    lemma_lookup_at(self.entries(), i as int);
                }
                Some(&self.models[i])
            },
            None => None,
        }
    }
}

/// The catalog of every known model, by full identifier.
pub fn all_models() -> (r: ModelRegistry)
    ensures
        r.wf(),
        openai::is_catalog(r.entries()),
{
    let mut list = openai::models();
    let ghost catalog = list@;
    proof {
        openai::lemma_catalog_distinct(catalog);
    }
    let second = list.pop().unwrap();
    let first = list.pop().unwrap();
    let mut models = ModelRegistry::new();
    models.insert(first);
    proof {
        assert(models.entries() =~= seq![catalog[0]]);
        assert(catalog[0].spec_full_identifier() != catalog[1].spec_full_identifier());
        assert(models.entries()[0].spec_full_identifier() != catalog[1].spec_full_identifier());
    }
    models.insert(second);
    assert(models.entries() =~= catalog);
    models
}

/// The default model is in the catalog, so starting without a model choice succeeds.
pub proof fn law_default_model_registered(r: ModelRegistry)
    requires
        openai::is_catalog(r.entries()),
    ensures
        r.lookup(DEFAULT_MODEL@) is Some,
{
    openai::lemma_catalog_ids(r.entries());
    reveal_strlit("openai/gpt-5.6-sol");
    reveal_strlit("openai");
    reveal_strlit("/");
    reveal_strlit("gpt-5.6-sol");
    assert(r.entries()[1].spec_full_identifier() =~= DEFAULT_MODEL@);
}

/// The model that `identifier` selects, or the default model when none is given.
pub fn get_model<'a>(identifier: &Option<String>, models: &'a ModelRegistry) -> (r: Result<&'a Model, ModelError>)
    requires
        models.wf(),
    ensures
        ({
            let id = match identifier {
                Some(s) => s@,
                None => DEFAULT_MODEL@,
            };
            match r {
                Ok(m) => models.lookup(id) == Some(*m),
                Err(ModelError::UnknownModel(s)) => s@ == id && models.lookup(id) is None,
            }
        }),
{
    let id: &str = match identifier {
        Some(v) => v.as_str(),
        None => DEFAULT_MODEL,
    };
    match models.get(id) {
        Some(m) => Ok(m),
        None => Err(ModelError::UnknownModel(String::from_str(id))),
    }
}

impl ModelError {
    /// The message reported for this error.
    pub fn message(&self) -> (s: String)
        ensures
            match self {
                ModelError::UnknownModel(id) => s@ == "unknown model: "@ + id@,
            },
    {
        match self {
            ModelError::UnknownModel(id) => String::from_str("unknown model: ").concat(id.as_str()),
        }
    }
}

} // verus!
