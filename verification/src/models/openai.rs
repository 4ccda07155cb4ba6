//! OpenAI models offered through the router.

use vstd::prelude::*;

use super::{Modalities, Model, Providers};

verus! {

/// `m` is the OpenAI model `identifier`, named `name`, with a context window of
/// `window` tokens, taking text and images and producing text, with reasoning,
/// structured output, tool calls, streaming and caching, last revised `today`.
pub open spec fn is_openai_model(m: Model, identifier: Seq<char>, name: Seq<char>, window: u64) -> bool {
    &&& m.provider == Providers::OpenAI
    &&& m.identifier@ == identifier
    &&& m.name@ == name
    &&& m.context_window == window
    &&& m.input_formats@ == seq![Modalities::Text, Modalities::Image]
    &&& m.output_formats@ == seq![Modalities::Text]
    &&& m.reasoning
    &&& m.structured_output
    &&& m.tool_call
    &&& m.streaming
    &&& m.caching
    &&& m.updated@ == "today"@
}

/// The catalog: GPT 5.4 Mini and GPT 5.6 Sol, in that order.
pub open spec fn is_catalog(v: Seq<Model>) -> bool {
    &&& v.len() == 2
    &&& is_openai_model(v[0], "gpt-5.4-mini"@, "GPT 5.4 Mini"@, 400000)
    &&& is_openai_model(v[1], "gpt-5.6-sol"@, "GPT 5.6 Sol"@, 400000)
}

/// The full identifiers of the catalog's models.
pub proof fn lemma_catalog_ids(v: Seq<Model>)
    requires
        is_catalog(v),
    ensures
        v[0].spec_full_identifier() == "openai"@ + "/"@ + "gpt-5.4-mini"@,
        v[1].spec_full_identifier() == "openai"@ + "/"@ + "gpt-5.6-sol"@,
{
}

/// The catalog's models have different full identifiers.
pub proof fn lemma_catalog_distinct(v: Seq<Model>)
    requires
        is_catalog(v),
    ensures
        super::distinct_identifiers(v),
{
    reveal_strlit("gpt-5.4-mini");
    reveal_strlit("gpt-5.6-sol");
    reveal_strlit("openai");
    reveal_strlit("/");
    assert(v[0].identifier@[6] != v[1].identifier@[6]);
    assert(v[0].spec_full_identifier()[13] == v[0].identifier@[6]);
    assert(v[1].spec_full_identifier()[13] == v[1].identifier@[6]);
}

fn openai_model(identifier: &str, name: &str, window: u64) -> (m: Model)
    ensures
        is_openai_model(m, identifier@, name@, window),
{
    let input_formats = vec![Modalities::Text, Modalities::Image];
    let output_formats = vec![Modalities::Text];
    assert(input_formats@ =~= seq![Modalities::Text, Modalities::Image]);
    assert(output_formats@ =~= seq![Modalities::Text]);
    Model {
        provider: Providers::OpenAI,
        identifier: String::from_str(identifier),
        name: String::from_str(name),
        context_window: window,
        input_formats,
        output_formats,
        reasoning: true,
        structured_output: true,
        tool_call: true,
        streaming: true,
        caching: true,
        updated: String::from_str("today"),
    }
}

/// The OpenAI models of the catalog.
pub fn models() -> (v: Vec<Model>)
    ensures
        is_catalog(v@),
{
    let gpt_5_4_mini = openai_model("gpt-5.4-mini", "GPT 5.4 Mini", 400000);
    let gpt_5_6_sol = openai_model("gpt-5.6-sol", "GPT 5.6 Sol", 400000);
    let v = vec![gpt_5_4_mini, gpt_5_6_sol];
    v
}

} // verus!
