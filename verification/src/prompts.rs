use vstd::prelude::*;
use crate::json::{json_array, json_str, lemma_seq_push, object3, seq_model, JsonModel, JsonValue};

verus! {

/// One argument of a prompt: `{"name", "description", "required"}`.
pub open spec fn prompt_arg_spec(name: Seq<char>, description: Seq<char>, required: bool) -> JsonModel {
    JsonModel::Object(seq![("name"@, JsonModel::Str(name)), ("description"@, JsonModel::Str(description)), ("required"@, JsonModel::Bool(required))])
}

/// A prompt: `{"name", "description", "arguments"}`.
pub open spec fn prompt_spec(name: Seq<char>, description: Seq<char>, arguments: Seq<JsonModel>) -> JsonModel {
    JsonModel::Object(seq![("name"@, JsonModel::Str(name)), ("description"@, JsonModel::Str(description)), ("arguments"@, JsonModel::Array(arguments))])
}

/// The prompts that the server lists, in order.
pub open spec fn prompt_catalog() -> Seq<JsonModel> {
    seq![
        prompt_spec("analyze_page_structure"@, "Analyze the structure of the current page"@, seq![]),
        prompt_spec("extract_main_content"@, "Extract the main content from the current page"@, seq![]),
        prompt_spec("find_interactive_elements"@, "Find all interactive elements (buttons, links, inputs) on the page"@, seq![]),
        prompt_spec("summarize_page"@, "Generate a summary of the current page"@, seq![]),
        prompt_spec("check_login_status"@, "Check if the user is logged in to the current site"@, seq![]),
        prompt_spec("navigate_and_wait"@, "Navigate to a URL and wait for specific content to load"@, seq![prompt_arg_spec("url"@, "The URL to navigate to"@, true), prompt_arg_spec("waitSelector"@, "CSS selector to wait for"@, false)]),
        prompt_spec("fill_form"@, "Fill a form with provided data"@, seq![prompt_arg_spec("formData"@, "Object mapping CSS selectors to values"@, true)]),
        prompt_spec("scroll_and_extract"@, "Scroll through the page and extract all content"@, seq![prompt_arg_spec("selector"@, "CSS selector for items to extract"@, true)]),
    ]
}

fn prompt_arg(name: &str, description: &str, required: bool) -> (r: JsonValue)
    ensures
        r@ == prompt_arg_spec(name@, description@, required),
{
    object3("name", json_str(name), "description", json_str(description), "required", JsonValue::Bool(required))
}

fn push_item(v: &mut Vec<JsonValue>, item: JsonValue)
    ensures
        seq_model(final(v)@) == seq_model(old(v)@).push(item@),
        final(v)@.len() == old(v)@.len() + 1,
{
    let ghost before = v@;
    v.push(item);
    proof {
        lemma_seq_push(before, item);
    }
}

fn prompt(name: &str, description: &str, arguments: Vec<JsonValue>) -> (r: JsonValue)
    ensures
        r@ == prompt_spec(name@, description@, seq_model(arguments@)),
{
    object3("name", json_str(name), "description", json_str(description), "arguments", json_array(arguments))
}

/// The prompts that the server offers.
pub fn get_prompts() -> (r: Vec<JsonValue>)
    ensures
        seq_model(r@) == prompt_catalog(),
{
    let mut out: Vec<JsonValue> = Vec::new();
    assert(seq_model(out@) =~= Seq::<JsonModel>::empty());
    let mut args0: Vec<JsonValue> = Vec::new();
    assert(seq_model(args0@) =~= Seq::<JsonModel>::empty());
    assert(seq_model(args0@) =~= seq![]);
    push_item(&mut out, prompt("analyze_page_structure", "Analyze the structure of the current page", args0));
    let mut args1: Vec<JsonValue> = Vec::new();
    assert(seq_model(args1@) =~= Seq::<JsonModel>::empty());
    assert(seq_model(args1@) =~= seq![]);
    push_item(&mut out, prompt("extract_main_content", "Extract the main content from the current page", args1));
    let mut args2: Vec<JsonValue> = Vec::new();
    assert(seq_model(args2@) =~= Seq::<JsonModel>::empty());
    assert(seq_model(args2@) =~= seq![]);
    push_item(&mut out, prompt("find_interactive_elements", "Find all interactive elements (buttons, links, inputs) on the page", args2));
    let mut args3: Vec<JsonValue> = Vec::new();
    assert(seq_model(args3@) =~= Seq::<JsonModel>::empty());
    assert(seq_model(args3@) =~= seq![]);
    push_item(&mut out, prompt("summarize_page", "Generate a summary of the current page", args3));
    let mut args4: Vec<JsonValue> = Vec::new();
    assert(seq_model(args4@) =~= Seq::<JsonModel>::empty());
    assert(seq_model(args4@) =~= seq![]);
    push_item(&mut out, prompt("check_login_status", "Check if the user is logged in to the current site", args4));
    let mut args5: Vec<JsonValue> = Vec::new();
    assert(seq_model(args5@) =~= Seq::<JsonModel>::empty());
    push_item(&mut args5, prompt_arg("url", "The URL to navigate to", true));
    push_item(&mut args5, prompt_arg("waitSelector", "CSS selector to wait for", false));
    assert(seq_model(args5@) =~= seq![prompt_arg_spec("url"@, "The URL to navigate to"@, true), prompt_arg_spec("waitSelector"@, "CSS selector to wait for"@, false)]);
    push_item(&mut out, prompt("navigate_and_wait", "Navigate to a URL and wait for specific content to load", args5));
    let mut args6: Vec<JsonValue> = Vec::new();
    assert(seq_model(args6@) =~= Seq::<JsonModel>::empty());
    push_item(&mut args6, prompt_arg("formData", "Object mapping CSS selectors to values", true));
    assert(seq_model(args6@) =~= seq![prompt_arg_spec("formData"@, "Object mapping CSS selectors to values"@, true)]);
    push_item(&mut out, prompt("fill_form", "Fill a form with provided data", args6));
    let mut args7: Vec<JsonValue> = Vec::new();
    assert(seq_model(args7@) =~= Seq::<JsonModel>::empty());
    push_item(&mut args7, prompt_arg("selector", "CSS selector for items to extract", true));
    assert(seq_model(args7@) =~= seq![prompt_arg_spec("selector"@, "CSS selector for items to extract"@, true)]);
    push_item(&mut out, prompt("scroll_and_extract", "Scroll through the page and extract all content", args7));
    assert(seq_model(out@) =~= prompt_catalog());
    out
}

} // verus!
