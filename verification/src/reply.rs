//! Replies of the HTTP endpoints: the status check, the JSON parse, and what is read out
//! of the parsed reply. Sending the requests and printing are the caller's.
use vstd::prelude::*;
use vstd::string::StringExecFns;

use crate::assembler::opt_view;
use crate::image::ImageItem;
use crate::text::str_eq;

verus! {

/// The error for a reply whose status is not a success.
pub open spec fn api_error(status: Seq<char>, body: Seq<char>) -> Seq<char> {
    "API "@ + status + " error: "@ + body
}

/// The error for a reply that is not JSON.
pub open spec fn invalid_json(error: Seq<char>, body: Seq<char>) -> Seq<char> {
    "invalid JSON: "@ + error + " — body: "@ + body
}

fn api_error_message(status: &str, body: &str) -> (res: String)
    ensures
        res@ == api_error(status@, body@),
{
    let mut m = String::from_str("API ");
    m.append(status);
    m.append(" error: ");
    m.append(body);
    m
}

fn invalid_json_message(error: &str, body: &str) -> (res: String)
    ensures
        res@ == invalid_json(error@, body@),
{
    let mut m = String::from_str("invalid JSON: ");
    m.append(error);
    m.append(" — body: ");
    m.append(body);
    m
}

/// What `serde_json` makes of a body: its parse error text, or else the outcome of
/// rendering the parsed value pretty (the text, or the render error's text).
pub uninterp spec fn json_pretty(body: Seq<char>) -> Result<Result<Seq<char>, Seq<char>>, Seq<char>>;

/// The value of a nested result of strings.
pub open spec fn nested_view(r: Result<Result<String, String>, String>) -> Result<
    Result<Seq<char>, Seq<char>>,
    Seq<char>,
> {
    match r {
        Ok(Ok(t)) => Ok(Ok(t@)),
        Ok(Err(e)) => Ok(Err(e@)),
        Err(e) => Err(e@),
    }
}

/// Calls `serde_json::from_str::<serde_json::Value>(body)`, then
/// `serde_json::to_string_pretty` on the value; errors are turned into their messages.
/// A function of the body alone: the maps of `serde_json::Value` are ordered by key.
#[verifier::external_body]
fn pretty_json(body: &str) -> (res: Result<Result<String, String>, String>)
    ensures
        nested_view(res) == json_pretty(body@),
{
    match serde_json::from_str::<serde_json::Value>(body) {
        Ok(v) => Ok(serde_json::to_string_pretty(&v).map_err(|e| e.to_string())),
        Err(e) => Err(e.to_string()),
    }
}

/// What the evaluation endpoint's reply comes to: the pretty-printed JSON, or an error.
pub open spec fn jev_result(success: bool, status: Seq<char>, body: Seq<char>) -> Result<
    Seq<char>,
    Seq<char>,
> {
    if !success {
        Err(api_error(status, body))
    } else {
        match json_pretty(body) {
            Err(e) => Err(invalid_json(e, body)),
            Ok(Ok(t)) => Ok(t),
            Ok(Err(e)) => Err(e),
        }
    }
}

/// The value of a result of strings.
pub open spec fn result_view(r: Result<String, String>) -> Result<Seq<char>, Seq<char>> {
    match r {
        Ok(t) => Ok(t@),
        Err(e) => Err(e@),
    }
}

/// The reply of the evaluation endpoint, given its status (whether it is a success, and
/// its text) and its body: the body pretty-printed, or the error.
pub fn jev_outcome(success: bool, status: &str, body: &str) -> (res: Result<String, String>)
    ensures
        result_view(res) == jev_result(success, status@, body@),
{
    if !success {
        return Err(api_error_message(status, body));
    }
    match pretty_json(body) {
        Err(e) => Err(invalid_json_message(e.as_str(), body)),
        Ok(Ok(t)) => Ok(t),
        Ok(Err(e)) => Err(e),
    }
}

/// One entry of the models list: its `id` (absent, or present and maybe a string) and its
/// `context_length`, when it is an unsigned integer.
pub struct ModelItem {
    pub id: Option<Option<String>>,
    pub context_length: Option<u64>,
}

/// The value of a model entry.
pub open spec fn model_item_view(m: ModelItem) -> (Option<Option<Seq<char>>>, Option<u64>) {
    (
        match m.id {
            None => None,
            Some(i) => Some(opt_view(i)),
        },
        m.context_length,
    )
}

/// The values of the model entries.
pub open spec fn model_items_view(items: Seq<ModelItem>) -> Seq<(Option<Option<Seq<char>>>, Option<u64>)> {
    items.map_values(|m: ModelItem| model_item_view(m))
}

/// The value of a parsed models reply.
pub open spec fn models_view(r: Result<Option<Vec<ModelItem>>, String>) -> Result<
    Option<Seq<(Option<Option<Seq<char>>>, Option<u64>)>>,
    Seq<char>,
> {
    match r {
        Ok(Some(v)) => Ok(Some(model_items_view(v@))),
        Ok(None) => Ok(None),
        Err(e) => Err(e@),
    }
}

/// What `serde_json` reads out of a models reply: its parse error text, or the entries of
/// the `data` array (`None` when there is no such array).
pub uninterp spec fn models_reply(body: Seq<char>) -> Result<
    Option<Seq<(Option<Option<Seq<char>>>, Option<u64>)>>,
    Seq<char>,
>;

/// Calls `serde_json::from_str::<serde_json::Value>(body)` and reads `data` as an array,
/// each entry's `id` (`Value::get`, then `as_str`) and `context_length` (`as_u64`).
/// A function of the body alone.
#[verifier::external_body]
fn parse_models(body: &str) -> (res: Result<Option<Vec<ModelItem>>, String>)
    ensures
        models_view(res) == models_reply(body@),
{
    let v: serde_json::Value = serde_json::from_str(body).map_err(|e| e.to_string())?;
    Ok(v["data"].as_array().map(|a| a.iter().map(|m| ModelItem {
        id: m.get("id").map(|i| i.as_str().map(|s| s.to_string())),
        context_length: m["context_length"].as_u64(),
    }).collect()))
}

/// How the search of the models list for a model ends: its context length, no match, or
/// an entry that cannot be read (no `id`, or the match has no integer context length).
#[derive(Debug, Clone, Copy, PartialEq, Eq, Structural)]
pub enum ModelScan {
    Found(u64),
    NotFound,
    Unreadable,
}

/// The search of the models list for `model`, in order.
pub open spec fn scan_models(items: Seq<(Option<Option<Seq<char>>>, Option<u64>)>, model: Seq<char>) -> ModelScan
    decreases items.len(),
{
    if items.len() == 0 {
        ModelScan::NotFound
    } else {
        match items[0].0 {
            None => ModelScan::Unreadable,
            Some(Some(id)) if id == model => match items[0].1 {
                Some(c) => ModelScan::Found(c),
                None => ModelScan::Unreadable,
            },
            _ => scan_models(items.drop_first(), model),
        }
    }
}

/// What the models endpoint's reply comes to for `model`: its context length, or an error;
/// `None` on a reply that cannot be read (an entry without `id` reached, or the model's
/// entry without an integer context length).
pub open spec fn max_context_result(success: bool, status: Seq<char>, body: Seq<char>, model: Seq<char>) -> Option<
    Result<u64, Seq<char>>,
> {
    if !success {
        Some(Err(api_error(status, body)))
    } else {
        match models_reply(body) {
            Err(e) => Some(Err(invalid_json(e, body))),
            Ok(None) => Some(Err("missing data array in response"@)),
            Ok(Some(items)) => if items.len() == 0 {
                Some(Err("no models returned by the API"@))
            } else {
                match scan_models(items, model) {
                    ModelScan::Found(c) => Some(Ok(c)),
                    ModelScan::NotFound => Some(Err("failed to find model"@)),
                    ModelScan::Unreadable => None,
                }
            },
        }
    }
}

/// The value of a context-length outcome.
pub open spec fn u64_result_view(r: Result<u64, String>) -> Result<u64, Seq<char>> {
    match r {
        Ok(c) => Ok(c),
        Err(e) => Err(e@),
    }
}

/// Searches the models list for `model`, in order: the first entry whose `id` is `model`
/// gives its context length; an entry without `id` before it makes the list unreadable.
pub fn find_model_context(items: &Vec<ModelItem>, model: &str) -> (res: ModelScan)
    ensures
        res == scan_models(model_items_view(items@), model@),
{
    let ghost all = model_items_view(items@);
    let n = items.len();
    assert(all.skip(0) =~= all);
    for i in 0..n
        invariant
            n == items@.len(),
            all == model_items_view(items@),
            scan_models(all, model@) == scan_models(all.skip(i as int), model@),
    {
        proof {
            let rest = all.skip(i as int);
            assert(rest[0] == model_item_view(items@[i as int]));
            assert(rest.drop_first() =~= all.skip(i + 1));
        }
        match &items[i].id {
            None => {
                return ModelScan::Unreadable;
            },
            Some(Some(id)) => {
                if str_eq(id.as_str(), model) {
                    return match items[i].context_length {
                        Some(c) => ModelScan::Found(c),
                        None => ModelScan::Unreadable,
                    };
                }
            },
            Some(None) => {},
        }
    }
    assert(all.skip(n as int) =~= Seq::<(Option<Option<Seq<char>>>, Option<u64>)>::empty());
    ModelScan::NotFound
}

/// The context length of `model` from a reply of the models endpoint, or the error.
pub fn max_context_from_reply(success: bool, status: &str, body: &str, model: &str) -> (res: Result<
    u64,
    String,
>)
    requires
        max_context_result(success, status@, body@, model@) is Some,
    ensures
        u64_result_view(res) == max_context_result(success, status@, body@, model@).unwrap(),
{
    if !success {
        return Err(api_error_message(status, body));
    }
    let items = match parse_models(body) {
        Err(e) => {
            return Err(invalid_json_message(e.as_str(), body));
        },
        Ok(None) => {
            return Err(String::from_str("missing data array in response"));
        },
        Ok(Some(items)) => items,
    };
    if items.len() == 0 {
        return Err(String::from_str("no models returned by the API"));
    }
    match find_model_context(&items, model) {
        ModelScan::Found(c) => Ok(c),
        ModelScan::NotFound => Err(String::from_str("failed to find model")),
        ModelScan::Unreadable => {
            assert(false);
            Err(String::new())
        },
    }
}

/// The context length of `model` from a reply of the models endpoint; `None` when the
/// reply cannot be read that far (an entry without `id` is reached before the model, or
/// the model's entry has no integer context length).
pub fn try_max_context_from_reply(success: bool, status: &str, body: &str, model: &str) -> (res:
    Option<Result<u64, String>>)
    ensures
        match max_context_result(success, status@, body@, model@) {
            None => res is None,
            Some(r) => res matches Some(x) && u64_result_view(x) == r,
        },
{
    if success {
        if let Ok(Some(items)) = parse_models(body) {
            if items.len() > 0 {
                if let ModelScan::Unreadable = find_model_context(&items, model) {
                    return None;
                }
            }
        }
    }
    Some(max_context_from_reply(success, status, body, model))
}

/// The value of a parsed images reply.
pub open spec fn images_view(r: Result<Option<Vec<ImageItem>>, String>) -> Result<
    Option<Seq<(Option<Seq<char>>, Option<Seq<char>>)>>,
    Seq<char>,
> {
    match r {
        Ok(Some(v)) => Ok(Some(v@.map_values(|m: ImageItem| (opt_view(m.b64_json), opt_view(m.media_type))))),
        Ok(None) => Ok(None),
        Err(e) => Err(e@),
    }
}

/// What `serde_json` reads out of an images reply: its parse error text, or the entries of
/// the `data` array (`None` when there is no such array), each with its `b64_json` and
/// `media_type` when they are strings.
pub uninterp spec fn images_reply(body: Seq<char>) -> Result<
    Option<Seq<(Option<Seq<char>>, Option<Seq<char>>)>>,
    Seq<char>,
>;

/// Calls `serde_json::from_str::<serde_json::Value>(body)` and reads `data` as an array,
/// and each entry's `b64_json` and `media_type` with `as_str`. A function of the body alone.
#[verifier::external_body]
fn parse_images(body: &str) -> (res: Result<Option<Vec<ImageItem>>, String>)
    ensures
        images_view(res) == images_reply(body@),
{
    let v: serde_json::Value = serde_json::from_str(body).map_err(|e| e.to_string())?;
    Ok(v["data"].as_array().map(|a| a.iter().map(|m| ImageItem {
        b64_json: m["b64_json"].as_str().map(|s| s.to_string()),
        media_type: m["media_type"].as_str().map(|s| s.to_string()),
    }).collect()))
}

/// What the images endpoint's reply comes to: the images, or an error.
pub open spec fn images_result(success: bool, status: Seq<char>, body: Seq<char>) -> Result<
    Seq<(Option<Seq<char>>, Option<Seq<char>>)>,
    Seq<char>,
> {
    if !success {
        Err(api_error(status, body))
    } else {
        match images_reply(body) {
            Err(e) => Err(invalid_json(e, body)),
            Ok(None) => Err("missing data array in response"@),
            Ok(Some(items)) => if items.len() == 0 {
                Err("no images returned by the API"@)
            } else {
                Ok(items)
            },
        }
    }
}

/// The images of a reply of the images endpoint, or the error.
pub fn images_from_reply(success: bool, status: &str, body: &str) -> (res: Result<Vec<ImageItem>, String>)
    ensures
        match (res, images_result(success, status@, body@)) {
            (Ok(v), Ok(items)) => v@.map_values(|m: ImageItem| (opt_view(m.b64_json), opt_view(m.media_type)))
                == items,
            (Err(e), Err(f)) => e@ == f,
            _ => false,
        },
{
    if !success {
        return Err(api_error_message(status, body));
    }
    match parse_images(body) {
        Err(e) => Err(invalid_json_message(e.as_str(), body)),
        Ok(None) => Err(String::from_str("missing data array in response")),
        Ok(Some(items)) => {
            if items.len() == 0 {
                Err(String::from_str("no images returned by the API"))
            } else {
                Ok(items)
            }
        },
    }
}

} // verus!

verus! {

/// Whether a models entry is known not to be `model`'s: it has an `id`, and that id is not
/// the string `model`.
pub open spec fn other_model(entry: (Option<Option<Seq<char>>>, Option<u64>), model: Seq<char>) -> bool {
    entry.0 is Some && entry.0 != Some(Some(model))
}

/// The search of the models list matches ids exactly and in order: a context length found
/// is that of an entry whose id equals `model`, every entry before it being another
/// model's; no match means every entry is another model's; an unreadable list has, after
/// entries of other models only, an entry without `id` or `model`'s entry without an
/// integer context length.
pub proof fn lemma_model_scan_exact(items: Seq<(Option<Option<Seq<char>>>, Option<u64>)>, model: Seq<char>)
    ensures
        match scan_models(items, model) {
            ModelScan::Found(c) => exists|j: int|
                0 <= j < items.len() && #[trigger] items[j] == (Some(Some(model)), Some(c)) && forall|
                    k: int,
                | 0 <= k < j ==> other_model(#[trigger] items[k], model),
            ModelScan::NotFound => forall|k: int| 0 <= k < items.len() ==> other_model(#[trigger] items[k], model),
            ModelScan::Unreadable => exists|j: int|
                0 <= j < items.len() && (#[trigger] items[j].0 is None || (items[j].0 == Some(
                    Some(model),
                ) && items[j].1 is None)) && forall|k: int| 0 <= k < j ==> other_model(#[trigger] items[k], model),
        },
    decreases items.len(),
{
    if items.len() > 0 {
        let rest = items.drop_first();
        lemma_model_scan_exact(rest, model);
        let first_other = other_model(items[0], model);
        if first_other {
            assert(scan_models(items, model) == scan_models(rest, model));
            match scan_models(rest, model) {
                ModelScan::Found(c) => {
                    let j = choose|j: int|
                        0 <= j < rest.len() && #[trigger] rest[j] == (Some(Some(model)), Some(c)) && forall|
                            k: int,
                        | 0 <= k < j ==> other_model(#[trigger] rest[k], model);
                    assert(items[j + 1] == rest[j]);
                    assert forall|k: int| 0 <= k < j + 1 implies other_model(#[trigger] items[k], model) by {
                        if k > 0 {
                            assert(items[k] == rest[k - 1]);
                        }
                    }
                },
                ModelScan::NotFound => {
                    assert forall|k: int| 0 <= k < items.len() implies other_model(#[trigger] items[k], model) by {
                        if k > 0 {
                            assert(items[k] == rest[k - 1]);
                        }
                    }
                },
                ModelScan::Unreadable => {
                    let j = choose|j: int|
                        0 <= j < rest.len() && (#[trigger] rest[j].0 is None || (rest[j].0 == Some(
                            Some(model),
                        ) && rest[j].1 is None)) && forall|k: int|
                            0 <= k < j ==> other_model(#[trigger] rest[k], model);
                    assert(items[j + 1] == rest[j]);
                    assert forall|k: int| 0 <= k < j + 1 implies other_model(#[trigger] items[k], model) by {
                        if k > 0 {
                            assert(items[k] == rest[k - 1]);
                        }
                    }
                },
            }
        } else {
            assert(items[0].0 is None || items[0].0 == Some(Some(model)));
            match scan_models(items, model) {
                ModelScan::Found(c) => {
                    assert(items[0] == (Some(Some(model)), Some(c)));
                },
                ModelScan::NotFound => {
                    assert(false);
                },
                ModelScan::Unreadable => {
                    assert(items[0].0 is None || items[0].1 is None);
                },
            }
        }
    }
}

} // verus!
