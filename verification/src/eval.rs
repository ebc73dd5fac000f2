use vstd::prelude::*;
use crate::json::{
    clone_json, js_read_string_body, json_quote, json_string_literal,
    lemma_json_literal_read_back, model_as_bool, model_as_str, model_get, opt_model, JsonModel,
    JsonValue,
};
use crate::scripts::{
    eval_wrapper_head, eval_wrapper_mid, eval_wrapper_script, eval_wrapper_script_text,
    eval_wrapper_tail,
};
use crate::text::{
    decimal, join2, lemma_decimal_digits, lemma_decimal_injective, push_char, push_decimal,
    str_strip_prefix,
};
use crate::tools::result_model;

verus! {

/// The marker that an evaluation with number `id` writes in front of its
/// outcome in the document title.
pub open spec fn eval_prefix_spec(id: u64) -> Seq<char> {
    "__MCP_EVAL__"@ + decimal(id as nat) + seq![':']
}

/// The title marker of evaluation `id`: `__MCP_EVAL__{id}:`.
pub fn eval_prefix(id: u64) -> (r: String)
    ensures
        r@ == eval_prefix_spec(id),
{
    let mut s = String::from_str("__MCP_EVAL__");
    push_decimal(&mut s, id);
    push_char(&mut s, ':');
    s
}

/// An evaluation ready to send: the title marker to wait for and the script
/// to run in the page.
#[derive(Debug)]
pub struct EvalRequest {
    pub prefix: String,
    pub script: String,
}

/// Prepares evaluation number `id` of `user_code`: the script runs the code
/// and writes the marker and a JSON outcome into the document title.
pub fn prepare_eval(id: u64, user_code: &str) -> (r: Result<EvalRequest, String>)
    ensures
        r is Ok,
        r matches Ok(req) ==> {
            &&& req.prefix@ == eval_prefix_spec(id)
            &&& req.script@ == eval_wrapper_script(
                json_string_literal(eval_prefix_spec(id)),
                json_string_literal(user_code@),
            )
        },
{
    let prefix = eval_prefix(id);
    let prefix_js = match json_quote(prefix.as_str()) {
        Ok(t) => t,
        Err(e) => return Err(e),
    };
    let code_js = match json_quote(user_code) {
        Ok(t) => t,
        Err(e) => return Err(e),
    };
    let script = eval_wrapper_script_text(prefix_js.as_str(), code_js.as_str());
    Ok(EvalRequest { prefix, script })
}

/// The number that follows evaluation number `id`; after the largest number
/// the count starts again at `0`.
pub open spec fn next_eval_id(id: u64) -> u64 {
    if id == u64::MAX {
        0
    } else {
        (id + 1) as u64
    }
}

/// Starts an evaluation of `user_code` in `window`, the main window if there
/// is one. Without a window it fails with "Window not found" and the count
/// of evaluations stays as it is; with one, the evaluation takes the number
/// `*next_id`, the count moves on to the following number, and the window
/// comes back with the prepared evaluation.
pub fn start_eval<W>(window: Option<W>, next_id: &mut u64, user_code: &str) -> (r: Result<(W, EvalRequest), String>)
    ensures
        window is None ==> *final(next_id) == *old(next_id) && (r matches Err(e) && e@
            == "Window not found"@),
        window matches Some(w) ==> *final(next_id) == next_eval_id(*old(next_id)) && (r matches Ok(
            (w2, req),
        ) && w2 == w && req.prefix@ == eval_prefix_spec(*old(next_id)) && req.script@
            == eval_wrapper_script(
            json_string_literal(eval_prefix_spec(*old(next_id))),
            json_string_literal(user_code@),
        )),
{
    match window {
        None => Err("Window not found".to_owned()),
        Some(w) => {
            let id = *next_id;
            *next_id = if id == u64::MAX {
                0
            } else {
                id + 1
            };
            match prepare_eval(id, user_code) {
                Ok(req) => Ok((w, req)),
                Err(e) => Err(e),
            }
        },
    }
}

/// The error of a failed `eval` call on the window.
pub fn eval_failed(e: &str) -> (r: String)
    ensures
        r@ == "Eval failed: "@ + e@,
{
    join2("Eval failed: ", e)
}

/// One look at the window title while waiting for an evaluation.
#[derive(Debug)]
pub enum EvalPoll {
    /// The deadline has passed: fail with "Eval timed out".
    TimedOut,
    /// The title holds the marker; this is what follows it. Restore the
    /// title and read the outcome.
    Finished(String),
    /// Wait 50 ms and look again.
    Waiting,
}

pub enum EvalPollModel {
    TimedOut,
    Finished(Seq<char>),
    Waiting,
}

pub open spec fn poll_model(p: EvalPoll) -> EvalPollModel {
    match p {
        EvalPoll::TimedOut => EvalPollModel::TimedOut,
        EvalPoll::Finished(s) => EvalPollModel::Finished(s@),
        EvalPoll::Waiting => EvalPollModel::Waiting,
    }
}

/// What to do after `elapsed_nanos` of waiting (the deadline being
/// `timeout_ms` after the start) with the window title `title`.
pub open spec fn eval_poll_spec(elapsed_nanos: u128, timeout_ms: u64, title: Seq<char>, prefix: Seq<char>) -> EvalPollModel {
    if elapsed_nanos > timeout_ms * 1_000_000 {
        EvalPollModel::TimedOut
    } else if prefix.is_prefix_of(title) {
        EvalPollModel::Finished(title.skip(prefix.len() as int))
    } else {
        EvalPollModel::Waiting
    }
}

/// Decides one step of waiting for an evaluation.
pub fn eval_poll(elapsed_nanos: u128, timeout_ms: u64, title: &str, prefix: &str) -> (r: EvalPoll)
    ensures
        poll_model(r) == eval_poll_spec(elapsed_nanos, timeout_ms, title@, prefix@),
{
    let limit: u128 = (timeout_ms as u128) * 1_000_000;
    if elapsed_nanos > limit {
        EvalPoll::TimedOut
    } else {
        match str_strip_prefix(title, prefix) {
            Some(rest) => EvalPoll::Finished(rest.to_owned()),
            None => EvalPoll::Waiting,
        }
    }
}

/// The error of an evaluation that ran out of time.
pub fn eval_timed_out() -> (r: String)
    ensures
        r@ == "Eval timed out"@,
{
    "Eval timed out".to_owned()
}

/// What an evaluation gives for the outcome `parsed` that the page wrote:
/// its `value` (or `null`) when `ok` is `true`, else its `error` text (or
/// "Unknown error").
pub open spec fn eval_outcome_spec(parsed: JsonModel) -> Result<JsonModel, Seq<char>> {
    let ok = match model_get(parsed, "ok"@) {
        Some(v) => match model_as_bool(v) {
            Some(b) => b,
            None => false,
        },
        None => false,
    };
    if ok {
        Ok(
            match model_get(parsed, "value"@) {
                Some(v) => v,
                None => JsonModel::Null,
            },
        )
    } else {
        Err(
            match model_get(parsed, "error"@) {
                Some(v) => match model_as_str(v) {
                    Some(s) => s,
                    None => "Unknown error"@,
                },
                None => "Unknown error"@,
            },
        )
    }
}

/// Reads the outcome that the page wrote into the title.
pub fn eval_outcome(parsed: &JsonValue) -> (r: Result<JsonValue, String>)
    ensures
        result_model(r) == eval_outcome_spec(parsed@),
{
    let ok = match parsed.get("ok") {
        Some(v) => match v.as_bool() {
            Some(b) => b,
            None => false,
        },
        None => false,
    };
    if ok {
        match parsed.get("value") {
            Some(v) => Ok(clone_json(v)),
            None => Ok(JsonValue::Null),
        }
    } else {
        match parsed.get("error") {
            Some(v) => match v.as_str() {
                Some(s) => Err(s.to_owned()),
                None => Err("Unknown error".to_owned()),
            },
            None => Err("Unknown error".to_owned()),
        }
    }
}

/// The round trip of the title marker: a title made of the marker of
/// evaluation `id` and any text is seen as finished (before the deadline),
/// and what is read back is exactly that text.
pub proof fn lemma_marker_round_trip(id: u64, payload: Seq<char>, elapsed_nanos: u128, timeout_ms: u64)
    requires
        elapsed_nanos <= timeout_ms * 1_000_000,
    ensures
        eval_poll_spec(elapsed_nanos, timeout_ms, eval_prefix_spec(id) + payload, eval_prefix_spec(id))
            == EvalPollModel::Finished(payload),
{
    let p = eval_prefix_spec(id);
    assert(p.is_prefix_of(p + payload)) by {
        assert((p + payload).subrange(0, p.len() as int) =~= p);
    }
    assert((p + payload).skip(p.len() as int) =~= payload);
}

/// Markers of different evaluations exclude each other: a title that holds
/// the marker of evaluation `a` at its start and the marker of evaluation
/// `b` at its start belongs to one evaluation, `a == b`. So an evaluation
/// never reads another's outcome as its own.
pub proof fn lemma_markers_exclusive(a: u64, b: u64, title: Seq<char>)
    requires
        eval_prefix_spec(a).is_prefix_of(title),
        eval_prefix_spec(b).is_prefix_of(title),
    ensures
        a == b,
{
    reveal_strlit("__MCP_EVAL__");
    let da = decimal(a as nat);
    let db = decimal(b as nat);
    let pa = eval_prefix_spec(a);
    let pb = eval_prefix_spec(b);
    lemma_decimal_digits(a as nat);
    lemma_decimal_digits(b as nat);
    assert(pa.len() == 12 + da.len() + 1);
    assert(pb.len() == 12 + db.len() + 1);
    assert(forall|i: int| 0 <= i < pa.len() ==> title[i] == #[trigger] pa[i]);
    assert(forall|i: int| 0 <= i < pb.len() ==> title[i] == #[trigger] pb[i]);
    if da.len() < db.len() {
        let i: int = 12 + da.len() as int;
        assert(pa[i] == ':');
        assert(pb[i] == db[da.len() as int]);
        assert(false);
    } else if db.len() < da.len() {
        let i: int = 12 + db.len() as int;
        assert(pb[i] == ':');
        assert(pa[i] == da[db.len() as int]);
        assert(false);
    }
    assert forall|i: int| 0 <= i < da.len() implies da[i] == db[i] by {
        assert(pa[12 + i] == da[i]);
        assert(pb[12 + i] == db[i]);
    }
    assert(da =~= db);
    lemma_decimal_injective(a as nat, b as nat);
}

/// The script of evaluation `id` of `code` hands the page exactly the
/// marker and exactly the code: read as JavaScript, the string literal after
/// `const prefix = ` is the marker and the one after `const userCode = ` is
/// `code`, whatever quotes, backslashes or control characters it holds, and
/// each literal ends where the script goes on.
pub proof fn lemma_eval_literals_read_back(id: u64, code: Seq<char>)
    ensures
        ({
            let lit1 = json_string_literal(eval_prefix_spec(id));
            let lit2 = json_string_literal(code);
            let script = eval_wrapper_script(lit1, lit2);
            let at1 = eval_wrapper_head().len() as int;
            let at2 = at1 + lit1.len() + eval_wrapper_mid().len();
            &&& script[at1] == '"'
            &&& js_read_string_body(script.skip(at1 + 1)) == Some(
                (eval_prefix_spec(id), script.skip(at1 + lit1.len())),
            )
            &&& script[at2] == '"'
            &&& js_read_string_body(script.skip(at2 + 1)) == Some((code, eval_wrapper_tail()))
        }),
{
    let lit1 = json_string_literal(eval_prefix_spec(id));
    let lit2 = json_string_literal(code);
    let head = eval_wrapper_head();
    let mid = eval_wrapper_mid();
    let tail = eval_wrapper_tail();
    let script = eval_wrapper_script(lit1, lit2);
    let at1 = head.len() as int;
    let at2 = at1 + lit1.len() + mid.len();
    let after1 = mid + lit2 + tail;
    assert(script =~= head + lit1 + after1);
    assert(script.skip(at1 + 1) =~= lit1.drop_first() + after1);
    assert(script.skip(at1 + lit1.len()) =~= after1);
    lemma_json_literal_read_back(eval_prefix_spec(id), after1);
    assert(script =~= (head + lit1 + mid) + lit2 + tail);
    assert(script.skip(at2 + 1) =~= lit2.drop_first() + tail);
    lemma_json_literal_read_back(code, tail);
}

} // verus!
