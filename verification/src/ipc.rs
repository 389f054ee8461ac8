//! Messages from the editor's web view, and what the plug-in does with each.
//!
//! A message is a JSON object with a `"type"` field. The fields the plug-in
//! reads are held here as plain values; `decide` turns a message into the
//! action to carry out. The number type `N` is the JSON number as the caller
//! reads it; it is passed through untouched. `decide_raw` reads the message
//! text with `serde_json` first, keeping a number as its JSON text.

use vstd::prelude::*;
use crate::param_id::{
    ParamId,
    choice_index,
    lemma_text_ids_name_one_param,
    spec_choice_index,
    spec_param_from_text,
    spec_param_text,
};
use crate::text::same_text;
use serde_json::Value;

verus! {

/// The `"value"` field of a `set_param` message.
pub enum JsonValue<N> {
    Number(N),
    Bool(bool),
    Text(String),
    /// `null`, an array or an object.
    Other,
}

/// The fields of a web-view message that the plug-in reads. A string field
/// that is absent or not a string is `None`; so is a size field that is
/// absent or not an unsigned integer.
pub struct IpcMessage<N> {
    pub kind: Option<String>,
    pub id: Option<String>,
    pub value: Option<JsonValue<N>>,
    pub width: Option<u64>,
    pub height: Option<u64>,
    pub token: Option<String>,
}

/// The value to give a parameter, in its plain (unnormalized) units.
pub enum ParamInput<N> {
    /// A JSON number, as sent.
    Number(N),
    /// A whole number: `1`/`0` for `true`/`false`, or a choice's index.
    Whole(u32),
}

/// What to do with a message.
pub enum IpcAction<N> {
    /// Set `param` to `value` (as one host gesture).
    SetParam { param: ParamId, value: ParamInput<N> },
    /// `set_param` whose value could not be read; `id` as sent.
    UnreadableValue { id: Option<String> },
    /// `set_param` naming no parameter of this plug-in; `id` as sent.
    UnknownParam { id: Option<String> },
    /// Give keyboard focus back to the host window.
    ReleaseFocus,
    /// Resize the editor to `width` by `height` (bounds not yet checked).
    Resize { width: u32, height: u32 },
    /// Store the sign-in token, when the message carries one.
    SaveToken { token: Option<String> },
    /// Forget the stored sign-in token.
    ClearToken,
    /// A message of a type the plug-in does not know; `kind` as sent.
    UnknownKind { kind: Option<String> },
}

/// The text of an optional string field, empty when it is absent.
pub open spec fn text_or_empty(s: Option<String>) -> Seq<char> {
    match s {
        Some(t) => t@,
        None => Seq::empty(),
    }
}

/// The plain value that `set_param` carries for the parameter named `id`.
pub open spec fn spec_param_input<N>(id: Seq<char>, value: Option<JsonValue<N>>) -> Option<
    ParamInput<N>,
> {
    match value {
        Some(JsonValue::Number(n)) => Some(ParamInput::Number(n)),
        Some(JsonValue::Bool(b)) => Some(ParamInput::Whole(if b { 1u32 } else { 0u32 })),
        Some(JsonValue::Text(s)) => match spec_choice_index(id, s@) {
            Some(i) => Some(ParamInput::Whole(i)),
            None => None,
        },
        _ => None,
    }
}

/// A size field as the editor reads it: the unsigned integer, or 0, cut to
/// its low 32 bits.
pub open spec fn size_field(v: Option<u64>) -> u32 {
    match v {
        Some(x) => x as u32,
        None => 0u32,
    }
}

/// What a message asks for, by its `"type"`.
pub open spec fn spec_decide<N>(msg: IpcMessage<N>) -> IpcAction<N> {
    let kind = text_or_empty(msg.kind);
    if kind == "set_param"@ {
        let id = text_or_empty(msg.id);
        match (spec_param_input(id, msg.value), spec_param_from_text(id)) {
            (Some(v), Some(p)) => IpcAction::SetParam { param: p, value: v },
            (None, _) => IpcAction::UnreadableValue { id: msg.id },
            (Some(_), None) => IpcAction::UnknownParam { id: msg.id },
        }
    } else if kind == "release_focus"@ {
        IpcAction::ReleaseFocus
    } else if kind == "resize"@ {
        IpcAction::Resize { width: size_field(msg.width), height: size_field(msg.height) }
    } else if kind == "save_token"@ {
        IpcAction::SaveToken { token: msg.token }
    } else if kind == "clear_token"@ {
        IpcAction::ClearToken
    } else {
        IpcAction::UnknownKind { kind: msg.kind }
    }
}

/// Whether an optional field holds exactly `lit`; absent counts as empty.
fn field_is(field: &Option<String>, lit: &str) -> (b: bool)
    ensures
        b == (text_or_empty(*field) == lit@),
{
    proof {
        reveal_strlit("");
    }
    match field {
        Some(t) => same_text(t.as_str(), lit),
        None => {
            let r = same_text("", lit);
            assert(""@ =~= Seq::<char>::empty());
            r
        },
    }
}

/// The plain value a `set_param` message carries for parameter text `id`.
pub fn param_input<N>(id: &str, value: Option<JsonValue<N>>) -> (r: Option<ParamInput<N>>)
    ensures
        r == spec_param_input(id@, value),
{
    match value {
        Some(JsonValue::Number(n)) => Some(ParamInput::Number(n)),
        Some(JsonValue::Bool(b)) => Some(ParamInput::Whole(if b { 1 } else { 0 })),
        Some(JsonValue::Text(s)) => match choice_index(id, s.as_str()) {
            Some(i) => Some(ParamInput::Whole(i)),
            None => None,
        },
        _ => None,
    }
}

/// Decide what to do with a message from the web view.
pub fn decide<N>(msg: IpcMessage<N>) -> (action: IpcAction<N>)
    ensures
        action == spec_decide(msg),
{
    let ghost m = msg;
    if field_is(&msg.kind, "set_param") {
        let IpcMessage { id, value, .. } = msg;
        let found = match &id {
            Some(t) => ParamId::from_text_id(t.as_str()),
            None => ParamId::from_text_id(""),
        };
        let input = match &id {
            Some(t) => param_input(t.as_str(), value),
            None => param_input("", value),
        };
        proof {
            reveal_strlit("");
            assert(""@ == Seq::<char>::empty());
        }
        match (input, found) {
            (Some(v), Some(p)) => IpcAction::SetParam { param: p, value: v },
            (None, _) => IpcAction::UnreadableValue { id },
            (Some(_), None) => IpcAction::UnknownParam { id },
        }
    } else if field_is(&msg.kind, "release_focus") {
        IpcAction::ReleaseFocus
    } else if field_is(&msg.kind, "resize") {
        let width = match msg.width {
            Some(x) => x as u32,
            None => 0,
        };
        let height = match msg.height {
            Some(x) => x as u32,
            None => 0,
        };
        IpcAction::Resize { width, height }
    } else if field_is(&msg.kind, "save_token") {
        IpcAction::SaveToken { token: msg.token }
    } else if field_is(&msg.kind, "clear_token") {
        IpcAction::ClearToken
    } else {
        IpcAction::UnknownKind { kind: msg.kind }
    }
}

/// The fields of the message whose JSON text is `raw`, as `read_message`
/// reads them, or nothing when `raw` is not JSON.
pub uninterp spec fn json_message(raw: Seq<char>) -> Option<IpcMessage<String>>;

/// Reads a web-view message with `serde_json::from_str` into a
/// `serde_json::Value` and picks its fields: `type`, `id` and `token` when
/// they are strings, `width` and `height` when they are unsigned integers
/// (`Value::as_u64`), and `value` by its JSON kind, a number kept as the text
/// `serde_json::Number` displays.
///
/// Claimed: the result depends on the text `raw` alone (it is named
/// `json_message(raw@)`). Not claimed: which texts parse, or the fields that
/// come out; the JSON grammar and field lookup are serde_json's.
#[verifier::external_body]
fn read_message(raw: &str) -> (m: Option<IpcMessage<String>>)
    ensures
        m == json_message(raw@),
{
    let v: Value = serde_json::from_str(raw).ok()?;
    let text = |k: &str| v.get(k)?.as_str().map(String::from);
    let size = |k: &str| v.get(k)?.as_u64();
    let value = v.get("value").map(|x| match x {
        Value::Number(n) => JsonValue::Number(n.to_string()),
        Value::Bool(b) => JsonValue::Bool(*b),
        Value::String(s) => JsonValue::Text(s.clone()),
        _ => JsonValue::Other,
    });
    Some(IpcMessage { kind: text("type"), id: text("id"), value, width: size("width"), height: size("height"), token: text("token") })
}

/// Read a message from the web view's JSON text and decide what it asks
/// for; nothing when the text is not JSON. A JSON number stays its text.
pub fn decide_raw(raw: &str) -> (action: Option<IpcAction<String>>)
    ensures
        action == match json_message(raw@) {
            Some(m) => Some(spec_decide(m)),
            None => None,
        },
{
    match read_message(raw) {
        Some(m) => Some(decide(m)),
        None => None,
    }
}

/// The literal texts the decisions go by are all different.
proof fn lemma_kind_texts_differ()
    ensures
        "set_param"@.len() == 9,
        "release_focus"@.len() == 13,
        "resize"@.len() == 6,
        "save_token"@.len() == 10,
        "clear_token"@.len() == 11,
{
    reveal_strlit("set_param");
    reveal_strlit("release_focus");
    reveal_strlit("resize");
    reveal_strlit("save_token");
    reveal_strlit("clear_token");
}

/// No parameter's id is the id of a choice the web view may send as text.
proof fn lemma_param_ids_are_not_choices(p: ParamId, s: Seq<char>)
    ensures
        spec_choice_index(spec_param_text(p), s) is None,
{
    reveal_strlit("width");
    reveal_strlit("width_low");
    reveal_strlit("width_mid");
    reveal_strlit("width_high");
    reveal_strlit("xover_lo_hz");
    reveal_strlit("xover_hi_hz");
    reveal_strlit("mono_bass_on");
    reveal_strlit("mono_bass_hz");
    reveal_strlit("output_gain_db");
    reveal_strlit("bypass");
    reveal_strlit("rev_type");
    reveal_strlit("sc_source");
    reveal_strlit("lfo_shape");
    reveal_strlit("lfo_target");
    reveal_strlit("routing");
    let t = spec_param_text(p);
    assert(t.len() > 0);
    assert(t[0] != "rev_type"@[0]);
    assert(t[0] != "sc_source"@[0]);
    assert(t[0] != "lfo_shape"@[0]);
    assert(t[0] != "lfo_target"@[0]);
    assert(t[0] != "routing"@[0]);
}

/// A `set_param` message whose id is parameter `p`'s id sets exactly `p`:
/// to the number it carries, to 1 or 0 for `true` or `false`; any other
/// value (a text, `null`, an array, an object, or none) cannot be read.
pub proof fn lemma_set_param_sets_the_named_param<N>(msg: IpcMessage<N>, p: ParamId)
    requires
        text_or_empty(msg.kind) == "set_param"@,
        text_or_empty(msg.id) == spec_param_text(p),
    ensures
        forall|n: N|
            msg.value == Some(JsonValue::Number(n)) ==> (spec_decide(msg) == (IpcAction::<N>::SetParam {
                param: p,
                value: ParamInput::Number(n),
            })),
        forall|b: bool|
            msg.value == Some(JsonValue::<N>::Bool(b)) ==> (spec_decide(msg) == (
            IpcAction::<N>::SetParam { param: p, value: ParamInput::Whole(if b { 1u32 } else { 0u32 }) })),
        (msg.value is None || (msg.value matches Some(JsonValue::Text(_))) || (
        msg.value matches Some(JsonValue::Other))) ==> (spec_decide(msg) == (
        IpcAction::<N>::UnreadableValue { id: msg.id })),
{
    lemma_text_ids_name_one_param(p, spec_param_text(p));
    if let Some(JsonValue::Text(s)) = msg.value {
        lemma_param_ids_are_not_choices(p, s@);
    }
}

/// A `set_param` message whose id is no parameter's id sets nothing: with a
/// number or a boolean it names an unknown parameter.
pub proof fn lemma_set_param_unknown_id<N>(msg: IpcMessage<N>)
    requires
        text_or_empty(msg.kind) == "set_param"@,
        forall|p: ParamId| text_or_empty(msg.id) != #[trigger] spec_param_text(p),
        (msg.value matches Some(JsonValue::Number(_))) || (msg.value matches Some(JsonValue::Bool(_))),
    ensures
        spec_decide(msg) == (IpcAction::<N>::UnknownParam { id: msg.id }),
{
    let id = text_or_empty(msg.id);
    if let Some(p) = spec_param_from_text(id) {
        lemma_text_ids_name_one_param(p, id);
        assert(id == spec_param_text(p));
    }
}

/// A size as a `resize` message carries it: 0 when absent, cut to 32 bits.
pub open spec fn carried_size(v: Option<u64>) -> u32 {
    if v is Some {
        v->0 as u32
    } else {
        0u32
    }
}

/// The other kinds of message: `release_focus` releases focus,
/// `clear_token` clears the token, `save_token` saves the token it carries,
/// `resize` asks for the sizes it carries (0 when absent, cut to 32 bits),
/// and a message of any other kind is unknown.
pub proof fn lemma_other_message_kinds<N>(msg: IpcMessage<N>)
    ensures
        text_or_empty(msg.kind) == "release_focus"@ ==> spec_decide(msg) is ReleaseFocus,
        text_or_empty(msg.kind) == "clear_token"@ ==> spec_decide(msg) is ClearToken,
        text_or_empty(msg.kind) == "save_token"@ ==> (spec_decide(msg) == (
        IpcAction::<N>::SaveToken { token: msg.token })),
        text_or_empty(msg.kind) == "resize"@ ==> (spec_decide(msg) == (IpcAction::<N>::Resize {
            width: carried_size(msg.width),
            height: carried_size(msg.height),
        })),
        (text_or_empty(msg.kind) != "set_param"@ && text_or_empty(msg.kind) != "release_focus"@
            && text_or_empty(msg.kind) != "clear_token"@ && text_or_empty(msg.kind)
            != "save_token"@ && text_or_empty(msg.kind) != "resize"@) ==> (spec_decide(msg) == (
        IpcAction::<N>::UnknownKind { kind: msg.kind })),
{
    lemma_kind_texts_differ();
}

} // verus!
