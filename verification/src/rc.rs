//! The remote-control client's protocol logic: the discovery and
//! mutation requests, parsing of discovery replies (a two-level JSON
//! object of scalars flattened into `Param` records), joining of
//! mutation replies, and the timeout rule. The transport itself (a
//! request/reply socket) lives outside the library; every decision on
//! what came back is made here.

use vstd::prelude::*;
use vstd::string::StringExecFns;
use vstd::utf8::{decode_utf8, valid_utf8};

verus! {

/// Read timeout of a remote-control round, in milliseconds.
pub const RC_TIMEOUT_MS: u64 = 2000;

/// The conventional remote-control endpoint address of the daemon.
pub fn default_rc_endpoint() -> (r: String)
    ensures
        r@ == "tcp://127.0.0.1:12722"@,
{
    "tcp://127.0.0.1:12722".to_owned()
}

/// The single-frame discovery command.
pub fn discovery_command() -> (r: String)
    ensures
        r@ == "showjson"@,
{
    "showjson".to_owned()
}

/// The four-frame mutation request: `set`, module, parameter, value.
pub fn mutation_request(module: &str, param: &str, value: &str) -> (r: Vec<String>)
    ensures
        r@.len() == 4,
        r@[0]@ == "set"@,
        r@[1]@ == module@,
        r@[2]@ == param@,
        r@[3]@ == value@,
{
    let mut frames: Vec<String> = Vec::new();
    frames.push("set".to_owned());
    frames.push(module.to_owned());
    frames.push(param.to_owned());
    frames.push(value.to_owned());
    frames
}

/// One discovered remote-control parameter: module name, parameter name,
/// and the value in its canonical string form.
#[derive(Debug, Clone, PartialEq, Eq)]
pub struct Param {
    pub module: String,
    pub param: String,
    pub value: String,
}

/// The mathematical value of a `Param`.
pub ghost struct ParamView {
    pub module: Seq<char>,
    pub param: Seq<char>,
    pub value: Seq<char>,
}

impl View for Param {
    type V = ParamView;

    open spec fn view(&self) -> ParamView {
        ParamView { module: self.module@, param: self.param@, value: self.value@ }
    }
}

/// A JSON value of a discovery reply. Numbers are carried as their
/// natural decimal text; object entries keep the reply's key order.
#[derive(Debug, PartialEq, Eq)]
pub enum RcValue {
    Null,
    Bool(bool),
    Number(String),
    Text(String),
    Array(Vec<RcValue>),
    Object(Vec<(String, RcValue)>),
}

/// Failures of a remote-control call.
#[derive(Debug, Clone, PartialEq, Eq)]
pub enum RcError {
    /// The discovery reply is not parseable JSON; carries the parser's
    /// message.
    InvalidJson(String),
    /// The discovery reply is not a JSON object.
    NotObject,
    /// A module's value is not a JSON object; carries the module name.
    ModuleNotObject(String),
    /// A parameter's value is an array; carries module and parameter.
    UnexpectedArray(String, String),
    /// A parameter's value is an object; carries module and parameter.
    UnexpectedObject(String, String),
    /// The reply frame is not text.
    NotText,
    /// No readable reply within the timeout window.
    Timeout,
}

/// The mathematical value of an `RcError`.
pub ghost enum RcErrorView {
    InvalidJson(Seq<char>),
    NotObject,
    ModuleNotObject(Seq<char>),
    UnexpectedArray(Seq<char>, Seq<char>),
    UnexpectedObject(Seq<char>, Seq<char>),
    NotText,
    Timeout,
}

impl View for RcError {
    type V = RcErrorView;

    open spec fn view(&self) -> RcErrorView {
        match self {
            RcError::InvalidJson(m) => RcErrorView::InvalidJson(m@),
            RcError::NotObject => RcErrorView::NotObject,
            RcError::ModuleNotObject(m) => RcErrorView::ModuleNotObject(m@),
            RcError::UnexpectedArray(m, p) => RcErrorView::UnexpectedArray(m@, p@),
            RcError::UnexpectedObject(m, p) => RcErrorView::UnexpectedObject(m@, p@),
            RcError::NotText => RcErrorView::NotText,
            RcError::Timeout => RcErrorView::Timeout,
        }
    }
}

/// The human-readable message of each failure.
pub open spec fn error_text(e: RcErrorView) -> Seq<char> {
    match e {
        RcErrorView::InvalidJson(m) => m,
        RcErrorView::NotObject => "RC data is not a JSON object"@,
        RcErrorView::ModuleNotObject(m) => "RC module "@ + m + " is not a JSON object"@,
        RcErrorView::UnexpectedArray(m, p) => "Unexpected array in "@ + m + "."@ + p,
        RcErrorView::UnexpectedObject(m, p) => "Unexpected object in "@ + m + "."@ + p,
        RcErrorView::NotText => "RC response is not a str"@,
        RcErrorView::Timeout => "Timeout reading RC"@,
    }
}

impl RcError {
    /// Renders the failure as the message text the caller surfaces.
    pub fn message(&self) -> (r: String)
        ensures
            r@ == error_text(self@),
    {
        match self {
            RcError::InvalidJson(m) => m.clone(),
            RcError::NotObject => "RC data is not a JSON object".to_owned(),
            RcError::ModuleNotObject(m) => "RC module ".to_owned().concat(m.as_str()).concat(
                " is not a JSON object",
            ),
            RcError::UnexpectedArray(m, p) => "Unexpected array in ".to_owned().concat(
                m.as_str(),
            ).concat(".").concat(p.as_str()),
            RcError::UnexpectedObject(m, p) => "Unexpected object in ".to_owned().concat(
                m.as_str(),
            ).concat(".").concat(p.as_str()),
            RcError::NotText => "RC response is not a str".to_owned(),
            RcError::Timeout => "Timeout reading RC".to_owned(),
        }
    }
}

/// A scalar leaf of a discovery reply: null, boolean, number or string.
pub open spec fn is_scalar(v: RcValue) -> bool {
    v is Null || v is Bool || v is Number || v is Text
}

/// The canonical string form of a scalar leaf: null becomes the literal
/// text "null", booleans "true"/"false", numbers their decimal text,
/// strings themselves.
pub open spec fn scalar_text(v: RcValue) -> Seq<char> {
    match v {
        RcValue::Null => "null"@,
        RcValue::Bool(b) => if b {
            "true"@
        } else {
            "false"@
        },
        RcValue::Number(s) => s@,
        RcValue::Text(s) => s@,
        RcValue::Array(_) => Seq::empty(),
        RcValue::Object(_) => Seq::empty(),
    }
}

/// The structural error for a non-scalar leaf of module `mname`,
/// parameter `pname`.
pub open spec fn leaf_error(mname: Seq<char>, pname: Seq<char>, v: RcValue) -> RcErrorView {
    if v is Array {
        RcErrorView::UnexpectedArray(mname, pname)
    } else {
        RcErrorView::UnexpectedObject(mname, pname)
    }
}

/// Flattening one module's parameter object, in entry order; the first
/// non-scalar leaf fails the whole call.
pub open spec fn module_result(mname: Seq<char>, entries: Seq<(String, RcValue)>) -> Result<
    Seq<ParamView>,
    RcErrorView,
>
    decreases entries.len()
{
    if entries.len() == 0 {
        Ok(Seq::empty())
    } else if !is_scalar(entries[0].1) {
        Err(leaf_error(mname, entries[0].0@, entries[0].1))
    } else {
        let head = ParamView {
            module: mname,
            param: entries[0].0@,
            value: scalar_text(entries[0].1),
        };
        match module_result(mname, entries.skip(1)) {
            Ok(rest) => Ok(seq![head] + rest),
            Err(e) => Err(e),
        }
    }
}

/// Flattening the whole two-level reply object, module by module in
/// entry order; a module whose value is not an object fails the call.
pub open spec fn modules_result(mods: Seq<(String, RcValue)>) -> Result<
    Seq<ParamView>,
    RcErrorView,
>
    decreases mods.len()
{
    if mods.len() == 0 {
        Ok(Seq::empty())
    } else {
        match mods[0].1 {
            RcValue::Object(params) => match module_result(mods[0].0@, params@) {
                Ok(ps) => match modules_result(mods.skip(1)) {
                    Ok(rest) => Ok(ps + rest),
                    Err(e) => Err(e),
                },
                Err(e) => Err(e),
            },
            _ => Err(RcErrorView::ModuleNotObject(mods[0].0@)),
        }
    }
}

/// What flattening a discovery reply yields: the ordered `Param`
/// records, or the first structural error.
pub open spec fn reply_result(root: RcValue) -> Result<Seq<ParamView>, RcErrorView> {
    match root {
        RcValue::Object(mods) => modules_result(mods@),
        _ => Err(RcErrorView::NotObject),
    }
}

/// A well-formed module value: a JSON object whose values are all
/// scalars.
pub open spec fn wf_module(v: RcValue) -> bool {
    match v {
        RcValue::Object(entries) => forall|j: int|
            0 <= j < entries@.len() ==> is_scalar((#[trigger] entries@[j]).1),
        _ => false,
    }
}

/// A well-formed discovery reply: a JSON object whose values are all
/// well-formed modules.
pub open spec fn wf_reply(root: RcValue) -> bool {
    match root {
        RcValue::Object(mods) => forall|i: int|
            0 <= i < mods@.len() ==> wf_module((#[trigger] mods@[i]).1),
        _ => false,
    }
}

/// Flattening one module succeeds exactly when every entry is scalar.
proof fn lemma_module_result_ok_iff(mname: Seq<char>, entries: Seq<(String, RcValue)>)
    ensures
        module_result(mname, entries) is Ok <==> forall|j: int|
            0 <= j < entries.len() ==> is_scalar((#[trigger] entries[j]).1),
    decreases entries.len()
{
    if entries.len() > 0 {
        lemma_module_result_ok_iff(mname, entries.skip(1));
        if module_result(mname, entries) is Ok {
            assert forall|j: int| 0 <= j < entries.len() implies is_scalar(
                (#[trigger] entries[j]).1,
            ) by {
                if j > 0 {
                    assert(entries.skip(1)[j - 1] == entries[j]);
                }
            }
        }
        if forall|j: int| 0 <= j < entries.len() ==> is_scalar((#[trigger] entries[j]).1) {
            assert forall|j: int| 0 <= j < entries.skip(1).len() implies is_scalar(
                (#[trigger] entries.skip(1)[j]).1,
            ) by {
                assert(entries.skip(1)[j] == entries[j + 1]);
            }
            assert(module_result(mname, entries.skip(1)) is Ok);
            assert(is_scalar(entries[0].1));
        }
    }
}

/// Flattening the whole reply succeeds exactly when every module is a
/// well-formed object of scalars.
proof fn lemma_modules_result_ok_iff(mods: Seq<(String, RcValue)>)
    ensures
        modules_result(mods) is Ok <==> forall|i: int|
            0 <= i < mods.len() ==> wf_module((#[trigger] mods[i]).1),
    decreases mods.len()
{
    if mods.len() > 0 {
        lemma_modules_result_ok_iff(mods.skip(1));
        match mods[0].1 {
            RcValue::Object(params) => {
                lemma_module_result_ok_iff(mods[0].0@, params@);
            },
            _ => {},
        }
        if modules_result(mods) is Ok {
            assert forall|i: int| 0 <= i < mods.len() implies wf_module(
                (#[trigger] mods[i]).1,
            ) by {
                if i > 0 {
                    assert(mods.skip(1)[i - 1] == mods[i]);
                }
            }
        }
        if forall|i: int| 0 <= i < mods.len() ==> wf_module((#[trigger] mods[i]).1) {
            assert forall|i: int| 0 <= i < mods.skip(1).len() implies wf_module(
                (#[trigger] mods.skip(1)[i]).1,
            ) by {
                assert(mods.skip(1)[i] == mods[i + 1]);
            }
            assert(modules_result(mods.skip(1)) is Ok);
            assert(wf_module(mods[0].1));
        }
    }
}

/// Law: flattening a discovery reply succeeds exactly when the reply is
/// an object of objects of scalars; any array or object leaf, any
/// non-object module, and any non-object root fail it.
pub proof fn lemma_reply_result_ok_iff(root: RcValue)
    ensures
        reply_result(root) is Ok <==> wf_reply(root),
{
    match root {
        RcValue::Object(mods) => {
            lemma_modules_result_ok_iff(mods@);
        },
        _ => {},
    }
}

/// The views of a sequence of `Param` records.
pub open spec fn params_view(ps: Seq<Param>) -> Seq<ParamView> {
    ps.map_values(|p: Param| p@)
}

/// The executable result `r` yields exactly the mathematical result
/// `expected`.
pub open spec fn discovery_matches(
    r: Result<Vec<Param>, RcError>,
    expected: Result<Seq<ParamView>, RcErrorView>,
) -> bool {
    match r {
        Ok(ps) => expected == Ok::<Seq<ParamView>, RcErrorView>(
            params_view(ps@),
        ),
        Err(e) => expected == Err::<Seq<ParamView>, RcErrorView>(e@),
    }
}

/// The canonical string form of a scalar leaf.
fn scalar_string(v: &RcValue) -> (r: String)
    requires
        is_scalar(*v),
    ensures
        r@ == scalar_text(*v),
{
    match v {
        RcValue::Null => "null".to_owned(),
        RcValue::Bool(b) => if *b {
            "true".to_owned()
        } else {
            "false".to_owned()
        },
        RcValue::Number(s) => s.clone(),
        RcValue::Text(s) => s.clone(),
        RcValue::Array(_) => "null".to_owned(),
        RcValue::Object(_) => "null".to_owned(),
    }
}

/// Flattens a parsed discovery reply into `Param` records: the reply
/// must be an object of objects of scalars; the first violation fails
/// the call, naming the offending module and parameter.
pub fn value_to_params(root: &RcValue) -> (r: Result<Vec<Param>, RcError>)
    ensures
        discovery_matches(r, reply_result(*root)),
{
    let mods: &Vec<(String, RcValue)> = match root {
        RcValue::Object(mods) => mods,
        _ => {
            return Err(RcError::NotObject);
        },
    };
    let mut acc: Vec<Param> = Vec::new();
    let mut i: usize = 0;
    proof {
        assert(mods@.skip(0) =~= mods@);
        assert(params_view(acc@) =~= Seq::<ParamView>::empty());
        if modules_result(mods@) is Ok {
            assert(Seq::<ParamView>::empty() + modules_result(mods@)->Ok_0 =~= modules_result(
                mods@,
            )->Ok_0);
        }
    }
    while i < mods.len()
        invariant
            i <= mods@.len(),
            reply_result(*root) == modules_result(mods@),
            modules_result(mods@) == match modules_result(mods@.skip(i as int)) {
                Ok(rest) => Ok::<Seq<ParamView>, RcErrorView>(
                    params_view(acc@) + rest,
                ),
                Err(e) => Err::<Seq<ParamView>, RcErrorView>(e),
            },
        decreases mods@.len() - i
    {
        let ghost pre_mods = mods@.skip(i as int);
        proof {
            assert(pre_mods[0] == mods@[i as int]);
            assert(pre_mods.skip(1) =~= mods@.skip(i as int + 1));
        }
        let mname: &String = &mods[i].0;
        let params: &Vec<(String, RcValue)> = match &mods[i].1 {
            RcValue::Object(params) => params,
            _ => {
                return Err(RcError::ModuleNotObject(mname.clone()));
            },
        };
        let ghost acc_before = acc@;
        let mut j: usize = 0;
        proof {
            assert(params@.skip(0) =~= params@);
            assert(params@.take(0) =~= Seq::<(String, RcValue)>::empty());
            assert(params_view(acc@) =~= params_view(acc_before)
                + Seq::<ParamView>::empty());
            if module_result(mname@, params@) is Ok {
                assert(Seq::<ParamView>::empty() + module_result(mname@, params@)->Ok_0
                    =~= module_result(mname@, params@)->Ok_0);
            }
        }
        while j < params.len()
            invariant
                j <= params@.len(),
                i < mods@.len(),
                mods@[i as int].1 == RcValue::Object(*params),
                mname@ == mods@[i as int].0@,
                reply_result(*root) == modules_result(mods@),
                params_view(acc@) == params_view(acc_before)
                    + module_result(mname@, params@.take(j as int))->Ok_0,
                module_result(mname@, params@.take(j as int)) is Ok,
                modules_result(mods@) == match modules_result(mods@.skip(i as int)) {
                    Ok(rest) => Ok::<Seq<ParamView>, RcErrorView>(
                        params_view(acc_before) + rest,
                    ),
                    Err(e) => Err::<Seq<ParamView>, RcErrorView>(e),
                },
                module_result(mname@, params@) == match module_result(
                    mname@,
                    params@.skip(j as int),
                ) {
                    Ok(rest) => Ok::<Seq<ParamView>, RcErrorView>(
                        module_result(mname@, params@.take(j as int))->Ok_0 + rest,
                    ),
                    Err(e) => Err::<Seq<ParamView>, RcErrorView>(e),
                },
            decreases params@.len() - j
        {
            let ghost pre_params = params@.skip(j as int);
            proof {
                assert(pre_params[0] == params@[j as int]);
                assert(pre_params.skip(1) =~= params@.skip(j as int + 1));
            }
            let pname: &String = &params[j].0;
            let v: &RcValue = &params[j].1;
            match v {
                RcValue::Array(_) => {
                    return Err(RcError::UnexpectedArray(mname.clone(), pname.clone()));
                },
                RcValue::Object(_) => {
                    return Err(RcError::UnexpectedObject(mname.clone(), pname.clone()));
                },
                _ => {},
            }
            let value = scalar_string(v);
            let p = Param { module: mname.clone(), param: pname.clone(), value };
            proof {
                lemma_module_result_take_step(mname@, params@, j as int);
            }
            let ghost acc_prev = acc@;
            acc.push(p);
            proof {
                let ghost head = ParamView {
                    module: mname@,
                    param: params@[j as int].0@,
                    value: scalar_text(params@[j as int].1),
                };
                assert(p@ == head);
                assert(acc@ == acc_prev.push(p));
                assert(params_view(acc@) =~= params_view(acc_prev).push(head)) by {
                    assert forall|k: int| 0 <= k < acc@.len() implies params_view(acc@)[k]
                        == params_view(acc_prev).push(head)[k] by {
                        if k < acc_prev.len() {
                            assert(acc@[k] == acc_prev[k]);
                        } else {
                            assert(acc@[k] == p);
                        }
                    }
                }
                assert(params_view(acc_prev).push(head) =~= params_view(acc_before)
                    + module_result(mname@, params@.take(j as int + 1))->Ok_0);
                assert(params_view(acc@) =~= params_view(acc_before) + module_result(
                    mname@,
                    params@.take(j as int + 1),
                )->Ok_0);
                let ghost sub = module_result(mname@, params@.skip(j as int + 1));
                if sub is Ok {
                    assert(module_result(mname@, params@.take(j as int))->Ok_0 + (seq![
                        ParamView {
                            module: mname@,
                            param: params@[j as int].0@,
                            value: scalar_text(params@[j as int].1),
                        },
                    ] + sub->Ok_0) =~= module_result(mname@, params@.take(j as int + 1))->Ok_0
                        + sub->Ok_0);
                }
            }
            j = j + 1;
        }
        proof {
            assert(params@.take(params@.len() as int) =~= params@);
            assert(params@.skip(params@.len() as int) =~= Seq::<(String, RcValue)>::empty());
            let ghost ps = module_result(mname@, params@)->Ok_0;
            assert(module_result(mname@, params@) == Ok::<Seq<ParamView>, RcErrorView>(ps)) by {
                assert(ps + Seq::<ParamView>::empty() =~= ps);
            }
            let ghost rest_r = modules_result(mods@.skip(i as int + 1));
            if rest_r is Ok {
                assert(params_view(acc_before) + (ps + rest_r->Ok_0) =~= params_view(acc@)
                    + rest_r->Ok_0);
            }
        }
        i = i + 1;
    }
    proof {
        assert(mods@.skip(i as int) =~= Seq::<(String, RcValue)>::empty());
        assert(params_view(acc@) + Seq::<ParamView>::empty() =~= params_view(acc@));
    }
    Ok(acc)
}

/// Declares `serde_json::Value`, the parser's tree type, opaque to the
/// library; values of it are only carried into `RcValue`.
#[verifier::external_type_specification]
#[verifier::external_body]
pub struct ExJsonValue(serde_json::Value);

/// What parsing a discovery reply text yields: the reply's JSON tree
/// carried over into `RcValue` (numbers as their natural decimal text,
/// object entries in the parser's deterministic key order), or nothing
/// for text that is not JSON. Parsing is a function of the text alone.
pub uninterp spec fn parsed_reply(text: Seq<char>) -> Option<RcValue>;

/// Relies on `serde_json::from_str::<serde_json::Value>`: succeeds
/// exactly on parseable JSON, deterministically in the text; the carried
/// tree is named `parsed_reply`, the error case carries the parser's
/// message.
#[verifier::external_body]
fn parse_reply_text(text: &str) -> (r: Result<RcValue, String>)
    ensures
        r matches Ok(v) ==> parsed_reply(text@) == Some(v),
        r matches Err(_) ==> parsed_reply(text@) is None,
{
    match serde_json::from_str::<serde_json::Value>(text) {
        Ok(v) => Ok(rc_value_of(v)),
        Err(e) => Err(e.to_string()),
    }
}

/// Relies on `serde_json::Value`'s variants and `Number::to_string`:
/// carries a parsed JSON tree over variant by variant, numbers as their
/// natural decimal text, object entries in order.
#[verifier::external_body]
fn rc_value_of(v: serde_json::Value) -> RcValue {
    match v {
        serde_json::Value::Null => RcValue::Null,
        serde_json::Value::Bool(b) => RcValue::Bool(b),
        serde_json::Value::Number(n) => RcValue::Number(n.to_string()),
        serde_json::Value::String(s) => RcValue::Text(s),
        serde_json::Value::Array(items) => RcValue::Array(
            items.into_iter().map(rc_value_of).collect(),
        ),
        serde_json::Value::Object(m) => RcValue::Object(
            m.into_iter().map(|(k, w)| (k, rc_value_of(w))).collect(),
        ),
    }
}

/// Parses a discovery reply text and flattens it into `Param` records:
/// unparseable text fails with the parser's message, anything but an
/// object of objects of scalars with the first structural violation.
pub fn params_from_reply(text: &str) -> (r: Result<Vec<Param>, RcError>)
    ensures
        parsed_reply(text@) is None ==> (r matches Err(e) && e@ is InvalidJson),
        parsed_reply(text@) matches Some(v) ==> discovery_matches(r, reply_result(v)),
{
    match parse_reply_text(text) {
        Ok(v) => value_to_params(&v),
        Err(m) => Err(RcError::InvalidJson(m)),
    }
}

/// What one discovery round handed back, as the transport saw it.
pub enum DiscoveryReply {
    /// No readable reply within the timeout window.
    TimedOut,
    /// A reply arrived but its frame is not text.
    NotText,
    /// The reply text.
    Text(String),
}

/// The whole discovery decision on what the transport handed back: a
/// timeout fails with the timeout error, a non-text frame with the
/// frame error, and reply text is parsed and flattened.
pub fn discovery_outcome(reply: DiscoveryReply) -> (r: Result<Vec<Param>, RcError>)
    ensures
        reply is TimedOut ==> (r matches Err(e) && e@ == RcErrorView::Timeout),
        reply is NotText ==> (r matches Err(e) && e@ == RcErrorView::NotText),
        reply matches DiscoveryReply::Text(t) ==> (match parsed_reply(t@) {
            None => (r matches Err(e) && e@ is InvalidJson),
            Some(v) => discovery_matches(r, reply_result(v)),
        }),
{
    match reply {
        DiscoveryReply::TimedOut => Err(RcError::Timeout),
        DiscoveryReply::NotText => Err(RcError::NotText),
        DiscoveryReply::Text(t) => params_from_reply(t.as_str()),
    }
}

/// Relies on `String::from_utf8` of std: succeeds exactly on valid
/// UTF-8, and the resulting string is those bytes decoded.
#[verifier::external_body]
fn try_utf8(bytes: &Vec<u8>) -> (r: Option<String>)
    ensures
        r matches Some(s) ==> valid_utf8(bytes@) && s@ == decode_utf8(bytes@),
        r is None ==> !valid_utf8(bytes@),
{
    String::from_utf8(bytes.clone()).ok()
}

/// The text one reply frame contributes: its UTF-8 decoding, or the
/// literal placeholder for a frame that is not valid text.
pub open spec fn part_text(b: Seq<u8>) -> Seq<char> {
    if valid_utf8(b) {
        decode_utf8(b)
    } else {
        "???"@
    }
}

/// The frames' texts joined with commas.
pub open spec fn joined_text(parts: Seq<Vec<u8>>) -> Seq<char>
    decreases parts.len()
{
    if parts.len() == 0 {
        Seq::empty()
    } else if parts.len() == 1 {
        part_text(parts[0]@)
    } else {
        joined_text(parts.drop_last()) + ","@ + part_text(parts.last()@)
    }
}

/// Joins a mutation reply's frames with commas, decoding each as text
/// and standing in the placeholder for a frame that is not valid text.
pub fn join_reply_parts(parts: &Vec<Vec<u8>>) -> (r: String)
    ensures
        r@ == joined_text(parts@),
{
    let mut out = String::new();
    let mut i: usize = 0;
    while i < parts.len()
        invariant
            i <= parts@.len(),
            out@ == joined_text(parts@.take(i as int)),
        decreases parts@.len() - i
    {
        if i > 0 {
            out.append(",");
        }
        match try_utf8(&parts[i]) {
            Some(s) => out.append(s.as_str()),
            None => out.append("???"),
        }
        proof {
            assert(parts@.take(i as int + 1).drop_last() =~= parts@.take(i as int));
            assert(parts@.take(i as int + 1).last() == parts@[i as int]);
            if i == 0 {
                assert(Seq::<char>::empty() + part_text(parts@[0]@) =~= part_text(parts@[0]@));
            }
        }
        i = i + 1;
    }
    proof {
        assert(parts@.take(parts@.len() as int) =~= parts@);
    }
    out
}

/// What one mutation round handed back, as the transport saw it.
pub enum MutationReply {
    /// No readable reply within the timeout window.
    TimedOut,
    /// The reply's frames, each a byte string.
    Frames(Vec<Vec<u8>>),
}

/// The whole mutation decision on what the transport handed back: a
/// timeout fails with the timeout error; a reply's frames are decoded as
/// text and joined with commas into the opaque confirmation text.
pub fn mutation_outcome(reply: MutationReply) -> (r: Result<String, RcError>)
    ensures
        reply is TimedOut ==> (r matches Err(e) && e@ == RcErrorView::Timeout),
        reply matches MutationReply::Frames(parts) ==> (r matches Ok(s) && s@ == joined_text(
            parts@,
        )),
{
    match reply {
        MutationReply::TimedOut => Err(RcError::Timeout),
        MutationReply::Frames(parts) => Ok(join_reply_parts(&parts)),
    }
}

/// Appending a scalar entry extends a module's flattening by one record.
proof fn lemma_module_result_take_step(mname: Seq<char>, entries: Seq<(String, RcValue)>, j: int)
    requires
        0 <= j < entries.len(),
        is_scalar(entries[j].1),
        module_result(mname, entries.take(j)) is Ok,
    ensures
        module_result(mname, entries.take(j + 1)) == Ok::<Seq<ParamView>, RcErrorView>(
            module_result(mname, entries.take(j))->Ok_0 + seq![
                ParamView {
                    module: mname,
                    param: entries[j].0@,
                    value: scalar_text(entries[j].1),
                },
            ],
        ),
    decreases j
{
    let head = ParamView {
        module: mname,
        param: entries[j].0@,
        value: scalar_text(entries[j].1),
    };
    if j == 0 {
        assert(entries.take(1)[0] == entries[0]);
        assert(entries.take(1).skip(1) =~= Seq::<(String, RcValue)>::empty());
        assert(entries.take(0) =~= Seq::<(String, RcValue)>::empty());
        assert(seq![head] + Seq::<ParamView>::empty() =~= Seq::<ParamView>::empty()
            + seq![head]);
    } else {
        assert(entries.take(j + 1)[0] == entries[0]);
        assert(entries.take(j)[0] == entries[0]);
        assert(entries.take(j + 1).skip(1) =~= entries.skip(1).take(j));
        assert(entries.take(j).skip(1) =~= entries.skip(1).take(j - 1));
        assert(entries.skip(1)[j - 1] == entries[j]);
        assert(is_scalar(entries[0].1));
        let head0 = ParamView {
            module: mname,
            param: entries[0].0@,
            value: scalar_text(entries[0].1),
        };
        lemma_module_result_take_step(mname, entries.skip(1), j - 1);
        let a = module_result(mname, entries.skip(1).take(j - 1))->Ok_0;
        assert(module_result(mname, entries.skip(1).take(j)) == Ok::<
            Seq<ParamView>,
            RcErrorView,
        >(a + seq![head]));
        assert(module_result(mname, entries.take(j)) == Ok::<Seq<ParamView>, RcErrorView>(
            seq![head0] + a,
        ));
        assert(seq![head0] + (a + seq![head]) =~= (seq![head0] + a) + seq![head]);
    }
}

} // verus!
