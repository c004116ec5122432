//! The line protocol of the network command server.
//!
//! A line of input is trimmed, case-folded and split on whitespace; the
//! first token selects the command and, for the two flag commands, the
//! second token must be a boolean.  `handle_line` turns one line into the
//! responses to send back, the command to queue (if any) and the flag
//! changes to apply.  Everything is specified down to the bytes.

use vstd::prelude::*;
use vstd::string::StrSliceExecFns;
use vstd::string::StringSliceAdditionalSpecFns;

use crate::messages::Command;
use crate::messages::Response;

verus! {

/// The help text listing every command.
pub open spec fn help_text_spec() -> Seq<u8> {
    "Available commands:\n  help                       print this text\n  stopnow                    stop the tank immediately\n  sensornow                  send current sensor state\n  humanreadable [true|false] set the response to be human readable\n  autosensor [true|false]    set to auto send sensor state\n".spec_bytes()
}

/// The help text, as bytes to send.
pub fn help_text() -> (r: Vec<u8>)
    ensures
        r@ == help_text_spec(),
{
    let s: &str =
        "Available commands:\n  help                       print this text\n  stopnow                    stop the tank immediately\n  sensornow                  send current sensor state\n  humanreadable [true|false] set the response to be human readable\n  autosensor [true|false]    set to auto send sensor state\n";
    s.as_bytes_vec()
}

/// The complaint sent when a flag command's argument is not a boolean.
pub open spec fn bad_bool_text_spec() -> Seq<u8> {
    "Argument should be 'true' or 'false'".spec_bytes()
}

/// The boolean-argument complaint, as bytes to send.
pub fn bad_bool_text() -> (r: Vec<u8>)
    ensures
        r@ == bad_bool_text_spec(),
{
    let s: &str = "Argument should be 'true' or 'false'";
    s.as_bytes_vec()
}

/// ASCII whitespace, as the tokenizer sees it.
pub open spec fn is_ws(b: u8) -> bool {
    b == 9 || b == 10 || b == 11 || b == 12 || b == 13 || b == 32
}

/// ASCII case folding of one byte.
pub open spec fn lower_byte(b: u8) -> u8 {
    if 65 <= b <= 90 {
        (b + 32) as u8
    } else {
        b
    }
}

/// ASCII case folding of a whole sequence.
pub open spec fn lower_seq(s: Seq<u8>) -> Seq<u8> {
    Seq::new(s.len(), |i: int| lower_byte(s[i]))
}

/// The first index at or after `i` that does not hold whitespace.
pub open spec fn ws_end(s: Seq<u8>, i: int) -> int
    decreases s.len() - i,
{
    if i >= s.len() || !is_ws(s[i]) {
        i
    } else {
        ws_end(s, i + 1)
    }
}

/// The first index at or after `i` that ends the token starting there.
pub open spec fn tok_end(s: Seq<u8>, i: int) -> int
    decreases s.len() - i,
{
    if i >= s.len() || is_ws(s[i]) {
        i
    } else {
        tok_end(s, i + 1)
    }
}

/// The index ending the line once trailing whitespace before `j` is
/// dropped.
pub open spec fn trim_end_idx(s: Seq<u8>, j: int) -> int
    decreases j,
{
    if j <= 0 || !is_ws(s[j - 1]) {
        j
    } else {
        trim_end_idx(s, j - 1)
    }
}

/// `ws_end` stays between its start and the length.
pub proof fn lemma_ws_end_bounds(s: Seq<u8>, i: int)
    requires
        0 <= i <= s.len(),
    ensures
        i <= ws_end(s, i) <= s.len(),
    decreases s.len() - i,
{
    if i < s.len() && is_ws(s[i]) {
        lemma_ws_end_bounds(s, i + 1);
    }
}

/// `tok_end` stays between its start and the length.
pub proof fn lemma_tok_end_bounds(s: Seq<u8>, i: int)
    requires
        0 <= i <= s.len(),
    ensures
        i <= tok_end(s, i) <= s.len(),
    decreases s.len() - i,
{
    if i < s.len() && !is_ws(s[i]) {
        lemma_tok_end_bounds(s, i + 1);
    }
}

/// `trim_end_idx` stays between zero and its start.
pub proof fn lemma_trim_end_bounds(s: Seq<u8>, j: int)
    requires
        0 <= j <= s.len(),
    ensures
        0 <= trim_end_idx(s, j) <= j,
    decreases j,
{
    if j > 0 && is_ws(s[j - 1]) {
        lemma_trim_end_bounds(s, j - 1);
    }
}

/// The line after trimming and case folding, exactly as the reader folds
/// it before matching: `line.trim().to_lowercase()` on ASCII input.
pub open spec fn folded_spec(s: Seq<u8>) -> Seq<u8> {
    let ts = ws_end(s, 0);
    let te = trim_end_idx(s, s.len() as int);
    if ts >= te {
        Seq::<u8>::empty()
    } else {
        lower_seq(s.subrange(ts, te))
    }
}

/// The first whitespace-delimited token of `f` (the verb).
pub open spec fn verb_spec(f: Seq<u8>) -> Seq<u8> {
    f.subrange(ws_end(f, 0), tok_end(f, ws_end(f, 0)))
}

/// The second whitespace-delimited token of `f` (the argument); empty when
/// there is none.
pub open spec fn arg_spec(f: Seq<u8>) -> Seq<u8> {
    let after_verb = tok_end(f, ws_end(f, 0));
    f.subrange(ws_end(f, after_verb), tok_end(f, ws_end(f, after_verb)))
}

/// What one folded line asks for.
#[derive(Clone, Copy, Debug, PartialEq, Eq, Structural)]
pub enum LineAction {
    /// Print the command list.
    Help,
    /// Stop immediately.
    StopNow,
    /// Push one sensor state.
    SensorNow,
    /// Set the connection's human-readable flag.
    SetHumanReadable(bool),
    /// Set the process-wide auto-send flag.
    SetAutoSensor(bool),
    /// A flag command whose argument is not a boolean.
    BadFlagArg,
    /// Anything else.
    Unknown,
}

/// The action a folded line selects: the verb chooses the command, and the
/// two flag commands need a `true` or `false` argument.
pub open spec fn parse_action_spec(f: Seq<u8>) -> LineAction {
    let verb = verb_spec(f);
    if verb == "help".spec_bytes() {
        LineAction::Help
    } else if verb == "stopnow".spec_bytes() {
        LineAction::StopNow
    } else if verb == "sensornow".spec_bytes() {
        LineAction::SensorNow
    } else if verb == "humanreadable".spec_bytes() {
        if arg_spec(f) == "true".spec_bytes() {
            LineAction::SetHumanReadable(true)
        } else if arg_spec(f) == "false".spec_bytes() {
            LineAction::SetHumanReadable(false)
        } else {
            LineAction::BadFlagArg
        }
    } else if verb == "autosensor".spec_bytes() {
        if arg_spec(f) == "true".spec_bytes() {
            LineAction::SetAutoSensor(true)
        } else if arg_spec(f) == "false".spec_bytes() {
            LineAction::SetAutoSensor(false)
        } else {
            LineAction::BadFlagArg
        }
    } else {
        LineAction::Unknown
    }
}

/// Whitespace test on one byte.
fn is_ws_byte(b: u8) -> (r: bool)
    ensures
        r == is_ws(b),
{
    b == 9 || b == 10 || b == 11 || b == 12 || b == 13 || b == 32
}

/// The first index at or after `from` holding no whitespace.
fn find_ws_end(v: &Vec<u8>, from: usize) -> (r: usize)
    requires
        from <= v@.len(),
    ensures
        r == ws_end(v@, from as int),
        from <= r <= v@.len(),
{
    let mut i: usize = from;
    while i < v.len() && is_ws_byte(v[i])
        invariant
            from <= i <= v@.len(),
            ws_end(v@, from as int) == ws_end(v@, i as int),
        decreases v@.len() - i,
    {
        proof {
            assert(ws_end(v@, i as int) == ws_end(v@, i + 1));
        }
        i = i + 1;
    }
    proof {
        assert(ws_end(v@, i as int) == i);
    }
    i
}

/// The first index at or after `from` ending the token starting there.
fn find_tok_end(v: &Vec<u8>, from: usize) -> (r: usize)
    requires
        from <= v@.len(),
    ensures
        r == tok_end(v@, from as int),
        from <= r <= v@.len(),
{
    let mut i: usize = from;
    while i < v.len() && !is_ws_byte(v[i])
        invariant
            from <= i <= v@.len(),
            tok_end(v@, from as int) == tok_end(v@, i as int),
        decreases v@.len() - i,
    {
        proof {
            assert(tok_end(v@, i as int) == tok_end(v@, i + 1));
        }
        i = i + 1;
    }
    proof {
        assert(tok_end(v@, i as int) == i);
    }
    i
}

/// Trim and case-fold one line of input.
pub fn fold_line(line: &Vec<u8>) -> (f: Vec<u8>)
    ensures
        f@ == folded_spec(line@),
{
    let ts: usize = find_ws_end(line, 0);
    let mut te: usize = line.len();
    while te > 0 && is_ws_byte(line[te - 1])
        invariant
            te <= line@.len(),
            trim_end_idx(line@, line@.len() as int) == trim_end_idx(line@, te as int),
        decreases te,
    {
        proof {
            assert(trim_end_idx(line@, te as int) == trim_end_idx(line@, te - 1));
        }
        te = te - 1;
    }
    proof {
        assert(trim_end_idx(line@, te as int) == te);
    }
    let mut f: Vec<u8> = Vec::new();
    if ts >= te {
        proof {
            assert(f@ =~= folded_spec(line@));
        }
        return f;
    }
    let mut i: usize = ts;
    while i < te
        invariant
            ts <= i <= te <= line@.len(),
            f@ =~= lower_seq(line@.subrange(ts as int, i as int)),
        decreases te - i,
    {
        let b: u8 = line[i];
        let folded_b: u8 = if 65 <= b && b <= 90 {
            b + 32
        } else {
            b
        };
        f.push(folded_b);
        proof {
            assert(f@ =~= lower_seq(line@.subrange(ts as int, i + 1)));
        }
        i = i + 1;
    }
    proof {
        assert(f@ =~= folded_spec(line@));
    }
    f
}

/// Compare the slice `[start, end)` of `v` against `kw`.
fn token_eq(v: &Vec<u8>, start: usize, end: usize, kw: &Vec<u8>) -> (r: bool)
    requires
        start <= end <= v@.len(),
    ensures
        r == (v@.subrange(start as int, end as int) == kw@),
{
    if end - start != kw.len() {
        proof {
            assert(v@.subrange(start as int, end as int).len() != kw@.len());
        }
        return false;
    }
    let mut i: usize = 0;
    while i < kw.len()
        invariant
            i <= kw@.len(),
            end - start == kw@.len(),
            start <= end <= v@.len(),
            forall|j: int| 0 <= j < i ==> v@.subrange(start as int, end as int)[j] == kw@[j],
        decreases kw@.len() - i,
    {
        if v[start + i] != kw[i] {
            proof {
                assert(v@.subrange(start as int, end as int)[i as int] != kw@[i as int]);
            }
            return false;
        }
        i = i + 1;
    }
    proof {
        assert(v@.subrange(start as int, end as int) =~= kw@);
    }
    true
}

/// The action one folded line selects, exact per `parse_action_spec`.
pub fn parse_action(f: &Vec<u8>) -> (r: LineAction)
    ensures
        r == parse_action_spec(f@),
{
    let verb_start: usize = find_ws_end(f, 0);
    let verb_end: usize = find_tok_end(f, verb_start);
    let arg_start: usize = find_ws_end(f, verb_end);
    let arg_end: usize = find_tok_end(f, arg_start);

    let kw_help: Vec<u8> = ("help").as_bytes_vec();
    let kw_stopnow: Vec<u8> = ("stopnow").as_bytes_vec();
    let kw_sensornow: Vec<u8> = ("sensornow").as_bytes_vec();
    let kw_humanreadable: Vec<u8> = ("humanreadable").as_bytes_vec();
    let kw_autosensor: Vec<u8> = ("autosensor").as_bytes_vec();
    let kw_true: Vec<u8> = ("true").as_bytes_vec();
    let kw_false: Vec<u8> = ("false").as_bytes_vec();

    if token_eq(f, verb_start, verb_end, &kw_help) {
        LineAction::Help
    } else if token_eq(f, verb_start, verb_end, &kw_stopnow) {
        LineAction::StopNow
    } else if token_eq(f, verb_start, verb_end, &kw_sensornow) {
        LineAction::SensorNow
    } else if token_eq(f, verb_start, verb_end, &kw_humanreadable) {
        if token_eq(f, arg_start, arg_end, &kw_true) {
            LineAction::SetHumanReadable(true)
        } else if token_eq(f, arg_start, arg_end, &kw_false) {
            LineAction::SetHumanReadable(false)
        } else {
            LineAction::BadFlagArg
        }
    } else if token_eq(f, verb_start, verb_end, &kw_autosensor) {
        if token_eq(f, arg_start, arg_end, &kw_true) {
            LineAction::SetAutoSensor(true)
        } else if token_eq(f, arg_start, arg_end, &kw_false) {
            LineAction::SetAutoSensor(false)
        } else {
            LineAction::BadFlagArg
        }
    } else {
        LineAction::Unknown
    }
}

/// Everything one line of input gives rise to: responses to send back, a
/// command to queue, and flag changes to apply.
pub struct LineOutcome {
    /// The command to queue for the control loop, if any.
    pub command: Option<Command>,
    /// The responses to send back, in order.
    pub responses: Vec<Response>,
    /// The new value of the connection's human-readable flag, if changed.
    pub human_readable: Option<bool>,
    /// The new value of the process-wide auto-send flag, if changed.
    pub auto_send: Option<bool>,
}

/// Process one received line: fold it, parse it, and produce exactly what
/// the reader sends and queues for it.  A recognized command is
/// acknowledged with `CommandOk` (help also gets the command list); a flag
/// command with a non-boolean argument and an unrecognized line are
/// rejected with `BadCommand` carrying the folded line, followed by the
/// fitting explanation.
pub fn handle_line(line: &Vec<u8>) -> (r: LineOutcome)
    ensures
        ({
            let f = folded_spec(line@);
            let a = parse_action_spec(f);
            &&& (a == LineAction::Help ==> {
                &&& r.command is None
                &&& r.human_readable is None
                &&& r.auto_send is None
                &&& r.responses@.len() == 2
                &&& r.responses@[0] is CommandOk
                &&& (r.responses@[1] matches Response::UserMsg(m) && m@ == help_text_spec())
            })
            &&& (a == LineAction::StopNow ==> {
                &&& r.command == Some(Command::StopNow)
                &&& r.human_readable is None
                &&& r.auto_send is None
                &&& r.responses@.len() == 1
                &&& r.responses@[0] is CommandOk
            })
            &&& (a == LineAction::SensorNow ==> {
                &&& r.command == Some(Command::GetSensorState)
                &&& r.human_readable is None
                &&& r.auto_send is None
                &&& r.responses@.len() == 1
                &&& r.responses@[0] is CommandOk
            })
            &&& (forall|b: bool|
                a == LineAction::SetHumanReadable(b) ==> {
                    &&& r.command is None
                    &&& r.human_readable == Some(b)
                    &&& r.auto_send is None
                    &&& r.responses@.len() == 1
                    &&& r.responses@[0] is CommandOk
                })
            &&& (forall|b: bool|
                a == LineAction::SetAutoSensor(b) ==> {
                    &&& r.command is None
                    &&& r.human_readable is None
                    &&& r.auto_send == Some(b)
                    &&& r.responses@.len() == 1
                    &&& r.responses@[0] is CommandOk
                })
            &&& (a == LineAction::BadFlagArg ==> {
                &&& r.command is None
                &&& r.human_readable is None
                &&& r.auto_send is None
                &&& r.responses@.len() == 2
                &&& (r.responses@[0] matches Response::BadCommand(t) && t@ == f)
                &&& (r.responses@[1] matches Response::UserMsg(m) && m@ == bad_bool_text_spec())
            })
            &&& (a == LineAction::Unknown ==> {
                &&& r.command is None
                &&& r.human_readable is None
                &&& r.auto_send is None
                &&& r.responses@.len() == 2
                &&& (r.responses@[0] matches Response::BadCommand(t) && t@ == f)
                &&& (r.responses@[1] matches Response::UserMsg(m) && m@ == help_text_spec())
            })
        }),
{
    let folded: Vec<u8> = fold_line(line);
    let action: LineAction = parse_action(&folded);
    let mut responses: Vec<Response> = Vec::new();
    match action {
        LineAction::Help => {
            responses.push(Response::CommandOk);
            responses.push(Response::UserMsg(help_text()));
            LineOutcome { command: None, responses, human_readable: None, auto_send: None }
        },
        LineAction::StopNow => {
            responses.push(Response::CommandOk);
            LineOutcome {
                command: Some(Command::StopNow),
                responses,
                human_readable: None,
                auto_send: None,
            }
        },
        LineAction::SensorNow => {
            responses.push(Response::CommandOk);
            LineOutcome {
                command: Some(Command::GetSensorState),
                responses,
                human_readable: None,
                auto_send: None,
            }
        },
        LineAction::SetHumanReadable(b) => {
            responses.push(Response::CommandOk);
            LineOutcome { command: None, responses, human_readable: Some(b), auto_send: None }
        },
        LineAction::SetAutoSensor(b) => {
            responses.push(Response::CommandOk);
            LineOutcome { command: None, responses, human_readable: None, auto_send: Some(b) }
        },
        LineAction::BadFlagArg => {
            responses.push(Response::BadCommand(folded));
            responses.push(Response::UserMsg(bad_bool_text()));
            LineOutcome { command: None, responses, human_readable: None, auto_send: None }
        },
        LineAction::Unknown => {
            responses.push(Response::BadCommand(folded));
            responses.push(Response::UserMsg(help_text()));
            LineOutcome { command: None, responses, human_readable: None, auto_send: None }
        },
    }
}

/// The display flags shared between a connection's reader and writer.
pub struct TcpInterfaceState {
    /// Render responses as human-readable text rather than JSON.
    pub human_readable: bool,
    /// Push the sensor state to the client every cycle.
    pub auto_send_state: bool,
}

impl Default for TcpInterfaceState {
    /// Human-readable on, auto-send off.
    fn default() -> (r: TcpInterfaceState)
        ensures
            r == (TcpInterfaceState { human_readable: true, auto_send_state: false }),
    {
        TcpInterfaceState { human_readable: true, auto_send_state: false }
    }
}

} // verus!
