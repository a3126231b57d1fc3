use crate::authorize::AuthResponse;
use crate::error::ArcError;
use crate::text::str_eq;
use vstd::prelude::*;
use vstd::string::StrSliceExecFns;

verus! {

/// JSON whitespace.
pub open spec fn is_ws(c: char) -> bool {
    c == ' ' || c == '\t' || c == '\n' || c == '\r'
}

/// Scanner state for reading a token-response object: a single JSON object
/// of string-valued members (no escape sequences), whitespace allowed
/// between tokens.
pub enum ScanState {
    /// Before the opening brace.
    BeforeObj,
    /// Right after the opening brace: a first member or the closing brace.
    PairOrEnd,
    /// Inside a member key, `key` holding the characters read so far.
    InKey { key: Seq<char> },
    /// After the closing quote of a key, before the colon.
    AfterKey { key: Seq<char> },
    /// After the colon, before the opening quote of the value.
    BeforeVal { key: Seq<char> },
    /// Inside a member value, `val` holding the characters read so far.
    InVal { key: Seq<char>, val: Seq<char> },
    /// After a member: a comma continues, the closing brace ends.
    AfterVal,
    /// After a comma: the next member's key must follow.
    BeforeKey,
    /// After the closing brace; only whitespace may remain.
    Done,
}

/// One left-to-right reading of `s` from position `i` in state `st`, with
/// the `token` and `expires` member values seen so far (a repeated member
/// overwrites the earlier value). Yields the pair exactly when the whole
/// input is one well-formed object holding both members.
pub open spec fn scan(
    s: Seq<char>,
    i: int,
    st: ScanState,
    token: Option<Seq<char>>,
    expires: Option<Seq<char>>,
) -> Option<(Seq<char>, Seq<char>)>
    decreases s.len() - i,
{
    if i < 0 || i > s.len() {
        None
    } else if i == s.len() {
        if st is Done && token is Some && expires is Some {
            Some((token->0, expires->0))
        } else {
            None
        }
    } else {
        let c = s[i];
        match st {
            ScanState::BeforeObj => {
                if is_ws(c) {
                    scan(s, i + 1, ScanState::BeforeObj, token, expires)
                } else if c == '{' {
                    scan(s, i + 1, ScanState::PairOrEnd, token, expires)
                } else {
                    None
                }
            },
            ScanState::PairOrEnd => {
                if is_ws(c) {
                    scan(s, i + 1, ScanState::PairOrEnd, token, expires)
                } else if c == '"' {
                    scan(s, i + 1, ScanState::InKey { key: Seq::empty() }, token, expires)
                } else if c == '}' {
                    scan(s, i + 1, ScanState::Done, token, expires)
                } else {
                    None
                }
            },
            ScanState::InKey { key } => {
                if c == '"' {
                    scan(s, i + 1, ScanState::AfterKey { key }, token, expires)
                } else if c == '\\' {
                    None
                } else {
                    scan(s, i + 1, ScanState::InKey { key: key.push(c) }, token, expires)
                }
            },
            ScanState::AfterKey { key } => {
                if is_ws(c) {
                    scan(s, i + 1, ScanState::AfterKey { key }, token, expires)
                } else if c == ':' {
                    scan(s, i + 1, ScanState::BeforeVal { key }, token, expires)
                } else {
                    None
                }
            },
            ScanState::BeforeVal { key } => {
                if is_ws(c) {
                    scan(s, i + 1, ScanState::BeforeVal { key }, token, expires)
                } else if c == '"' {
                    scan(s, i + 1, ScanState::InVal { key, val: Seq::empty() }, token, expires)
                } else {
                    None
                }
            },
            ScanState::InVal { key, val } => {
                if c == '"' {
                    scan(
                        s,
                        i + 1,
                        ScanState::AfterVal,
                        if key == "token"@ {
                            Some(val)
                        } else {
                            token
                        },
                        if key == "expires"@ {
                            Some(val)
                        } else {
                            expires
                        },
                    )
                } else if c == '\\' {
                    None
                } else {
                    scan(s, i + 1, ScanState::InVal { key, val: val.push(c) }, token, expires)
                }
            },
            ScanState::AfterVal => {
                if is_ws(c) {
                    scan(s, i + 1, ScanState::AfterVal, token, expires)
                } else if c == ',' {
                    scan(s, i + 1, ScanState::BeforeKey, token, expires)
                } else if c == '}' {
                    scan(s, i + 1, ScanState::Done, token, expires)
                } else {
                    None
                }
            },
            ScanState::BeforeKey => {
                if is_ws(c) {
                    scan(s, i + 1, ScanState::BeforeKey, token, expires)
                } else if c == '"' {
                    scan(s, i + 1, ScanState::InKey { key: Seq::empty() }, token, expires)
                } else {
                    None
                }
            },
            ScanState::Done => {
                if is_ws(c) {
                    scan(s, i + 1, ScanState::Done, token, expires)
                } else {
                    None
                }
            },
        }
    }
}

/// The token-response reading of a whole body: the `token` and `expires`
/// member values of a single JSON object of string-valued members, or
/// nothing when the body has any other shape.
pub open spec fn parse_token_response(s: Seq<char>) -> Option<(Seq<char>, Seq<char>)> {
    scan(s, 0, ScanState::BeforeObj, None, None)
}

/// Executable mirror of `ScanState`; the key and value read so far are kept
/// as index ranges into the input.
#[derive(Clone, Copy)]
enum Phase {
    BeforeObj,
    PairOrEnd,
    InKey,
    AfterKey,
    BeforeVal,
    InVal,
    AfterVal,
    BeforeKey,
    Done,
}

/// The scanner state that a phase with its index registers stands for.
spec fn abs_state(phase: Phase, s: Seq<char>, ks: int, ke: int, vs: int, i: int) -> ScanState {
    match phase {
        Phase::BeforeObj => ScanState::BeforeObj,
        Phase::PairOrEnd => ScanState::PairOrEnd,
        Phase::InKey => ScanState::InKey { key: s.subrange(ks, i) },
        Phase::AfterKey => ScanState::AfterKey { key: s.subrange(ks, ke) },
        Phase::BeforeVal => ScanState::BeforeVal { key: s.subrange(ks, ke) },
        Phase::InVal => ScanState::InVal { key: s.subrange(ks, ke), val: s.subrange(vs, i) },
        Phase::AfterVal => ScanState::AfterVal,
        Phase::BeforeKey => ScanState::BeforeKey,
        Phase::Done => ScanState::Done,
    }
}

/// The member value seen so far, as the scanner sees it.
spec fn omap(o: Option<String>) -> Option<Seq<char>> {
    match o {
        Some(v) => Some(v@),
        None => None,
    }
}

/// Parse a token-response body, exactly as `parse_token_response` reads it.
pub fn parse_token_fields(s: &str) -> (r: Option<AuthResponse>)
    ensures
        r is Some <==> parse_token_response(s@) is Some,
        r is Some ==> (r->0.token@ == (parse_token_response(s@)->0).0 && r->0.expires@ == (
        parse_token_response(s@)->0).1),
{
    let n = s.unicode_len();
    let mut i: usize = 0;
    let mut phase = Phase::BeforeObj;
    let mut ks: usize = 0;
    let mut ke: usize = 0;
    let mut vs: usize = 0;
    let mut token: Option<String> = None;
    let mut expires: Option<String> = None;
    while i < n
        invariant
            n == s@.len(),
            i <= n,
            phase is InKey ==> ks <= i,
            (phase is AfterKey || phase is BeforeVal || phase is InVal) ==> ks <= ke && ke <= i,
            phase is InVal ==> ke <= vs && vs <= i,
            scan(
                s@,
                i as int,
                abs_state(phase, s@, ks as int, ke as int, vs as int, i as int),
                omap(token),
                omap(expires),
            ) == parse_token_response(s@),
        decreases n - i,
    {
        let ghost pre = abs_state(phase, s@, ks as int, ke as int, vs as int, i as int);
        let c = s.get_char(i);
        let ws = c == ' ' || c == '\t' || c == '\n' || c == '\r';
        match phase {
            Phase::BeforeObj => {
                if ws {
                } else if c == '{' {
                    phase = Phase::PairOrEnd;
                } else {
                    return None;
                }
            },
            Phase::PairOrEnd => {
                if ws {
                } else if c == '"' {
                    phase = Phase::InKey;
                    ks = i + 1;
                } else if c == '}' {
                    phase = Phase::Done;
                } else {
                    return None;
                }
            },
            Phase::InKey => {
                if c == '"' {
                    phase = Phase::AfterKey;
                    ke = i;
                } else if c == '\\' {
                    return None;
                } else {
                    proof {
                        assert(s@.subrange(ks as int, i + 1) =~= s@.subrange(
                            ks as int,
                            i as int,
                        ).push(s@[i as int]));
                    }
                }
            },
            Phase::AfterKey => {
                if ws {
                } else if c == ':' {
                    phase = Phase::BeforeVal;
                } else {
                    return None;
                }
            },
            Phase::BeforeVal => {
                if ws {
                } else if c == '"' {
                    phase = Phase::InVal;
                    vs = i + 1;
                } else {
                    return None;
                }
            },
            Phase::InVal => {
                if c == '"' {
                    let keystr = s.substring_char(ks, ke);
                    let valstr = s.substring_char(vs, i);
                    if str_eq(keystr, "token") {
                        token = Some(valstr.to_owned());
                    }
                    if str_eq(keystr, "expires") {
                        expires = Some(valstr.to_owned());
                    }
                    phase = Phase::AfterVal;
                } else if c == '\\' {
                    return None;
                } else {
                    proof {
                        assert(s@.subrange(vs as int, i + 1) =~= s@.subrange(
                            vs as int,
                            i as int,
                        ).push(s@[i as int]));
                    }
                }
            },
            Phase::AfterVal => {
                if ws {
                } else if c == ',' {
                    phase = Phase::BeforeKey;
                } else if c == '}' {
                    phase = Phase::Done;
                } else {
                    return None;
                }
            },
            Phase::BeforeKey => {
                if ws {
                } else if c == '"' {
                    phase = Phase::InKey;
                    ks = i + 1;
                } else {
                    return None;
                }
            },
            Phase::Done => {
                if ws {
                } else {
                    return None;
                }
            },
        }
        proof {
            if (phase is InKey || phase is InVal) && ks > i {
                assert(s@.subrange(ks as int, i + 1) =~= Seq::<char>::empty());
            }
            if phase is InVal && vs > i {
                assert(s@.subrange(vs as int, i + 1) =~= Seq::<char>::empty());
            }
        }
        i = i + 1;
    }
    match phase {
        Phase::Done => {
            if token.is_some() && expires.is_some() {
                let t = token.unwrap();
                let e = expires.unwrap();
                proof {
                    assert(parse_token_response(s@) == Some((t@, e@)));
                }
                Some(AuthResponse { token: t, expires: e })
            } else {
                None
            }
        },
        _ => None,
    }
}

/// Interpret one HTTP exchange with a token endpoint: a non-success status
/// is a remote rejection whatever the body holds; a success status yields
/// the parsed credential, or a decode failure when the body has any other
/// shape.
pub fn interpret_token_response(status: u16, body: &str) -> (r: Result<AuthResponse, ArcError>)
    ensures
        r is Ok <==> (200 <= status < 300 && parse_token_response(body@) is Some),
        !(200 <= status < 300) ==> (r is Err && r->Err_0 is AuthError),
        (200 <= status < 300 && parse_token_response(body@) is None) ==> (r is Err && r->Err_0
            is DecodeError),
        r is Ok ==> (r->Ok_0.token@ == (parse_token_response(body@)->0).0 && r->Ok_0.expires@ == (
        parse_token_response(body@)->0).1),
{
    if !(200 <= status && status < 300) {
        return Err(ArcError::AuthError);
    }
    match parse_token_fields(body) {
        Some(resp) => Ok(resp),
        None => Err(ArcError::DecodeError),
    }
}

} // verus!
