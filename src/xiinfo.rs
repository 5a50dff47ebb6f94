//! The `X-iinfo` cache-status header: a space-separated token stream read
//! positionally for its first two tokens and by marker tokens after that.

use vstd::prelude::*;
use vstd::string::*;
use crate::tokens::{join_spaces, join_tokens, same_text, split_spaces, split_tokens, texts};

verus! {

/// Pattern that finds the header line and captures its value.
pub const HEADER_PATTERN: &'static str = "X-iinfo:\\s*(.*)";

/// The decoded fields of one `X-iinfo` header; each is absent when the
/// token stream ends before it, or its marker never comes.
#[derive(Debug)]
pub struct XIInfo {
    pub req_and_resp_id: Option<String>,
    pub cache_status: Option<String>,
    pub response_time: Option<String>,
    pub query_string: Option<String>,
    pub resp_code_and_size: Option<String>,
    pub agent_code: Option<String>,
}

/// The fields of an `XIInfo` as character sequences.
pub struct XIInfoView {
    pub req_and_resp_id: Option<Seq<char>>,
    pub cache_status: Option<Seq<char>>,
    pub response_time: Option<Seq<char>>,
    pub query_string: Option<Seq<char>>,
    pub resp_code_and_size: Option<Seq<char>>,
    pub agent_code: Option<Seq<char>>,
}

pub open spec fn opt_text(o: Option<String>) -> Option<Seq<char>> {
    match o {
        Some(s) => Some(s@),
        None => None,
    }
}

impl View for XIInfo {
    type V = XIInfoView;

    open spec fn view(&self) -> XIInfoView {
        XIInfoView {
            req_and_resp_id: opt_text(self.req_and_resp_id),
            cache_status: opt_text(self.cache_status),
            response_time: opt_text(self.response_time),
            query_string: opt_text(self.query_string),
            resp_code_and_size: opt_text(self.resp_code_and_size),
            agent_code: opt_text(self.agent_code),
        }
    }
}

/// Where decoding stands after a prefix of the tokens: the fields so far,
/// the tokens gathered since the last marker, and whether the agent code
/// has ended the decoding.
pub struct DecodeState {
    pub info: XIInfoView,
    pub acc: Seq<Seq<char>>,
    pub stopped: bool,
}

pub open spec fn empty_view() -> XIInfoView {
    XIInfoView {
        req_and_resp_id: None,
        cache_status: None,
        response_time: None,
        query_string: None,
        resp_code_and_size: None,
        agent_code: None,
    }
}

pub open spec fn initial_state() -> DecodeState {
    DecodeState { info: empty_view(), acc: Seq::empty(), stopped: false }
}

pub open spec fn query_marker() -> Seq<char> {
    seq!['q']
}

pub open spec fn resp_marker() -> Seq<char> {
    seq!['r']
}

pub open spec fn is_agent_code(t: Seq<char>) -> bool {
    t.len() > 0 && t[0] == 'U'
}

/// The effect of the token `tok`, found at position `index`, on `st`.
/// Position 0 is the request/response id and 1 the cache status. After
/// that, `q` closes the response time and `r` the query string, each
/// marker opening the next field's tokens; a token starting with `U`
/// closes the response code and size, is the agent code, and ends the
/// decoding. Any other token, `RT` among them, is gathered.
pub open spec fn step(st: DecodeState, index: int, tok: Seq<char>) -> DecodeState {
    if st.stopped {
        st
    } else if index == 0 {
        DecodeState { info: XIInfoView { req_and_resp_id: Some(tok), ..st.info }, ..st }
    } else if index == 1 {
        DecodeState { info: XIInfoView { cache_status: Some(tok), ..st.info }, ..st }
    } else if tok == query_marker() {
        DecodeState {
            info: XIInfoView { response_time: Some(join_spaces(st.acc)), ..st.info },
            acc: seq![tok],
            ..st
        }
    } else if tok == resp_marker() {
        DecodeState {
            info: XIInfoView { query_string: Some(join_spaces(st.acc)), ..st.info },
            acc: seq![tok],
            ..st
        }
    } else if is_agent_code(tok) {
        DecodeState {
            info: XIInfoView {
                resp_code_and_size: Some(join_spaces(st.acc)),
                agent_code: Some(tok),
                ..st.info
            },
            acc: st.acc,
            stopped: true,
        }
    } else {
        DecodeState { acc: st.acc.push(tok), ..st }
    }
}

/// The state after the first `n` tokens of `toks`.
pub open spec fn decode_prefix(toks: Seq<Seq<char>>, n: int) -> DecodeState
    decreases n,
{
    if n <= 0 {
        initial_state()
    } else {
        step(decode_prefix(toks, n - 1), n - 1, toks[n - 1])
    }
}

/// The record decoded from a whole token sequence.
pub open spec fn decode_tokens(toks: Seq<Seq<char>>) -> XIInfoView {
    decode_prefix(toks, toks.len() as int).info
}

/// The record decoded from a header value.
pub open spec fn decoded_value(v: Seq<char>) -> XIInfoView {
    decode_tokens(split_spaces(v))
}

/// The text that opens the header line.
pub open spec fn header_name() -> Seq<char> {
    seq!['X', '-', 'i', 'i', 'n', 'f', 'o', ':']
}

/// The characters that `\s` matches: Unicode's `White_Space` property.
pub open spec fn is_white_space(c: char) -> bool {
    ('\t' <= c && c <= '\r') || c == ' ' || c == '\u{85}' || c == '\u{a0}' || c == '\u{1680}'
        || ('\u{2000}' <= c && c <= '\u{200a}') || c == '\u{2028}' || c == '\u{2029}' || c
        == '\u{202f}' || c == '\u{205f}' || c == '\u{3000}'
}

/// The first position at or after `i` where `header_name()` starts in `s`.
pub open spec fn first_header_name(s: Seq<char>, i: int) -> Option<int>
    decreases s.len() - i,
{
    if i < 0 || i + 8 > s.len() {
        None
    } else if s.subrange(i, i + 8) == header_name() {
        Some(i)
    } else {
        first_header_name(s, i + 1)
    }
}

/// The end of the run of white space in `s` that starts at `j`.
pub open spec fn white_space_end(s: Seq<char>, j: int) -> int
    decreases s.len() - j,
{
    if 0 <= j < s.len() && is_white_space(s[j]) {
        white_space_end(s, j + 1)
    } else {
        j
    }
}

/// The position of the first newline at or after `j`, or the end of `s`.
pub open spec fn line_end(s: Seq<char>, j: int) -> int
    decreases s.len() - j,
{
    if 0 <= j < s.len() && s[j] != '\n' {
        line_end(s, j + 1)
    } else {
        j
    }
}

/// The value that `HEADER_PATTERN` captures in `s` at its leftmost match:
/// after the first `X-iinfo:` and the white space that follows it, the
/// characters up to the next newline. `None` when `s` has no `X-iinfo:`.
pub open spec fn header_capture(s: Seq<char>) -> Option<Seq<char>> {
    match first_header_name(s, 0) {
        Some(i) => {
            let j = white_space_end(s, i + 8);
            Some(s.subrange(j, line_end(s, j)))
        },
        None => None,
    }
}

/// The record decoded from a header line, or `None` when the line holds
/// no `X-iinfo:`.
pub open spec fn decoded_header(line: Seq<char>) -> Option<XIInfoView> {
    match header_capture(line) {
        Some(v) => Some(decoded_value(v)),
        None => None,
    }
}

/// Relies on regex::Regex::new, which compiles `HEADER_PATTERN` without
/// error, and on Regex::captures, whose first group at the leftmost-first
/// match is what `header_capture` describes.
#[verifier::external_body]
fn capture_header_value(pattern: &str, text: &str) -> (r: Option<String>)
    requires
        pattern@ == HEADER_PATTERN@,
    ensures
        opt_text(r) == header_capture(text@),
{
    let re = regex::Regex::new(pattern).unwrap();
    let caps = re.captures(text)?;
    Some(caps.get(1)?.as_str().to_string())
}

proof fn lemma_positional_prefix(toks: Seq<Seq<char>>, n: int)
    requires
        0 <= n <= toks.len(),
    ensures
        n >= 1 ==> decode_prefix(toks, n).info.req_and_resp_id == Some(toks[0]),
        n < 1 ==> decode_prefix(toks, n).info.req_and_resp_id.is_none(),
        n >= 2 ==> decode_prefix(toks, n).info.cache_status == Some(toks[1]),
        n < 2 ==> decode_prefix(toks, n).info.cache_status.is_none(),
        n <= 2 ==> !decode_prefix(toks, n).stopped,
    decreases n,
{
    if n > 0 {
        lemma_positional_prefix(toks, n - 1);
    }
}

/// The first token is always the request/response id and the second the
/// cache status; with fewer tokens the missing ones stay absent.
pub proof fn lemma_positional_fields(toks: Seq<Seq<char>>)
    ensures
        toks.len() >= 1 ==> decode_tokens(toks).req_and_resp_id == Some(toks[0]),
        toks.len() < 1 ==> decode_tokens(toks).req_and_resp_id.is_none(),
        toks.len() >= 2 ==> decode_tokens(toks).cache_status == Some(toks[1]),
        toks.len() < 2 ==> decode_tokens(toks).cache_status.is_none(),
{
    lemma_positional_prefix(toks, toks.len() as int);
}

/// Decoding one header line twice gives the same record, field for field.
pub proof fn lemma_decode_deterministic(a: Seq<char>, b: Seq<char>)
    requires
        a == b,
    ensures
        decoded_header(a) == decoded_header(b),
        decoded_value(a) == decoded_value(b),
{
}

/// A `q` or `r` marker after the positional tokens stores the tokens
/// gathered before it, joined by spaces, in the field it closes, and the
/// tokens gathered next start with the marker itself.
pub proof fn lemma_marker_inclusion(toks: Seq<Seq<char>>, k: int)
    requires
        2 <= k < toks.len(),
        toks[k] == query_marker() || toks[k] == resp_marker(),
        !decode_prefix(toks, k).stopped,
    ensures
        decode_prefix(toks, k + 1).acc == seq![toks[k]],
        toks[k] == query_marker() ==> decode_prefix(toks, k + 1).info.response_time == Some(
            join_spaces(decode_prefix(toks, k).acc),
        ),
        toks[k] == resp_marker() ==> decode_prefix(toks, k + 1).info.query_string == Some(
            join_spaces(decode_prefix(toks, k).acc),
        ),
{
    assert(query_marker()[0] != resp_marker()[0]);
}

fn starts_with_agent_mark(t: &str) -> (r: bool)
    ensures
        r == is_agent_code(t@),
{
    let n = t.unicode_len();
    n > 0 && t.get_char(0) == 'U'
}

impl XIInfo {
    /// Decodes a header value (the text after `X-iinfo:`).
    pub fn decode_value(v: &str) -> (r: XIInfo)
        ensures
            r@ == decoded_value(v@),
    {
        let toks = split_tokens(v);
        let ghost tv = texts(toks@);
        let mut info = XIInfo {
            req_and_resp_id: None,
            cache_status: None,
            response_time: None,
            query_string: None,
            resp_code_and_size: None,
            agent_code: None,
        };
        let mut acc: Vec<String> = Vec::new();
        let mut stopped = false;
        let mut i: usize = 0;
        proof {
            assert(texts(acc@) =~= Seq::<Seq<char>>::empty());
            reveal_strlit("q");
            reveal_strlit("r");
        }
        while i < toks.len()
            invariant
                i <= toks.len(),
                tv == texts(toks@),
                tv == split_spaces(v@),
                decode_prefix(tv, i as int).info == info@,
                decode_prefix(tv, i as int).acc == texts(acc@),
                decode_prefix(tv, i as int).stopped == stopped,
                "q"@ == query_marker(),
                "r"@ == resp_marker(),
            decreases toks.len() - i,
        {
            let tok = &toks[i];
            let ghost st = decode_prefix(tv, i as int);
            assert(tok@ == tv[i as int]);
            if stopped {
            } else if i == 0 {
                info.req_and_resp_id = Some(tok.clone());
            } else if i == 1 {
                info.cache_status = Some(tok.clone());
            } else if same_text(tok.as_str(), "q") {
                info.response_time = Some(join_tokens(&acc));
                acc = Vec::new();
                acc.push(tok.clone());
                proof {
                    assert(texts(acc@) =~= seq![tok@]);
                }
            } else if same_text(tok.as_str(), "r") {
                info.query_string = Some(join_tokens(&acc));
                acc = Vec::new();
                acc.push(tok.clone());
                proof {
                    assert(texts(acc@) =~= seq![tok@]);
                }
            } else if starts_with_agent_mark(tok.as_str()) {
                info.resp_code_and_size = Some(join_tokens(&acc));
                info.agent_code = Some(tok.clone());
                stopped = true;
            } else {
                let ghost before = acc@;
                acc.push(tok.clone());
                proof {
                    assert(texts(acc@) =~= texts(before).push(tok@));
                }
            }
            proof {
                assert(decode_prefix(tv, i as int + 1) == step(st, i as int, tv[i as int]));
            }
            i = i + 1;
        }
        info
    }

    /// Decodes a whole header line: the value after `X-iinfo:` and the
    /// white space that follows it, to the end of the line. `None` when the
    /// line holds no `X-iinfo:`.
    pub fn parse(value: &String) -> (r: Option<XIInfo>)
        ensures
            match r {
                Some(info) => decoded_header(value@) == Some(info@),
                None => decoded_header(value@).is_none(),
            },
    {
        match capture_header_value(HEADER_PATTERN, value.as_str()) {
            Some(v) => Some(XIInfo::decode_value(v.as_str())),
            None => None,
        }
    }

    /// Reports every present cache status as a hit: the meaning of the
    /// status codes is not classified here, so this only requires one.
    pub fn is_cache_hit(&self) -> (r: bool)
        requires
            self.cache_status.is_some(),
        ensures
            r,
    {
        true
    }
}

} // verus!
