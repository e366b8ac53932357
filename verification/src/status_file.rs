//! The GPU status file: an externally produced JSON document listing each
//! GPU device and whether it is available for the mining workload.
//!
//! The accepted document is the canonical form this crate's producers write:
//! optional whitespace around tokens, an array of records, each record the
//! two keys `device_name` (a string without `"`, `\` or escapes) and
//! `is_available` (a bool), in that order. A missing file and a document
//! outside this form both read as the empty device list; neither is an
//! error, and nothing previously cached survives either case.

use vstd::prelude::*;

use crate::text::matches_at;
use crate::text::matches_at_exec;

verus! {

/// One GPU device's eligibility for use, as the status file records it.
#[derive(Debug)]
pub struct GpuStatus {
    pub device_name: String,
    pub is_available: bool,
}

/// The mathematical value of a `GpuStatus`.
pub struct GpuStatusView {
    pub device_name: Seq<char>,
    pub is_available: bool,
}

impl View for GpuStatus {
    type V = GpuStatusView;

    open spec fn view(&self) -> GpuStatusView {
        GpuStatusView { device_name: self.device_name@, is_available: self.is_available }
    }
}

impl DeepView for GpuStatus {
    type V = GpuStatusView;

    open spec fn deep_view(&self) -> GpuStatusView {
        self.view()
    }
}

impl Clone for GpuStatus {
    fn clone(&self) -> (r: Self)
        ensures
            r@ == self@,
    {
        GpuStatus { device_name: self.device_name.clone(), is_available: self.is_available }
    }
}

/// The persisted shape of the status file: the ordered device records.
#[derive(Debug)]
pub struct GpuStatusFile {
    pub gpu_devices: Vec<GpuStatus>,
}

/// The whitespace the document may carry between tokens.
pub open spec fn is_json_ws(c: char) -> bool {
    c == ' ' || c == '\n' || c == '\r' || c == '\t'
}

/// The first position at or after `i` holding no whitespace.
pub open spec fn skip_ws(s: Seq<char>, i: int) -> int
    decreases s.len() - i,
{
    if 0 <= i < s.len() && is_json_ws(s[i]) {
        skip_ws(s, i + 1)
    } else {
        i
    }
}

/// Skipping whitespace never moves backwards nor past the end.
pub proof fn lemma_skip_ws_bounds(s: Seq<char>, i: int)
    ensures
        i <= skip_ws(s, i),
        0 <= i <= s.len() ==> skip_ws(s, i) <= s.len(),
    decreases s.len() - i,
{
    if 0 <= i < s.len() && is_json_ws(s[i]) {
        lemma_skip_ws_bounds(s, i + 1);
    }
}

/// The closing quote of a string whose content starts at `i`: the first
/// `"` at or after `i`, provided everything before it is a plain character
/// (no escapes, in the canonical form).
pub open spec fn string_end(s: Seq<char>, i: int) -> Option<int>
    decreases s.len() - i,
{
    if 0 <= i < s.len() {
        if s[i] == '"' {
            Some(i)
        } else if s[i] == '\\' {
            None
        } else {
            string_end(s, i + 1)
        }
    } else {
        None
    }
}

/// A found closing quote lies between the content start and the end.
pub proof fn lemma_string_end_bounds(s: Seq<char>, i: int)
    ensures
        string_end(s, i) matches Some(j) ==> i <= j < s.len(),
    decreases s.len() - i,
{
    if 0 <= i < s.len() && s[i] != '"' && s[i] != '\\' {
        lemma_string_end_bounds(s, i + 1);
    }
}

/// A JSON string at `i`: its content and the position after the closing
/// quote.
pub open spec fn parse_string(s: Seq<char>, i: int) -> Option<(Seq<char>, int)> {
    if 0 <= i < s.len() && s[i] == '"' {
        match string_end(s, i + 1) {
            Some(j) => Some((s.subrange(i + 1, j), j + 1)),
            None => None,
        }
    } else {
        None
    }
}

/// A JSON bool at `i` and the position after it.
pub open spec fn parse_bool(s: Seq<char>, i: int) -> Option<(bool, int)> {
    if matches_at(s, "true"@, i) {
        Some((true, i + "true"@.len()))
    } else if matches_at(s, "false"@, i) {
        Some((false, i + "false"@.len()))
    } else {
        None
    }
}

/// One device record at `i` (leading whitespace included) and the position
/// after its closing brace.
pub open spec fn parse_record(s: Seq<char>, i: int) -> Option<(GpuStatusView, int)> {
    let a = skip_ws(s, i);
    if 0 <= a < s.len() && s[a] == '{' {
        let b = skip_ws(s, a + 1);
        if matches_at(s, "\"device_name\""@, b) {
            let c = skip_ws(s, b + "\"device_name\""@.len());
            if 0 <= c < s.len() && s[c] == ':' {
                let d = skip_ws(s, c + 1);
                match parse_string(s, d) {
                    Some((name, e)) => {
                        let f = skip_ws(s, e);
                        if 0 <= f < s.len() && s[f] == ',' {
                            let g = skip_ws(s, f + 1);
                            if matches_at(s, "\"is_available\""@, g) {
                                let h = skip_ws(s, g + "\"is_available\""@.len());
                                if 0 <= h < s.len() && s[h] == ':' {
                                    let k = skip_ws(s, h + 1);
                                    match parse_bool(s, k) {
                                        Some((avail, m)) => {
                                            let p = skip_ws(s, m);
                                            if 0 <= p < s.len() && s[p] == '}' {
                                                Some(
                                                    (
                                                        GpuStatusView {
                                                            device_name: name,
                                                            is_available: avail,
                                                        },
                                                        p + 1,
                                                    ),
                                                )
                                            } else {
                                                None
                                            }
                                        },
                                        None => None,
                                    }
                                } else {
                                    None
                                }
                            } else {
                                None
                            }
                        } else {
                            None
                        }
                    },
                    None => None,
                }
            } else {
                None
            }
        } else {
            None
        }
    } else {
        None
    }
}

/// A parsed record always makes progress and stays within the document.
pub proof fn lemma_parse_record_bounds(s: Seq<char>, i: int)
    ensures
        parse_record(s, i) matches Some(r) ==> i < r.1 <= s.len(),
{
    lemma_skip_ws_bounds(s, i);
    let a = skip_ws(s, i);
    if 0 <= a < s.len() && s[a] == '{' {
        lemma_skip_ws_bounds(s, a + 1);
        let b = skip_ws(s, a + 1);
        if matches_at(s, "\"device_name\""@, b) {
            lemma_skip_ws_bounds(s, b + "\"device_name\""@.len());
            let c = skip_ws(s, b + "\"device_name\""@.len());
            if 0 <= c < s.len() && s[c] == ':' {
                lemma_skip_ws_bounds(s, c + 1);
                let d = skip_ws(s, c + 1);
                if 0 <= d < s.len() && s[d] == '"' {
                    lemma_string_end_bounds(s, d + 1);
                    match string_end(s, d + 1) {
                        Some(j) => {
                            let e = j + 1;
                            lemma_skip_ws_bounds(s, e);
                            let f = skip_ws(s, e);
                            if 0 <= f < s.len() && s[f] == ',' {
                                lemma_skip_ws_bounds(s, f + 1);
                                let g = skip_ws(s, f + 1);
                                if matches_at(s, "\"is_available\""@, g) {
                                    lemma_skip_ws_bounds(s, g + "\"is_available\""@.len());
                                    let h = skip_ws(s, g + "\"is_available\""@.len());
                                    if 0 <= h < s.len() && s[h] == ':' {
                                        lemma_skip_ws_bounds(s, h + 1);
                                        let k = skip_ws(s, h + 1);
                                        match parse_bool(s, k) {
                                            Some(bp) => {
                                                lemma_skip_ws_bounds(s, bp.1);
                                            },
                                            None => {},
                                        }
                                    }
                                }
                            }
                        },
                        None => {},
                    }
                }
            }
        }
    }
}

/// One or more comma-separated records followed by the closing bracket,
/// starting just after `[` or a `,`.
pub open spec fn parse_items(s: Seq<char>, i: int) -> Option<(Seq<GpuStatusView>, int)>
    decreases s.len() - i,
        via parse_items_decreases
{
    match parse_record(s, i) {
        Some((v, j)) => {
            let k = skip_ws(s, j);
            if 0 <= k < s.len() && s[k] == ',' {
                match parse_items(s, k + 1) {
                    Some((rest, m)) => Some((seq![v] + rest, m)),
                    None => None,
                }
            } else if 0 <= k < s.len() && s[k] == ']' {
                Some((seq![v], k + 1))
            } else {
                None
            }
        },
        None => None,
    }
}

#[via_fn]
proof fn parse_items_decreases(s: Seq<char>, i: int) {
    lemma_parse_record_bounds(s, i);
    match parse_record(s, i) {
        Some(rp) => {
            lemma_skip_ws_bounds(s, rp.1);
        },
        None => {},
    }
}

/// The whole document: whitespace, a bracketed list of records, whitespace,
/// end of input. Anything else is not a status document.
pub open spec fn parse_gpu_status(s: Seq<char>) -> Option<Seq<GpuStatusView>> {
    let i = skip_ws(s, 0);
    if 0 <= i < s.len() && s[i] == '[' {
        let j = skip_ws(s, i + 1);
        if 0 <= j < s.len() && s[j] == ']' {
            if skip_ws(s, j + 1) == s.len() {
                Some(Seq::empty())
            } else {
                None
            }
        } else {
            match parse_items(s, i + 1) {
                Some((vs, m)) => if skip_ws(s, m) == s.len() {
                    Some(vs)
                } else {
                    None
                },
                None => None,
            }
        }
    } else {
        None
    }
}

/// Moves past whitespace.
fn skip_ws_exec(s: &str, len: usize, i: usize) -> (j: usize)
    requires
        len == s@.len(),
        i <= len,
    ensures
        j == skip_ws(s@, i as int),
        i <= j <= len,
    decreases len - i,
{
    if i < len {
        let c = s.get_char(i);
        if c == ' ' || c == '\n' || c == '\r' || c == '\t' {
            return skip_ws_exec(s, len, i + 1);
        }
    }
    i
}

/// Finds the closing quote of a string whose content starts at `i`.
fn string_end_exec(s: &str, len: usize, i: usize) -> (r: Option<usize>)
    requires
        len == s@.len(),
        i <= len,
    ensures
        match r {
            Some(j) => string_end(s@, i as int) == Some(j as int) && i <= j < len,
            None => string_end(s@, i as int) is None,
        },
    decreases len - i,
{
    if i < len {
        let c = s.get_char(i);
        if c == '"' {
            Some(i)
        } else if c == '\\' {
            None
        } else {
            string_end_exec(s, len, i + 1)
        }
    } else {
        None
    }
}

/// Reads a JSON string at `i`.
fn parse_string_exec(s: &str, len: usize, i: usize) -> (r: Option<(String, usize)>)
    requires
        len == s@.len(),
        i <= len,
    ensures
        match r {
            Some(p) => parse_string(s@, i as int) matches Some(q) && q.0 == p.0@ && q.1
                == p.1 as int && i < p.1 <= len,
            None => parse_string(s@, i as int) is None,
        },
{
    if i < len && s.get_char(i) == '"' {
        match string_end_exec(s, len, i + 1) {
            Some(j) => {
                let name = s.substring_char(i + 1, j).to_owned();
                Some((name, j + 1))
            },
            None => None,
        }
    } else {
        None
    }
}

/// Reads a JSON bool at `i`.
fn parse_bool_exec(s: &str, len: usize, i: usize) -> (r: Option<(bool, usize)>)
    requires
        len == s@.len(),
        i <= len,
    ensures
        match r {
            Some(p) => parse_bool(s@, i as int) == Some((p.0, p.1 as int)) && i < p.1 <= len,
            None => parse_bool(s@, i as int) is None,
        },
{
    proof {
        reveal_strlit("true");
        reveal_strlit("false");
    }
    let lit_true = "true";
    let tl = lit_true.unicode_len();
    if tl <= len - i && matches_at_exec(s, lit_true, i, len, tl) {
        return Some((true, i + tl));
    }
    let lit_false = "false";
    let fl = lit_false.unicode_len();
    if fl <= len - i && matches_at_exec(s, lit_false, i, len, fl) {
        return Some((false, i + fl));
    }
    None
}

/// Reads one device record at `i`.
fn parse_record_exec(s: &str, len: usize, i: usize) -> (r: Option<(GpuStatus, usize)>)
    requires
        len == s@.len(),
        i <= len,
    ensures
        match r {
            Some(p) => parse_record(s@, i as int) matches Some(q) && q.0 == p.0@ && q.1
                == p.1 as int && i < p.1 <= len,
            None => parse_record(s@, i as int) is None,
        },
{
    let a = skip_ws_exec(s, len, i);
    if !(a < len && s.get_char(a) == '{') {
        return None;
    }
    let b = skip_ws_exec(s, len, a + 1);
    let key_name = "\"device_name\"";
    let key_name_len = key_name.unicode_len();
    if !(key_name_len <= len - b && matches_at_exec(s, key_name, b, len, key_name_len)) {
        return None;
    }
    let c = skip_ws_exec(s, len, b + key_name_len);
    if !(c < len && s.get_char(c) == ':') {
        return None;
    }
    let d = skip_ws_exec(s, len, c + 1);
    let name = match parse_string_exec(s, len, d) {
        Some(p) => p,
        None => {
            return None;
        },
    };
    let e = name.1;
    let f = skip_ws_exec(s, len, e);
    if !(f < len && s.get_char(f) == ',') {
        return None;
    }
    let g = skip_ws_exec(s, len, f + 1);
    let key_avail = "\"is_available\"";
    let key_avail_len = key_avail.unicode_len();
    if !(key_avail_len <= len - g && matches_at_exec(s, key_avail, g, len, key_avail_len)) {
        return None;
    }
    let h = skip_ws_exec(s, len, g + key_avail_len);
    if !(h < len && s.get_char(h) == ':') {
        return None;
    }
    let k = skip_ws_exec(s, len, h + 1);
    let avail = match parse_bool_exec(s, len, k) {
        Some(p) => p,
        None => {
            return None;
        },
    };
    let p = skip_ws_exec(s, len, avail.1);
    if !(p < len && s.get_char(p) == '}') {
        return None;
    }
    Some((GpuStatus { device_name: name.0, is_available: avail.0 }, p + 1))
}

/// Reads the records of a non-empty list, starting just after `[` or `,`.
fn parse_items_exec(s: &str, len: usize, i: usize) -> (r: Option<(Vec<GpuStatus>, usize)>)
    requires
        len == s@.len(),
        i <= len,
    ensures
        match r {
            Some(p) => parse_items(s@, i as int) matches Some(q) && q.0 == p.0.deep_view() && q.1
                == p.1 as int && i < p.1 <= len,
            None => parse_items(s@, i as int) is None,
        },
    decreases len - i,
{
    let first = match parse_record_exec(s, len, i) {
        Some(p) => p,
        None => {
            return None;
        },
    };
    let k = skip_ws_exec(s, len, first.1);
    if k < len && s.get_char(k) == ',' {
        match parse_items_exec(s, len, k + 1) {
            Some(p) => {
                let (mut rest, m) = p;
                let ghost old_rest = rest.deep_view();
                rest.insert(0, first.0);
                proof {
                    assert(rest.deep_view() =~= seq![first.0@] + old_rest);
                }
                Some((rest, m))
            },
            None => None,
        }
    } else if k < len && s.get_char(k) == ']' {
        let mut one: Vec<GpuStatus> = Vec::new();
        one.push(first.0);
        proof {
            assert(one.deep_view() =~= seq![first.0@]);
        }
        Some((one, k + 1))
    } else {
        None
    }
}

/// Reads a whole status document. `None` is any document outside the
/// canonical form, never a panic.
pub fn parse_gpu_status_file(s: &str) -> (r: Option<Vec<GpuStatus>>)
    ensures
        match r {
            Some(v) => parse_gpu_status(s@) == Some(v.deep_view()),
            None => parse_gpu_status(s@) is None,
        },
{
    let len = s.unicode_len();
    let i = skip_ws_exec(s, len, 0);
    if !(i < len && s.get_char(i) == '[') {
        return None;
    }
    let j = skip_ws_exec(s, len, i + 1);
    if j < len && s.get_char(j) == ']' {
        if skip_ws_exec(s, len, j + 1) == len {
            let none: Vec<GpuStatus> = Vec::new();
            proof {
                assert(none.deep_view() =~= Seq::<GpuStatusView>::empty());
            }
            Some(none)
        } else {
            None
        }
    } else {
        match parse_items_exec(s, len, i + 1) {
            Some(p) => {
                if skip_ws_exec(s, len, p.1) == len {
                    Some(p.0)
                } else {
                    None
                }
            },
            None => None,
        }
    }
}

/// What a read of the status file yields: nothing for a missing file,
/// nothing for a document outside the canonical form, and the records in
/// file order otherwise.
pub open spec fn devices_of_content(content: Option<Seq<char>>) -> Seq<GpuStatusView> {
    match content {
        None => Seq::empty(),
        Some(s) => match parse_gpu_status(s) {
            Some(v) => v,
            None => Seq::empty(),
        },
    }
}

/// The device list read from the status file's content (`None` when the
/// file does not exist). Both failure shapes degrade to the empty list.
pub fn read_gpu_devices_from(content: &Option<String>) -> (r: Vec<GpuStatus>)
    ensures
        r.deep_view() == devices_of_content(content.deep_view()),
{
    let empty: Vec<GpuStatus> = Vec::new();
    proof {
        assert(empty.deep_view() =~= Seq::<GpuStatusView>::empty());
    }
    match content {
        None => empty,
        Some(s) => match parse_gpu_status_file(s.as_str()) {
            Some(v) => v,
            None => empty,
        },
    }
}

} // verus!
