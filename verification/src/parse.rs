//! Surface syntax of configuration documents. Two equivalent textual
//! shapes are accepted: a table header per component
//! (`[sources.in]` followed by `key = value` lines) and an inline table
//! per component under a namespace header (`[sources]` then
//! `in = {key = value, ...}`). Both produce the same raw document.
//! Statement separators are whitespace-insensitive; `#` starts a comment.
//! Syntax errors are fatal and name the offending line.

use vstd::prelude::*;

use crate::config::Role;
use crate::text::{dec_seq, dec_string};

verus! {

/// A scalar or string-array value on the right of `=`.
pub enum RawValue {
    Str(String),
    Int(i64),
    Bool(bool),
    StrArr(Vec<String>),
}

/// One `key = value` binding of a component.
pub struct RawEntry {
    pub key: String,
    pub value: RawValue,
}

/// One component as written: its namespace, its name, and its bindings in
/// declaration order.
pub struct RawComponent {
    pub role: Role,
    pub name: String,
    pub entries: Vec<RawEntry>,
}

/// A syntactically well-formed document: components in declaration order.
pub struct RawDocument {
    pub comps: Vec<RawComponent>,
}

/// One lexical token.
pub enum Tok {
    LBracket,
    RBracket,
    LBrace,
    RBrace,
    Equals,
    Comma,
    Period,
    Text(String),
    Word(String),
    Num(i64),
    Truth(bool),
}

/// A token and the line it starts on.
pub struct Token {
    pub tok: Tok,
    pub line: usize,
}

/// `expected <what>, found <what> at line <n>`
pub open spec fn syntax_err_msg(expected: Seq<char>, found: Seq<char>, line: int) -> Seq<char> {
    "expected "@ + expected + ", found "@ + found + " at line "@ + dec_seq(line)
}

/// Build a syntax error message.
pub(crate) fn syntax_err_exec(expected: &str, found: &str, line: usize) -> (r: String)
    ensures
        r@ == syntax_err_msg(expected@, found@, line as int),
{
    let mut s = "expected ".to_owned();
    s.append(expected);
    s.append(", found ");
    s.append(found);
    s.append(" at line ");
    let d = dec_string(line);
    s.append(d.as_str());
    proof {
        assert(s@ =~= syntax_err_msg(expected@, found@, line as int));
    }
    s
}

/// The phrase naming a token in a syntax error.
fn tok_name(t: &Tok) -> (r: &'static str) {
    match t {
        Tok::LBracket => "a left bracket",
        Tok::RBracket => "a right bracket",
        Tok::LBrace => "a left brace",
        Tok::RBrace => "a right brace",
        Tok::Equals => "an equals",
        Tok::Comma => "a comma",
        Tok::Period => "a period",
        Tok::Text(_) => "a string",
        Tok::Word(_) => "an identifier",
        Tok::Num(_) => "an integer",
        Tok::Truth(_) => "a boolean",
    }
}

/// `duplicate key `<key>` at line <n>`
pub open spec fn dup_key_msg(key: Seq<char>, line: int) -> Seq<char> {
    "duplicate key `"@ + key + "` at line "@ + dec_seq(line)
}

/// Build a duplicate-key error message.
fn dup_key_exec(key: &str, line: usize) -> (r: String)
    ensures
        r@ == dup_key_msg(key@, line as int),
{
    let mut s = "duplicate key `".to_owned();
    s.append(key);
    s.append("` at line ");
    let d = dec_string(line);
    s.append(d.as_str());
    proof {
        assert(s@ =~= dup_key_msg(key@, line as int));
    }
    s
}

/// Whether some binding already uses the key.
fn has_binding(entries: &Vec<RawEntry>, k: &str) -> (r: bool) {
    let mut i: usize = 0;
    while i < entries.len()
        invariant
            i <= entries@.len(),
        decreases entries@.len() - i,
    {
        if crate::text::eq_str(entries[i].key.as_str(), k) {
            return true;
        }
        i = i + 1;
    }
    false
}

/// Whether the namespace already holds a component of the name.
fn has_component(comps: &Vec<RawComponent>, role: Role, name: &str) -> (r: bool) {
    let mut i: usize = 0;
    while i < comps.len()
        invariant
            i <= comps@.len(),
        decreases comps@.len() - i,
    {
        if comps[i].role == role && crate::text::eq_str(comps[i].name.as_str(), name) {
            return true;
        }
        i = i + 1;
    }
    false
}

/// Whether the character may appear in a bare word (keys, numbers,
/// booleans).
fn is_bare(ch: char) -> (r: bool) {
    let u = ch as u32;
    (u >= 97 && u <= 122) || (u >= 65 && u <= 90) || (u >= 48 && u <= 57) || u == 95 || u == 45
}

/// Whether the character is a decimal digit.
fn is_digit(ch: char) -> (r: bool) {
    let u = ch as u32;
    u >= 48 && u <= 57
}

/// Split the document into tokens, or report the line of the first
/// malformed piece of text.
#[verifier::loop_isolation(false)]
fn tokenize(s: &str) -> (r: Result<(Vec<Token>, usize), String>)
    requires
        s@.len() < usize::MAX,
    ensures
        r matches Ok(p) ==> p.1 >= 1,
{
    let n = s.unicode_len();
    let mut toks: Vec<Token> = Vec::new();
    let mut i: usize = 0;
    let mut line: usize = 1;
    while i < n
        invariant
            i <= n,
            n == s@.len(),
            1 <= line <= i + 1,
        decreases n - i,
    {
        let ch = s.get_char(i);
        if ch == ' ' || ch == '\t' || ch == '\r' {
            i = i + 1;
        } else if ch == '\n' {
            line = line + 1;
            i = i + 1;
        } else if ch == '#' {
            let ghost i0 = i as int;
            i = i + 1;
            while i < n && s.get_char(i) != '\n'
                invariant
                    i0 < i <= n,
                    1 <= line <= i + 1,
                decreases n - i,
            {
                i = i + 1;
            }
        } else if ch == '[' {
            toks.push(Token { tok: Tok::LBracket, line });
            i = i + 1;
        } else if ch == ']' {
            toks.push(Token { tok: Tok::RBracket, line });
            i = i + 1;
        } else if ch == '{' {
            toks.push(Token { tok: Tok::LBrace, line });
            i = i + 1;
        } else if ch == '}' {
            toks.push(Token { tok: Tok::RBrace, line });
            i = i + 1;
        } else if ch == '=' {
            toks.push(Token { tok: Tok::Equals, line });
            i = i + 1;
        } else if ch == ',' {
            toks.push(Token { tok: Tok::Comma, line });
            i = i + 1;
        } else if ch == '.' {
            toks.push(Token { tok: Tok::Period, line });
            i = i + 1;
        } else if ch == '"' {
            let start = i + 1;
            let mut j = start;
            while j < n && s.get_char(j) != '"' && s.get_char(j) != '\n'
                invariant
                    start <= j <= n,
                decreases n - j,
            {
                j = j + 1;
            }
            if j >= n {
                return Err(syntax_err_exec("a string terminator", "eof", line));
            }
            if s.get_char(j) == '\n' {
                return Err(syntax_err_exec("a string terminator", "a newline", line));
            }
            let text = s.substring_char(start, j).to_owned();
            toks.push(Token { tok: Tok::Text(text), line });
            i = j + 1;
        } else if is_bare(ch) {
            let start = i;
            let mut j = i;
            while j < n && is_bare(s.get_char(j))
                invariant
                    start <= j <= n,
                decreases n - j,
            {
                j = j + 1;
            }
            let word = s.substring_char(start, j).to_owned();
            // classify: number, boolean, or bare key
            let wlen = word.as_str().unicode_len();
            let mut all_digits = wlen > 0;
            let mut k: usize = if wlen > 0 && word.as_str().get_char(0) == '-' {
                if wlen == 1 {
                    all_digits = false;
                }
                1
            } else {
                0
            };
            while k < wlen
                invariant
                    k <= wlen,
                    wlen == word@.len(),
                decreases wlen - k,
            {
                if !is_digit(word.as_str().get_char(k)) {
                    all_digits = false;
                }
                k = k + 1;
            }
            if all_digits && wlen > 0 {
                let neg = word.as_str().get_char(0) == '-';
                let mut acc: i64 = 0;
                let mut m: usize = if neg {
                    1
                } else {
                    0
                };
                while m < wlen
                    invariant
                        m <= wlen,
                        wlen == word@.len(),
                        0 <= acc <= 922337203685477579,
                    decreases wlen - m,
                {
                    let ch2 = word.as_str().get_char(m);
                    let u2 = ch2 as u32;
                    let d2: i64 = if u2 >= 48 && u2 <= 57 {
                        (u2 - 48) as i64
                    } else {
                        0
                    };
                    if acc > 922337203685477579 / 10 {
                        return Err(syntax_err_exec("a smaller number", "an integer", line));
                    }
                    acc = acc * 10 + d2;
                    if acc > 922337203685477579 {
                        return Err(syntax_err_exec("a smaller number", "an integer", line));
                    }
                    m = m + 1;
                }
                let v: i64 = if neg {
                    -acc
                } else {
                    acc
                };
                toks.push(Token { tok: Tok::Num(v), line });
            } else if crate::text::eq_str(word.as_str(), "true") {
                toks.push(Token { tok: Tok::Truth(true), line });
            } else if crate::text::eq_str(word.as_str(), "false") {
                toks.push(Token { tok: Tok::Truth(false), line });
            } else {
                toks.push(Token { tok: Tok::Word(word), line });
            }
            i = if j > i {
                j
            } else {
                i + 1
            };
        } else {
            return Err(syntax_err_exec("a table key", "an unexpected character", line));
        }
    }
    Ok((toks, line))
}

/// The key text of a token usable as a key (a bare word or a quoted
/// string), if it is one.
fn key_of(t: &Tok) -> (r: Option<&String>) {
    match t {
        Tok::Word(w) => Some(w),
        Tok::Text(w) => Some(w),
        _ => None,
    }
}

/// Parse one scalar or string-array value starting at `*p`; advances `*p`
/// past the value on success.
#[verifier::loop_isolation(false)]
fn parse_simple_value(toks: &Vec<Token>, p: &mut usize, eof_line: usize) -> (r: Result<
    RawValue,
    String,
>)
    requires
        *old(p) < toks@.len(),
    ensures
        *old(p) <= *final(p) <= toks@.len(),
        r is Ok ==> *old(p) < *final(p),
{
    let n = toks.len();
    let t = &toks[*p];
    match &t.tok {
        Tok::Text(v) => {
            *p = *p + 1;
            Ok(RawValue::Str(v.clone()))
        },
        Tok::Num(v) => {
            *p = *p + 1;
            Ok(RawValue::Int(*v))
        },
        Tok::Truth(v) => {
            *p = *p + 1;
            Ok(RawValue::Bool(*v))
        },
        Tok::LBracket => {
            let line = t.line;
            *p = *p + 1;
            let mut items: Vec<String> = Vec::new();
            loop
                invariant
                    *old(p) < *p <= toks@.len(),
                decreases toks@.len() - *p,
            {
                if *p >= n {
                    return Err(syntax_err_exec("a right bracket", "eof", eof_line));
                }
                match &toks[*p].tok {
                    Tok::RBracket => {
                        *p = *p + 1;
                        return Ok(RawValue::StrArr(items));
                    },
                    Tok::Comma => {
                        *p = *p + 1;
                    },
                    Tok::Text(v) => {
                        items.push(v.clone());
                        *p = *p + 1;
                    },
                    other => {
                        let ln = toks[*p].line;
                        return Err(syntax_err_exec("a string", tok_name(other), ln));
                    },
                }
            }
        },
        other => Err(syntax_err_exec("a value", tok_name(other), t.line)),
    }
}

/// Which namespace a top-level table name denotes.
fn role_of_namespace(w: &str) -> (r: Option<Role>) {
    if crate::text::eq_str(w, "sources") {
        Some(Role::Source)
    } else if crate::text::eq_str(w, "transforms") {
        Some(Role::Transform)
    } else if crate::text::eq_str(w, "sinks") {
        Some(Role::Sink)
    } else {
        None
    }
}

/// Parse the bindings of one inline table `{ key = value, ... }`;
/// `*p` stands on the opening brace.
#[verifier::loop_isolation(false)]
fn parse_inline_table(toks: &Vec<Token>, p: &mut usize, eof_line: usize) -> (r: Result<
    Vec<RawEntry>,
    String,
>)
    requires
        *old(p) < toks@.len(),
    ensures
        *old(p) <= *final(p) <= toks@.len(),
{
    let n = toks.len();
    *p = *p + 1;
    let mut entries: Vec<RawEntry> = Vec::new();
    loop
        invariant
            *old(p) < *p <= toks@.len(),
        decreases toks@.len() - *p,
    {
        if *p >= n {
            return Err(syntax_err_exec("a right brace", "eof", eof_line));
        }
        let line = toks[*p].line;
        match &toks[*p].tok {
            Tok::RBrace => {
                *p = *p + 1;
                return Ok(entries);
            },
            Tok::Comma => {
                *p = *p + 1;
            },
            other => {
                let key = match key_of(other) {
                    Some(k) => k.clone(),
                    None => {
                        return Err(syntax_err_exec("a table key", tok_name(other), line));
                    },
                };
                *p = *p + 1;
                if *p >= n {
                    return Err(syntax_err_exec("an equals", "eof", eof_line));
                }
                match &toks[*p].tok {
                    Tok::Equals => {
                        *p = *p + 1;
                    },
                    o2 => {
                        let ln = toks[*p].line;
                        return Err(syntax_err_exec("an equals", tok_name(o2), ln));
                    },
                }
                if *p >= n {
                    return Err(syntax_err_exec("a value", "eof", eof_line));
                }
                let value = match parse_simple_value(toks, p, eof_line) {
                    Ok(v) => v,
                    Err(e) => {
                        return Err(e);
                    },
                };
                if has_binding(&entries, key.as_str()) {
                    return Err(dup_key_exec(key.as_str(), line));
                }
                entries.push(RawEntry { key, value });
            },
        }
    }
}

/// Parse a token stream into a raw document, or report the first syntax
/// error.
#[verifier::loop_isolation(false)]
fn parse_tokens(toks: &Vec<Token>, eof_line: usize) -> (r: Result<RawDocument, String>) {
    let mut comps: Vec<RawComponent> = Vec::new();
    let mut cur_ns: Option<Role> = None;
    let mut p: usize = 0;
    while p < toks.len()
        invariant
            p <= toks@.len(),
        decreases toks@.len() - p,
    {
        let ghost p_iter = p as int;
        let line = toks[p].line;
        match &toks[p].tok {
            Tok::LBracket => {
                p = p + 1;
                if p >= toks.len() {
                    return Err(syntax_err_exec("a table key", "eof", eof_line));
                }
                let ns_line = toks[p].line;
                let ns_word = match key_of(&toks[p].tok) {
                    Some(k) => k.clone(),
                    None => {
                        return Err(
                            syntax_err_exec("a table key", tok_name(&toks[p].tok), ns_line),
                        );
                    },
                };
                p = p + 1;
                if p >= toks.len() {
                    // the namespace is checked only once the header closes
                    return Err(syntax_err_exec("a right bracket", "eof", eof_line));
                }
                match &toks[p].tok {
                    Tok::RBracket => {
                        // namespace header: inline components may follow
                        let role = match role_of_namespace(ns_word.as_str()) {
                            Some(r0) => r0,
                            None => {
                                let mut m = "unknown namespace `".to_owned();
                                m.append(ns_word.as_str());
                                m.append("` at line ");
                                let d = dec_string(ns_line);
                                m.append(d.as_str());
                                return Err(m);
                            },
                        };
                        cur_ns = Some(role);
                        p = p + 1;
                    },
                    Tok::Period => {
                        p = p + 1;
                        if p >= toks.len() {
                            return Err(syntax_err_exec("a table key", "eof", eof_line));
                        }
                        let nm_line = toks[p].line;
                        let name = match key_of(&toks[p].tok) {
                            Some(k) => k.clone(),
                            None => {
                                return Err(
                                    syntax_err_exec("a table key", tok_name(&toks[p].tok), nm_line),
                                );
                            },
                        };
                        p = p + 1;
                        if p >= toks.len() {
                            return Err(syntax_err_exec("a right bracket", "eof", eof_line));
                        }
                        match &toks[p].tok {
                            Tok::RBracket => {
                                p = p + 1;
                            },
                            o2 => {
                                let ln = toks[p].line;
                                return Err(syntax_err_exec("a right bracket", tok_name(o2), ln));
                            },
                        }
                        let role = match role_of_namespace(ns_word.as_str()) {
                            Some(r0) => r0,
                            None => {
                                let mut m = "unknown namespace `".to_owned();
                                m.append(ns_word.as_str());
                                m.append("` at line ");
                                let d = dec_string(ns_line);
                                m.append(d.as_str());
                                return Err(m);
                            },
                        };
                        if has_component(&comps, role, name.as_str()) {
                            return Err(dup_key_exec(name.as_str(), nm_line));
                        }
                        // collect `key = value` bindings until the next header
                        let mut entries: Vec<RawEntry> = Vec::new();
                        loop
                            invariant
                                p_iter < p <= toks@.len(),
                            decreases toks@.len() - p,
                        {
                            if p >= toks.len() {
                                break ;
                            }
                            let ln = toks[p].line;
                            match &toks[p].tok {
                                Tok::LBracket => {
                                    break ;
                                },
                                other => {
                                    let key = match key_of(other) {
                                        Some(k) => k.clone(),
                                        None => {
                                            return Err(
                                                syntax_err_exec("a table key", tok_name(other), ln),
                                            );
                                        },
                                    };
                                    p = p + 1;
                                    if p >= toks.len() {
                                        return Err(syntax_err_exec("an equals", "eof", eof_line));
                                    }
                                    match &toks[p].tok {
                                        Tok::Equals => {
                                            p = p + 1;
                                        },
                                        o2 => {
                                            let l2 = toks[p].line;
                                            return Err(
                                                syntax_err_exec("an equals", tok_name(o2), l2),
                                            );
                                        },
                                    }
                                    if p >= toks.len() {
                                        return Err(syntax_err_exec("a value", "eof", eof_line));
                                    }
                                    let value = match parse_simple_value(toks, &mut p, eof_line) {
                                        Ok(v) => v,
                                        Err(e) => {
                                            return Err(e);
                                        },
                                    };
                                    if has_binding(&entries, key.as_str()) {
                                        return Err(dup_key_exec(key.as_str(), ln));
                                    }
                                    entries.push(RawEntry { key, value });
                                },
                            }
                        }
                        comps.push(RawComponent { role, name, entries });
                        cur_ns = None;
                    },
                    o2 => {
                        let ln = toks[p].line;
                        return Err(syntax_err_exec("a right bracket", tok_name(o2), ln));
                    },
                }
            },
            other => {
                // an inline component under a namespace header
                let role = match cur_ns {
                    Some(r0) => r0,
                    None => {
                        return Err(syntax_err_exec("a table key", tok_name(other), line));
                    },
                };
                let name = match key_of(other) {
                    Some(k) => k.clone(),
                    None => {
                        return Err(syntax_err_exec("a table key", tok_name(other), line));
                    },
                };
                p = p + 1;
                if p >= toks.len() {
                    return Err(syntax_err_exec("an equals", "eof", eof_line));
                }
                match &toks[p].tok {
                    Tok::Equals => {
                        p = p + 1;
                    },
                    o2 => {
                        let ln = toks[p].line;
                        return Err(syntax_err_exec("an equals", tok_name(o2), ln));
                    },
                }
                if p >= toks.len() {
                    return Err(syntax_err_exec("a left brace", "eof", eof_line));
                }
                match &toks[p].tok {
                    Tok::LBrace => {},
                    o2 => {
                        let ln = toks[p].line;
                        return Err(syntax_err_exec("a left brace", tok_name(o2), ln));
                    },
                }
                if has_component(&comps, role, name.as_str()) {
                    return Err(dup_key_exec(name.as_str(), line));
                }
                let entries = match parse_inline_table(toks, &mut p, eof_line) {
                    Ok(es) => es,
                    Err(e) => {
                        return Err(e);
                    },
                };
                comps.push(RawComponent { role, name, entries });
            },
        }
    }
    Ok(RawDocument { comps })
}

/// Parse a document's text into a raw document, or report the first
/// syntax error.
pub(crate) fn parse_document(s: &str) -> (r: Result<RawDocument, String>)
    requires
        s@.len() < usize::MAX,
{
    match tokenize(s) {
        Ok(pair) => parse_tokens(&pair.0, pair.1),
        Err(e) => Err(e),
    }
}

} // verus!
