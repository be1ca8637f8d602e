//! JSON-carrying strings.
//!
//! [`JsonString`] tracks JSON serialization with the type system: it wraps a
//! string that already contains JSON-serialized data, so that code can
//! neither double-serialize nor forget to serialize.  Moving between
//! `String`/`&str` and `JsonString` simply wraps or unwraps the raw JSON
//! text; moving any other value in must go through an explicit, stated
//! encoding.
//!
//! The module also holds the crate's JSON string encoder: a verified escaper
//! for the quote, the backslash and the common control characters, used
//! wherever the core renders one of its own values as JSON text.

use vstd::prelude::*;

use crate::error::HolochainError;

verus! {

/// How one character is rendered inside a JSON string literal.
pub open spec fn escape_char_seq(c: char) -> Seq<char> {
    if c == '"' {
        seq!['\\', '"']
    } else if c == '\\' {
        seq!['\\', '\\']
    } else if c == '\n' {
        seq!['\\', 'n']
    } else if c == '\r' {
        seq!['\\', 'r']
    } else if c == '\t' {
        seq!['\\', 't']
    } else {
        seq![c]
    }
}

/// How a whole string is rendered inside a JSON string literal.
pub open spec fn escape_seq(s: Seq<char>) -> Seq<char>
    decreases s.len(),
{
    if s.len() == 0 {
        Seq::empty()
    } else {
        escape_char_seq(s[0]) + escape_seq(s.subrange(1, s.len() as int))
    }
}

/// A string rendered as a JSON string literal: escaped and quoted.
pub open spec fn quote_seq(s: Seq<char>) -> Seq<char> {
    seq!['"'] + escape_seq(s) + seq!['"']
}

/// Escaping distributes over concatenation.
pub proof fn lemma_escape_seq_concat(a: Seq<char>, b: Seq<char>)
    ensures
        escape_seq(a + b) == escape_seq(a) + escape_seq(b),
    decreases a.len(),
{
    if a.len() == 0 {
        assert(a + b =~= b);
        assert(escape_seq(a) + escape_seq(b) =~= escape_seq(b));
    } else {
        let rest = a.subrange(1, a.len() as int);
        lemma_escape_seq_concat(rest, b);
        assert((a + b).subrange(1, (a + b).len() as int) =~= rest + b);
        assert(escape_seq(a + b) =~= escape_char_seq(a[0]) + (escape_seq(rest) + escape_seq(b)));
        assert(escape_char_seq(a[0]) + (escape_seq(rest) + escape_seq(b)) =~= (escape_char_seq(
            a[0],
        ) + escape_seq(rest)) + escape_seq(b));
    }
}

/// Escaping a single character is [`escape_char_seq`].
pub proof fn lemma_escape_seq_single(c: char)
    ensures
        escape_seq(seq![c]) == escape_char_seq(c),
{
    let s = seq![c];
    assert(s.subrange(1, 1) =~= Seq::<char>::empty());
    assert(escape_seq(s) =~= escape_char_seq(c) + escape_seq(Seq::<char>::empty()));
    assert(escape_char_seq(c) + Seq::<char>::empty() =~= escape_char_seq(c));
}

/// Escapes a string for inclusion in a JSON string literal.
pub fn escape_json_str(s: &str) -> (r: String)
    ensures
        r@ == escape_seq(s@),
{
    let n = s.unicode_len();
    let mut out = String::new();
    let mut i: usize = 0;
    while i < n
        invariant
            n == s@.len(),
            i <= n,
            out@ == escape_seq(s@.take(i as int)),
        decreases n - i,
    {
        let c = s.get_char(i);
        proof {
            assert(s@.take(i + 1 as int) =~= s@.take(i as int) + seq![s@[i as int]]);
            lemma_escape_seq_concat(s@.take(i as int), seq![s@[i as int]]);
            lemma_escape_seq_single(s@[i as int]);
        }
        if c == '"' {
            proof {
                reveal_strlit("\\\"");
            }
            out.append("\\\"");
        } else if c == '\\' {
            proof {
                reveal_strlit("\\\\");
            }
            out.append("\\\\");
        } else if c == '\n' {
            proof {
                reveal_strlit("\\n");
            }
            out.append("\\n");
        } else if c == '\r' {
            proof {
                reveal_strlit("\\r");
            }
            out.append("\\r");
        } else if c == '\t' {
            proof {
                reveal_strlit("\\t");
            }
            out.append("\\t");
        } else {
            let piece = s.substring_char(i, i + 1);
            proof {
                assert(piece@ =~= seq![s@[i as int]]);
            }
            out.append(piece);
        }
        i = i + 1;
    }
    proof {
        assert(s@.take(n as int) =~= s@);
    }
    out
}

/// Renders a string as a complete JSON string literal, quotes included.
pub fn quote_json_str(s: &str) -> (r: String)
    ensures
        r@ == quote_seq(s@),
{
    let mut out = String::new();
    proof {
        reveal_strlit("\"");
    }
    out.append("\"");
    let escaped = escape_json_str(s);
    out.append(escaped.as_str());
    out.append("\"");
    proof {
        assert(out@ =~= quote_seq(s@));
    }
    out
}

/// A string containing JSON-serialized data.
///
/// The wrapper itself is never serialized or deserialized; values move in
/// and out through explicit conversions.
#[derive(Debug, PartialEq, Eq, Hash)]
pub struct JsonString(String);

impl View for JsonString {
    type V = Seq<char>;

    closed spec fn view(&self) -> Seq<char> {
        self.0@
    }
}

impl Clone for JsonString {
    fn clone(&self) -> (r: Self)
        ensures
            r == *self,
    {
        JsonString(self.0.clone())
    }
}

impl JsonString {
    /// Wraps borrowed JSON text.
    pub fn from(s: &str) -> (r: JsonString)
        ensures
            r@ == s@,
    {
        JsonString(String::from_str(s))
    }

    /// Wraps owned JSON text.
    pub fn from_string(s: String) -> (r: JsonString)
        ensures
            r@ == s@,
    {
        JsonString(s)
    }

    /// Represents `None` when encoding an optional value.
    pub fn none() -> (r: JsonString)
        ensures
            r@ == "null"@,
    {
        JsonString::from("null")
    }

    /// The UTF-8 bytes of the JSON text.
    pub fn into_bytes(&self) -> (r: Vec<u8>)
        ensures
            r@ == vstd::utf8::encode_utf8(self@),
    {
        self.0.as_str().as_bytes_vec()
    }

    /// The JSON text, borrowed.
    pub fn as_str(&self) -> (r: &str)
        ensures
            r@ == self@,
    {
        self.0.as_str()
    }

    /// The JSON text as an owned string.
    pub fn to_string(&self) -> (r: String)
        ensures
            r@ == self@,
    {
        self.0.clone()
    }

    /// Encodes an ok/error-tagged result as JSON: `{"ok":<value>}` for
    /// success, `{"error":<encoded error>}` for failure.
    pub fn from_result(result: &Result<JsonString, HolochainError>) -> (r: JsonString)
        ensures
            r@ == result_json_seq(result),
    {
        let mut out = String::new();
        match result {
            Ok(value) => {
                proof {
                    reveal_strlit("{\"ok\":");
                    reveal_strlit("}");
                }
                out.append("{\"ok\":");
                out.append(value.0.as_str());
                out.append("}");
            },
            Err(e) => {
                proof {
                    reveal_strlit("{\"error\":");
                    reveal_strlit("}");
                }
                out.append("{\"error\":");
                let encoded = e.to_json();
                out.append(encoded.0.as_str());
                out.append("}");
            },
        }
        proof {
            assert(out@ =~= result_json_seq(result));
        }
        JsonString(out)
    }
}

/// A plain string on its way into JSON.
///
/// [`JsonString`] wraps text that already is JSON; a `RawString` wraps text
/// that is not yet, and renders it as a JSON string literal — quoted and
/// escaped — when converted.
#[derive(Debug, PartialEq, Eq)]
pub struct RawString(String);

impl View for RawString {
    type V = Seq<char>;

    closed spec fn view(&self) -> Seq<char> {
        self.0@
    }
}

impl Clone for RawString {
    fn clone(&self) -> (r: Self)
        ensures
            r == *self,
    {
        RawString(self.0.clone())
    }
}

impl RawString {
    /// Wraps borrowed text.
    pub fn from(s: &str) -> (r: RawString)
        ensures
            r@ == s@,
    {
        RawString(String::from_str(s))
    }

    /// Wraps owned text.
    pub fn from_string(s: String) -> (r: RawString)
        ensures
            r@ == s@,
    {
        RawString(s)
    }

    /// The text rendered as a JSON string literal.
    pub fn to_string(&self) -> (r: String)
        ensures
            r@ == quote_seq(self@),
    {
        quote_json_str(self.0.as_str())
    }

    /// The text rendered as a JSON string literal, as JSON.
    pub fn to_json(&self) -> (r: JsonString)
        ensures
            r@ == quote_seq(self@),
    {
        JsonString(quote_json_str(self.0.as_str()))
    }
}

/// Parses the body of a JSON string literal back to its raw text: escape
/// sequences decode, a bare quote or an unknown escape is malformed.
pub open spec fn unescape_seq(s: Seq<char>) -> Option<Seq<char>>
    decreases s.len(),
{
    if s.len() == 0 {
        Some(Seq::empty())
    } else if s[0] == '\\' {
        if s.len() < 2 {
            None
        } else {
            match unescape_char(s[1]) {
                Some(decoded) => match unescape_seq(s.subrange(2, s.len() as int)) {
                    Some(rest) => Some(seq![decoded] + rest),
                    None => None,
                },
                None => None,
            }
        }
    } else if s[0] == '"' {
        None
    } else {
        match unescape_seq(s.subrange(1, s.len() as int)) {
            Some(rest) => Some(seq![s[0]] + rest),
            None => None,
        }
    }
}

/// What one escape code decodes to.
pub open spec fn unescape_char(c: char) -> Option<char> {
    if c == '"' {
        Some('"')
    } else if c == '\\' {
        Some('\\')
    } else if c == 'n' {
        Some('\n')
    } else if c == 'r' {
        Some('\r')
    } else if c == 't' {
        Some('\t')
    } else {
        None
    }
}

/// Parses a whole JSON string literal: quotes stripped, body unescaped.
pub open spec fn unquote_seq(s: Seq<char>) -> Option<Seq<char>> {
    if s.len() >= 2 && s[0] == '"' && s[s.len() - 1] == '"' {
        unescape_seq(s.subrange(1, s.len() - 1))
    } else {
        None
    }
}

/// Unescaping undoes escaping: for every string, the escaped body parses
/// back to exactly the original.
pub proof fn lemma_unescape_escape(s: Seq<char>)
    ensures
        unescape_seq(escape_seq(s)) == Some(s),
    decreases s.len(),
{
    if s.len() == 0 {
        assert(escape_seq(s).len() == 0);
    } else {
        let rest = s.subrange(1, s.len() as int);
        lemma_unescape_escape(rest);
        let head = escape_char_seq(s[0]);
        let tail = escape_seq(rest);
        assert(escape_seq(s) == head + tail);
        if head.len() == 2 {
            assert((head + tail)[0] == '\\');
            assert((head + tail)[1] == head[1]);
            assert(unescape_char(head[1]) == Some(s[0]));
            assert((head + tail).subrange(2, (head + tail).len() as int) =~= tail);
            assert(unescape_seq(escape_seq(s)) == Some(seq![s[0]] + rest));
        } else {
            assert(head == seq![s[0]]);
            assert((head + tail)[0] == s[0]);
            assert(s[0] != '\\' && s[0] != '"');
            assert((head + tail).subrange(1, (head + tail).len() as int) =~= tail);
            assert(unescape_seq(escape_seq(s)) == Some(seq![s[0]] + rest));
        }
        assert(seq![s[0]] + rest =~= s);
    }
}

/// Unquoting undoes quoting: every string round-trips through its JSON
/// string literal form.
pub proof fn lemma_unquote_quote(s: Seq<char>)
    ensures
        unquote_seq(quote_seq(s)) == Some(s),
{
    let q = quote_seq(s);
    assert(q[0] == '"');
    assert(q[q.len() - 1] == '"');
    assert(q.subrange(1, q.len() - 1) =~= escape_seq(s));
    lemma_unescape_escape(s);
}

/// `Some(prefix + rest)` when the rest parsed, `None` when it did not; the
/// accumulator shape of the literal parser's loop.
pub open spec fn unescape_prepend(prefix: Seq<char>, parsed: Option<Seq<char>>) -> Option<
    Seq<char>,
> {
    match parsed {
        Some(rest) => Some(prefix + rest),
        None => None,
    }
}

impl RawString {
    /// Parses JSON text as a string literal; `None` exactly when the text
    /// is not one (by [`unquote_seq`]).
    pub fn from_json(json: &JsonString) -> (r: Option<RawString>)
        ensures
            match r {
                Some(raw) => unquote_seq(json@) == Some(raw@),
                None => unquote_seq(json@) is None,
            },
    {
        let s = json.as_str();
        let n = s.unicode_len();
        if n < 2 {
            return None;
        }
        if !(s.get_char(0) == '"') || !(s.get_char(n - 1) == '"') {
            return None;
        }
        let ghost body = s@.subrange(1, n - 1);
        let mut out = String::new();
        let mut i: usize = 1;
        proof {
            assert(body.subrange(0, body.len() as int) =~= body);
            assert(unescape_seq(body) == unescape_prepend(
                out@,
                unescape_seq(body.subrange(i - 1, body.len() as int)),
            ));
        }
        while i < n - 1
            invariant
                s@ == json@,
                n == s@.len(),
                2 <= n <= usize::MAX,
                1 <= i <= n - 1,
                s@[0] == '"',
                s@[n - 1] == '"',
                body == s@.subrange(1, n - 1),
                unescape_seq(body) == unescape_prepend(
                    out@,
                    unescape_seq(body.subrange(i - 1, body.len() as int)),
                ),
            decreases n - i,
        {
            let ghost remaining = body.subrange(i - 1, body.len() as int);
            proof {
                assert(remaining[0] == body[i - 1]);
                assert(body[i - 1] == s@[i as int]);
            }
            let c = s.get_char(i);
            if c == '\\' {
                if i + 1 >= n - 1 {
                    // a lone backslash before the closing quote
                    proof {
                        assert(remaining.len() == 1);
                        assert(unescape_seq(remaining) is None);
                    }
                    return None;
                }
                proof {
                    assert(remaining[1] == body[i as int]);
                    assert(body[i as int] == s@[i + 1]);
                }
                let code = s.get_char(i + 1);
                let ghost out_before = out@;
                if code == '"' {
                    proof {
                        reveal_strlit("\"");
                    }
                    out.append("\"");
                } else if code == '\\' {
                    proof {
                        reveal_strlit("\\");
                    }
                    out.append("\\");
                } else if code == 'n' {
                    proof {
                        reveal_strlit("\n");
                    }
                    out.append("\n");
                } else if code == 'r' {
                    proof {
                        reveal_strlit("\r");
                    }
                    out.append("\r");
                } else if code == 't' {
                    proof {
                        reveal_strlit("\t");
                    }
                    out.append("\t");
                } else {
                    proof {
                        assert(unescape_char(remaining[1]) is None);
                        assert(unescape_seq(remaining) is None);
                    }
                    return None;
                }
                proof {
                    let decoded = unescape_char(remaining[1])->Some_0;
                    assert(out@ =~= out_before + seq![decoded]);
                    assert(remaining.subrange(2, remaining.len() as int) =~= body.subrange(
                        i + 1,
                        body.len() as int,
                    ));
                    assert(unescape_seq(remaining) == unescape_prepend(
                        seq![decoded],
                        unescape_seq(body.subrange(i + 1, body.len() as int)),
                    ));
                    assert forall|rest: Seq<char>|
                        true implies out_before + (seq![decoded] + rest) == (out_before
                        + seq![decoded]) + rest by {
                        assert(out_before + (seq![decoded] + rest) =~= (out_before + seq![decoded])
                            + rest);
                    }
                }
                i = i + 2;
            } else if c == '"' {
                // a bare quote inside the body
                proof {
                    assert(unescape_seq(remaining) is None);
                }
                return None;
            } else {
                let ghost out_before = out@;
                let piece = s.substring_char(i, i + 1);
                proof {
                    assert(piece@ =~= seq![s@[i as int]]);
                }
                out.append(piece);
                proof {
                    assert(remaining.subrange(1, remaining.len() as int) =~= body.subrange(
                        i as int,
                        body.len() as int,
                    ));
                    assert(unescape_seq(remaining) == unescape_prepend(
                        seq![remaining[0]],
                        unescape_seq(body.subrange(i as int, body.len() as int)),
                    ));
                    assert forall|rest: Seq<char>|
                        true implies out_before + (seq![remaining[0]] + rest) == (out_before
                        + seq![remaining[0]]) + rest by {
                        assert(out_before + (seq![remaining[0]] + rest) =~= (out_before + seq![
                            remaining[0],
                        ]) + rest);
                    }
                }
                i = i + 1;
            }
        }
        proof {
            assert(body.subrange(i - 1, body.len() as int) =~= Seq::<char>::empty());
            assert(unescape_seq(Seq::<char>::empty()) == Some(Seq::<char>::empty()));
            assert(out@ + Seq::<char>::empty() =~= out@);
            assert(unescape_seq(body) == Some(out@));
            assert(unquote_seq(json@) == Some(out@));
        }
        Some(RawString(out))
    }
}

/// What [`JsonString::from_result`] returns.
pub open spec fn result_json_seq(result: &Result<JsonString, HolochainError>) -> Seq<char> {
    match result {
        Ok(value) => "{\"ok\":"@ + value@ + "}"@,
        Err(e) => "{\"error\":"@ + error_json_seq(e) + "}"@,
    }
}

/// What [`HolochainError::to_json`] returns: serde's externally tagged enum
/// shape, a bare string for unit variants and a one-entry object for
/// variants with a message.
pub open spec fn error_json_seq(e: &HolochainError) -> Seq<char> {
    match e {
        HolochainError::ErrorGeneric(msg) => "{\"ErrorGeneric\":"@ + quote_seq(msg@) + "}"@,
        HolochainError::DnaMissing => "\"DnaMissing\""@,
        HolochainError::Dna(msg) => "{\"Dna\":"@ + quote_seq(msg@) + "}"@,
        HolochainError::CapabilityCheckFailed => "\"CapabilityCheckFailed\""@,
        HolochainError::ActionChannelClosed => "\"ActionChannelClosed\""@,
    }
}

impl HolochainError {
    /// Encodes the error as JSON, in the externally tagged enum shape.
    pub fn to_json(&self) -> (r: JsonString)
        ensures
            r@ == error_json_seq(self),
    {
        let mut out = String::new();
        match self {
            HolochainError::ErrorGeneric(msg) => {
                proof {
                    reveal_strlit("{\"ErrorGeneric\":");
                    reveal_strlit("}");
                }
                out.append("{\"ErrorGeneric\":");
                let quoted = quote_json_str(msg.as_str());
                out.append(quoted.as_str());
                out.append("}");
            },
            HolochainError::DnaMissing => {
                proof {
                    reveal_strlit("\"DnaMissing\"");
                }
                out.append("\"DnaMissing\"");
            },
            HolochainError::Dna(msg) => {
                proof {
                    reveal_strlit("{\"Dna\":");
                    reveal_strlit("}");
                }
                out.append("{\"Dna\":");
                let quoted = quote_json_str(msg.as_str());
                out.append(quoted.as_str());
                out.append("}");
            },
            HolochainError::CapabilityCheckFailed => {
                proof {
                    reveal_strlit("\"CapabilityCheckFailed\"");
                }
                out.append("\"CapabilityCheckFailed\"");
            },
            HolochainError::ActionChannelClosed => {
                proof {
                    reveal_strlit("\"ActionChannelClosed\"");
                }
                out.append("\"ActionChannelClosed\"");
            },
        }
        proof {
            assert(out@ =~= error_json_seq(self));
        }
        JsonString(out)
    }
}

} // verus!
