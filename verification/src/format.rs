//! Ways to format log messages with structured data.
//!
//! The OS logging facility does not support structured log data.  If
//! key-value pairs are to be included with log messages, they must be
//! included as part of the message.  The types here determine if and
//! how this is done.

use vstd::prelude::*;
use vstd::string::{StrSliceExecFns, StringExecFns};

verus! {

/// How one character is escaped in a quoted value, as RFC 5424
/// prescribes for PARAM-VALUEs: `\`, `"` and `]` get a backslash in
/// front, everything else is copied as it is.
pub open spec fn spec_escape_char(c: char) -> Seq<char> {
    if c == '\\' {
        seq!['\\', '\\']
    } else if c == '"' {
        seq!['\\', '"']
    } else if c == ']' {
        seq!['\\', ']']
    } else {
        seq![c]
    }
}

/// A value with every `\`, `"` and `]` escaped by a backslash.
pub open spec fn spec_escape_value(s: Seq<char>) -> Seq<char>
    decreases s.len(),
{
    if s.len() == 0 {
        Seq::empty()
    } else {
        spec_escape_char(s[0]) + spec_escape_value(s.skip(1))
    }
}

/// Escaping a concatenation escapes the parts.
pub proof fn lemma_escape_value_add(a: Seq<char>, b: Seq<char>)
    ensures
        spec_escape_value(a + b) == spec_escape_value(a) + spec_escape_value(b),
    decreases a.len(),
{
    if a.len() == 0 {
        assert(a + b =~= b);
        assert(spec_escape_value(a) + spec_escape_value(b) =~= spec_escape_value(b));
    } else {
        lemma_escape_value_add(a.skip(1), b);
        assert((a + b).skip(1) =~= a.skip(1) + b);
        assert(spec_escape_char((a + b)[0]) + (spec_escape_value(a.skip(1)) + spec_escape_value(
            b,
        )) =~= spec_escape_value(a) + spec_escape_value(b));
    }
}

/// Copies `s`, escaping `\`, `"` and `]` with a backslash, as RFC 5424
/// prescribes for PARAM-VALUEs.
pub fn escape_rfc5424_value(s: &str) -> (r: String)
    ensures
        r@ == spec_escape_value(s@),
{
    proof {
        reveal_strlit("\\\\");
        reveal_strlit("\\\"");
        reveal_strlit("\\]");
    }
    let slen = s.unicode_len();
    let mut out = String::new();
    let mut i: usize = 0;
    while i < slen
        invariant
            slen == s@.len(),
            i <= slen,
            out@ == spec_escape_value(s@.take(i as int)),
        decreases slen - i,
    {
        let c = s.get_char(i);
        if c == '\\' {
            out.append("\\\\");
        } else if c == '"' {
            out.append("\\\"");
        } else if c == ']' {
            out.append("\\]");
        } else {
            let piece = s.substring_char(i, i + 1);
            out.append(piece);
        }
        proof {
            reveal_strlit("\\\\");
            reveal_strlit("\\\"");
            reveal_strlit("\\]");
            let c0 = s@[i as int];
            assert(s@.take(i + 1) =~= s@.take(i as int) + seq![c0]);
            lemma_escape_value_add(s@.take(i as int), seq![c0]);
            assert(seq![c0].skip(1) =~= Seq::<char>::empty());
            assert(seq![c0][0] == c0);
            assert(spec_escape_value(Seq::<char>::empty()) =~= Seq::<char>::empty());
            assert(spec_escape_char(c0) + Seq::<char>::empty() =~= spec_escape_char(c0));
            assert(spec_escape_value(seq![c0]) =~= spec_escape_char(c0));
            assert(s@.subrange(i as int, i + 1) =~= seq![c0]);
            assert(out@ =~= spec_escape_value(s@.take(i as int)) + spec_escape_char(c0));
        }
        i = i + 1;
    }
    proof {
        assert(s@.take(slen as int) =~= s@);
    }
    out
}

/// One formatted key-value pair: `key="escaped value"`.
pub open spec fn spec_kv_part(p: (Seq<char>, Seq<char>)) -> Seq<char> {
    p.0 + seq!['=', '"'] + spec_escape_value(p.1) + seq!['"']
}

/// Formatted key-value pairs joined by single spaces.
pub open spec fn spec_kv_join(ps: Seq<(Seq<char>, Seq<char>)>) -> Seq<char>
    decreases ps.len(),
{
    if ps.len() == 0 {
        Seq::empty()
    } else if ps.len() == 1 {
        spec_kv_part(ps[0])
    } else {
        spec_kv_part(ps[0]) + seq![' '] + spec_kv_join(ps.skip(1))
    }
}

/// Appending a pair extends the joined list at its end.
pub proof fn lemma_kv_join_push(ps: Seq<(Seq<char>, Seq<char>)>, p: (Seq<char>, Seq<char>))
    requires
        ps.len() >= 1,
    ensures
        spec_kv_join(ps.push(p)) == spec_kv_join(ps) + seq![' '] + spec_kv_part(p),
    decreases ps.len(),
{
    if ps.len() == 1 {
        assert(ps.push(p).skip(1) =~= seq![p]);
        assert(ps.push(p)[0] == ps[0]);
        assert(seq![p].len() == 1);
        assert(seq![p][0] == p);
        assert(spec_kv_join(seq![p]) == spec_kv_part(p));
        assert(spec_kv_join(ps.push(p)) == spec_kv_part(ps[0]) + seq![' '] + spec_kv_part(p));
        assert(spec_kv_join(ps) == spec_kv_part(ps[0]));
        assert(spec_kv_join(ps.push(p)) =~= spec_kv_join(ps) + seq![' '] + spec_kv_part(p));
    } else {
        lemma_kv_join_push(ps.skip(1), p);
        assert(ps.push(p).skip(1) =~= ps.skip(1).push(p));
        assert(ps.push(p)[0] == ps[0]);
        assert(spec_kv_join(ps.push(p)) == spec_kv_part(ps[0]) + seq![' '] + spec_kv_join(
            ps.skip(1).push(p),
        ));
        assert(spec_kv_join(ps) == spec_kv_part(ps[0]) + seq![' '] + spec_kv_join(ps.skip(1)));
        assert(spec_kv_join(ps.push(p)) =~= spec_kv_join(ps) + seq![' '] + spec_kv_part(p));
    }
}

/// The character sequences of a list of key-value pairs.
pub open spec fn spec_pair_views(pairs: Seq<(String, String)>) -> Seq<(Seq<char>, Seq<char>)> {
    pairs.map_values(|p: (String, String)| (p.0@, p.1@))
}

/// A message formatted with its key-value pairs in the RFC 5424-like
/// style: the message itself, then, if there are any pairs,
/// ` [key1="value1" key2="value2"]` with the values escaped.
pub open spec fn spec_format_default(msg: Seq<char>, ps: Seq<(Seq<char>, Seq<char>)>) -> Seq<
    char,
> {
    if ps.len() == 0 {
        msg
    } else {
        msg + seq![' ', '['] + spec_kv_join(ps) + seq![']']
    }
}

/// An implementation of message formatting that discards the key-value
/// pairs and keeps only the message itself.
#[derive(Debug, Clone, Copy, PartialEq, Eq, Structural)]
pub struct BasicMsgFormat;

impl BasicMsgFormat {
    /// Formats a message: the key-value pairs are dropped.
    pub fn format(&self, msg: &str, pairs: &Vec<(String, String)>) -> (r: String)
        ensures
            r@ == msg@,
    {
        msg.to_owned()
    }
}

/// A message format that renders the key-value pairs of a log record
/// similarly to RFC 5424 STRUCTURED-DATA.
///
/// Given a log message `Hello, world!`, where the key `key1` has the
/// value `value1` and `key2` has the value `value2`, the formatted
/// message is `Hello, world! [key1="value1" key2="value2"]`.
#[derive(Debug, Clone, Copy, PartialEq, Eq, Structural)]
pub struct DefaultMsgFormat;

impl DefaultMsgFormat {
    /// Formats a message with its key-value pairs appended in the
    /// RFC 5424-like style.
    pub fn format(&self, msg: &str, pairs: &Vec<(String, String)>) -> (r: String)
        ensures
            r@ == spec_format_default(msg@, spec_pair_views(pairs@)),
    {
        format_default(msg, pairs)
    }
}

/// Formats a message with its key-value pairs appended in the
/// RFC 5424-like style.
pub fn format_default(msg: &str, pairs: &Vec<(String, String)>) -> (r: String)
    ensures
        r@ == spec_format_default(msg@, spec_pair_views(pairs@)),
{
    proof {
        reveal_strlit(" [");
        reveal_strlit(" ");
        reveal_strlit("=\"");
        reveal_strlit("\"");
        reveal_strlit("]");
    }
    let ghost ps = spec_pair_views(pairs@);
    let mut out = msg.to_owned();
    if pairs.len() == 0 {
        return out;
    }
    let mut i: usize = 0;
    while i < pairs.len()
        invariant
            1 <= pairs.len(),
            i <= pairs.len(),
            ps == spec_pair_views(pairs@),
            ps.len() == pairs.len(),
            i == 0 ==> out@ == msg@,
            i >= 1 ==> out@ == msg@ + seq![' ', '['] + spec_kv_join(ps.take(i as int)),
        decreases pairs.len() - i,
    {
        if i == 0 {
            out.append(" [");
        } else {
            out.append(" ");
        }
        let key: &String = &pairs[i].0;
        out.append(key.as_str());
        out.append("=\"");
        let escaped = escape_rfc5424_value(pairs[i].1.as_str());
        out.append(escaped.as_str());
        out.append("\"");
        proof {
            reveal_strlit(" [");
            reveal_strlit(" ");
            reveal_strlit("=\"");
            reveal_strlit("\"");
            assert(ps[i as int] == (pairs@[i as int].0@, pairs@[i as int].1@));
            if i == 0 {
                assert(ps.take(1) =~= seq![ps[0]]);
                assert(ps.take(1).len() == 1);
                assert(ps.take(1)[0] == ps[0]);
                assert(spec_kv_join(ps.take(1)) == spec_kv_part(ps[0]));
                assert(out@ =~= msg@ + seq![' ', '['] + spec_kv_join(ps.take(1)));
            } else {
                assert(ps.take(i + 1) =~= ps.take(i as int).push(ps[i as int]));
                lemma_kv_join_push(ps.take(i as int), ps[i as int]);
                assert(out@ =~= msg@ + seq![' ', '['] + spec_kv_join(ps.take(i + 1)));
            }
        }
        i = i + 1;
    }
    out.append("]");
    proof {
        assert(ps.take(ps.len() as int) =~= ps);
        assert(out@ =~= spec_format_default(msg@, ps));
    }
    out
}

/// Enumeration of the built-in message formats.
#[derive(Debug, Clone, Copy, PartialEq, Eq, Structural)]
pub enum MsgFormatConfig {
    /// [`DefaultMsgFormat`].
    Default,

    /// [`BasicMsgFormat`].
    Basic,
}

impl Default for MsgFormatConfig {
    /// The default message format keeps the key-value pairs.
    fn default() -> (r: Self)
        ensures
            r == MsgFormatConfig::Default,
    {
        MsgFormatConfig::Default
    }
}

/// What a message format renders a message and its pairs to.
pub open spec fn spec_format_message(
    f: MsgFormatConfig,
    msg: Seq<char>,
    ps: Seq<(Seq<char>, Seq<char>)>,
) -> Seq<char> {
    match f {
        MsgFormatConfig::Default => spec_format_default(msg, ps),
        MsgFormatConfig::Basic => msg,
    }
}

impl MsgFormatConfig {
    /// Formats a message with its key-value pairs in this format.
    pub fn format_message(&self, msg: &str, pairs: &Vec<(String, String)>) -> (r: String)
        ensures
            r@ == spec_format_message(*self, msg@, spec_pair_views(pairs@)),
    {
        match self {
            MsgFormatConfig::Default => format_default(msg, pairs),
            MsgFormatConfig::Basic => msg.to_owned(),
        }
    }
}

} // verus!
