//! The wire format: JSON rendering of a response as the remote-backend
//! protocol expects it, `{"result":[...]}` with one object per record, and
//! the fixed domain-metadata body.

use vstd::prelude::*;
use vstd::string::StrSliceExecFns;
use vstd::string::StringExecFns;
use crate::model::DnsRecord;
use crate::model::DnsResponse;
use crate::model::RecordModel;
use crate::strutil::decimal_string;
use crate::strutil::digit_char;
use crate::strutil::push_char;
use crate::strutil::spec_decimal;

verus! {

/// The hexadecimal digit character for a value below sixteen, lowercase.
pub open spec fn hex_char(d: nat) -> char {
    if d < 10 {
        digit_char(d)
    } else if d == 10 {
        'a'
    } else if d == 11 {
        'b'
    } else if d == 12 {
        'c'
    } else if d == 13 {
        'd'
    } else if d == 14 {
        'e'
    } else {
        'f'
    }
}

/// How one character appears inside a JSON string literal: quote and
/// backslash are escaped, the named control characters take their short
/// escapes, any other control character takes a `\u00XX` escape, and every
/// other character stands for itself.
pub open spec fn json_escaped_char(c: char) -> Seq<char> {
    if c == '"' {
        seq!['\\', '"']
    } else if c == '\\' {
        seq!['\\', '\\']
    } else if c == '\u{8}' {
        seq!['\\', 'b']
    } else if c == '\t' {
        seq!['\\', 't']
    } else if c == '\n' {
        seq!['\\', 'n']
    } else if c == '\u{c}' {
        seq!['\\', 'f']
    } else if c == '\r' {
        seq!['\\', 'r']
    } else if (c as u32) < 32 {
        seq!['\\', 'u', '0', '0', hex_char((c as u32 / 16) as nat), hex_char(
            (c as u32 % 16) as nat,
        )]
    } else {
        seq![c]
    }
}

/// A whole character sequence escaped for a JSON string literal.
pub open spec fn json_escaped(s: Seq<char>) -> Seq<char>
    decreases s.len(),
{
    if s.len() == 0 {
        Seq::empty()
    } else {
        json_escaped_char(s[0]) + json_escaped(s.drop_first())
    }
}

/// Escaping distributes over appending one character at the end.
proof fn lemma_json_escaped_snoc(s: Seq<char>, c: char)
    ensures
        json_escaped(s.push(c)) == json_escaped(s) + json_escaped_char(c),
    decreases s.len(),
{
    if s.len() == 0 {
        assert(s.push(c).len() == 1);
        assert(s.push(c)[0] == c);
        assert(s.push(c).drop_first() =~= Seq::<char>::empty());
        assert(json_escaped(s.push(c)) == json_escaped_char(c) + json_escaped(
            Seq::<char>::empty(),
        ));
        assert(json_escaped(s.push(c)) =~= json_escaped(s) + json_escaped_char(c));
    } else {
        assert(s.push(c).drop_first() =~= s.drop_first().push(c));
        lemma_json_escaped_snoc(s.drop_first(), c);
        assert(json_escaped(s.push(c)) =~= json_escaped(s) + json_escaped_char(c));
    }
}

/// The hexadecimal digit character for a value below sixteen.
fn hex_digit(d: u32) -> (r: char)
    requires
        d < 16,
    ensures
        r == hex_char(d as nat),
{
    if d == 0 {
        '0'
    } else if d == 1 {
        '1'
    } else if d == 2 {
        '2'
    } else if d == 3 {
        '3'
    } else if d == 4 {
        '4'
    } else if d == 5 {
        '5'
    } else if d == 6 {
        '6'
    } else if d == 7 {
        '7'
    } else if d == 8 {
        '8'
    } else if d == 9 {
        '9'
    } else if d == 10 {
        'a'
    } else if d == 11 {
        'b'
    } else if d == 12 {
        'c'
    } else if d == 13 {
        'd'
    } else if d == 14 {
        'e'
    } else {
        'f'
    }
}

/// Appends one character in its escaped JSON spelling.
fn append_escaped_char(out: &mut String, c: char)
    ensures
        final(out)@ == old(out)@ + json_escaped_char(c),
{
    if c == '"' {
        out.append("\\\"");
        proof {
            reveal_strlit("\\\"");
            assert(final(out)@ =~= old(out)@ + json_escaped_char(c));
        }
    } else if c == '\\' {
        out.append("\\\\");
        proof {
            reveal_strlit("\\\\");
            assert(final(out)@ =~= old(out)@ + json_escaped_char(c));
        }
    } else if c == '\u{8}' {
        out.append("\\b");
        proof {
            reveal_strlit("\\b");
            assert(final(out)@ =~= old(out)@ + json_escaped_char(c));
        }
    } else if c == '\t' {
        out.append("\\t");
        proof {
            reveal_strlit("\\t");
            assert(final(out)@ =~= old(out)@ + json_escaped_char(c));
        }
    } else if c == '\n' {
        out.append("\\n");
        proof {
            reveal_strlit("\\n");
            assert(final(out)@ =~= old(out)@ + json_escaped_char(c));
        }
    } else if c == '\u{c}' {
        out.append("\\f");
        proof {
            reveal_strlit("\\f");
            assert(final(out)@ =~= old(out)@ + json_escaped_char(c));
        }
    } else if c == '\r' {
        out.append("\\r");
        proof {
            reveal_strlit("\\r");
            assert(final(out)@ =~= old(out)@ + json_escaped_char(c));
        }
    } else if (c as u32) < 32 {
        out.append("\\u00");
        let hi = hex_digit((c as u32) / 16);
        let lo = hex_digit((c as u32) % 16);
        push_char(out, hi);
        push_char(out, lo);
        proof {
            reveal_strlit("\\u00");
            assert(final(out)@ =~= old(out)@ + json_escaped_char(c));
        }
    } else {
        push_char(out, c);
        proof {
            assert(final(out)@ =~= old(out)@ + json_escaped_char(c));
        }
    }
}

/// Appends a whole string in its escaped JSON spelling.
fn append_json_escaped(out: &mut String, s: &str)
    ensures
        final(out)@ == old(out)@ + json_escaped(s@),
{
    let n = s.unicode_len();
    let mut i: usize = 0;
    while i < n
        invariant
            n == s@.len(),
            i <= n,
            out@ == old(out)@ + json_escaped(s@.take(i as int)),
        decreases n - i,
    {
        let c = s.get_char(i);
        append_escaped_char(out, c);
        proof {
            assert(s@.take(i as int + 1) =~= s@.take(i as int).push(s@[i as int]));
            lemma_json_escaped_snoc(s@.take(i as int), s@[i as int]);
            assert(out@ =~= old(out)@ + json_escaped(s@.take(i as int + 1)));
        }
        i = i + 1;
    }
    proof {
        assert(s@.take(n as int) =~= s@);
    }
}

/// One record as a JSON object, in the remote-backend field order.
pub open spec fn json_of_record(r: RecordModel) -> Seq<char> {
    "{\"qtype\":\""@ + json_escaped(r.qtype) + "\",\"qname\":\""@ + json_escaped(r.qname)
        + "\",\"content\":\""@ + json_escaped(r.content) + "\",\"ttl\":"@ + spec_decimal(
        r.ttl as nat,
    ) + "}"@
}

/// Appends one record as a JSON object.
fn append_record(out: &mut String, rec: &DnsRecord)
    ensures
        final(out)@ == old(out)@ + json_of_record(rec@),
{
    out.append("{\"qtype\":\"");
    append_json_escaped(out, rec.qtype.as_str());
    out.append("\",\"qname\":\"");
    append_json_escaped(out, rec.qname.as_str());
    out.append("\",\"content\":\"");
    append_json_escaped(out, rec.content.as_str());
    out.append("\",\"ttl\":");
    let ttl = decimal_string(rec.ttl as u64);
    out.append(ttl.as_str());
    out.append("}");
    proof {
        assert(final(out)@ =~= old(out)@ + json_of_record(rec@));
    }
}

/// A sequence of records as comma-separated JSON objects, in order.
pub open spec fn json_of_records(rs: Seq<RecordModel>) -> Seq<char>
    decreases rs.len(),
{
    if rs.len() == 0 {
        Seq::empty()
    } else if rs.len() == 1 {
        json_of_record(rs[0])
    } else {
        json_of_records(rs.drop_last()) + ","@ + json_of_record(rs.last())
    }
}

/// A whole response on the wire: `{"result":[...]}` with the records in
/// the order the resolver produced them.
pub open spec fn json_of_response(rs: Seq<RecordModel>) -> Seq<char> {
    "{\"result\":["@ + json_of_records(rs) + "]}"@
}

/// Renders a response as the JSON body the remote-backend protocol expects.
pub fn render_response(response: &DnsResponse) -> (r: String)
    ensures
        r@ == json_of_response(response@),
{
    let mut out = String::from_str("{\"result\":[");
    let n = response.result.len();
    let mut i: usize = 0;
    while i < n
        invariant
            n == response.result@.len(),
            n == response@.len(),
            i <= n,
            out@ == "{\"result\":["@ + json_of_records(response@.take(i as int)),
        decreases n - i,
    {
        if i > 0 {
            out.append(",");
        }
        append_record(&mut out, &response.result[i]);
        proof {
            reveal_strlit(",");
            assert(response@[i as int] == response.result@[i as int]@);
            assert(response@.take(i as int + 1).drop_last() =~= response@.take(i as int));
            assert(response@.take(i as int + 1).last() == response@[i as int]);
            assert(out@ =~= "{\"result\":["@ + json_of_records(response@.take(i as int + 1)));
        }
        i = i + 1;
    }
    out.append("]}");
    proof {
        assert(response@.take(n as int) =~= response@);
        assert(out@ =~= json_of_response(response@));
    }
    out
}

/// The fixed body of the domain-metadata endpoint, with the queried domain
/// substituted in: a compatibility shim for the calling DNS server's
/// startup handshake, reproduced as is.
pub open spec fn json_of_metadata(domain: Seq<char>) -> Seq<char> {
    "{\"result\":{\"id\":1,\"zone\":\""@ + json_escaped(domain)
        + "\",\"kind\":\"NATIVE\",\"serial\":11}}"@
}

/// Renders the fixed domain-metadata body for the queried domain.
pub fn getalldomainmetadata(domain: &str) -> (r: String)
    ensures
        r@ == json_of_metadata(domain@),
{
    let mut out = String::from_str("{\"result\":{\"id\":1,\"zone\":\"");
    append_json_escaped(&mut out, domain);
    out.append("\",\"kind\":\"NATIVE\",\"serial\":11}}");
    proof {
        assert(out@ =~= json_of_metadata(domain@));
    }
    out
}

} // verus!
