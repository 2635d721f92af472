use vstd::prelude::*;
use vstd::string::StrSliceExecFns;
use vstd::string::StringExecFns;
use crate::store::Message;
use crate::text::append_dec_i64;
use crate::text::dec_of_i64;

verus! {

/// How one character appears in escaped HTML text: the four markup
/// metacharacters become entities, every other character stands as itself.
pub open spec fn escape_char(c: char) -> Seq<char> {
    if c == '&' {
        seq!['&', 'a', 'm', 'p', ';']
    } else if c == '<' {
        seq!['&', 'l', 't', ';']
    } else if c == '>' {
        seq!['&', 'g', 't', ';']
    } else if c == '"' {
        seq!['&', 'q', 'u', 'o', 't', ';']
    } else {
        seq![c]
    }
}

/// HTML-escapes a whole text, character by character.
pub open spec fn escape_html(s: Seq<char>) -> Seq<char>
    decreases s.len(),
{
    if s.len() == 0 {
        Seq::empty()
    } else {
        escape_html(s.drop_last()) + escape_char(s.last())
    }
}

/// Escaped text carries no markup: whatever the input, the escaped form
/// contains no `<`, no `>`, and no `"`, so untrusted content cannot open a tag
/// or break out of an attribute.
pub proof fn lemma_escape_html_no_markup(s: Seq<char>)
    ensures
        forall|i: int|
            0 <= i < escape_html(s).len() ==> #[trigger] escape_html(s)[i] != '<'
                && escape_html(s)[i] != '>' && escape_html(s)[i] != '"',
    decreases s.len(),
{
    if s.len() > 0 {
        lemma_escape_html_no_markup(s.drop_last());
        assert forall|i: int| 0 <= i < escape_html(s).len() implies #[trigger] escape_html(s)[i]
            != '<' && escape_html(s)[i] != '>' && escape_html(s)[i] != '"' by {
            let init = escape_html(s.drop_last());
            if i < init.len() {
                assert(escape_html(s)[i] == init[i]);
            } else {
                assert(escape_html(s)[i] == escape_char(s.last())[i - init.len()]);
            }
        }
    }
}

/// HTML-escapes `s`.
pub fn escape_html_str(s: &str) -> (r: String)
    ensures
        r@ == escape_html(s@),
{
    let mut out = String::new();
    let n = s.unicode_len();
    for i in 0..n
        invariant
            n == s@.len(),
            out@ == escape_html(s@.take(i as int)),
    {
        proof {
            assert(s@.take(i + 1).drop_last() =~= s@.take(i as int));
            assert(s@.take(i + 1).last() == s@[i as int]);
        }
        let c = s.get_char(i);
        if c == '&' {
            out.append("&amp;");
            proof { reveal_strlit("&amp;"); assert(("&amp;"@) =~= escape_char('&')); }
        } else if c == '<' {
            out.append("&lt;");
            proof { reveal_strlit("&lt;"); assert(("&lt;"@) =~= escape_char('<')); }
        } else if c == '>' {
            out.append("&gt;");
            proof { reveal_strlit("&gt;"); assert(("&gt;"@) =~= escape_char('>')); }
        } else if c == '"' {
            out.append("&quot;");
            proof { reveal_strlit("&quot;"); assert(("&quot;"@) =~= escape_char('"')); }
        } else {
            out.append(s.substring_char(i, i + 1));
            proof {
                assert(s@.subrange(i as int, i + 1) =~= escape_char(s@[i as int]));
            }
        }
    }
    proof {
        assert(s@.take(n as int) =~= s@);
    }
    out
}

/// One rendered list item: `username (timestamp): message`, with both
/// user-supplied texts HTML-escaped.
pub open spec fn render_item(m: Message) -> Seq<char> {
    "<li>"@ + escape_html(m.username@) + " ("@ + dec_of_i64(m.timestamp as int) + "): "@
        + escape_html(m.message@) + "</li>"@
}

/// The rendered list items, in order.
pub open spec fn render_items(ms: Seq<Message>) -> Seq<char>
    decreases ms.len(),
{
    if ms.len() == 0 {
        Seq::empty()
    } else {
        render_items(ms.drop_last()) + render_item(ms.last())
    }
}

/// The whole rendered page: a head with a title and a UTF-8 charset
/// declaration, then the message list.
pub open spec fn render_page(ms: Seq<Message>) -> Seq<char> {
    "<head><title>microservice</title><meta charset=\"utf-8\"></head><body><ul>"@
        + render_items(ms) + "</ul></body>"@
}

/// Renders the messages as the complete HTML document.
pub fn render_html(messages: &Vec<Message>) -> (r: String)
    ensures
        r@ == render_page(messages@),
{
    let mut out = String::from_str(
        "<head><title>microservice</title><meta charset=\"utf-8\"></head><body><ul>",
    );
    let n = messages.len();
    for i in 0..n
        invariant
            n == messages@.len(),
            out@
                == "<head><title>microservice</title><meta charset=\"utf-8\"></head><body><ul>"@
                + render_items(messages@.take(i as int)),
    {
        proof {
            assert(messages@.take(i + 1).drop_last() =~= messages@.take(i as int));
            assert(messages@.take(i + 1).last() == messages@[i as int]);
        }
        out.append("<li>");
        let escaped_name = escape_html_str(messages[i].username.as_str());
        out.append(escaped_name.as_str());
        out.append(" (");
        append_dec_i64(&mut out, messages[i].timestamp);
        out.append("): ");
        let escaped_text = escape_html_str(messages[i].message.as_str());
        out.append(escaped_text.as_str());
        out.append("</li>");
    }
    out.append("</ul></body>");
    proof {
        assert(messages@.take(n as int) =~= messages@);
    }
    out
}

} // verus!
