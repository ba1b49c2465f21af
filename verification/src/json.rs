//! Encoding of the outbound JSON payload: string escaping and the
//! chat-completion request body. The encoder is specified exactly, character
//! by character, so the payload is a function of the model name and the
//! messages alone.
use vstd::prelude::*;

verus! {

/// The lowercase hexadecimal digit for a value below sixteen.
pub open spec fn hex_digit(n: int) -> char {
    if n == 0 {
        '0'
    } else if n == 1 {
        '1'
    } else if n == 2 {
        '2'
    } else if n == 3 {
        '3'
    } else if n == 4 {
        '4'
    } else if n == 5 {
        '5'
    } else if n == 6 {
        '6'
    } else if n == 7 {
        '7'
    } else if n == 8 {
        '8'
    } else if n == 9 {
        '9'
    } else if n == 10 {
        'a'
    } else if n == 11 {
        'b'
    } else if n == 12 {
        'c'
    } else if n == 13 {
        'd'
    } else if n == 14 {
        'e'
    } else {
        'f'
    }
}

/// How one character appears inside a JSON string literal: quote, backslash
/// and control characters are escaped, every other character stands verbatim.
pub open spec fn escape_char(c: char) -> Seq<char> {
    if c == '"' {
        "\\\""@
    } else if c == '\\' {
        "\\\\"@
    } else if c == '\n' {
        "\\n"@
    } else if c == '\r' {
        "\\r"@
    } else if c == '\t' {
        "\\t"@
    } else if (c as int) < 32 {
        "\\u00"@ + seq![hex_digit(c as int / 16), hex_digit(c as int % 16)]
    } else {
        seq![c]
    }
}

/// A whole string as it appears inside a JSON string literal.
pub open spec fn json_escaped(s: Seq<char>) -> Seq<char>
    decreases s.len(),
{
    if s.len() == 0 {
        Seq::<char>::empty()
    } else {
        json_escaped(s.drop_last()) + escape_char(s.last())
    }
}

/// Escaping one more character appends that character's escape.
proof fn lemma_json_escaped_take_one_more(s: Seq<char>, i: int)
    requires
        0 <= i < s.len(),
    ensures
        json_escaped(s.take(i + 1)) == json_escaped(s.take(i)) + escape_char(s[i]),
{
    let t = s.take(i + 1);
    assert(t.drop_last() =~= s.take(i));
    assert(t.last() == s[i]);
}

/// The lowercase hexadecimal digit for a value below sixteen.
fn hex_digit_str(n: u32) -> (r: &'static str)
    requires
        n < 16,
    ensures
        r@ == seq![hex_digit(n as int)],
{
    let r: &'static str = match n {
        0 => "0",
        1 => "1",
        2 => "2",
        3 => "3",
        4 => "4",
        5 => "5",
        6 => "6",
        7 => "7",
        8 => "8",
        9 => "9",
        10 => "a",
        11 => "b",
        12 => "c",
        13 => "d",
        14 => "e",
        _ => "f",
    };
    proof {
        reveal_strlit("0");
        reveal_strlit("1");
        reveal_strlit("2");
        reveal_strlit("3");
        reveal_strlit("4");
        reveal_strlit("5");
        reveal_strlit("6");
        reveal_strlit("7");
        reveal_strlit("8");
        reveal_strlit("9");
        reveal_strlit("a");
        reveal_strlit("b");
        reveal_strlit("c");
        reveal_strlit("d");
        reveal_strlit("e");
        reveal_strlit("f");
        assert(r@ =~= seq![hex_digit(n as int)]);
    }
    r
}

/// Escapes a string for inclusion inside a JSON string literal.
pub fn json_escape(s: &str) -> (r: String)
    ensures
        r@ == json_escaped(s@),
{
    let n = s.unicode_len();
    let mut out = String::new();
    proof {
        assert(out@ =~= json_escaped(s@.take(0)));
    }
    let mut i: usize = 0;
    while i < n
        invariant
            i <= n,
            n == s@.len(),
            out@ == json_escaped(s@.take(i as int)),
        decreases n - i,
    {
        let c = s.get_char(i);
        if c == '"' {
            out.append("\\\"");
        } else if c == '\\' {
            out.append("\\\\");
        } else if c == '\n' {
            out.append("\\n");
        } else if c == '\r' {
            out.append("\\r");
        } else if c == '\t' {
            out.append("\\t");
        } else if (c as u32) < 32 {
            let code: u32 = c as u32;
            out.append("\\u00");
            out.append(hex_digit_str(code / 16));
            out.append(hex_digit_str(code % 16));
        } else {
            let piece = s.substring_char(i, i + 1);
            out.append(piece);
            proof {
                assert(piece@ =~= seq![s@[i as int]]);
            }
        }
        proof {
            lemma_json_escaped_take_one_more(s@, i as int);
            assert(out@ =~= json_escaped(s@.take(i as int + 1)));
        }
        i += 1;
    }
    proof {
        assert(s@.take(n as int) =~= s@);
    }
    out
}

/// One message object of the outbound payload, for a role and a content
/// already given as character sequences.
pub open spec fn message_text(role: Seq<char>, content: Seq<char>) -> Seq<char> {
    "{\"role\":\""@ + json_escaped(role) + "\",\"content\":\""@ + json_escaped(content) + "\"}"@
}

/// The comma-separated interior of the messages array.
pub open spec fn messages_inner(ms: Seq<(Seq<char>, Seq<char>)>) -> Seq<char>
    decreases ms.len(),
{
    if ms.len() == 0 {
        Seq::<char>::empty()
    } else if ms.len() == 1 {
        message_text(ms[0].0, ms[0].1)
    } else {
        messages_inner(ms.drop_last()) + ","@ + message_text(ms.last().0, ms.last().1)
    }
}

/// The whole outbound payload: the model name and the messages array.
pub open spec fn chat_payload_text(model: Seq<char>, ms: Seq<(Seq<char>, Seq<char>)>) -> Seq<
    char,
> {
    "{\"model\":\""@ + json_escaped(model) + "\",\"messages\":["@ + messages_inner(ms) + "]}"@
}

/// One conversation message: a role label and the message's content.
pub struct ChatMessage {
    pub role: String,
    pub content: String,
}

impl View for ChatMessage {
    type V = (Seq<char>, Seq<char>);

    open spec fn view(&self) -> (Seq<char>, Seq<char>) {
        (self.role@, self.content@)
    }
}

impl DeepView for ChatMessage {
    type V = (Seq<char>, Seq<char>);

    open spec fn deep_view(&self) -> (Seq<char>, Seq<char>) {
        self@
    }
}

/// Encoding one more message extends the interior by a separator (when it is
/// not the first message) and that message's object.
proof fn lemma_messages_inner_take_one_more(ms: Seq<(Seq<char>, Seq<char>)>, i: int)
    requires
        0 <= i < ms.len(),
    ensures
        i == 0 ==> messages_inner(ms.take(1)) == message_text(ms[0].0, ms[0].1),
        i > 0 ==> messages_inner(ms.take(i + 1)) == messages_inner(ms.take(i)) + ","@
            + message_text(ms[i].0, ms[i].1),
{
    let t = ms.take(i + 1);
    if i == 0 {
        assert(t.len() == 1);
        assert(t[0] == ms[0]);
    } else {
        assert(t.drop_last() =~= ms.take(i));
        assert(t.last() == ms[i]);
    }
}

/// Builds the outbound JSON payload for a chat-completion call: the model
/// name and the messages, every string escaped. The result is exactly
/// `chat_payload_text` of the arguments, nothing else.
pub fn chat_payload(model: &str, messages: &Vec<ChatMessage>) -> (r: String)
    ensures
        r@ == chat_payload_text(model@, messages.deep_view()),
{
    let ghost dv = messages.deep_view();
    let mut out = String::from_str("{\"model\":\"");
    let escaped_model = json_escape(model);
    out.append(escaped_model.as_str());
    out.append("\",\"messages\":[");
    proof {
        assert(out@ =~= "{\"model\":\""@ + json_escaped(model@) + "\",\"messages\":["@
            + messages_inner(dv.take(0)));
    }
    let n = messages.len();
    let mut i: usize = 0;
    while i < n
        invariant
            i <= n,
            n == messages.len(),
            dv == messages.deep_view(),
            out@ == "{\"model\":\""@ + json_escaped(model@) + "\",\"messages\":["@
                + messages_inner(dv.take(i as int)),
        decreases n - i,
    {
        if i > 0 {
            out.append(",");
        }
        out.append("{\"role\":\"");
        let escaped_role = json_escape(messages[i].role.as_str());
        out.append(escaped_role.as_str());
        out.append("\",\"content\":\"");
        let escaped_content = json_escape(messages[i].content.as_str());
        out.append(escaped_content.as_str());
        out.append("\"}");
        proof {
            lemma_messages_inner_take_one_more(dv, i as int);
            assert(dv[i as int] == (messages@[i as int].role@, messages@[i as int].content@));
            assert(out@ =~= "{\"model\":\""@ + json_escaped(model@) + "\",\"messages\":["@
                + messages_inner(dv.take(i as int + 1)));
        }
        i += 1;
    }
    out.append("]}");
    proof {
        assert(dv.take(n as int) =~= dv);
        assert(out@ =~= chat_payload_text(model@, dv));
    }
    out
}

} // verus!
