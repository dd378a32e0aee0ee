//! What the browser-side viewer is told about a new graph.

use vstd::prelude::*;

verus! {

/// Whether a character would end a JavaScript template literal, or be read as more than itself
/// in one.
pub open spec fn template_special(c: char) -> bool {
    c == '\\' || c == '`' || c == '$'
}

/// A text as the body of a JavaScript template literal.
pub open spec fn escaped(s: Seq<char>) -> Seq<char>
    decreases s.len(),
{
    if s.len() == 0 {
        Seq::empty()
    } else if template_special(s.last()) {
        escaped(s.drop_last()).push('\\').push(s.last())
    } else {
        escaped(s.drop_last()).push(s.last())
    }
}

/// What the body of a template literal stands for: a backslash takes one of the special characters
/// after it as it is, and a line that ends in a carriage return ends in a line feed. None where
/// the body would end the literal or may start a substitution, or has any other escape in it.
pub open spec fn template_value(body: Seq<char>) -> Option<Seq<char>>
    decreases body.len(),
{
    if body.len() == 0 {
        Some(Seq::empty())
    } else if body[0] == '\\' {
        if body.len() == 1 || !template_special(body[1]) {
            None
        } else {
            match template_value(body.skip(2)) {
                Some(rest) => Some(seq![body[1]] + rest),
                None => None,
            }
        }
    } else if template_special(body[0]) {
        None
    } else if body[0] == '\r' {
        let rest = if body.len() > 1 && body[1] == '\n' {
            body.skip(2)
        } else {
            body.skip(1)
        };
        match template_value(rest) {
            Some(rest) => Some(seq!['\n'] + rest),
            None => None,
        }
    } else {
        match template_value(body.skip(1)) {
            Some(rest) => Some(seq![body[0]] + rest),
            None => None,
        }
    }
}

proof fn lemma_escaped_first(s: Seq<char>)
    requires
        s.len() > 0,
    ensures
        escaped(s) == (if template_special(s[0]) {
            seq!['\\', s[0]]
        } else {
            seq![s[0]]
        }) + escaped(s.skip(1)),
    decreases s.len(),
{
    if s.len() == 1 {
        assert(s.skip(1) =~= Seq::empty());
        assert(s.drop_last() =~= Seq::empty());
        assert(escaped(s.drop_last()) =~= Seq::empty());
        assert(escaped(s) =~= if template_special(s[0]) {
            seq!['\\', s[0]]
        } else {
            seq![s[0]]
        });
    } else {
        lemma_escaped_first(s.drop_last());
        assert(s.skip(1).drop_last() =~= s.drop_last().skip(1));
        assert(s.skip(1).last() == s.last());
        assert(s.drop_last()[0] == s[0]);
        let first = if template_special(s[0]) {
            seq!['\\', s[0]]
        } else {
            seq![s[0]]
        };
        if template_special(s.last()) {
            assert(escaped(s) =~= first + escaped(s.skip(1)));
        } else {
            assert(escaped(s) =~= first + escaped(s.skip(1)));
        }
    }
}

/// A text without carriage returns comes back unchanged from the template literal that it is put
/// into, whatever else is in it: nothing in it ends the literal or is evaluated.
pub proof fn law_escaped_text_comes_back(s: Seq<char>)
    requires
        !s.contains('\r'),
    ensures
        template_value(escaped(s)) == Some(s),
    decreases s.len(),
{
    if s.len() == 0 {
        assert(s =~= Seq::empty());
    } else {
        lemma_escaped_first(s);
        assert(s.contains(s[0]));
        assert forall|i: int| 0 <= i < s.skip(1).len() implies s.skip(1)[i] != '\r' by {
            assert(s.contains(s[i + 1]));
        }
        law_escaped_text_comes_back(s.skip(1));
        let body = escaped(s);
        if template_special(s[0]) {
            assert(body[0] == '\\' && body[1] == s[0]);
            assert(body.skip(2) =~= escaped(s.skip(1)));
        } else {
            assert(body[0] == s[0]);
            assert(body.skip(1) =~= escaped(s.skip(1)));
        }
        assert(seq![s[0]] + s.skip(1) =~= s);
    }
}

/// Escapes a text for a JavaScript template literal.
pub fn escape_js(s: &str) -> (body: String)
    ensures
        body@ == escaped(s@),
{
    let mut body = String::new();
    for c in it: s.chars()
        invariant
            it.seq() == s@,
            body@ == escaped(s@.take(it.index())),
    {
        proof {
            let done = it.index();
            assert(s@.take(done + 1).drop_last() =~= s@.take(done));
            assert(s@.take(done + 1).last() == c);
        }
        if c == '\\' || c == '`' || c == '$' {
            body.push('\\');
        }
        body.push(c);
    }
    proof {
        assert(s@.take(s@.len() as int) =~= s@);
    }
    body
}

/// The script for a graph: it calls the viewer, where the viewer has been loaded, with the name
/// and the content as template literals.
pub open spec fn new_dot_script(name: Seq<char>, dot_data: Seq<char>) -> Seq<char> {
    "if (typeof globalThis.__gstDotsWasm !== 'undefined') { globalThis.__gstDotsWasm.onNewDot(`"@
        + escaped(name) + "`, `"@ + escaped(dot_data) + "`); }"@
}

/// Makes the script that notifies the viewer of a new pipeline graph. It is to be run on the main
/// browser thread.
pub fn notify_new_dot(name: &str, dot_data: &str) -> (script: String)
    ensures
        script@ == new_dot_script(name@, dot_data@),
{
    let mut script =
        "if (typeof globalThis.__gstDotsWasm !== 'undefined') { globalThis.__gstDotsWasm.onNewDot(`".to_owned();
    script.append(escape_js(name).as_str());
    script.append("`, `");
    script.append(escape_js(dot_data).as_str());
    script.append("`); }");
    script
}

/// Only the three special characters are touched: each gets one backslash, and a text without any
/// stays as it is.
pub proof fn law_plain_text_is_not_escaped(s: Seq<char>)
    ensures
        (forall|i: int|
            0 <= i < s.len() ==> #[trigger] s[i] != '\\' && s[i] != '`' && s[i] != '$') ==> escaped(s)
            == s,
        escaped(s).len() == s.len() + s.filter(
            |c: char| c == '\\' || c == '`' || c == '$',
        ).len(),
    decreases s.len(),
{
    reveal(Seq::filter);
    if s.len() > 0 {
        law_plain_text_is_not_escaped(s.drop_last());
        if forall|i: int|
            0 <= i < s.len() ==> #[trigger] s[i] != '\\' && s[i] != '`' && s[i] != '$' {
            assert forall|i: int| 0 <= i < s.drop_last().len() implies #[trigger] s.drop_last()[i]
                != '\\' && s.drop_last()[i] != '`' && s.drop_last()[i] != '$' by {
                assert(s.drop_last()[i] == s[i]);
            }
            assert(s.last() == s[s.len() - 1]);
            assert(escaped(s) =~= s);
        }
    } else {
        assert(escaped(s) =~= s);
    }
}

/// The script hands the viewer the name first and the content second, each as a template literal of
/// its own, and does nothing where there is no viewer.
pub proof fn law_the_viewer_is_handed_name_and_content(name: Seq<char>, dot_data: Seq<char>)
    requires
        !name.contains('\r'),
        !dot_data.contains('\r'),
    ensures
        exists|a: Seq<char>, b: Seq<char>|
            new_dot_script(name, dot_data)
                == "if (typeof globalThis.__gstDotsWasm !== 'undefined') { globalThis.__gstDotsWasm.onNewDot("@
                + seq!['`'] + a + seq!['`', ',', ' ', '`'] + b + "`); }"@ && #[trigger] template_value(
                a,
            ) == Some(name) && #[trigger] template_value(b) == Some(dot_data),
{
    law_escaped_text_comes_back(name);
    law_escaped_text_comes_back(dot_data);
    let a = escaped(name);
    let b = escaped(dot_data);
    reveal_strlit(
        "if (typeof globalThis.__gstDotsWasm !== 'undefined') { globalThis.__gstDotsWasm.onNewDot(`",
    );
    reveal_strlit(
        "if (typeof globalThis.__gstDotsWasm !== 'undefined') { globalThis.__gstDotsWasm.onNewDot(",
    );
    reveal_strlit("`, `");
    assert("if (typeof globalThis.__gstDotsWasm !== 'undefined') { globalThis.__gstDotsWasm.onNewDot(`"@
        =~= "if (typeof globalThis.__gstDotsWasm !== 'undefined') { globalThis.__gstDotsWasm.onNewDot("@
        + seq!['`']);
    assert("`, `"@ =~= seq!['`', ',', ' ', '`']);
}

} // verus!
