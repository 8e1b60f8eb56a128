//! Message text with its markup characters escaped.

use vstd::prelude::*;
use vstd::string::StrSliceExecFns;
use vstd::string::StringExecFns;

verus! {

/// The escaped form of a single character: `&`, `<` and `>` become the
/// entities `&amp;`, `&lt;` and `&gt;`; every other character stands for itself.
pub open spec fn escape_char(c: char) -> Seq<char> {
    if c == '&' {
        seq!['&', 'a', 'm', 'p', ';']
    } else if c == '<' {
        seq!['&', 'l', 't', ';']
    } else if c == '>' {
        seq!['&', 'g', 't', ';']
    } else {
        seq![c]
    }
}

/// The escaped form of a whole text, character by character from the left.
pub open spec fn escape(s: Seq<char>) -> Seq<char>
    decreases s.len(),
{
    if s.len() == 0 {
        Seq::empty()
    } else {
        escape(s.drop_last()) + escape_char(s.last())
    }
}

/// Whether position `i` of `s` begins one of the three entities.
pub open spec fn entity_at(s: Seq<char>, i: int) -> bool {
    ||| (i + 5 <= s.len() && s.subrange(i, i + 5) == seq!['&', 'a', 'm', 'p', ';'])
    ||| (i + 4 <= s.len() && s.subrange(i, i + 4) == seq!['&', 'l', 't', ';'])
    ||| (i + 4 <= s.len() && s.subrange(i, i + 4) == seq!['&', 'g', 't', ';'])
}

/// Text that is safe to embed in a message: no `<` or `>`, and every `&`
/// begins an entity.
pub open spec fn markup_safe(s: Seq<char>) -> bool {
    &&& forall|i: int| 0 <= i < s.len() ==> s[i] != '<' && s[i] != '>'
    &&& forall|i: int| 0 <= i < s.len() && s[i] == '&' ==> entity_at(s, i)
}

/// Escaping yields markup-safe text.
pub proof fn lemma_escape_is_markup_safe(s: Seq<char>)
    ensures
        markup_safe(escape(s)),
    decreases s.len(),
{
    if s.len() > 0 {
        let pre = escape(s.drop_last());
        let tail = escape_char(s.last());
        lemma_escape_is_markup_safe(s.drop_last());
        let e = pre + tail;
        assert(escape(s) == e);
        assert forall|i: int| 0 <= i < e.len() implies e[i] != '<' && e[i] != '>' by {
            if i >= pre.len() {
                assert(e[i] == tail[i - pre.len()]);
            }
        }
        assert forall|i: int| 0 <= i < e.len() && e[i] == '&' implies entity_at(e, i) by {
            if i < pre.len() {
                assert(entity_at(pre, i));
                if i + 5 <= pre.len() && pre.subrange(i, i + 5) == seq!['&', 'a', 'm', 'p', ';'] {
                    assert(e.subrange(i, i + 5) =~= pre.subrange(i, i + 5));
                } else if i + 4 <= pre.len() && pre.subrange(i, i + 4) == seq!['&', 'l', 't', ';'] {
                    assert(e.subrange(i, i + 4) =~= pre.subrange(i, i + 4));
                } else {
                    assert(e.subrange(i, i + 4) =~= pre.subrange(i, i + 4));
                }
            } else {
                assert(e[i] == tail[i - pre.len()]);
                assert(i == pre.len());
                assert(e.subrange(i, e.len() as int) =~= tail);
                if s.last() == '&' {
                    assert(e.subrange(i, i + 5) =~= tail);
                } else if s.last() == '<' {
                    assert(e.subrange(i, i + 4) =~= tail);
                } else {
                    assert(e.subrange(i, i + 4) =~= tail);
                }
            }
        }
    }
}

/// Text of a message, held in escaped form.
#[derive(Debug)]
pub struct SlackText {
    escaped: String,
}

impl View for SlackText {
    type V = Seq<char>;

    closed spec fn view(&self) -> Seq<char> {
        self.escaped@
    }
}

impl SlackText {
    #[verifier::type_invariant]
    spec fn inv(self) -> bool {
        markup_safe(self.escaped@)
    }

    /// Escapes `raw`: `&` first, then `<` and `>`, so that the ampersands
    /// of the entities are never escaped again.
    pub fn from_raw(raw: &str) -> (r: SlackText)
        ensures
            r@ == escape(raw@),
            markup_safe(r@),
    {
        let n = raw.unicode_len();
        let mut out = String::new();
        let mut i: usize = 0;
        while i < n
            invariant
                n == raw@.len(),
                i <= n,
                out@ == escape(raw@.subrange(0, i as int)),
            decreases n - i,
        {
            let c = raw.get_char(i);
            if c == '&' {
                out.append("&amp;");
            } else if c == '<' {
                out.append("&lt;");
            } else if c == '>' {
                out.append("&gt;");
            } else {
                out.append(raw.substring_char(i, i + 1));
            }
            proof {
                reveal_strlit("&amp;");
                reveal_strlit("&lt;");
                reveal_strlit("&gt;");
                let pre = raw@.subrange(0, i + 1);
                assert(pre.drop_last() =~= raw@.subrange(0, i as int));
                assert(pre.last() == c);
                assert(escape_char(c) =~= if c == '&' {
                    "&amp;"@
                } else if c == '<' {
                    "&lt;"@
                } else if c == '>' {
                    "&gt;"@
                } else {
                    raw@.subrange(i as int, i + 1)
                });
            }
            i = i + 1;
        }
        assert(raw@.subrange(0, n as int) =~= raw@);
        proof {
            lemma_escape_is_markup_safe(raw@);
        }
        SlackText { escaped: out }
    }

    /// The escaped text, as it goes on the wire.
    pub fn encode(&self) -> (r: String)
        ensures
            r@ == self@,
            markup_safe(r@),
    {
        proof {
            use_type_invariant(self);
        }
        self.escaped.clone()
    }
}

impl Clone for SlackText {
    fn clone(&self) -> (r: SlackText)
        ensures
            r@ == self@,
    {
        proof {
            use_type_invariant(self);
        }
        SlackText { escaped: self.escaped.clone() }
    }
}

impl Default for SlackText {
    fn default() -> (r: SlackText)
        ensures
            r@ == Seq::<char>::empty(),
    {
        SlackText { escaped: String::new() }
    }
}

} // verus!
