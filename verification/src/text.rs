use vstd::prelude::*;
use vstd::string::{StrSliceExecFns, StringExecFns};

verus! {

/// The character count past which extracted text is truncated.
pub const MAX_DOC_LEN: usize = 8000;

/// The characters treated as whitespace: the Unicode White_Space set,
/// the same set that a whitespace split of a string goes by.
pub open spec fn is_ws_char(c: char) -> bool {
    let u = c as u32;
    ||| u == 0x09
    ||| u == 0x0A
    ||| u == 0x0B
    ||| u == 0x0C
    ||| u == 0x0D
    ||| u == 0x20
    ||| u == 0x85
    ||| u == 0xA0
    ||| u == 0x1680
    ||| (0x2000 <= u && u <= 0x200A)
    ||| u == 0x2028
    ||| u == 0x2029
    ||| u == 0x202F
    ||| u == 0x205F
    ||| u == 0x3000
}

/// Whether `c` counts as whitespace.
pub fn is_whitespace_char(c: char) -> (r: bool)
    ensures
        r == is_ws_char(c),
{
    let u = c as u32;
    u == 0x09 || u == 0x0A || u == 0x0B || u == 0x0C || u == 0x0D || u == 0x20 || u == 0x85
        || u == 0xA0 || u == 0x1680 || (0x2000 <= u && u <= 0x200A) || u == 0x2028 || u == 0x2029
        || u == 0x202F || u == 0x205F || u == 0x3000
}

/// One left-to-right pass over `s`: the whitespace-collapsed text built
/// so far, paired with whether a separating space is owed before the
/// next non-whitespace character (true exactly when some text has been
/// emitted and whitespace follows it).
pub open spec fn norm_state(s: Seq<char>) -> (Seq<char>, bool)
    decreases s.len(),
{
    if s.len() == 0 {
        (Seq::<char>::empty(), false)
    } else {
        let prev = norm_state(s.drop_last());
        let c = s.last();
        if is_ws_char(c) {
            (prev.0, prev.0.len() > 0)
        } else if prev.1 {
            (prev.0 + seq![' ', c], false)
        } else {
            (prev.0 + seq![c], false)
        }
    }
}

/// `s` with every run of whitespace collapsed to a single space and all
/// leading and trailing whitespace removed.
pub open spec fn collapse_ws(s: Seq<char>) -> Seq<char> {
    norm_state(s).0
}

/// Every whitespace character in `t` is a plain space, no two adjacent
/// characters are both whitespace, and `t` does not start with
/// whitespace.
pub open spec fn ws_seminormalized(t: Seq<char>) -> bool {
    &&& forall|i: int| 0 <= i < t.len() && is_ws_char(#[trigger] t[i]) ==> t[i] == ' '
    &&& forall|i: int| 0 < i < t.len() && is_ws_char(#[trigger] t[i]) ==> !is_ws_char(t[i - 1])
    &&& t.len() > 0 ==> !is_ws_char(t[0])
}

/// `t` has no consecutive whitespace, no leading or trailing whitespace,
/// and only plain spaces as whitespace.
pub open spec fn ws_normalized(t: Seq<char>) -> bool {
    &&& ws_seminormalized(t)
    &&& t.len() > 0 ==> !is_ws_char(t[t.len() - 1])
}

proof fn lemma_norm_state_props(s: Seq<char>)
    ensures
        ws_normalized(norm_state(s).0),
        norm_state(s).1 ==> norm_state(s).0.len() > 0,
    decreases s.len(),
{
    if s.len() > 0 {
        lemma_norm_state_props(s.drop_last());
        let prev = norm_state(s.drop_last());
        let c = s.last();
        if is_ws_char(c) {
        } else if prev.1 {
            let u = prev.0 + seq![' ', c];
            assert(forall|i: int| 0 <= i < prev.0.len() ==> u[i] == prev.0[i]);
            assert(u[u.len() - 2] == ' ' && u[u.len() - 1] == c);
            assert(!is_ws_char(prev.0[prev.0.len() - 1]));
        } else {
            let u = prev.0 + seq![c];
            assert(forall|i: int| 0 <= i < prev.0.len() ==> u[i] == prev.0[i]);
            assert(u[u.len() - 1] == c);
        }
    }
}

/// Collapsing normalizes: the result has no consecutive whitespace, no
/// leading or trailing whitespace, and every whitespace character in it
/// is a single plain space.
pub proof fn lemma_collapse_normalized(s: Seq<char>)
    ensures
        ws_normalized(collapse_ws(s)),
{
    lemma_norm_state_props(s);
}

proof fn lemma_norm_state_seminorm(t: Seq<char>)
    requires
        ws_seminormalized(t),
    ensures
        norm_state(t) == if t.len() > 0 && t.last() == ' ' {
            (t.drop_last(), true)
        } else {
            (t, false)
        },
    decreases t.len(),
{
    if t.len() > 0 {
        let dl = t.drop_last();
        assert(forall|i: int| 0 <= i < dl.len() ==> dl[i] == t[i]);
        lemma_norm_state_seminorm(dl);
        let c = t.last();
        if is_ws_char(c) {
            assert(c == ' ');
            assert(dl.len() > 0 && !(dl.last() == ' ')) by {
                assert(!is_ws_char(t[0]));
                assert(!is_ws_char(t[t.len() - 2]));
            }
            assert(norm_state(t) == (dl, true));
        } else {
            if dl.len() > 0 && dl.last() == ' ' {
                assert(norm_state(t).0 =~= t);
            } else {
                assert(norm_state(t).0 =~= t);
            }
        }
    }
}

/// Collapsing is idempotent: collapsing already-collapsed text changes
/// nothing.
pub proof fn lemma_collapse_idempotent(s: Seq<char>)
    ensures
        collapse_ws(collapse_ws(s)) == collapse_ws(s),
{
    lemma_norm_state_props(s);
    lemma_norm_state_seminorm(collapse_ws(s));
}

/// Collapse every whitespace run in `s` to a single space and trim.
pub fn collapse_whitespace(s: &str) -> (r: String)
    ensures
        r@ == collapse_ws(s@),
{
    let n = s.unicode_len();
    let mut out = String::new();
    let mut pending = false;
    let mut i: usize = 0;
    while i < n
        invariant
            n == s@.len(),
            i <= n,
            out@ == norm_state(s@.take(i as int)).0,
            pending == norm_state(s@.take(i as int)).1,
        decreases n - i,
    {
        let c = s.get_char(i);
        proof {
            assert(s@.take(i + 1 as int).drop_last() =~= s@.take(i as int));
            assert(s@.take(i + 1 as int).last() == c);
        }
        if is_whitespace_char(c) {
            pending = !out.as_str().is_empty();
        } else {
            if pending {
                out.append(" ");
                proof {
                    reveal_strlit(" ");
                    assert(" "@ =~= seq![' ']);
                }
            }
            let piece = s.substring_char(i, i + 1);
            out.append(piece);
            proof {
                assert(piece@ =~= seq![c]);
                if norm_state(s@.take(i as int)).1 {
                    assert(out@ =~= norm_state(s@.take(i as int)).0 + seq![' ', c]);
                }
            }
            pending = false;
        }
        i = i + 1;
    }
    proof {
        assert(s@.take(n as int) =~= s@);
    }
    out
}

/// The node texts joined with a single space between consecutive nodes.
pub open spec fn joined(parts: Seq<Seq<char>>) -> Seq<char>
    decreases parts.len(),
{
    if parts.len() == 0 {
        Seq::<char>::empty()
    } else if parts.len() == 1 {
        parts[0]
    } else {
        joined(parts.drop_last()) + seq![' '] + parts.last()
    }
}

/// Join the strings in `parts` with a single space between consecutive
/// entries.
pub fn join_with_spaces(parts: &Vec<String>) -> (r: String)
    ensures
        r@ == joined(parts@.map_values(|p: String| p@)),
{
    let ghost m = parts@.map_values(|p: String| p@);
    let mut out = String::new();
    let mut i: usize = 0;
    while i < parts.len()
        invariant
            m == parts@.map_values(|p: String| p@),
            i <= parts@.len(),
            out@ == joined(m.take(i as int)),
        decreases parts@.len() - i,
    {
        proof {
            assert(m.take(i + 1 as int).drop_last() =~= m.take(i as int));
            assert(m.take(i + 1 as int).last() == m[i as int]);
            assert(m[i as int] == parts@[i as int]@);
        }
        if i > 0 {
            out.append(" ");
            proof {
                reveal_strlit(" ");
                assert(" "@ =~= seq![' ']);
            }
        }
        out.append(parts[i].as_str());
        i = i + 1;
    }
    proof {
        assert(m.take(parts@.len() as int) =~= m);
    }
    out
}

/// The fixed notice appended to truncated text; it embeds the page URL.
pub open spec fn truncation_note(url: Seq<char>) -> Seq<char> {
    "\n\n[Content truncated. Full documentation available at "@ + url + "]"@
}

/// `text` cut at the fixed threshold: text of at most `MAX_DOC_LEN`
/// characters passes through unchanged; longer text keeps exactly its
/// first `MAX_DOC_LEN` characters, with the truncation notice appended.
pub open spec fn truncated(text: Seq<char>, url: Seq<char>) -> Seq<char> {
    if text.len() <= MAX_DOC_LEN {
        text
    } else {
        text.take(MAX_DOC_LEN as int) + truncation_note(url)
    }
}

/// Truncate `text` at the threshold, appending the notice naming `url`.
pub fn truncate_docs(text: String, url: &str) -> (r: String)
    ensures
        r@ == truncated(text@, url@),
{
    let n = text.as_str().unicode_len();
    if n <= MAX_DOC_LEN {
        text
    } else {
        let mut out = String::from_str(text.as_str().substring_char(0, MAX_DOC_LEN));
        out.append("\n\n[Content truncated. Full documentation available at ");
        out.append(url);
        out.append("]");
        proof {
            assert(out@ =~= truncated(text@, url@));
        }
        out
    }
}

/// For over-threshold text, the truncated output's length is the
/// threshold plus the notice's length, and its first `MAX_DOC_LEN`
/// characters are the input's first `MAX_DOC_LEN` characters.
pub proof fn lemma_truncated_long(text: Seq<char>, url: Seq<char>)
    requires
        text.len() > MAX_DOC_LEN,
    ensures
        truncated(text, url).len() == MAX_DOC_LEN + truncation_note(url).len(),
        truncated(text, url).take(MAX_DOC_LEN as int) == text.take(MAX_DOC_LEN as int),
{
    assert(truncated(text, url).take(MAX_DOC_LEN as int) =~= text.take(MAX_DOC_LEN as int));
}

} // verus!
