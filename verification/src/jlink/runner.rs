//! Reading what JLink Commander prints.

use vstd::prelude::*;
use crate::text::{
    has_substring, leading, not_char_pred, first_token, lines_of, lines, str_contains,
    slice_chars, first_word, chars_of, push_chars, lemma_leading,
};

verus! {

broadcast use vstd::string::group_string_axioms;

/// The banner text that marks the version line.
pub open spec fn banner() -> Seq<char> {
    "SEGGER J-Link Commander"@
}

/// The version token that one output line announces, if it does: the line
/// holds the banner and a `V`; the version is the first white-space separated
/// token of the text between the first `V` and the next `V` (or the line's
/// end), and it is not empty.
pub open spec fn line_version(line: Seq<char>) -> Option<Seq<char>> {
    if has_substring(line, banner()) {
        let a = leading(line, not_char_pred('V'));
        if a < line.len() {
            let rest = line.skip(a + 1int);
            let piece = rest.take(leading(rest, not_char_pred('V')) as int);
            let ver = first_token(piece);
            if ver.len() > 0 {
                Some(ver)
            } else {
                None
            }
        } else {
            None
        }
    } else {
        None
    }
}

/// The version announced by the first line of `ls` that announces one.
pub open spec fn first_version(ls: Seq<Seq<char>>) -> Option<Seq<char>>
    decreases ls.len(),
{
    if ls.len() == 0 {
        None
    } else {
        match line_version(ls[0]) {
            Some(v) => Some(v),
            None => first_version(ls.drop_first()),
        }
    }
}

/// What [`parse_version`] gives for `output`.
pub open spec fn parsed_version(output: Seq<char>) -> Option<Seq<char>> {
    match first_version(lines_of(output)) {
        Some(v) => Some("SEGGER J-Link Commander V"@ + v),
        None => None,
    }
}

/// The version token of one line, as [`line_version`] describes it.
fn version_in_line(line: &[char]) -> (r: Option<Vec<char>>)
    ensures
        match r {
            Some(v) => line_version(line@) == Some(v@),
            None => line_version(line@) is None,
        },
{
    if !str_contains(line, "SEGGER J-Link Commander") {
        return None;
    }
    let n = line.len();
    let mut a: usize = 0;
    while a < n && line[a] != 'V'
        invariant
            a <= n,
            n == line@.len(),
            forall|j: int| 0 <= j < a ==> #[trigger] line@[j] != 'V',
        decreases n - a,
    {
        a += 1;
    }
    proof {
        assert forall|j: int| 0 <= j < a implies #[trigger] not_char_pred('V')(line@[j]) by {
        }
        lemma_leading(line@, not_char_pred('V'), a as int);
    }
    if a == n {
        return None;
    }
    let mut b: usize = a + 1;
    while b < n && line[b] != 'V'
        invariant
            a < b <= n,
            n == line@.len(),
            forall|j: int| a < j < b ==> #[trigger] line@[j] != 'V',
        decreases n - b,
    {
        b += 1;
    }
    let ghost rest = line@.skip(a + 1);
    proof {
        assert forall|j: int| 0 <= j < b - a - 1 implies #[trigger] not_char_pred('V')(rest[j]) by {
            assert(rest[j] == line@[a + 1 + j]);
        }
        if b < n {
            assert(rest[b - a - 1] == line@[b as int]);
        }
        lemma_leading(rest, not_char_pred('V'), b - a - 1);
        assert(rest.take(b - a - 1) =~= line@.subrange(a + 1, b as int));
    }
    let piece = slice_chars(line, a + 1, b);
    let ver = first_word(piece.as_slice());
    if ver.len() > 0 {
        Some(ver)
    } else {
        None
    }
}

/// Reads the SEGGER J-Link Commander version from the banner JLink prints.
///
/// The first line that holds "SEGGER J-Link Commander" and a non-empty
/// version token after its first `V` gives the result
/// `"SEGGER J-Link Commander V<token>"`; without such a line there is none.
pub fn parse_version(output: &str) -> (r: Option<String>)
    ensures
        match r {
            Some(s) => parsed_version(output@) == Some(s@),
            None => parsed_version(output@) is None,
        },
{
    let chars = chars_of(output);
    let ls = lines(chars.as_slice());
    let ghost all = lines_of(output@);
    let mut i: usize = 0;
    assert(all.subrange(0, all.len() as int) =~= all);
    while i < ls.len()
        invariant
            all == lines_of(output@),
            ls@.len() == all.len(),
            forall|k: int| 0 <= k < ls@.len() ==> #[trigger] ls@[k]@ == all[k],
            i <= ls@.len(),
            first_version(all) == first_version(all.subrange(i as int, all.len() as int)),
        decreases ls@.len() - i,
    {
        let found = version_in_line(ls[i].as_slice());
        let ghost tail = all.subrange(i as int, all.len() as int);
        assert(tail[0] == ls@[i as int]@);
        match found {
            Some(v) => {
                let mut s = "SEGGER J-Link Commander V".to_owned();
                push_chars(&mut s, v.as_slice());
                return Some(s);
            },
            None => {
                assert(tail.drop_first() =~= all.subrange(i + 1, all.len() as int));
            },
        }
        i += 1;
    }
    None
}

// ─── Laws ───────────────────────────────────────────────────────────────────

/// A parsed version is the banner and ` V`, followed by a non-empty token
/// that holds no white space and no `V`.
pub proof fn parsed_version_shape(output: Seq<char>)
    ensures
        parsed_version(output) matches Some(s) ==> {
            let head = "SEGGER J-Link Commander V"@;
            &&& s.len() > head.len()
            &&& s.take(head.len() as int) == head
            &&& forall|j: int|
                head.len() <= j < s.len() ==> !crate::text::is_ws(#[trigger] s[j]) && s[j] != 'V'
        },
{
    first_version_shape(lines_of(output));
    if let Some(s) = parsed_version(output) {
        let head = "SEGGER J-Link Commander V"@;
        let v = first_version(lines_of(output)).unwrap();
        assert(s == head + v);
        assert(s.take(head.len() as int) =~= head);
        assert forall|j: int| head.len() <= j < s.len() implies !crate::text::is_ws(#[trigger] s[j])
            && s[j] != 'V' by {
            assert(s[j] == v[j - head.len()]);
        }
    }
}

/// Every version that [`first_version`] finds is a non-empty token with no
/// white space and no `V` in it.
pub proof fn first_version_shape(ls: Seq<Seq<char>>)
    ensures
        first_version(ls) matches Some(v) ==> v.len() > 0 && (forall|j: int|
            0 <= j < v.len() ==> !crate::text::is_ws(#[trigger] v[j]) && v[j] != 'V'),
    decreases ls.len(),
{
    if ls.len() > 0 {
        match line_version(ls[0]) {
            Some(v) => {
                line_version_shape(ls[0]);
            },
            None => {
                first_version_shape(ls.drop_first());
            },
        }
    }
}

/// The version token of a line is non-empty and holds no white space and no `V`.
pub proof fn line_version_shape(line: Seq<char>)
    ensures
        line_version(line) matches Some(v) ==> v.len() > 0 && (forall|j: int|
            0 <= j < v.len() ==> !crate::text::is_ws(#[trigger] v[j]) && v[j] != 'V'),
{
    if let Some(v) = line_version(line) {
        let a = leading(line, not_char_pred('V'));
        let rest = line.skip(a + 1int);
        crate::text::lemma_leading_bound(rest, not_char_pred('V'));
        let piece = rest.take(leading(rest, not_char_pred('V')) as int);
        let t = crate::text::trimmed_start(piece);
        crate::text::lemma_leading_bound(piece, crate::text::ws_pred());
        crate::text::lemma_leading_bound(t, crate::text::non_ws_pred());
        assert forall|j: int| 0 <= j < v.len() implies !crate::text::is_ws(#[trigger] v[j])
            && v[j] != 'V' by {
            assert(v[j] == t[j]);
            assert(crate::text::non_ws_pred()(t[j]));
            let p = leading(piece, crate::text::ws_pred());
            assert(t[j] == piece[p + j]);
            assert(piece[p + j] == rest[p + j]);
            assert(not_char_pred('V')(rest[p + j]));
        }
    }
}


/// A version string that the parser produced is read back as itself.
pub proof fn parsed_version_is_stable(output: Seq<char>)
    ensures
        parsed_version(output) matches Some(s) ==> parsed_version(s) == Some(s),
{
    first_version_shape(lines_of(output));
    if let Some(s) = parsed_version(output) {
        let head = "SEGGER J-Link Commander V"@;
        let v = first_version(lines_of(output)).unwrap();
        reveal_strlit("SEGGER J-Link Commander V");
        reveal_strlit("SEGGER J-Link Commander");
        assert(s == head + v);
        assert(head.len() == 25);
        // one line: no line break anywhere
        assert forall|j: int| 0 <= j < s.len() implies #[trigger] not_char_pred('\n')(s[j]) by {
            if j >= 25 {
                assert(s[j] == v[j - 25]);
                assert(!crate::text::is_ws(v[j - 25]));
            }
        }
        lemma_leading(s, not_char_pred('\n'), s.len() as int);
        assert(lines_of(s) == seq![s]);
        // the banner occurs at the start
        assert(s.subrange(0, 23) =~= banner());
        assert(crate::text::occurs_at(s, banner(), 0));
        // the first `V` ends the banner
        assert forall|j: int| 0 <= j < 24 implies #[trigger] not_char_pred('V')(s[j]) by {
        }
        assert(s[24] == 'V');
        lemma_leading(s, not_char_pred('V'), 24);
        let rest = s.skip(25);
        assert(rest =~= v);
        assert forall|j: int| 0 <= j < v.len() implies #[trigger] not_char_pred('V')(v[j]) by {
        }
        lemma_leading(v, not_char_pred('V'), v.len() as int);
        assert(v.take(v.len() as int) =~= v);
        assert(!crate::text::ws_pred()(v[0]));
        lemma_leading(v, crate::text::ws_pred(), 0);
        assert(v.skip(0) =~= v);
        assert forall|j: int| 0 <= j < v.len() implies #[trigger] crate::text::non_ws_pred()(v[j]) by {
        }
        lemma_leading(v, crate::text::non_ws_pred(), v.len() as int);
        assert(first_token(v) == v);
        assert(line_version(s) == Some(v));
        assert(first_version(seq![s]) == Some(v));
    }
}

} // verus!
