//! A single command suggestion returned by the model.

use vstd::prelude::*;
use crate::text::{
    chars_of, is_ws, join, join_with, split_on_chars, split_set, split_set_from, string_of,
    trim, chars1, trim_end_by, trim_start_by, trim_ws, trimmed_nonempty, trim_and_drop_empty,
    ws_pred,
};

verus! {

/// A single command suggestion returned by the model.
#[derive(Debug, Clone, PartialEq, Eq)]
pub struct Suggestion {
    /// A ready-to-run command for the current shell
    pub command: String,
    /// A short note on what it does
    pub explanation: String,
}

/// The command as one list line: its non-blank lines, trimmed, joined with
/// `; `; a command with no such line is shown trimmed.
///
/// The lines are those of `str::lines`: a trailing `\r` that `lines` would
/// strip is whitespace, which the trim removes anyway.
pub open spec fn one_line_text(command: Seq<char>) -> Seq<char> {
    let joined = join(trimmed_nonempty(split_set(command, seq!['\n'])), "; "@);
    if joined.len() == 0 {
        trim(command)
    } else {
        joined
    }
}

impl Suggestion {
    pub fn new(command: &str, explanation: &str) -> (r: Self)
        ensures
            r.command@ == command@,
            r.explanation@ == explanation@,
    {
        Suggestion { command: String::from_str(command), explanation: String::from_str(explanation) }
    }

    /// The command rendered as a single list line.
    ///
    /// The model rarely returns multi-line commands, but when it does the
    /// newline breaks the list layout, so join them instead.
    pub fn one_line(&self) -> (r: String)
        ensures
            r@ == one_line_text(self.command@),
    {
        let c = chars_of(self.command.as_str());
        let lines = split_on_chars(&c, &chars1('\n'));
        let kept = trim_and_drop_empty(&lines);
        let joined = join_with(&kept, &chars_of("; "));
        if joined.len() == 0 {
            string_of(&trim_ws(&c))
        } else {
            string_of(&joined)
        }
    }
}

/// No character of the text is whitespace.
spec fn all_ws(x: Seq<char>) -> bool {
    forall|k: int| 0 <= k < x.len() ==> is_ws(#[trigger] x[k])
}

/// The pieces of a split on newlines hold no newline.
proof fn lemma_split_pieces_lack_newlines(s: Seq<char>, i: int, cur: Seq<char>)
    requires
        !cur.contains('\n'),
    ensures
        forall|p: int| 0 <= p < split_set_from(s, seq!['\n'], i, cur).len() ==> !(#[trigger] split_set_from(
            s,
            seq!['\n'],
            i,
            cur,
        )[p]).contains('\n'),
    decreases s.len() - i,
{
    let set = seq!['\n'];
    if i >= s.len() {
        assert(split_set_from(s, set, i, cur) == seq![cur]);
        assert(seq![cur][0] == cur);
    } else if set.contains(s[i]) {
        lemma_split_pieces_lack_newlines(s, i + 1, seq![]);
        let rest = split_set_from(s, set, i + 1, seq![]);
        assert forall|p: int| 0 <= p < split_set_from(s, set, i, cur).len() implies !(#[trigger] split_set_from(
            s,
            set,
            i,
            cur,
        )[p]).contains('\n') by {
            if p > 0 {
                assert(split_set_from(s, set, i, cur)[p] == rest[p - 1]);
            } else {
                assert(split_set_from(s, set, i, cur)[p] == cur);
            }
        }
    } else {
        assert(s[i] != '\n') by {
            if s[i] == '\n' {
                assert(set[0] == s[i]);
            }
        }
        assert forall|k: int| 0 <= k < cur.push(s[i]).len() implies cur.push(s[i])[k] != '\n' by {
            if k < cur.len() {
                assert(cur.push(s[i])[k] == cur[k]);
            }
        }
        lemma_split_pieces_lack_newlines(s, i + 1, cur.push(s[i]));
        assert(split_set_from(s, set, i, cur) == split_set_from(s, set, i + 1, cur.push(s[i])));
    }
}

/// Where every piece of a split on newlines is blank, every character is
/// whitespace.
proof fn lemma_blank_pieces(s: Seq<char>, i: int, cur: Seq<char>)
    requires
        0 <= i,
        forall|p: int| 0 <= p < split_set_from(s, seq!['\n'], i, cur).len() ==> all_ws(
            #[trigger] split_set_from(s, seq!['\n'], i, cur)[p],
        ),
    ensures
        all_ws(cur),
        forall|m: int| i <= m < s.len() ==> is_ws(#[trigger] s[m]),
    decreases s.len() - i,
{
    let set = seq!['\n'];
    if i >= s.len() {
        assert(split_set_from(s, set, i, cur)[0] == cur);
    } else if set.contains(s[i]) {
        let all = split_set_from(s, set, i, cur);
        let rest = split_set_from(s, set, i + 1, seq![]);
        assert(all[0] == cur);
        assert forall|p: int| 0 <= p < rest.len() implies all_ws(#[trigger] rest[p]) by {
            assert(all[p + 1] == rest[p]);
        }
        lemma_blank_pieces(s, i + 1, seq![]);
    } else {
        assert(split_set_from(s, set, i, cur) == split_set_from(s, set, i + 1, cur.push(s[i])));
        lemma_blank_pieces(s, i + 1, cur.push(s[i]));
        assert forall|k: int| 0 <= k < cur.len() implies is_ws(#[trigger] cur[k]) by {
            assert(cur.push(s[i])[k] == cur[k]);
        }
        assert(cur.push(s[i])[cur.len() as int] == s[i]);
    }
}

/// A text whose trim is empty is all whitespace, and the other way round.
proof fn lemma_blank_is_all_ws(x: Seq<char>)
    ensures
        trim(x).len() == 0 <==> all_ws(x),
    decreases x.len(),
{
    crate::text::lemma_trim_start_result(x, ws_pred());
    crate::text::lemma_trim_end_result(trim_start_by(x, ws_pred()), ws_pred());
    if x.len() > 0 {
        lemma_blank_is_all_ws(x.drop_first());
        if is_ws(x[0]) {
            assert(trim_start_by(x, ws_pred()) == trim_start_by(x.drop_first(), ws_pred()));
            assert(all_ws(x) <==> all_ws(x.drop_first())) by {
                if all_ws(x.drop_first()) {
                    assert forall|k: int| 0 <= k < x.len() implies is_ws(#[trigger] x[k]) by {
                        if k > 0 {
                            assert(x[k] == x.drop_first()[k - 1]);
                        }
                    }
                }
                if all_ws(x) {
                    assert forall|k: int| 0 <= k < x.drop_first().len() implies is_ws(
                        #[trigger] x.drop_first()[k],
                    ) by {
                        assert(x.drop_first()[k] == x[k + 1]);
                    }
                }
            }
            assert(trim(x) == trim(x.drop_first()));
        } else {
            assert(trim_start_by(x, ws_pred()) == x);
            assert(trim_end_by(x, ws_pred()).len() > 0) by {
                if trim_end_by(x, ws_pred()).len() == 0 {
                    lemma_trim_end_empty(x);
                }
            }
        }
    }
}

/// A text whose trailing trim is empty ends every position in whitespace.
proof fn lemma_trim_end_empty(x: Seq<char>)
    requires
        trim_end_by(x, ws_pred()).len() == 0,
    ensures
        all_ws(x),
    decreases x.len(),
{
    if x.len() > 0 {
        assert(is_ws(x.last()));
        lemma_trim_end_empty(x.drop_last());
        assert forall|k: int| 0 <= k < x.len() implies is_ws(#[trigger] x[k]) by {
            if k < x.len() - 1 {
                assert(x[k] == x.drop_last()[k]);
            }
        }
    }
}

/// A trim leaves no character the text did not have.
proof fn lemma_trim_keeps_no_newline(x: Seq<char>)
    requires
        !x.contains('\n'),
    ensures
        !trim(x).contains('\n'),
{
    let u = trim_start_by(x, ws_pred());
    lemma_trim_start_suffix(x);
    crate::text::lemma_trim_end_result(u, ws_pred());
    let t = trim(x);
    if t.contains('\n') {
        let k = choose|k: int| 0 <= k < t.len() && t[k] == '\n';
        assert(t[k] == u[k]);
        assert(u[k] == x[k + (x.len() - u.len())]);
        assert(x.contains(x[k + (x.len() - u.len())]));
    }
}

/// What `trim_start_by` leaves is a suffix of the text.
proof fn lemma_trim_start_suffix(x: Seq<char>)
    ensures
        trim_start_by(x, ws_pred()) == x.skip(x.len() - trim_start_by(x, ws_pred()).len()),
        trim_start_by(x, ws_pred()).len() <= x.len(),
    decreases x.len(),
{
    if x.len() > 0 && is_ws(x[0]) {
        lemma_trim_start_suffix(x.drop_first());
        let r = trim_start_by(x.drop_first(), ws_pred());
        assert(x.drop_first().skip(x.drop_first().len() - r.len()) =~= x.skip(x.len() - r.len()));
    } else {
        assert(x.skip(0) =~= x);
    }
}

/// The kept lines of texts without newlines hold none either.
proof fn lemma_kept_lines_lack_newlines(pieces: Seq<Seq<char>>)
    requires
        forall|p: int| 0 <= p < pieces.len() ==> !(#[trigger] pieces[p]).contains('\n'),
    ensures
        forall|p: int| 0 <= p < trimmed_nonempty(pieces).len() ==> !(#[trigger] trimmed_nonempty(
            pieces,
        )[p]).contains('\n') && trimmed_nonempty(pieces)[p].len() > 0,
    decreases pieces.len(),
{
    if pieces.len() > 0 {
        lemma_kept_lines_lack_newlines(pieces.drop_last());
        lemma_trim_keeps_no_newline(pieces.last());
        let rest = trimmed_nonempty(pieces.drop_last());
        assert forall|p: int| 0 <= p < trimmed_nonempty(pieces).len() implies !(#[trigger] trimmed_nonempty(
            pieces,
        )[p]).contains('\n') && trimmed_nonempty(pieces)[p].len() > 0 by {
            if p < rest.len() {
                assert(trimmed_nonempty(pieces)[p] == rest[p]);
            }
        }
    }
}

/// No kept line means every line was blank.
proof fn lemma_nothing_kept(pieces: Seq<Seq<char>>)
    requires
        trimmed_nonempty(pieces).len() == 0,
    ensures
        forall|p: int| 0 <= p < pieces.len() ==> trim(#[trigger] pieces[p]).len() == 0,
    decreases pieces.len(),
{
    if pieces.len() > 0 {
        assert(trim(pieces.last()).len() == 0);
        lemma_nothing_kept(pieces.drop_last());
        assert forall|p: int| 0 <= p < pieces.len() implies trim(#[trigger] pieces[p]).len() == 0 by {
            if p < pieces.len() - 1 {
                assert(pieces[p] == pieces.drop_last()[p]);
            }
        }
    }
}

/// Joining texts without newlines by a separator without one makes none; and
/// joining non-empty texts makes an empty text only of none at all.
proof fn lemma_join_lacks_newlines(pieces: Seq<Seq<char>>, sep: Seq<char>)
    requires
        !sep.contains('\n'),
        forall|p: int| 0 <= p < pieces.len() ==> !(#[trigger] pieces[p]).contains('\n') && pieces[p].len() > 0,
    ensures
        !join(pieces, sep).contains('\n'),
        join(pieces, sep).len() == 0 ==> pieces.len() == 0,
    decreases pieces.len(),
{
    if pieces.len() > 1 {
        lemma_join_lacks_newlines(pieces.drop_last(), sep);
        let head = join(pieces.drop_last(), sep);
        let all = head + sep + pieces.last();
        assert(pieces.last() == pieces[pieces.len() - 1]);
        if all.contains('\n') {
            let k = choose|k: int| 0 <= k < all.len() && all[k] == '\n';
            if k < head.len() {
                assert(head.contains(head[k]));
            } else if k < head.len() + sep.len() {
                assert(sep.contains(sep[k - head.len()]));
            } else {
                assert(pieces.last().contains(pieces.last()[k - head.len() - sep.len()]));
            }
        }
    } else if pieces.len() == 1 {
        assert(pieces[0].len() > 0);
    }
}

/// The rendered line is one line: it holds no newline, whatever the command.
pub proof fn lemma_one_line_is_one_line(command: Seq<char>)
    ensures
        !one_line_text(command).contains('\n'),
{
    reveal_strlit("; ");
    let pieces = split_set(command, seq!['\n']);
    lemma_split_pieces_lack_newlines(command, 0, seq![]);
    lemma_kept_lines_lack_newlines(pieces);
    let kept = trimmed_nonempty(pieces);
    assert(!"; "@.contains('\n')) by {
        if "; "@.contains('\n') {
            let k = choose|k: int| 0 <= k < "; "@.len() && "; "@[k] == '\n';
        }
    }
    lemma_join_lacks_newlines(kept, "; "@);
    if join(kept, "; "@).len() == 0 {
        lemma_nothing_kept(pieces);
        assert forall|p: int| 0 <= p < pieces.len() implies all_ws(#[trigger] pieces[p]) by {
            lemma_blank_is_all_ws(pieces[p]);
        }
        lemma_blank_pieces(command, 0, seq![]);
        lemma_blank_is_all_ws(command);
    }
}

} // verus!
