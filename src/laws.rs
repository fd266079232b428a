//! Laws of the one-shot listener and of the relay's upload handling, stated
//! over the parser and the transition relations that the executable
//! functions meet.
use vstd::prelude::*;

use crate::listener::{fails_with, steps_to, CaptureError, ListenerAction, ListenerEvent, ListenerPhase};
use crate::relay::{
    is_file_field, mime_of, rejects, relays_scan, upload_steps_to, UploadAction, UploadEvent,
    UploadPhase, FILE_FIELD,
};
use crate::request_line::{
    code_in_line, code_key, is_complete_line, find_from, is_blank, key_at, names_code, skip_blank, skip_word,
    target_of, value_of, code_from,
};

verus! {

/// No character of `s` is a blank.
pub open spec fn no_blank(s: Seq<char>) -> bool {
    forall|i: int| 0 <= i < s.len() ==> !is_blank(#[trigger] s[i])
}

/// No character of `s` is `x`.
pub open spec fn lacks(s: Seq<char>, x: char) -> bool {
    forall|i: int| 0 <= i < s.len() ==> #[trigger] s[i] != x
}

/// The request line that a browser sends when redirected to
/// `path?code=value` followed by the further parameters `tail`.
pub open spec fn redirect_line(
    method: Seq<char>,
    path: Seq<char>,
    value: Seq<char>,
    tail: Seq<char>,
    version: Seq<char>,
) -> Seq<char> {
    method + seq![' '] + path + seq!['?'] + code_key() + value + tail + seq![' '] + version
}

proof fn lemma_skip_word_to(s: Seq<char>, i: int, k: int)
    requires
        0 <= i <= k <= s.len(),
        forall|j: int| i <= j < k ==> !is_blank(#[trigger] s[j]),
        k == s.len() || is_blank(s[k]),
    ensures
        skip_word(s, i) == k,
    decreases k - i,
{
    if i < k {
        lemma_skip_word_to(s, i + 1, k);
    }
}

proof fn lemma_find_to(s: Seq<char>, i: int, k: int, x: char)
    requires
        0 <= i <= k <= s.len(),
        forall|j: int| i <= j < k ==> #[trigger] s[j] != x,
        k == s.len() || s[k] == x,
    ensures
        find_from(s, i, x) == k,
    decreases k - i,
{
    if i < k {
        lemma_find_to(s, i + 1, k, x);
    }
}

/// The request target is the second word of a line.
proof fn lemma_target(method: Seq<char>, target: Seq<char>, version: Seq<char>)
    requires
        method.len() > 0,
        target.len() > 0,
        no_blank(method),
        no_blank(target),
    ensures
        target_of(method + seq![' '] + target + seq![' '] + version) == Some(target),
{
    let s = method + seq![' '] + target + seq![' '] + version;
    let m = method.len() as int;
    let c = m + 1;
    let t = target.len() as int;
    assert(s[0] == method[0]);
    assert(skip_blank(s, 0) == 0);
    assert forall|j: int| 0 <= j < m implies !is_blank(#[trigger] s[j]) by {
        assert(s[j] == method[j]);
    }
    assert(s[m] == ' ');
    lemma_skip_word_to(s, 0, m);
    assert(s[c] == target[0]);
    assert(skip_blank(s, c) == c);
    assert(skip_blank(s, m) == skip_blank(s, c));
    assert forall|j: int| c <= j < c + t implies !is_blank(#[trigger] s[j]) by {
        assert(s[j] == target[j - c]);
    }
    assert(s[c + t] == ' ');
    lemma_skip_word_to(s, c, c + t);
    assert(s.subrange(c, c + t) =~= target);
}

proof fn lemma_key_chars()
    ensures
        no_blank(code_key()),
        code_key()[4] == '=',
        forall|j: int| 0 <= j < 4 ==> #[trigger] code_key()[j] != '=',
        lacks(code_key(), '&'),
{
    let key = code_key();
    assert(key[0] == 'c' && key[1] == 'o' && key[2] == 'd' && key[3] == 'e' && key[4] == '=');
}

/// The first piece of `path?code=value tail` names the code and carries `value`.
proof fn lemma_first_piece(path: Seq<char>, value: Seq<char>, tail: Seq<char>)
    requires
        lacks(path, '&'),
        lacks(path, '='),
        lacks(value, '&'),
        tail.len() == 0 || tail[0] == '&',
    ensures
        code_from(path + seq!['?'] + code_key() + value + tail, 0) == Some(value),
{
    let key = code_key();
    lemma_key_chars();
    let target = path + seq!['?'] + key + value + tail;
    let pl = path.len() as int;
    let e = pl + 6 + value.len();
    let p = path + seq!['?'] + key + value;
    assert forall|j: int| 0 <= j < e implies #[trigger] target[j] != '&' by {
        if j < pl {
            assert(target[j] == path[j]);
        } else if j == pl {
        } else if j < pl + 6 {
            assert(target[j] == key[j - pl - 1]);
        } else {
            assert(target[j] == value[j - pl - 6]);
        }
    }
    if tail.len() > 0 {
        assert(target[e] == tail[0]);
    }
    lemma_find_to(target, 0, e, '&');
    assert(target.subrange(0, e) =~= p);
    assert(p.subrange(pl + 1, pl + 6) =~= key);
    assert(key_at(p, pl + 1) && p[pl] == '?');
    assert(names_code(p));
    assert forall|j: int| 0 <= j < pl + 5 implies #[trigger] p[j] != '=' by {
        if j < pl {
            assert(p[j] == path[j]);
        } else if j > pl {
            assert(p[j] == key[j - pl - 1]);
        }
    }
    assert(p[pl + 5] == key[4]);
    lemma_find_to(p, 0, pl + 5, '=');
    assert(value_of(p) =~= value);
}

proof fn lemma_target_no_blank(path: Seq<char>, value: Seq<char>, tail: Seq<char>)
    requires
        no_blank(path),
        no_blank(value),
        no_blank(tail),
    ensures
        no_blank(path + seq!['?'] + code_key() + value + tail),
{
    let key = code_key();
    lemma_key_chars();
    let target = path + seq!['?'] + key + value + tail;
    let pl = path.len() as int;
    let vl = value.len() as int;
    assert forall|j: int| 0 <= j < target.len() implies !is_blank(#[trigger] target[j]) by {
        if j < pl {
            assert(target[j] == path[j]);
        } else if j == pl {
            assert(target[j] == '?');
        } else if j < pl + 6 {
            assert(target[j] == key[j - pl - 1]);
        } else if j < pl + 6 + vl {
            assert(target[j] == value[j - pl - 6]);
        } else {
            assert(target[j] == tail[j - pl - 6 - vl]);
        }
    }
}

/// A redirect whose query starts with `code=value` hands over exactly
/// `value`, as it stands, whatever parameters follow it.
pub proof fn lemma_redirect_code(
    method: Seq<char>,
    path: Seq<char>,
    value: Seq<char>,
    tail: Seq<char>,
    version: Seq<char>,
)
    requires
        method.len() > 0,
        no_blank(method),
        no_blank(path),
        no_blank(value),
        no_blank(tail),
        lacks(path, '&'),
        lacks(path, '='),
        lacks(value, '&'),
        tail.len() == 0 || tail[0] == '&',
    ensures
        code_in_line(redirect_line(method, path, value, tail, version)) == Some(value),
{
    let target = path + seq!['?'] + code_key() + value + tail;
    let s = redirect_line(method, path, value, tail, version);
    assert(s =~= method + seq![' '] + target + seq![' '] + version);
    lemma_target_no_blank(path, value, tail);
    lemma_target(method, target, version);
    lemma_first_piece(path, value, tail);
}

/// Query pieces, each followed by `&`.
pub open spec fn joined(pieces: Seq<Seq<char>>) -> Seq<char>
    decreases pieces.len(),
{
    if pieces.len() == 0 {
        Seq::empty()
    } else {
        pieces[0] + seq!['&'] + joined(pieces.drop_first())
    }
}

/// The request line that a browser sends when redirected to a target whose
/// pieces before the code are `pieces` (the first one holding the path and
/// the `?`), followed by `code=value` and the further parameters `tail`.
pub open spec fn redirect_line_after(
    method: Seq<char>,
    pieces: Seq<Seq<char>>,
    value: Seq<char>,
    tail: Seq<char>,
    version: Seq<char>,
) -> Seq<char> {
    method + seq![' '] + joined(pieces) + code_key() + value + tail + seq![' '] + version
}

proof fn lemma_find_shift_concat(x: Seq<char>, y: Seq<char>, j: int, c: char)
    requires
        0 <= j <= y.len(),
    ensures
        find_from(x + y, x.len() + j, c) == x.len() + find_from(y, j, c),
    decreases y.len() - j,
{
    if j < y.len() {
        assert((x + y)[x.len() + j] == y[j]);
        if y[j] != c {
            lemma_find_shift_concat(x, y, j + 1, c);
        }
    }
}

proof fn lemma_code_from_shift(x: Seq<char>, y: Seq<char>, j: int)
    requires
        0 <= j <= y.len(),
    ensures
        code_from(x + y, x.len() + j) == code_from(y, j),
    decreases y.len() - j,
{
    let u = x + y;
    lemma_find_shift_concat(x, y, j, '&');
    crate::request_line::lemma_find_from_bounds(y, j, '&');
    let e = find_from(y, j, '&');
    assert(u.subrange(x.len() + j, x.len() + e) =~= y.subrange(j, e));
    if !names_code(y.subrange(j, e)) && e < y.len() {
        lemma_code_from_shift(x, y, e + 1);
    }
}

/// Pieces that do not name the code are passed over.
proof fn lemma_skip_pieces(pieces: Seq<Seq<char>>, rest: Seq<char>)
    requires
        forall|i: int| 0 <= i < pieces.len() ==> lacks(#[trigger] pieces[i], '&'),
        forall|i: int| 0 <= i < pieces.len() ==> !names_code(#[trigger] pieces[i]),
    ensures
        code_from(joined(pieces) + rest, 0) == code_from(rest, 0),
    decreases pieces.len(),
{
    if pieces.len() > 0 {
        let a = pieces[0];
        let more = pieces.drop_first();
        assert forall|i: int| 0 <= i < more.len() implies lacks(#[trigger] more[i], '&')
            && !names_code(more[i]) by {
            assert(more[i] == pieces[i + 1]);
        }
        lemma_skip_pieces(more, rest);
        let head = a + seq!['&'];
        let u = joined(pieces) + rest;
        assert(u =~= head + (joined(more) + rest));
        assert forall|j: int| 0 <= j < a.len() implies #[trigger] u[j] != '&' by {
            assert(u[j] == a[j]);
        }
        assert(u[a.len() as int] == '&');
        lemma_find_to(u, 0, a.len() as int, '&');
        assert(u.subrange(0, a.len() as int) =~= a);
        lemma_code_from_shift(head, joined(more) + rest, 0);
    }
}

/// A target that starts with `code=value` carries `value`.
proof fn lemma_leading_code(value: Seq<char>, tail: Seq<char>)
    requires
        lacks(value, '&'),
        tail.len() == 0 || tail[0] == '&',
    ensures
        code_from(code_key() + value + tail, 0) == Some(value),
{
    let key = code_key();
    lemma_key_chars();
    let u = key + value + tail;
    let e = 5 + value.len() as int;
    let p = key + value;
    assert forall|j: int| 0 <= j < e implies #[trigger] u[j] != '&' by {
        if j < 5 {
            assert(u[j] == key[j]);
        } else {
            assert(u[j] == value[j - 5]);
        }
    }
    if tail.len() > 0 {
        assert(u[e] == tail[0]);
    }
    lemma_find_to(u, 0, e, '&');
    assert(u.subrange(0, e) =~= p);
    assert(p.subrange(0, 5) =~= key);
    assert(key_at(p, 0));
    assert forall|j: int| 0 <= j < 4 implies #[trigger] p[j] != '=' by {
        assert(p[j] == key[j]);
    }
    assert(p[4] == key[4]);
    lemma_find_to(p, 0, 4, '=');
    assert(value_of(p) =~= value);
}

proof fn lemma_no_blank_concat(a: Seq<char>, b: Seq<char>)
    requires
        no_blank(a),
        no_blank(b),
    ensures
        no_blank(a + b),
{
    assert forall|j: int| 0 <= j < (a + b).len() implies !is_blank(#[trigger] (a + b)[j]) by {
        if j < a.len() {
            assert((a + b)[j] == a[j]);
        } else {
            assert((a + b)[j] == b[j - a.len()]);
        }
    }
}

/// A redirect whose query holds other parameters before `code=value` hands
/// over exactly `value`, as it stands, whatever parameters follow it.
pub proof fn lemma_redirect_code_after_parameters(
    method: Seq<char>,
    pieces: Seq<Seq<char>>,
    value: Seq<char>,
    tail: Seq<char>,
    version: Seq<char>,
)
    requires
        method.len() > 0,
        no_blank(method),
        no_blank(joined(pieces)),
        no_blank(value),
        no_blank(tail),
        forall|i: int| 0 <= i < pieces.len() ==> lacks(#[trigger] pieces[i], '&'),
        forall|i: int| 0 <= i < pieces.len() ==> !names_code(#[trigger] pieces[i]),
        lacks(value, '&'),
        tail.len() == 0 || tail[0] == '&',
    ensures
        code_in_line(redirect_line_after(method, pieces, value, tail, version)) == Some(value),
{
    let rest = code_key() + value + tail;
    let target = joined(pieces) + rest;
    let s = redirect_line_after(method, pieces, value, tail, version);
    assert(s =~= method + seq![' '] + target + seq![' '] + version);
    lemma_key_chars();
    lemma_no_blank_concat(code_key(), value);
    lemma_no_blank_concat(code_key() + value, tail);
    lemma_no_blank_concat(joined(pieces), rest);
    assert(target =~= joined(pieces) + code_key() + value + tail);
    lemma_target(method, target, version);
    lemma_skip_pieces(pieces, rest);
    lemma_leading_code(value, tail);
}

/// The request line that a browser sends when redirected to
/// `path?` followed by the parameters `params` (each followed by `&`), then
/// `code=value` and the further parameters `tail`.
pub open spec fn callback_line(
    method: Seq<char>,
    path: Seq<char>,
    params: Seq<Seq<char>>,
    value: Seq<char>,
    tail: Seq<char>,
    version: Seq<char>,
) -> Seq<char> {
    method + seq![' '] + path + seq!['?'] + joined(params) + code_key() + value + tail + seq![' ']
        + version
}

/// A path without `?` or `=`, followed by `?` and a parameter that does not
/// name the code, makes a piece that does not name the code.
proof fn lemma_path_piece(path: Seq<char>, param: Seq<char>)
    requires
        lacks(path, '?'),
        lacks(path, '='),
        !names_code(param),
    ensures
        !names_code(path + seq!['?'] + param),
{
    let f = path + seq!['?'] + param;
    let key = code_key();
    let pl = path.len() as int;
    lemma_key_chars();
    assert(key[0] == 'c' && key[1] == 'o' && key[2] == 'd' && key[3] == 'e');
    if key_at(f, 0) {
        assert(f.subrange(0, 5)[4] == '=');
        if pl >= 5 {
            assert(f[4] == path[4]);
        } else {
            assert(f[pl] == '?');
            assert(f.subrange(0, 5)[pl] == key[pl]);
        }
    }
    assert forall|k: int| 0 <= k && #[trigger] key_at(f, k + 1) implies f[k] != '?' by {
        if f[k] == '?' {
            if k < pl {
                assert(f[k] == path[k]);
            } else {
                let k2 = k - pl - 1;
                assert(f.subrange(k + 1, k + 6) =~= param.subrange(k2 + 1, k2 + 6));
                assert(key_at(param, k2 + 1));
                if k2 >= 0 {
                    assert(param[k2] == f[k]);
                }
            }
        }
    }
}

/// A redirect to `path?params...&code=value...` hands over exactly `value`,
/// as it stands: whatever parameters come before it, none naming the code,
/// and whatever parameters follow it.
pub proof fn lemma_callback_code(
    method: Seq<char>,
    path: Seq<char>,
    params: Seq<Seq<char>>,
    value: Seq<char>,
    tail: Seq<char>,
    version: Seq<char>,
)
    requires
        method.len() > 0,
        no_blank(method),
        no_blank(path),
        no_blank(joined(params)),
        no_blank(value),
        no_blank(tail),
        lacks(path, '&'),
        lacks(path, '?'),
        lacks(path, '='),
        forall|i: int| 0 <= i < params.len() ==> lacks(#[trigger] params[i], '&'),
        forall|i: int| 0 <= i < params.len() ==> !names_code(#[trigger] params[i]),
        lacks(value, '&'),
        tail.len() == 0 || tail[0] == '&',
    ensures
        code_in_line(callback_line(method, path, params, value, tail, version)) == Some(value),
{
    let line = callback_line(method, path, params, value, tail, version);
    if params.len() == 0 {
        assert(joined(params) =~= Seq::<char>::empty());
        assert(line =~= redirect_line(method, path, value, tail, version));
        lemma_redirect_code(method, path, value, tail, version);
    } else {
        let first = path + seq!['?'] + params[0];
        let pieces = seq![first] + params.drop_first();
        assert(pieces[0] == first);
        assert(pieces.drop_first() =~= params.drop_first());
        assert(joined(pieces) =~= path + seq!['?'] + joined(params));
        lemma_path_piece(path, params[0]);
        assert(lacks(first, '&')) by {
            assert forall|j: int| 0 <= j < first.len() implies #[trigger] first[j] != '&' by {
                if j < path.len() {
                    assert(first[j] == path[j]);
                } else if j > path.len() {
                    assert(first[j] == params[0][j - path.len() - 1]);
                }
            }
        }
        assert forall|i: int| 0 <= i < pieces.len() implies lacks(#[trigger] pieces[i], '&')
            && !names_code(pieces[i]) by {
            if i > 0 {
                assert(pieces[i] == params[i]);
            }
        }
        assert(no_blank(seq!['?'])) by {
            assert(seq!['?'][0] == '?');
        }
        lemma_no_blank_concat(path, seq!['?']);
        lemma_no_blank_concat(path + seq!['?'], joined(params));
        assert(line =~= redirect_line_after(method, pieces, value, tail, version));
        lemma_redirect_code_after_parameters(method, pieces, value, tail, version);
    }
}

/// A timeout ends any attempt that is not finished, with a timeout error.
pub proof fn lemma_timeout_ends_attempt(phase: ListenerPhase, next: ListenerPhase, action: ListenerAction)
    requires
        !(phase is Finished),
        steps_to(phase, ListenerEvent::TimedOut, next, action),
    ensures
        next is Finished,
        fails_with(action, CaptureError::Timeout),
{
}

/// A whole request line without a code still gets the page written back, and the
/// attempt then ends with a parse error.
pub proof fn lemma_unparsable_line_still_answered(
    line: String,
    mid: ListenerPhase,
    first: ListenerAction,
    last: ListenerPhase,
    second: ListenerAction,
)
    requires
        is_complete_line(line@),
        code_in_line(line@) is None,
        steps_to(ListenerPhase::Reading, ListenerEvent::LineRead { line }, mid, first),
        steps_to(mid, ListenerEvent::Written, last, second),
    ensures
        first is SendPage,
        last is Finished,
        fails_with(second, CaptureError::Parse),
{
}

/// A whole line read from a redirect to `path?params...&code=value...` makes
/// the attempt, once the page is written, finish with exactly `value`.
pub proof fn lemma_redirect_attempt_returns_code(
    line: String,
    method: Seq<char>,
    path: Seq<char>,
    params: Seq<Seq<char>>,
    value: Seq<char>,
    tail: Seq<char>,
    version: Seq<char>,
    mid: ListenerPhase,
    first: ListenerAction,
    last: ListenerPhase,
    second: ListenerAction,
)
    requires
        line@ == callback_line(method, path, params, value, tail, version),
        version.len() > 0,
        version.last() == '\n',
        method.len() > 0,
        no_blank(method),
        no_blank(path),
        no_blank(joined(params)),
        no_blank(value),
        no_blank(tail),
        lacks(path, '&'),
        lacks(path, '?'),
        lacks(path, '='),
        forall|i: int| 0 <= i < params.len() ==> lacks(#[trigger] params[i], '&'),
        forall|i: int| 0 <= i < params.len() ==> !names_code(#[trigger] params[i]),
        lacks(value, '&'),
        tail.len() == 0 || tail[0] == '&',
        steps_to(ListenerPhase::Reading, ListenerEvent::LineRead { line }, mid, first),
        steps_to(mid, ListenerEvent::Written, last, second),
    ensures
        first is SendPage,
        last is Finished,
        second is Finish,
        second->outcome is Ok,
        second->outcome->Ok_0@ == value,
{
    lemma_callback_code(method, path, params, value, tail, version);
    assert(line@.last() == version.last());
}

/// A field named `file` followed by its bytes makes the upload answer 200
/// with one image event: the declared type (or the default) and the bytes
/// in base64.
pub proof fn lemma_file_upload_relays_image(
    name: String,
    content_type: Option<String>,
    data: Vec<u8>,
    mid: UploadPhase,
    first: UploadAction,
    last: UploadPhase,
    second: UploadAction,
)
    requires
        name@ == FILE_FIELD@,
        upload_steps_to(
            UploadPhase::Scanning,
            UploadEvent::Field { name: Some(name), content_type },
            mid,
            first,
        ),
        upload_steps_to(mid, UploadEvent::Bytes { data }, last, second),
    ensures
        first is ReadBytes,
        last is Done,
        relays_scan(second, mime_of(content_type), data@),
{
}

/// The phases, events and actions of one upload, step by step.
pub open spec fn upload_run(
    phases: Seq<UploadPhase>,
    events: Seq<UploadEvent>,
    actions: Seq<UploadAction>,
) -> bool {
    &&& phases.len() == events.len() + 1
    &&& actions.len() == events.len()
    &&& forall|i: int|
        0 <= i < events.len() ==> upload_steps_to(
            phases[i],
            #[trigger] events[i],
            phases[i + 1],
            actions[i],
        )
}

proof fn lemma_no_file_phases(
    phases: Seq<UploadPhase>,
    events: Seq<UploadEvent>,
    actions: Seq<UploadAction>,
    k: int,
)
    requires
        upload_run(phases, events, actions),
        phases[0] is Scanning,
        forall|i: int|
            0 <= i < events.len() && #[trigger] events[i] is Field ==> !is_file_field(
                events[i]->name,
            ),
        0 <= k <= events.len(),
    ensures
        phases[k] is Scanning || phases[k] is Done,
    decreases k,
{
    if k > 0 {
        lemma_no_file_phases(phases, events, actions, k - 1);
        let _ = events[k - 1];
    }
}

/// A body in which no field is named `file` draws no event, and whatever
/// reply it gets is the 400 that says no file was found.
pub proof fn lemma_no_file_field_no_event(
    phases: Seq<UploadPhase>,
    events: Seq<UploadEvent>,
    actions: Seq<UploadAction>,
)
    requires
        upload_run(phases, events, actions),
        phases[0] is Scanning,
        forall|i: int|
            0 <= i < events.len() && #[trigger] events[i] is Field ==> !is_file_field(
                events[i]->name,
            ),
    ensures
        forall|i: int|
            0 <= i < actions.len() ==> !(#[trigger] actions[i] matches UploadAction::Reply {
                event: Some(_),
                ..
            }),
        forall|i: int| 0 <= i < actions.len() && #[trigger] actions[i] is Reply ==> rejects(
            actions[i],
        ),
{
    assert forall|i: int| 0 <= i < actions.len() implies !(#[trigger] actions[i] matches UploadAction::Reply {
        event: Some(_),
        ..
    }) && (actions[i] is Reply ==> rejects(actions[i])) by {
        lemma_no_file_phases(phases, events, actions, i);
        let _ = events[i];
    }
}

proof fn lemma_done_stays(
    phases: Seq<UploadPhase>,
    events: Seq<UploadEvent>,
    actions: Seq<UploadAction>,
    k: int,
    j: int,
)
    requires
        upload_run(phases, events, actions),
        0 <= k <= j <= events.len(),
        phases[k] is Done,
    ensures
        phases[j] is Done,
        j < events.len() ==> actions[j] is Ignore,
    decreases j - k,
{
    if k < j {
        lemma_done_stays(phases, events, actions, k, j - 1);
        let _ = events[j - 1];
    }
    if j < events.len() {
        let _ = events[j];
    }
}

/// An upload is answered at most once: after its reply, every event is ignored.
pub proof fn lemma_upload_answered_once(
    phases: Seq<UploadPhase>,
    events: Seq<UploadEvent>,
    actions: Seq<UploadAction>,
    i: int,
    j: int,
)
    requires
        upload_run(phases, events, actions),
        0 <= i < j < events.len(),
        actions[i] is Reply,
    ensures
        actions[j] is Ignore,
{
    let _ = events[i];
    lemma_done_stays(phases, events, actions, i + 1, j);
}

} // verus!
