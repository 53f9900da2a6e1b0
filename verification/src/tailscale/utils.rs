//! Text helpers: DNS-suffix matching and host name sanitising.

use crate::command::ProcessReport;
use vstd::prelude::*;

verus! {

/// What `char::is_alphanumeric` answers for `c`: membership in the Unicode
/// classes Alphabetic, Nd, Nl or No.
pub uninterp spec fn is_alphanumeric(c: char) -> bool;

/// `char::is_alphanumeric` of std: the answer depends on the character alone
/// and is named by [`is_alphanumeric`].
pub assume_specification[ char::is_alphanumeric ](c: char) -> (b: bool)
    ensures
        b == is_alphanumeric(c),
;

/// `String::push` of std appends one character to the end of the string.
pub assume_specification[ String::push ](s: &mut String, ch: char)
    ensures
        final(s)@ == old(s)@.push(ch),
;

/// `s` without one trailing `'.'`, if it has one.
pub open spec fn strip_dot(s: Seq<char>) -> Seq<char> {
    if s.len() > 0 && s.last() == '.' {
        s.drop_last()
    } else {
        s
    }
}

/// `s` without any of its trailing `'.'`.
pub open spec fn trim_end_dots(s: Seq<char>) -> Seq<char>
    decreases s.len(),
{
    if s.len() > 0 && s.last() == '.' {
        trim_end_dots(s.drop_last())
    } else {
        s
    }
}

/// `s` without any of its leading `'.'`.
pub open spec fn trim_start_dots(s: Seq<char>) -> Seq<char>
    decreases s.len(),
{
    if s.len() > 0 && s.first() == '.' {
        trim_start_dots(s.drop_first())
    } else {
        s
    }
}

/// `s` without its leading and trailing `'.'`.
pub open spec fn trim_dots(s: Seq<char>) -> Seq<char> {
    trim_start_dots(trim_end_dots(s))
}

/// Whether `s` ends with the characters of `p`.
pub open spec fn ends_with(s: Seq<char>, p: Seq<char>) -> bool {
    p.len() <= s.len() && s.subrange(s.len() - p.len(), s.len() as int) == p
}

/// `s` without `p` at its end, if it ends with `p`.
pub open spec fn strip_suffix(s: Seq<char>, p: Seq<char>) -> Seq<char> {
    if ends_with(s, p) {
        s.take(s.len() - p.len())
    } else {
        s
    }
}

/// What is left of `name` in front of `suffix`: one trailing dot of the name
/// and the dots around the suffix do not count.
pub open spec fn suffix_base(name: Seq<char>, suffix: Seq<char>) -> Seq<char> {
    strip_suffix(strip_dot(name), trim_dots(suffix))
}

/// `name` ends in `suffix` on a label boundary: removing the suffix leaves
/// less than the name, and what is left ends in `'.'`.
pub open spec fn spec_has_suffix(name: Seq<char>, suffix: Seq<char>) -> bool {
    let base = suffix_base(name, suffix);
    base.len() < strip_dot(name).len() && base.len() > 0 && base.last() == '.'
}

/// `name` without `suffix` and without the dots in front of it; a name that
/// does not carry the suffix only loses one trailing dot.
pub open spec fn spec_trim_suffix(name: Seq<char>, suffix: Seq<char>) -> Seq<char> {
    if spec_has_suffix(name, suffix) {
        trim_end_dots(suffix_base(name, suffix))
    } else {
        strip_dot(name)
    }
}

/// `s` ends in two dots.
pub open spec fn ends_with_dots(s: Seq<char>) -> bool {
    s.len() >= 2 && s[s.len() - 1] == '.' && s[s.len() - 2] == '.'
}

/// Trimming the trailing dots of `s` leaves the longest front part of `s`
/// that does not end in a dot: what is left ends in no dot, and nothing but
/// dots was cut.
pub proof fn lemma_trim_end_dots(s: Seq<char>)
    ensures
        trim_end_dots(s).len() <= s.len(),
        trim_end_dots(s) == s.take(trim_end_dots(s).len() as int),
        trim_end_dots(s).len() == 0 || trim_end_dots(s).last() != '.',
        forall|i: int| trim_end_dots(s).len() <= i < s.len() ==> s[i] == '.',
    decreases s.len(),
{
    if s.len() > 0 && s.last() == '.' {
        lemma_trim_end_dots(s.drop_last());
        let t = trim_end_dots(s.drop_last());
        assert(s.drop_last().take(t.len() as int) =~= s.take(t.len() as int));
        assert forall|i: int| t.len() <= i < s.len() implies s[i] == '.' by {
            if i < s.len() - 1 {
                assert(s.drop_last()[i] == s[i]);
            }
        }
    } else {
        assert(s.take(s.len() as int) =~= s);
    }
}

/// Trimming the dots around `s` leaves a part of `s` that neither starts
/// nor ends in a dot.
pub proof fn lemma_trim_dots(s: Seq<char>)
    ensures
        trim_dots(s).len() <= s.len(),
        trim_dots(s).len() == 0 || (trim_dots(s).first() != '.' && trim_dots(s).last() != '.'),
{
    lemma_trim_end_dots(s);
    lemma_trim_start_dots(trim_end_dots(s));
}

/// Trimming the leading dots of `s` leaves a back part of `s` that does not
/// start in a dot and ends as `s` does.
pub proof fn lemma_trim_start_dots(s: Seq<char>)
    ensures
        trim_start_dots(s).len() <= s.len(),
        trim_start_dots(s).len() == 0 || trim_start_dots(s).first() != '.',
        trim_start_dots(s).len() > 0 ==> trim_start_dots(s).last() == s.last(),
    decreases s.len(),
{
    if s.len() > 0 && s.first() == '.' {
        lemma_trim_start_dots(s.drop_first());
    }
}

/// A name has the suffix exactly when the suffix, which must be more than
/// dots, stands at the end of the name behind a dot. What is in front of the
/// suffix is then the name up to and including that dot.
pub proof fn lemma_has_suffix_on_boundary(name: Seq<char>, suffix: Seq<char>)
    ensures
        spec_has_suffix(name, suffix) <==> trim_dots(suffix).len() > 0 && ends_with(
            strip_dot(name),
            seq!['.'] + trim_dots(suffix),
        ),
        spec_has_suffix(name, suffix) ==> suffix_base(name, suffix) + trim_dots(suffix)
            == strip_dot(name),
{
    let n = strip_dot(name);
    let p = trim_dots(suffix);
    let q = seq!['.'] + p;
    let front = n.take(n.len() - p.len());
    if p.len() > 0 && ends_with(n, q) {
        assert(n.subrange(n.len() - p.len(), n.len() as int) =~= p) by {
            assert forall|i: int| 0 <= i < p.len() implies n[n.len() - p.len() + i] == p[i] by {
                assert(n.subrange(n.len() - q.len(), n.len() as int)[i + 1] == q[i + 1]);
            }
        }
        assert(front.last() == '.') by {
            assert(n.subrange(n.len() - q.len(), n.len() as int)[0] == q[0]);
        }
    }
    if spec_has_suffix(name, suffix) {
        assert(ends_with(n, p));
        assert(front + p =~= n) by {
            assert forall|i: int| 0 <= i < p.len() implies n[n.len() - p.len() + i] == p[i] by {
                assert(n.subrange(n.len() - p.len(), n.len() as int)[i] == p[i]);
            }
        }
        assert(n.subrange(n.len() - q.len(), n.len() as int) =~= q) by {
            assert forall|i: int| 0 <= i < q.len() implies n[n.len() - q.len() + i] == q[i] by {
                if i > 0 {
                    assert(n.subrange(n.len() - p.len(), n.len() as int)[i - 1] == p[i - 1]);
                }
            }
        }
    }
}

/// Trimming the suffix leaves a name as it is exactly when the name neither
/// has the suffix nor ends in a dot.
pub proof fn lemma_trim_suffix_fixed(name: Seq<char>, suffix: Seq<char>)
    ensures
        spec_trim_suffix(name, suffix) == name <==> !spec_has_suffix(name, suffix) && (name.len()
            == 0 || name.last() != '.'),
{
    if spec_has_suffix(name, suffix) {
        lemma_trim_end_dots(suffix_base(name, suffix));
    }
}

/// A name from which the suffix was cut ends in no dot.
pub proof fn lemma_trim_suffix_no_dot(name: Seq<char>, suffix: Seq<char>)
    requires
        spec_has_suffix(name, suffix),
    ensures
        spec_trim_suffix(name, suffix).len() == 0 || spec_trim_suffix(name, suffix).last() != '.',
{
    lemma_trim_end_dots(suffix_base(name, suffix));
}

/// Trimming the suffix a second time changes nothing, for a name that
/// carries the suffix on one label only and that ends in one dot at most.
///
/// The two conditions leave out the names on which a second trim does
/// change something: one such as `a.com.com`, which still has the suffix
/// `com` after the first trim, and one such as `a..`, which has no suffix and
/// loses one dot at each trim.
pub proof fn lemma_trim_suffix_idempotent(name: Seq<char>, suffix: Seq<char>)
    requires
        spec_has_suffix(name, suffix) ==> !spec_has_suffix(spec_trim_suffix(name, suffix), suffix),
        !spec_has_suffix(name, suffix) ==> !ends_with_dots(name),
    ensures
        spec_trim_suffix(spec_trim_suffix(name, suffix), suffix) == spec_trim_suffix(name, suffix),
{
    let once = spec_trim_suffix(name, suffix);
    if spec_has_suffix(name, suffix) {
        lemma_trim_suffix_no_dot(name, suffix);
    } else {
        assert(strip_dot(once) == once);
        assert(suffix_base(once, suffix) == suffix_base(name, suffix));
    }
    lemma_trim_suffix_fixed(once, suffix);
}

/// The longest host name label that DNS allows, in characters.
pub const MAX_LABEL_LENGTH: usize = 63;

/// The characters that stand between the words of a host name.
pub open spec fn is_separator(c: char) -> bool {
    c == ' ' || c == '.' || c == '@' || c == '_'
}

/// `c` in lower case if it is one of the ASCII letters `'A'..='Z'`, else `c`.
pub open spec fn ascii_lowercase(c: char) -> char {
    if 'A' <= c <= 'Z' {
        ((c as u8) + 32) as char
    } else {
        c
    }
}

/// `s` without the first of `.local`, `.localdomain` and `.lan` that it ends
/// with.
pub open spec fn trim_common_suffix(s: Seq<char>) -> Seq<char> {
    if ends_with(s, ".local"@) {
        strip_suffix(s, ".local"@)
    } else if ends_with(s, ".localdomain"@) {
        strip_suffix(s, ".localdomain"@)
    } else {
        strip_suffix(s, ".lan"@)
    }
}

/// `s` from its first alphanumeric character on; empty if it has none.
pub open spec fn trim_start_other(s: Seq<char>) -> Seq<char>
    decreases s.len(),
{
    if s.len() > 0 && !is_alphanumeric(s.first()) {
        trim_start_other(s.drop_first())
    } else {
        s
    }
}

/// `s` up to its last alphanumeric character; empty if it has none.
pub open spec fn trim_end_other(s: Seq<char>) -> Seq<char>
    decreases s.len(),
{
    if s.len() > 0 && !is_alphanumeric(s.last()) {
        trim_end_other(s.drop_last())
    } else {
        s
    }
}

/// The part of `s` from its first to its last alphanumeric character.
pub open spec fn alphanumeric_span(s: Seq<char>) -> Seq<char> {
    trim_end_other(trim_start_other(s))
}

/// Dropping what stands in front of the first alphanumeric character of `s`
/// leaves a back part of `s` that starts with that character; it is empty if
/// `s` has no such character.
pub proof fn lemma_trim_start_other(s: Seq<char>) -> (start: int)
    ensures
        0 <= start <= s.len(),
        trim_start_other(s) == s.subrange(start, s.len() as int),
        forall|i: int| 0 <= i < start ==> !is_alphanumeric(s[i]),
        start < s.len() ==> is_alphanumeric(s[start]),
    decreases s.len(),
{
    if s.len() > 0 && !is_alphanumeric(s.first()) {
        let rest = s.drop_first();
        let inner = lemma_trim_start_other(rest);
        assert(rest.subrange(inner, rest.len() as int) =~= s.subrange(inner + 1, s.len() as int));
        assert forall|i: int| 0 <= i < inner + 1 implies !is_alphanumeric(s[i]) by {
            if i > 0 {
                assert(rest[i - 1] == s[i]);
            }
        }
        inner + 1
    } else {
        assert(s.subrange(0, s.len() as int) =~= s);
        0
    }
}

/// Dropping what stands behind the last alphanumeric character of `s` leaves
/// a front part of `s` that ends with that character; it is empty if `s` has
/// no such character.
pub proof fn lemma_trim_end_other(s: Seq<char>) -> (stop: int)
    ensures
        0 <= stop <= s.len(),
        trim_end_other(s) == s.take(stop),
        forall|i: int| stop <= i < s.len() ==> !is_alphanumeric(s[i]),
        0 < stop ==> is_alphanumeric(s[stop - 1]),
    decreases s.len(),
{
    if s.len() > 0 && !is_alphanumeric(s.last()) {
        let rest = s.drop_last();
        let inner = lemma_trim_end_other(rest);
        assert(rest.take(inner) =~= s.take(inner));
        assert forall|i: int| inner <= i < s.len() implies !is_alphanumeric(s[i]) by {
            if i < s.len() - 1 {
                assert(rest[i] == s[i]);
            }
        }
        inner
    } else {
        assert(s.take(s.len() as int) =~= s);
        s.len() as int
    }
}

/// The span of `s` runs from the first alphanumeric character of `s` to the
/// last one, both included: no such character stands outside, and the span is
/// empty only if `s` has none.
pub proof fn lemma_alphanumeric_span(s: Seq<char>) -> (bounds: (int, int))
    ensures
        0 <= bounds.0 <= bounds.1 <= s.len(),
        alphanumeric_span(s) == s.subrange(bounds.0, bounds.1),
        forall|i: int| 0 <= i < bounds.0 ==> !is_alphanumeric(s[i]),
        forall|i: int| bounds.1 <= i < s.len() ==> !is_alphanumeric(s[i]),
        bounds.0 < bounds.1 ==> is_alphanumeric(s[bounds.0]) && is_alphanumeric(s[bounds.1 - 1]),
{
    let start = lemma_trim_start_other(s);
    let back = s.subrange(start, s.len() as int);
    let stop = lemma_trim_end_other(back);
    assert(back.take(stop) =~= s.subrange(start, start + stop));
    assert forall|i: int| start + stop <= i < s.len() implies !is_alphanumeric(s[i]) by {
        assert(back[i - start] == s[i]);
    }
    if stop > 0 {
        assert(back[stop - 1] == s[start + stop - 1]);
    }
    (start, start + stop)
}

/// What becomes of the character `c` of a span: a separator inside the span
/// turns into `'-'`, a letter, digit or `'-'` is lowered, anything else stays.
pub open spec fn sanitize_char(c: char, interior: bool) -> char {
    if interior && is_separator(c) {
        '-'
    } else if is_alphanumeric(c) || c == '-' {
        ascii_lowercase(c)
    } else {
        c
    }
}

/// `span` with each character sanitised; the first and the last character
/// are not interior.
pub open spec fn sanitize_span(span: Seq<char>) -> Seq<char> {
    Seq::new(span.len(), |i: int| sanitize_char(span[i], 0 < i < span.len() - 1))
}

/// The first `n` characters of `s`, or all of `s` if it is shorter.
pub open spec fn truncate(s: Seq<char>, n: nat) -> Seq<char> {
    if s.len() <= n {
        s
    } else {
        s.take(n as int)
    }
}

/// The DNS label made from the host name `raw`.
pub open spec fn spec_sanitize_hostname(raw: Seq<char>) -> Seq<char> {
    truncate(
        sanitize_span(alphanumeric_span(trim_common_suffix(raw))),
        MAX_LABEL_LENGTH as nat,
    )
}

/// The text that the JSON document `text` holds under `key`: there is one
/// where `text` is a JSON document, the document is an object, the object has
/// a member `key`, and that member is a string.
pub uninterp spec fn json_text_member(text: Seq<u8>, key: Seq<char>) -> Option<Seq<char>>;

/// The field of the daemon's preferences that names the operator.
pub open spec fn operator_key() -> Seq<char> {
    "OperatorUser"@
}

/// The operator user that the outcome of the preference query names. A query
/// that did not end well, or whose output names none, gives none.
pub open spec fn spec_operator_user(prefs: ProcessReport) -> Option<Seq<char>> {
    match prefs {
        ProcessReport::Exited { success, stdout } => if success {
            json_text_member(stdout@, operator_key())
        } else {
            None
        },
        ProcessReport::NotStarted => None,
    }
}

/// `user` is the operator: an operator is configured and has this name.
pub open spec fn spec_is_operator(user: Seq<char>, operator: Option<Seq<char>>) -> bool {
    operator == Some(user)
}

/// The mathematical value of a text that may be missing.
pub open spec fn text_view(text: Option<String>) -> Option<Seq<char>> {
    match text {
        Some(t) => Some(t@),
        None => None,
    }
}

/// The characters of `s`, in order.
fn to_chars(s: &str) -> (v: Vec<char>)
    ensures
        v@ == s@,
{
    let mut v: Vec<char> = Vec::new();
    for c in it: s.chars()
        invariant
            v@ == it.seq().take(it.index() as int),
    {
        v.push(c);
    }
    v
}

/// Whether two texts hold the same characters.
pub fn text_eq(a: &str, b: &str) -> (r: bool)
    ensures
        r == (a@ == b@),
{
    let x = to_chars(a);
    let y = to_chars(b);
    if x.len() != y.len() {
        return false;
    }
    let mut i: usize = 0;
    while i < x.len()
        invariant
            i <= x.len(),
            x.len() == y.len(),
            x@ == a@,
            y@ == b@,
            forall|j: int| 0 <= j < i ==> x[j] == y[j],
        decreases x.len() - i,
    {
        if x[i] != y[i] {
            return false;
        }
        i += 1;
    }
    assert(x@ =~= y@);
    true
}

/// The string made of `v[from..to]`.
fn to_text(v: &Vec<char>, from: usize, to: usize) -> (s: String)
    requires
        from <= to <= v.len(),
    ensures
        s@ == v@.subrange(from as int, to as int),
{
    let mut s = String::new();
    let mut i: usize = from;
    while i < to
        invariant
            from <= i <= to <= v.len(),
            s@ == v@.subrange(from as int, i as int),
        decreases to - i,
    {
        s.push(v[i]);
        i += 1;
    }
    s
}

/// Length of `v[..end]` once one trailing dot is gone.
fn strip_dot_len(v: &Vec<char>) -> (e: usize)
    ensures
        e <= v.len(),
        v@.take(e as int) == strip_dot(v@),
{
    let n = v.len();
    if n > 0 && v[n - 1] == '.' {
        n - 1
    } else {
        assert(v@.take(n as int) == v@);
        n
    }
}

/// Length of `v[..end]` once all its trailing dots are gone.
fn trim_end_dots_len(v: &Vec<char>, end: usize) -> (e: usize)
    requires
        end <= v.len(),
    ensures
        e <= end,
        v@.take(e as int) == trim_end_dots(v@.take(end as int)),
{
    let mut e = end;
    while e > 0 && v[e - 1] == '.'
        invariant
            e <= end <= v.len(),
            trim_end_dots(v@.take(e as int)) == trim_end_dots(v@.take(end as int)),
        decreases e,
    {
        assert(v@.take(e as int).drop_last() == v@.take(e as int - 1));
        e -= 1;
    }
    e
}

/// Start of `v[..end]` once all its leading dots are gone.
fn trim_start_dots_from(v: &Vec<char>, end: usize) -> (a: usize)
    requires
        end <= v.len(),
    ensures
        a <= end,
        v@.subrange(a as int, end as int) == trim_start_dots(v@.take(end as int)),
{
    let mut a: usize = 0;
    assert(v@.subrange(0, end as int) == v@.take(end as int));
    while a < end && v[a] == '.'
        invariant
            a <= end <= v.len(),
            trim_start_dots(v@.subrange(a as int, end as int)) == trim_start_dots(
                v@.take(end as int),
            ),
        decreases end - a,
    {
        assert(v@.subrange(a as int, end as int).drop_first() == v@.subrange(
            a as int + 1,
            end as int,
        ));
        a += 1;
    }
    a
}

/// Whether `v[..end]` ends with `p[from..to]`.
fn ends_with_at(v: &Vec<char>, end: usize, p: &Vec<char>, from: usize, to: usize) -> (r: bool)
    requires
        end <= v.len(),
        from <= to <= p.len(),
    ensures
        r == ends_with(v@.take(end as int), p@.subrange(from as int, to as int)),
{
    let m = to - from;
    if m > end {
        return false;
    }
    let ghost s = v@.take(end as int);
    let ghost q = p@.subrange(from as int, to as int);
    let mut i: usize = 0;
    while i < m
        invariant
            i <= m,
            m == to - from,
            m <= end <= v.len(),
            to <= p.len(),
            s == v@.take(end as int),
            q == p@.subrange(from as int, to as int),
            forall|j: int| 0 <= j < i ==> s[end - m + j] == q[j],
        decreases m - i,
    {
        if v[end - m + i] != p[from + i] {
            assert(s.subrange(s.len() - q.len(), s.len() as int)[i as int] != q[i as int]);
            return false;
        }
        i += 1;
    }
    assert(s.subrange(s.len() - q.len(), s.len() as int) =~= q);
    true
}

/// Length of `v[..end]` once `p[from..to]` is gone from its end.
fn strip_suffix_len(v: &Vec<char>, end: usize, p: &Vec<char>, from: usize, to: usize) -> (e:
    usize)
    requires
        end <= v.len(),
        from <= to <= p.len(),
    ensures
        e <= end,
        e < end <==> ends_with(v@.take(end as int), p@.subrange(from as int, to as int)) && from
            < to,
        v@.take(e as int) == strip_suffix(
            v@.take(end as int),
            p@.subrange(from as int, to as int),
        ),
{
    if ends_with_at(v, end, p, from, to) {
        assert(v@.take(end as int).take(end - (to - from)) == v@.take(end - (to - from)));
        end - (to - from)
    } else {
        end
    }
}

/// `c` in lower case if it is an ASCII upper-case letter.
fn to_ascii_lowercase(c: char) -> (r: char)
    ensures
        r == ascii_lowercase(c),
{
    if 'A' <= c && c <= 'Z' {
        ((c as u8) + 32) as char
    } else {
        c
    }
}

/// Length of `v` once the common suffix `suffix` is gone from its end.
fn strip_common_suffix(v: &Vec<char>, suffix: &str) -> (e: usize)
    ensures
        e <= v.len(),
        e < v.len() <==> ends_with(v@, suffix@) && suffix@.len() > 0,
        v@.take(e as int) == strip_suffix(v@, suffix@),
{
    let p = to_chars(suffix);
    assert(p@.subrange(0, p.len() as int) == p@);
    assert(v@.take(v.len() as int) == v@);
    strip_suffix_len(v, v.len(), &p, 0, p.len())
}

/// Start of `v[..end]` once everything in front of its first alphanumeric
/// character is gone.
fn trim_start_other_from(v: &Vec<char>, end: usize) -> (a: usize)
    requires
        end <= v.len(),
    ensures
        a <= end,
        v@.subrange(a as int, end as int) == trim_start_other(v@.take(end as int)),
{
    let mut a: usize = 0;
    assert(v@.subrange(0, end as int) == v@.take(end as int));
    while a < end && !v[a].is_alphanumeric()
        invariant
            a <= end <= v.len(),
            trim_start_other(v@.subrange(a as int, end as int)) == trim_start_other(
                v@.take(end as int),
            ),
        decreases end - a,
    {
        assert(v@.subrange(a as int, end as int).drop_first() == v@.subrange(
            a as int + 1,
            end as int,
        ));
        a += 1;
    }
    a
}

/// End of `v[start..end]` once everything behind its last alphanumeric
/// character is gone.
fn trim_end_other_to(v: &Vec<char>, start: usize, end: usize) -> (b: usize)
    requires
        start <= end <= v.len(),
    ensures
        start <= b <= end,
        v@.subrange(start as int, b as int) == trim_end_other(
            v@.subrange(start as int, end as int),
        ),
{
    let mut b = end;
    while b > start && !v[b - 1].is_alphanumeric()
        invariant
            start <= b <= end <= v.len(),
            trim_end_other(v@.subrange(start as int, b as int)) == trim_end_other(
                v@.subrange(start as int, end as int),
            ),
        decreases b,
    {
        assert(v@.subrange(start as int, b as int).drop_last() == v@.subrange(
            start as int,
            b as int - 1,
        ));
        b -= 1;
    }
    b
}

/// Makes a DNS label of a host name: drops one of the suffixes `.local`,
/// `.localdomain` and `.lan`, keeps what lies between the first and the last
/// alphanumeric character, turns the separators inside into `'-'`, lowers
/// ASCII letters, and cuts the result to [`MAX_LABEL_LENGTH`] characters.
pub fn sanitize_hostname(hostname: &str) -> (r: String)
    ensures
        r@ == spec_sanitize_hostname(hostname@),
        r@.len() <= MAX_LABEL_LENGTH,
{
    let v = to_chars(hostname);
    let n = v.len();
    proof {
        reveal_strlit(".local");
        reveal_strlit(".localdomain");
        reveal_strlit(".lan");
        assert(v@.take(n as int) == v@);
    }
    let mut end = strip_common_suffix(&v, ".local");
    if end == n {
        end = strip_common_suffix(&v, ".localdomain");
    }
    if end == n {
        end = strip_common_suffix(&v, ".lan");
    }
    assert(v@.take(end as int) == trim_common_suffix(hostname@));
    let start = trim_start_other_from(&v, end);
    let stop = trim_end_other_to(&v, start, end);
    assert(v@.subrange(start as int, stop as int) == alphanumeric_span(
        trim_common_suffix(hostname@),
    ));
    let ghost span = v@.subrange(start as int, stop as int);
    let len = stop - start;
    let kept = if len <= MAX_LABEL_LENGTH { len } else { MAX_LABEL_LENGTH };
    let mut r = String::new();
    let mut i: usize = 0;
    while i < kept
        invariant
            i <= kept <= len,
            len == stop - start,
            start <= stop <= v.len(),
            span == v@.subrange(start as int, stop as int),
            r@ == sanitize_span(span).take(i as int),
        decreases kept - i,
    {
        let c = v[start + i];
        let interior = 0 < i && i < len - 1;
        let d = if interior && (c == ' ' || c == '.' || c == '@' || c == '_') {
            '-'
        } else if c.is_alphanumeric() || c == '-' {
            to_ascii_lowercase(c)
        } else {
            c
        };
        r.push(d);
        assert(sanitize_span(span).take(i as int).push(d) == sanitize_span(span).take(i as int + 1));
        i += 1;
    }
    assert(sanitize_span(span).take(len as int) == sanitize_span(span));
    r
}

/// Reads one string member of a JSON object with `serde_json`: parses `text`
/// with `serde_json::from_slice`, looks `key` up with `Value::get` and takes
/// the string with `Value::as_str`. What comes back depends on `text` and
/// `key` alone and is named by [`json_text_member`].
#[verifier::external_body]
fn text_member(text: &[u8], key: &str) -> (member: Option<String>)
    ensures
        text_view(member) == json_text_member(text@, key@),
{
    let document: serde_json::Value = serde_json::from_slice(text).ok()?;
    Some(document.get(key)?.as_str()?.to_string())
}

/// The operator user that the outcome of the preference query names, if it
/// names one.
pub fn operator_user(prefs: &ProcessReport) -> (operator: Option<String>)
    ensures
        text_view(operator) == spec_operator_user(*prefs),
{
    match prefs {
        ProcessReport::Exited { success, stdout } => {
            if *success {
                text_member(stdout.as_slice(), "OperatorUser")
            } else {
                None
            }
        },
        ProcessReport::NotStarted => None,
    }
}

/// Whether `user` is the configured operator `operator`.
pub fn is_operator(user: &str, operator: &Option<String>) -> (r: bool)
    ensures
        r == spec_is_operator(user@, text_view(*operator)),
{
    match operator {
        Some(name) => text_eq(name.as_str(), user),
        None => false,
    }
}

/// Whether the preference query names `user` as the operator of the daemon.
pub fn check_tailscale_operator(user: &str, prefs: &ProcessReport) -> (r: bool)
    ensures
        r == spec_is_operator(user@, spec_operator_user(*prefs)),
{
    let operator = operator_user(prefs);
    is_operator(user, &operator)
}

/// Where `name` ends once one trailing dot is gone, and where what stands in
/// front of `suffix` ends.
fn cut_suffix(name: &Vec<char>, suffix: &Vec<char>) -> (cut: (usize, usize))
    ensures
        cut.1 <= cut.0 <= name.len(),
        name@.take(cut.0 as int) == strip_dot(name@),
        name@.take(cut.1 as int) == suffix_base(name@, suffix@),
{
    let end = strip_dot_len(name);
    let to = trim_end_dots_len(suffix, suffix.len());
    let from = trim_start_dots_from(suffix, to);
    assert(suffix@.take(suffix.len() as int) == suffix@);
    let base = strip_suffix_len(name, end, suffix, from, to);
    (end, base)
}

/// Whether `name` ends in `suffix` on a DNS label boundary. One trailing dot
/// of the name and the dots around the suffix are ignored.
pub fn has_suffix(name: &str, suffix: &str) -> (r: bool)
    ensures
        r == spec_has_suffix(name@, suffix@),
{
    let n = to_chars(name);
    let s = to_chars(suffix);
    let (end, base) = cut_suffix(&n, &s);
    base < end && base > 0 && n[base - 1] == '.'
}

/// `name` without `suffix` and the dots in front of it, if it ends in the
/// suffix on a label boundary; else `name` without one trailing dot.
pub fn trim_suffix(name: &str, suffix: &str) -> (r: String)
    ensures
        r@ == spec_trim_suffix(name@, suffix@),
{
    let n = to_chars(name);
    let s = to_chars(suffix);
    let (end, base) = cut_suffix(&n, &s);
    let kept = if base < end && base > 0 && n[base - 1] == '.' {
        trim_end_dots_len(&n, base)
    } else {
        end
    };
    assert(n@.subrange(0, kept as int) == n@.take(kept as int));
    to_text(&n, 0, kept)
}

} // verus!
