//! Text: searching, splitting, ordering, and integers written in decimal.

use vstd::prelude::*;
use vstd::string::{StrSliceExecFns, StringExecFns};

use crate::order::{is_sorted_order, sorted_indices, sorted_order, sorted_order_is, strict_order};

verus! {

/// The characters of each string of a list.
pub open spec fn views(texts: Seq<String>) -> Seq<Seq<char>> {
    texts.map_values(|t: String| t@)
}

/// Whether two strings hold the same characters.
pub fn same_text(a: &str, b: &str) -> (r: bool)
    ensures
        r == (a@ == b@),
{
    a.to_owned() == b.to_owned()
}

/// A copy of a list of strings.
pub fn copy_texts(texts: &Vec<String>) -> (r: Vec<String>)
    ensures
        r@ == texts@,
{
    let mut r: Vec<String> = Vec::new();
    let mut i: usize = 0;
    while i < texts.len()
        invariant
            i <= texts@.len(),
            r@ == texts@.take(i as int),
        decreases texts@.len() - i,
    {
        r.push(texts[i].clone());
        assert(texts@.take(i + 1) =~= texts@.take(i as int).push(texts@[i as int]));
        i = i + 1;
    }
    assert(texts@.take(i as int) =~= texts@);
    r
}

/// Whether a list holds a text.
pub fn holds_text(names: &Vec<String>, name: &str) -> (r: bool)
    ensures
        r == views(names@).contains(name@),
{
    let mut i: usize = 0;
    while i < names.len()
        invariant
            i <= names@.len(),
            forall|k: int| 0 <= k < i ==> views(names@)[k] != name@,
        decreases names@.len() - i,
    {
        assert(views(names@)[i as int] == names@[i as int]@);
        if same_text(names[i].as_str(), name) {
            return true;
        }
        i = i + 1;
    }
    false
}

/// The characters of a string.
pub fn chars_of(s: &str) -> (r: Vec<char>)
    ensures
        r@ == s@,
{
    let mut r: Vec<char> = Vec::new();
    for c in it: s.chars()
        invariant
            r@.len() == it.index(),
            it.seq() == s@,
            forall|i: int| 0 <= i < r@.len() ==> r@[i] == s@[i],
    {
        r.push(c);
    }
    assert(r@ =~= s@);
    r
}

/// The characters `from..to` of a string.
pub fn piece(s: &str, from: usize, to: usize) -> (r: String)
    requires
        from <= to <= s@.len(),
    ensures
        r@ == s@.subrange(from as int, to as int),
{
    s.substring_char(from, to).to_owned()
}

/// `pattern` stands in `s` at `at`.
pub open spec fn stands_at(s: Seq<char>, pattern: Seq<char>, at: int) -> bool {
    0 <= at && at + pattern.len() <= s.len() && s.subrange(at, at + pattern.len()) == pattern
}

pub open spec fn contains(s: Seq<char>, pattern: Seq<char>) -> bool {
    exists|at: int| #[trigger] stands_at(s, pattern, at)
}

fn matches_at(s: &Vec<char>, pattern: &Vec<char>, at: usize) -> (r: bool)
    requires
        at + pattern@.len() <= s@.len(),
    ensures
        r == stands_at(s@, pattern@, at as int),
{
    let n: usize = s.len();
    let mut i: usize = 0;
    while i < pattern.len()
        invariant
            n == s@.len(),
            at + pattern@.len() <= n,
            i <= pattern@.len(),
            forall|j: int| 0 <= j < i ==> s@[at + j] == pattern@[j],
        decreases pattern@.len() - i,
    {
        if s[at + i] != pattern[i] {
            assert(s@.subrange(at as int, at + pattern@.len())[i as int] != pattern@[i as int]);
            return false;
        }
        i = i + 1;
    }
    assert(s@.subrange(at as int, at + pattern@.len()) =~= pattern@);
    true
}

/// Whether a string holds a pattern.
pub fn contains_text(s: &str, pattern: &str) -> (r: bool)
    ensures
        r == contains(s@, pattern@),
{
    let sc = chars_of(s);
    let pc = chars_of(pattern);
    if pc.len() > sc.len() {
        return false;
    }
    let last: usize = sc.len() - pc.len();
    let mut at: usize = 0;
    loop
        invariant
            sc@ == s@,
            pc@ == pattern@,
            last + pc@.len() == sc@.len(),
            at <= last,
            forall|k: int| 0 <= k < at ==> !stands_at(s@, pattern@, k),
        decreases last - at,
    {
        if matches_at(&sc, &pc, at) {
            return true;
        }
        if at == last {
            return false;
        }
        at = at + 1;
    }
}

/// Whether a string begins with a prefix.
pub fn begins_with(s: &str, prefix: &str) -> (r: bool)
    ensures
        r == stands_at(s@, prefix@, 0),
{
    let sc = chars_of(s);
    let pc = chars_of(prefix);
    pc.len() <= sc.len() && matches_at(&sc, &pc, 0)
}

/// What follows the last `sep`, the whole string when there is none.
pub open spec fn after_last(s: Seq<char>, sep: char) -> Seq<char>
    decreases s.len(),
{
    if s.len() == 0 || s.last() == sep {
        Seq::empty()
    } else {
        after_last(s.drop_last(), sep).push(s.last())
    }
}

proof fn after_last_is_tail(s: Seq<char>, sep: char, from: int)
    requires
        0 <= from <= s.len(),
        from == 0 || s[from - 1] == sep,
        forall|i: int| from <= i < s.len() ==> s[i] != sep,
    ensures
        after_last(s, sep) == s.skip(from),
    decreases s.len(),
{
    if from == s.len() {
        assert(s.skip(from) =~= Seq::empty());
    } else {
        after_last_is_tail(s.drop_last(), sep, from);
        assert(s.skip(from) =~= s.drop_last().skip(from).push(s.last()));
    }
}

pub fn text_after_last(s: &str, sep: char) -> (r: String)
    ensures
        r@ == after_last(s@, sep),
{
    let chars = chars_of(s);
    let n: usize = chars.len();
    let mut from: usize = n;
    while from > 0 && chars[from - 1] != sep
        invariant
            chars@ == s@,
            n == s@.len(),
            from <= n,
            forall|i: int| from <= i < n ==> s@[i] != sep,
        decreases from,
    {
        from = from - 1;
    }
    proof {
        after_last_is_tail(s@, sep, from as int);
        assert(s@.skip(from as int) =~= s@.subrange(from as int, n as int));
    }
    piece(s, from, n)
}

/// The first place at or after `from` where `c` stands, the length when there is none.
pub open spec fn next_place(s: Seq<char>, c: char, from: int) -> int
    decreases s.len() - from,
{
    if from >= s.len() || from < 0 {
        s.len() as int
    } else if s[from] == c {
        from
    } else {
        next_place(s, c, from + 1)
    }
}

proof fn next_place_bounds(s: Seq<char>, c: char, from: int)
    requires
        0 <= from <= s.len(),
    ensures
        from <= next_place(s, c, from) <= s.len(),
    decreases s.len() - from,
{
    if from < s.len() && s[from] != c {
        next_place_bounds(s, c, from + 1);
    }
}

/// The pieces between the separators, from `from` on: one more than there are separators.
pub open spec fn split_from(s: Seq<char>, sep: char, from: int) -> Seq<Seq<char>>
    decreases s.len() - from,
{
    let at = next_place(s, sep, from);
    if from < 0 || at < from || at >= s.len() {
        seq![s.subrange(from, s.len() as int)]
    } else {
        seq![s.subrange(from, at)] + split_from(s, sep, at + 1)
    }
}

pub open spec fn split(s: Seq<char>, sep: char) -> Seq<Seq<char>> {
    split_from(s, sep, 0)
}

/// The pieces between the separators.
pub fn split_text(s: &str, sep: char) -> (r: Vec<String>)
    ensures
        views(r@) == split(s@, sep),
{
    let chars = chars_of(s);
    let n: usize = chars.len();
    let mut r: Vec<String> = Vec::new();
    let mut from: usize = 0;
    assert(views(r@) + split_from(s@, sep, 0) =~= split_from(s@, sep, 0));
    loop
        invariant
            chars@ == s@,
            n == s@.len(),
            from <= n,
            views(r@) + split_from(s@, sep, from as int) == split(s@, sep),
        decreases n - from,
    {
        let mut at: usize = from;
        while at < n && chars[at] != sep
            invariant
                chars@ == s@,
                n == s@.len(),
                from <= at <= n,
                next_place(s@, sep, from as int) == next_place(s@, sep, at as int),
            decreases n - at,
        {
            at = at + 1;
        }
        let ghost before = r@;
        r.push(piece(s, from, at));
        assert(views(r@) =~= views(before).push(s@.subrange(from as int, at as int)));
        if at == n {
            assert(views(r@) =~= views(before) + seq![s@.subrange(from as int, n as int)]);
            return r;
        }
        assert(views(r@) + split_from(s@, sep, at + 1) =~= views(before) + (seq![
            s@.subrange(from as int, at as int),
        ] + split_from(s@, sep, at + 1)));
        from = at + 1;
    }
}

/// The pieces with `sep` between them.
pub open spec fn joined(pieces: Seq<Seq<char>>, sep: Seq<char>) -> Seq<char>
    decreases pieces.len(),
{
    if pieces.len() == 0 {
        Seq::empty()
    } else if pieces.len() == 1 {
        pieces[0]
    } else {
        joined(pieces.drop_last(), sep) + sep + pieces.last()
    }
}

/// Joins the pieces `from..` of a list.
pub fn join_from(pieces: &Vec<String>, from: usize, sep: &str) -> (r: String)
    requires
        from <= pieces@.len(),
    ensures
        r@ == joined(views(pieces@).skip(from as int), sep@),
{
    let ghost all = views(pieces@).skip(from as int);
    let mut r = String::new();
    let mut i: usize = from;
    while i < pieces.len()
        invariant
            from <= i <= pieces@.len(),
            all == views(pieces@).skip(from as int),
            r@ == joined(all.take(i - from), sep@),
        decreases pieces@.len() - i,
    {
        let ghost before = all.take(i - from);
        let ghost after = all.take(i + 1 - from);
        assert(after.drop_last() =~= before);
        assert(after.last() == pieces@[i as int]@);
        if i > from {
            r.append(sep);
        }
        r.append(pieces[i].as_str());
        assert(r@ =~= joined(after, sep@));
        i = i + 1;
    }
    assert(all.take(i - from) =~= all);
    r
}

pub fn join(pieces: &Vec<String>, sep: &str) -> (r: String)
    ensures
        r@ == joined(views(pieces@), sep@),
{
    assert(views(pieces@).skip(0) =~= views(pieces@));
    join_from(pieces, 0, sep)
}

/// Splitting on a character and joining with it gives the string back.
pub proof fn join_undoes_split(s: Seq<char>, sep: char)
    ensures
        joined(split(s, sep), seq![sep]) == s,
{
    join_undoes_split_from(s, sep, 0);
    assert(s.skip(0) =~= s);
}

proof fn joined_front(first: Seq<char>, rest: Seq<Seq<char>>, sep: Seq<char>)
    requires
        rest.len() > 0,
    ensures
        joined(seq![first] + rest, sep) == first + sep + joined(rest, sep),
    decreases rest.len(),
{
    let all = seq![first] + rest;
    if rest.len() == 1 {
        assert(all.drop_last() =~= seq![first]);
        reveal_with_fuel(joined, 3);
    } else {
        joined_front(first, rest.drop_last(), sep);
        assert(all.drop_last() =~= seq![first] + rest.drop_last());
        assert(joined(all, sep) =~= first + sep + joined(rest, sep));
    }
}

proof fn join_undoes_split_from(s: Seq<char>, sep: char, from: int)
    requires
        0 <= from <= s.len(),
    ensures
        split_from(s, sep, from).len() > 0,
        joined(split_from(s, sep, from), seq![sep]) == s.skip(from),
    decreases s.len() - from,
{
    let at = next_place(s, sep, from);
    next_place_bounds(s, sep, from);
    if at >= s.len() {
        assert(s.subrange(from, s.len() as int) =~= s.skip(from));
    } else {
        next_place_is(s, sep, from);
        join_undoes_split_from(s, sep, at + 1);
        joined_front(s.subrange(from, at), split_from(s, sep, at + 1), seq![sep]);
        assert(s.skip(from) =~= s.subrange(from, at) + seq![sep] + s.skip(at + 1));
    }
}

proof fn next_place_is(s: Seq<char>, c: char, from: int)
    requires
        0 <= from <= s.len(),
        next_place(s, c, from) < s.len(),
    ensures
        s[next_place(s, c, from)] == c,
    decreases s.len() - from,
{
    if from < s.len() && s[from] != c {
        next_place_is(s, c, from + 1);
    }
}

/// `a` comes before `b` in the order of code points.
pub open spec fn text_before(a: Seq<char>, b: Seq<char>) -> bool
    decreases a.len(),
{
    if b.len() == 0 {
        false
    } else if a.len() == 0 {
        true
    } else if a[0] != b[0] {
        (a[0] as u32) < (b[0] as u32)
    } else {
        text_before(a.drop_first(), b.drop_first())
    }
}

pub(crate) proof fn text_order_irreflexive(a: Seq<char>)
    ensures
        !text_before(a, a),
    decreases a.len(),
{
    if a.len() > 0 {
        text_order_irreflexive(a.drop_first());
    }
}

pub(crate) proof fn text_order_transitive(a: Seq<char>, b: Seq<char>, c: Seq<char>)
    requires
        text_before(a, b),
        text_before(b, c),
    ensures
        text_before(a, c),
    decreases a.len(),
{
    if a.len() > 0 && a[0] == b[0] && b[0] == c[0] {
        text_order_transitive(a.drop_first(), b.drop_first(), c.drop_first());
    }
}

proof fn codes_differ(a: char, b: char)
    requires
        a != b,
    ensures
        a as u32 != b as u32,
{
}

pub(crate) proof fn text_order_total(a: Seq<char>, b: Seq<char>)
    requires
        a != b,
    ensures
        text_before(a, b) || text_before(b, a),
    decreases a.len(),
{
    if a.len() > 0 && b.len() > 0 {
        if a[0] == b[0] {
            assert(a =~= seq![a[0]] + a.drop_first());
            assert(b =~= seq![b[0]] + b.drop_first());
            text_order_total(a.drop_first(), b.drop_first());
        } else {
            codes_differ(a[0], b[0]);
        }
    } else if a.len() == 0 && b.len() == 0 {
        assert(a =~= b);
    }
}

/// The texts are pairwise different.
pub open spec fn all_different(texts: Seq<Seq<char>>) -> bool {
    forall|i: int, j: int| 0 <= i < j < texts.len() ==> texts[i] != texts[j]
}

/// The order of texts, over their indices.
pub open spec fn index_order(texts: Seq<Seq<char>>) -> spec_fn(int, int) -> bool {
    |i: int, j: int| text_before(texts[i], texts[j])
}

/// The indices of the texts, in the order of the texts.
pub open spec fn text_order(texts: Seq<Seq<char>>) -> Seq<usize> {
    sorted_order(index_order(texts), texts.len() as int)
}

/// Different texts are strictly ordered.
pub proof fn text_order_is_strict(texts: Seq<Seq<char>>)
    requires
        all_different(texts),
    ensures
        strict_order(index_order(texts), texts.len() as int),
{
    let before = index_order(texts);
    let n = texts.len() as int;
    assert forall|i: int| 0 <= i < n implies !#[trigger] before(i, i) by {
        text_order_irreflexive(texts[i]);
    }
    assert forall|i: int, j: int, k: int|
        0 <= i < n && 0 <= j < n && 0 <= k < n && #[trigger] before(i, j) && #[trigger] before(
            j,
            k,
        ) implies before(i, k) by {
        text_order_transitive(texts[i], texts[j], texts[k]);
    }
    assert forall|i: int, j: int| 0 <= i < n && 0 <= j < n && i != j implies #[trigger] before(i, j)
        || before(j, i) by {
        if i < j {
            assert(texts[i] != texts[j]);
        } else {
            assert(texts[j] != texts[i]);
        }
        text_order_total(texts[i], texts[j]);
    }
}

/// Whether `a` comes before `b`.
pub fn text_less(a: &str, b: &str) -> (r: bool)
    ensures
        r == text_before(a@, b@),
{
    let ac = chars_of(a);
    let bc = chars_of(b);
    let mut i: usize = 0;
    assert(a@.skip(0) =~= a@);
    assert(b@.skip(0) =~= b@);
    while i < ac.len() && i < bc.len()
        invariant
            ac@ == a@,
            bc@ == b@,
            i <= a@.len(),
            i <= b@.len(),
            text_before(a@, b@) == text_before(a@.skip(i as int), b@.skip(i as int)),
        decreases a@.len() - i,
    {
        if ac[i] != bc[i] {
            return (ac[i] as u32) < (bc[i] as u32);
        }
        assert(a@.skip(i as int).drop_first() =~= a@.skip(i + 1));
        assert(b@.skip(i as int).drop_first() =~= b@.skip(i + 1));
        i = i + 1;
    }
    i >= ac.len() && i < bc.len()
}

/// The indices of a list of different texts, in the order of the texts.
pub fn sort_texts(texts: &Vec<String>) -> (r: Vec<usize>)
    requires
        all_different(views(texts@)),
    ensures
        r@ == text_order(views(texts@)),
        is_sorted_order(r@, index_order(views(texts@)), texts@.len() as int),
{
    let ghost before = index_order(views(texts@));
    proof {
        text_order_is_strict(views(texts@));
    }
    let less = |i: usize, j: usize| -> (r: bool)
        requires
            i < texts@.len(),
            j < texts@.len(),
        ensures
            r == before(i as int, j as int),
        { text_less(texts[i].as_str(), texts[j].as_str()) };
    let r = sorted_indices(texts.len(), &less, Ghost(before));
    proof {
        sorted_order_is(r@, before, texts@.len() as int);
    }
    r
}

/// The character has the Unicode property `White_Space`.
pub open spec fn is_white(c: char) -> bool {
    let code = c as u32;
    ||| 0x09 <= code <= 0x0D
    ||| code == 0x20
    ||| code == 0x85
    ||| code == 0xA0
    ||| code == 0x1680
    ||| 0x2000 <= code <= 0x200A
    ||| code == 0x2028
    ||| code == 0x2029
    ||| code == 0x202F
    ||| code == 0x205F
    ||| code == 0x3000
}

/// `char::is_whitespace`: whether a character has the Unicode property `White_Space`. The
/// contract lists the characters that have it.
#[verifier::external_body]
fn white(c: char) -> (r: bool)
    ensures
        r == is_white(c),
{
    c.is_whitespace()
}

pub open spec fn ascii(s: Seq<char>) -> bool {
    forall|i: int| 0 <= i < s.len() ==> (#[trigger] s[i] as u32) < 128
}

/// What `str::to_lowercase` makes of a string that is not all ASCII.
pub uninterp spec fn unicode_lowercase(s: Seq<char>) -> Seq<char>;

/// What `str::to_uppercase` makes of a string that is not all ASCII.
pub uninterp spec fn unicode_uppercase(s: Seq<char>) -> Seq<char>;

/// The letters `A` to `Z` are lowered, the other characters stay.
pub open spec fn small_letter(c: char) -> char {
    if 0x41 <= c as u32 <= 0x5A {
        (c as u32 + 32) as char
    } else {
        c
    }
}

/// The letters `a` to `z` are raised, the other characters stay.
pub open spec fn capital_letter(c: char) -> char {
    if 0x61 <= c as u32 <= 0x7A {
        (c as u32 - 32) as char
    } else {
        c
    }
}

/// The string in small letters.
pub open spec fn lowercase(s: Seq<char>) -> Seq<char> {
    if ascii(s) {
        s.map_values(|c: char| small_letter(c))
    } else {
        unicode_lowercase(s)
    }
}

/// The string in capital letters.
pub open spec fn uppercase(s: Seq<char>) -> Seq<char> {
    if ascii(s) {
        s.map_values(|c: char| capital_letter(c))
    } else {
        unicode_uppercase(s)
    }
}

/// ASCII texts that differ at most in the case of their letters have the same small letters.
pub proof fn case_is_lowered(a: Seq<char>, b: Seq<char>)
    requires
        ascii(a),
        same_letters(a, b),
    ensures
        ascii(b),
        lowercase(a) == lowercase(b),
{
    assert forall|i: int| 0 <= i < b.len() implies (#[trigger] b[i] as u32) < 128 && small_letter(
        a[i],
    ) == small_letter(b[i]) by {
        assert(same_letter(a[i], b[i]));
        assert((a[i] as u32) < 128);
    }
    assert(lowercase(a) =~= lowercase(b));
}

/// `str::to_lowercase`: the lowercase of a string by the rules of Unicode. On a string of
/// ASCII characters it lowers the letters `A` to `Z` and keeps the rest. What it makes of
/// other strings is left to std; nor is it said that the case of the ASCII letters among
/// their characters does not count.
#[verifier::external_body]
pub(crate) fn to_lower(s: &str) -> (r: String)
    ensures
        r@ == if ascii(s@) {
            s@.map_values(|c: char| small_letter(c))
        } else {
            unicode_lowercase(s@)
        },
{
    s.to_lowercase()
}

/// `str::to_uppercase`: the uppercase of a string by the rules of Unicode. On a string of
/// ASCII characters it raises the letters `a` to `z` and keeps the rest; what it makes of
/// other strings is left to std.
#[verifier::external_body]
pub(crate) fn to_upper(s: &str) -> (r: String)
    ensures
        r@ == if ascii(s@) {
            s@.map_values(|c: char| capital_letter(c))
        } else {
            unicode_uppercase(s@)
        },
{
    s.to_uppercase()
}

/// The words of `s` from `from` on, where `start` is the place where the current word began.
pub open spec fn words_from(s: Seq<char>, start: int, from: int) -> Seq<Seq<char>>
    decreases s.len() - from,
{
    let done = if start < from {
        seq![s.subrange(start, from)]
    } else {
        Seq::empty()
    };
    if from < 0 || from >= s.len() {
        done
    } else if is_white(s[from]) {
        done + words_from(s, from + 1, from + 1)
    } else {
        words_from(s, start, from + 1)
    }
}

/// The longest runs without white space, in order.
pub open spec fn words(s: Seq<char>) -> Seq<Seq<char>> {
    words_from(s, 0, 0)
}

/// Where the words of `s` from `from` on lie, each by its start and its end.
pub open spec fn spans_from(s: Seq<char>, start: int, from: int) -> Seq<(int, int)>
    decreases s.len() - from,
{
    let done = if start < from {
        seq![(start, from)]
    } else {
        Seq::empty()
    };
    if from < 0 || from >= s.len() {
        done
    } else if is_white(s[from]) {
        done + spans_from(s, from + 1, from + 1)
    } else {
        spans_from(s, start, from + 1)
    }
}

/// Where the words of `s` lie.
pub open spec fn word_spans(s: Seq<char>) -> Seq<(int, int)> {
    spans_from(s, 0, 0)
}

/// The words are the pieces at their spans, and each begins behind the one before it.
proof fn spans_tell_words(s: Seq<char>, start: int, from: int)
    requires
        0 <= start <= from <= s.len(),
    ensures
        ({
            let spans = spans_from(s, start, from);
            let words = words_from(s, start, from);
            &&& spans.len() == words.len()
            &&& forall|i: int|
                0 <= i < spans.len() ==> {
                    &&& start <= (#[trigger] spans[i]).0 < spans[i].1 <= s.len()
                    &&& words[i] == s.subrange(spans[i].0, spans[i].1)
                }
            &&& forall|i: int, j: int| 0 <= i < j < spans.len() ==> spans[i].1 <= spans[j].0
        }),
    decreases s.len() - from,
{
    if from < s.len() {
        if is_white(s[from]) {
            spans_tell_words(s, from + 1, from + 1);
            let rest = spans_from(s, from + 1, from + 1);
            let spans = spans_from(s, start, from);
            let words = words_from(s, start, from);
            let head: int = if start < from {
                1
            } else {
                0
            };
            assert forall|i: int| 0 <= i < spans.len() implies start <= (#[trigger] spans[i]).0
                < spans[i].1 <= s.len() && words[i] == s.subrange(spans[i].0, spans[i].1) by {
                if i >= head {
                    assert(spans[i] == rest[i - head]);
                    assert(words[i] == words_from(s, from + 1, from + 1)[i - head]);
                }
            }
            assert forall|i: int, j: int| 0 <= i < j < spans.len() implies spans[i].1
                <= spans[j].0 by {
                assert(spans[j] == rest[j - head]);
                if i >= head {
                    assert(spans[i] == rest[i - head]);
                }
            }
        } else {
            spans_tell_words(s, start, from + 1);
        }
    }
}

/// Texts that are white at the same places have their words at the same places.
proof fn white_places_tell_spans(s: Seq<char>, t: Seq<char>, start: int, from: int)
    requires
        s.len() == t.len(),
        0 <= from,
        forall|i: int| 0 <= i < s.len() ==> is_white(#[trigger] s[i]) == is_white(t[i]),
    ensures
        spans_from(s, start, from) == spans_from(t, start, from),
    decreases s.len() - from,
{
    if from < s.len() {
        assert(is_white(s[from]) == is_white(t[from]));
        white_places_tell_spans(s, t, from + 1, from + 1);
        white_places_tell_spans(s, t, start, from + 1);
    }
}

/// `t` is `s` but for the case of ASCII letters in its first word.
pub open spec fn same_but_for_first_word(s: Seq<char>, t: Seq<char>) -> bool {
    &&& s.len() == t.len()
    &&& word_spans(s).len() > 0
    &&& forall|i: int|
        #![trigger s[i]]
        #![trigger t[i]]
        0 <= i < s.len() ==> if word_spans(s)[0].0 <= i < word_spans(s)[0].1 {
            same_letter(s[i], t[i])
        } else {
            s[i] == t[i]
        }
}

/// Changing the case of letters in the first word changes no other word.
pub proof fn first_word_stands_alone(s: Seq<char>, t: Seq<char>)
    requires
        same_but_for_first_word(s, t),
    ensures
        words(s).len() > 0,
        words(t).len() == words(s).len(),
        same_letters(words(s)[0], words(t)[0]),
        forall|i: int| 1 <= i < words(s).len() ==> words(s)[i] == words(t)[i],
{
    let spans = word_spans(s);
    assert forall|i: int| 0 <= i < s.len() implies is_white(#[trigger] s[i]) == is_white(t[i]) by {
        assert(same_letter(s[i], t[i]));
    }
    white_places_tell_spans(s, t, 0, 0);
    spans_tell_words(s, 0, 0);
    spans_tell_words(t, 0, 0);
    let (a, b) = spans[0];
    assert(words(s)[0] == s.subrange(a, b));
    assert(words(t)[0] == t.subrange(a, b));
    assert forall|i: int| 0 <= i < b - a implies same_letter(
        #[trigger] words(s)[0][i],
        words(t)[0][i],
    ) by {
        assert(same_letter(s[a + i], t[a + i]));
    }
    assert forall|k: int| 1 <= k < words(s).len() implies words(s)[k] == words(t)[k] by {
        let (c, d) = spans[k];
        assert(spans[0].1 <= spans[k].0);
        assert forall|i: int| c <= i < d implies s[i] == t[i] by {}
        assert(s.subrange(c, d) =~= t.subrange(c, d));
    }
}

/// The words of a string.
pub fn split_words(s: &str) -> (r: Vec<String>)
    ensures
        views(r@) == words(s@),
{
    let chars = chars_of(s);
    let n: usize = chars.len();
    let mut r: Vec<String> = Vec::new();
    let mut start: usize = 0;
    let mut i: usize = 0;
    assert(views(r@) + words_from(s@, 0, 0) =~= words(s@));
    while i < n
        invariant
            chars@ == s@,
            n == s@.len(),
            start <= i <= n,
            views(r@) + words_from(s@, start as int, i as int) == words(s@),
        decreases n - i,
    {
        let ghost before = r@;
        let ghost rest = words_from(s@, i + 1, i + 1);
        if white(chars[i]) {
            if start < i {
                r.push(piece(s, start, i));
                assert(views(r@) =~= views(before).push(s@.subrange(start as int, i as int)));
                assert(views(r@) + rest =~= views(before) + (seq![
                    s@.subrange(start as int, i as int),
                ] + rest));
            } else {
                assert(views(before) + rest =~= views(before) + (Seq::empty() + rest));
            }
            start = i + 1;
        }
        i = i + 1;
    }
    let ghost before = r@;
    if start < n {
        r.push(piece(s, start, n));
        assert(views(r@) =~= views(before) + seq![s@.subrange(start as int, n as int)]);
    } else {
        assert(views(before) + Seq::empty() =~= views(before));
    }
    r
}

/// The string without white space at its start.
pub open spec fn trimmed_front(s: Seq<char>) -> Seq<char>
    decreases s.len(),
{
    if s.len() > 0 && is_white(s[0]) {
        trimmed_front(s.drop_first())
    } else {
        s
    }
}

/// The string without white space at its end.
pub open spec fn trimmed_back(s: Seq<char>) -> Seq<char>
    decreases s.len(),
{
    if s.len() > 0 && is_white(s.last()) {
        trimmed_back(s.drop_last())
    } else {
        s
    }
}

pub open spec fn trimmed(s: Seq<char>) -> Seq<char> {
    trimmed_back(trimmed_front(s))
}

/// The string without white space around it.
pub fn trim_text(s: &str) -> (r: String)
    ensures
        r@ == trimmed(s@),
{
    let chars = chars_of(s);
    let n: usize = chars.len();
    let mut from: usize = 0;
    assert(s@.skip(0) =~= s@);
    while from < n && white(chars[from])
        invariant
            chars@ == s@,
            n == s@.len(),
            from <= n,
            trimmed_front(s@) == trimmed_front(s@.skip(from as int)),
        decreases n - from,
    {
        assert(s@.skip(from as int).drop_first() =~= s@.skip(from + 1));
        from = from + 1;
    }
    let ghost front = s@.skip(from as int);
    assert(trimmed_front(s@) == front);
    let mut to: usize = n;
    assert(front.take(n - from) =~= front);
    while to > from && white(chars[to - 1])
        invariant
            chars@ == s@,
            n == s@.len(),
            from <= to <= n,
            front == s@.skip(from as int),
            trimmed_back(front) == trimmed_back(front.take(to - from)),
        decreases to,
    {
        assert(front.take(to - from).drop_last() =~= front.take(to - 1 - from));
        to = to - 1;
    }
    assert(front.take(to - from) =~= s@.subrange(from as int, to as int));
    piece(s, from, to)
}

/// The value of a decimal digit.
pub open spec fn digit_value(c: char) -> int {
    c as u32 - 48
}

pub open spec fn is_digit(c: char) -> bool {
    48 <= c as u32 <= 57
}

/// A run of decimal digits that is not empty.
pub open spec fn is_decimal(s: Seq<char>) -> bool {
    s.len() > 0 && forall|i: int| 0 <= i < s.len() ==> is_digit(#[trigger] s[i])
}

/// The number that a run of decimal digits writes.
pub open spec fn decimal_value(s: Seq<char>) -> int
    decreases s.len(),
{
    if s.len() == 0 {
        0
    } else {
        10 * decimal_value(s.drop_last()) + digit_value(s.last())
    }
}

proof fn decimal_value_grows(s: Seq<char>, i: int)
    requires
        0 <= i <= s.len(),
        forall|j: int| 0 <= j < s.len() ==> is_digit(#[trigger] s[j]),
    ensures
        0 <= decimal_value(s.take(i)) <= decimal_value(s),
    decreases s.len(),
{
    if i == s.len() {
        assert(s.take(i) =~= s);
        if s.len() > 0 {
            decimal_value_grows(s.drop_last(), s.len() - 1);
            assert(s.drop_last().take(s.len() - 1) =~= s.drop_last());
        }
    } else {
        decimal_value_grows(s.drop_last(), i);
        assert(s.drop_last().take(i) =~= s.take(i));
    }
}

/// The number at `from..`, when that is a run of digits that writes at most `limit`.
fn parse_digits(chars: &Vec<char>, from: usize, limit: u64) -> (r: Option<u64>)
    requires
        from <= chars@.len(),
    ensures
        ({
            let s = chars@.skip(from as int);
            match r {
                Some(v) => is_decimal(s) && decimal_value(s) == v && v <= limit,
                None => !is_decimal(s) || decimal_value(s) > limit,
            }
        }),
{
    let ghost s = chars@.skip(from as int);
    let n: usize = chars.len();
    if from == n {
        return None;
    }
    let mut i: usize = from;
    let mut v: u64 = 0;
    let mut over: bool = false;
    while i < n
        invariant
            from <= i <= n,
            from < n,
            n == chars@.len(),
            s == chars@.skip(from as int),
            forall|j: int| 0 <= j < i - from ==> is_digit(#[trigger] s[j]),
            !over ==> v == decimal_value(s.take(i - from)) && v <= limit,
            over ==> decimal_value(s.take(i - from)) > limit,
        decreases n - i,
    {
        let c: char = chars[i];
        let code: u32 = c as u32;
        assert(s[i - from] == c);
        if code < 48 || code > 57 {
            assert(!is_digit(s[i - from]));
            return None;
        }
        let d: u64 = (code - 48) as u64;
        proof {
            let next = s.take(i + 1 - from);
            assert(next.drop_last() =~= s.take(i - from));
            decimal_value_grows(next, i - from);
            assert(next.take(i - from) =~= s.take(i - from));
        }
        if !over {
            if d > limit || v > limit / 10 || v * 10 > limit - d {
                over = true;
            } else {
                v = v * 10 + d;
            }
        }
        i = i + 1;
    }
    assert(s.take(n - from) =~= s);
    if over {
        None
    } else {
        Some(v)
    }
}

/// The number that `u64::from_str` reads: digits, with an optional plus sign.
pub open spec fn unsigned_of(s: Seq<char>) -> Option<int> {
    let digits = if s.len() > 0 && s[0] == '+' {
        s.skip(1)
    } else {
        s
    };
    if is_decimal(digits) && decimal_value(digits) <= u64::MAX {
        Some(decimal_value(digits))
    } else {
        None
    }
}

/// Reads an unsigned number.
pub fn parse_u64(s: &str) -> (r: Option<u64>)
    ensures
        match r {
            Some(v) => unsigned_of(s@) == Some(v as int),
            None => unsigned_of(s@) is None,
        },
{
    let chars = chars_of(s);
    let from: usize = if chars.len() > 0 && chars[0] == '+' {
        1
    } else {
        0
    };
    assert(s@.skip(0) =~= s@);
    parse_digits(&chars, from, u64::MAX)
}

/// The number that `i64::from_str` reads: digits, with an optional sign.
pub open spec fn signed_of(s: Seq<char>) -> Option<int> {
    let negative = s.len() > 0 && s[0] == '-';
    let digits = if negative || (s.len() > 0 && s[0] == '+') {
        s.skip(1)
    } else {
        s
    };
    let v = if negative {
        -decimal_value(digits)
    } else {
        decimal_value(digits)
    };
    if is_decimal(digits) && i64::MIN <= v <= i64::MAX {
        Some(v)
    } else {
        None
    }
}

/// Reads a signed number.
pub fn parse_signed(s: &str) -> (r: Option<i64>)
    ensures
        match r {
            Some(v) => signed_of(s@) == Some(v as int),
            None => signed_of(s@) is None,
        },
{
    let chars = chars_of(s);
    let negative: bool = chars.len() > 0 && chars[0] == '-';
    let from: usize = if negative || (chars.len() > 0 && chars[0] == '+') {
        1
    } else {
        0
    };
    assert(s@.skip(0) =~= s@);
    proof {
        let digits = s@.skip(from as int);
        if is_decimal(digits) {
            decimal_value_grows(digits, 0);
        }
    }
    if negative {
        match parse_digits(&chars, from, 0x8000_0000_0000_0000) {
            Some(m) => {
                if m == 0x8000_0000_0000_0000 {
                    Some(i64::MIN)
                } else {
                    Some(-(m as i64))
                }
            },
            None => None,
        }
    } else {
        match parse_digits(&chars, from, 0x7FFF_FFFF_FFFF_FFFF) {
            Some(m) => Some(m as i64),
            None => None,
        }
    }
}

/// The digit that writes a value below ten.
pub open spec fn digit(d: int) -> Seq<char> {
    if d <= 0 {
        "0"@
    } else if d == 1 {
        "1"@
    } else if d == 2 {
        "2"@
    } else if d == 3 {
        "3"@
    } else if d == 4 {
        "4"@
    } else if d == 5 {
        "5"@
    } else if d == 6 {
        "6"@
    } else if d == 7 {
        "7"@
    } else if d == 8 {
        "8"@
    } else {
        "9"@
    }
}

/// A number in decimal.
pub open spec fn decimal(n: nat) -> Seq<char>
    decreases n,
{
    if n < 10 {
        digit(n as int)
    } else {
        decimal(n / 10) + digit((n % 10) as int)
    }
}

fn digit_text(d: u64) -> (r: &'static str)
    requires
        d < 10,
    ensures
        r@ == digit(d as int),
{
    match d {
        0 => "0",
        1 => "1",
        2 => "2",
        3 => "3",
        4 => "4",
        5 => "5",
        6 => "6",
        7 => "7",
        8 => "8",
        _ => "9",
    }
}

/// Writes a number in decimal.
pub fn decimal_text(n: u64) -> (r: String)
    ensures
        r@ == decimal(n as nat),
    decreases n,
{
    let mut r = if n < 10 {
        String::new()
    } else {
        decimal_text(n / 10)
    };
    r.append(digit_text(n % 10));
    assert(r@ =~= decimal(n as nat));
    r
}

/// A signed number in decimal.
pub open spec fn signed_decimal(n: int) -> Seq<char> {
    if n < 0 {
        "-"@ + decimal((-n) as nat)
    } else {
        decimal(n as nat)
    }
}

/// Writes a signed number in decimal.
pub fn signed_text(n: i64) -> (r: String)
    ensures
        r@ == signed_decimal(n as int),
{
    if n >= 0 {
        return decimal_text(n as u64);
    }
    let mut r = String::new();
    r.append("-");
    let magnitude: u64 = if n == i64::MIN {
        0x8000_0000_0000_0000
    } else {
        (-n) as u64
    };
    r.append(decimal_text(magnitude).as_str());
    assert(r@ =~= signed_decimal(n as int));
    r
}

proof fn digit_is_one(d: int)
    requires
        0 <= d < 10,
    ensures
        digit(d).len() == 1,
        is_digit(digit(d)[0]),
        digit_value(digit(d)[0]) == d,
{
    reveal_strlit("0");
    reveal_strlit("1");
    reveal_strlit("2");
    reveal_strlit("3");
    reveal_strlit("4");
    reveal_strlit("5");
    reveal_strlit("6");
    reveal_strlit("7");
    reveal_strlit("8");
    reveal_strlit("9");
}

/// Writing a number in decimal and reading it gives the number back.
pub proof fn decimal_reads_back(n: nat)
    ensures
        is_decimal(decimal(n)),
        decimal_value(decimal(n)) == n,
    decreases n,
{
    reveal_with_fuel(decimal_value, 2);
    if n < 10 {
        digit_is_one(n as int);
        assert(decimal(n).drop_last() =~= Seq::empty());
    } else {
        decimal_reads_back(n / 10);
        digit_is_one((n % 10) as int);
        let s = decimal(n);
        assert(s.drop_last() =~= decimal(n / 10));
        assert(s.last() == digit((n % 10) as int)[0]);
    }
}

/// So many spaces.
pub open spec fn spaces(n: int) -> Seq<char> {
    Seq::new(
        if n > 0 {
            n as nat
        } else {
            0
        },
        |i: int| ' ',
    )
}

/// A text with spaces behind it, up to a width.
pub open spec fn padded(s: Seq<char>, width: int) -> Seq<char> {
    s + spaces(width - s.len())
}

/// A text with spaces before it, up to a width.
pub open spec fn padded_left(s: Seq<char>, width: int) -> Seq<char> {
    spaces(width - s.len()) + s
}

fn space_text(n: usize) -> (r: String)
    ensures
        r@ == spaces(n as int),
{
    let mut r = String::new();
    let mut i: usize = 0;
    while i < n
        invariant
            i <= n,
            r@ =~= spaces(i as int),
        decreases n - i,
    {
        proof {
            reveal_strlit(" ");
        }
        r.append(" ");
        i = i + 1;
    }
    r
}

/// Puts spaces behind a text, up to a width.
pub fn pad_right(s: &str, width: usize) -> (r: String)
    ensures
        r@ == padded(s@, width as int),
{
    let n: usize = chars_of(s).len();
    let mut r = s.to_owned();
    if n < width {
        r.append(space_text(width - n).as_str());
    }
    assert(r@ =~= padded(s@, width as int));
    r
}

/// Puts spaces before a text, up to a width.
pub fn pad_left(s: &str, width: usize) -> (r: String)
    ensures
        r@ == padded_left(s@, width as int),
{
    let n: usize = chars_of(s).len();
    let mut r = if n < width {
        space_text(width - n)
    } else {
        String::new()
    };
    r.append(s);
    assert(r@ =~= padded_left(s@, width as int));
    r
}

/// The characters differ at most in case, and that only between ASCII letters.
pub open spec fn same_letter(a: char, b: char) -> bool {
    ||| a == b
    ||| 0x41 <= a as u32 <= 0x5A && b as u32 == a as u32 + 32
    ||| 0x41 <= b as u32 <= 0x5A && a as u32 == b as u32 + 32
}

/// The texts differ at most in the case of ASCII letters.
pub open spec fn same_letters(a: Seq<char>, b: Seq<char>) -> bool {
    a.len() == b.len() && forall|i: int| 0 <= i < a.len() ==> same_letter(#[trigger] a[i], b[i])
}

/// Whether two texts differ at most in the case of ASCII letters.
pub fn same_but_for_case(a: &str, b: &str) -> (r: bool)
    ensures
        r == same_letters(a@, b@),
{
    let ac = chars_of(a);
    let bc = chars_of(b);
    if ac.len() != bc.len() {
        return false;
    }
    let mut i: usize = 0;
    while i < ac.len()
        invariant
            ac@ == a@,
            bc@ == b@,
            i <= ac@.len(),
            ac@.len() == bc@.len(),
            forall|k: int| 0 <= k < i ==> same_letter(#[trigger] a@[k], b@[k]),
        decreases ac@.len() - i,
    {
        let x: u32 = ac[i] as u32;
        let y: u32 = bc[i] as u32;
        let same = ac[i] == bc[i] || (0x41 <= x && x <= 0x5A && y == x + 32) || (0x41 <= y && y
            <= 0x5A && x == y + 32);
        if !same {
            assert(!same_letter(a@[i as int], b@[i as int]));
            return false;
        }
        i = i + 1;
    }
    true
}

} // verus!
