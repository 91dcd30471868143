use vstd::prelude::*;

verus! {

/// The views of a sequence of strings.
pub open spec fn views(v: Seq<String>) -> Seq<Seq<char>> {
    Seq::new(v.len(), |i: int| v[i]@)
}

/// The views of a sequence of character vectors.
pub open spec fn char_views(v: Seq<Vec<char>>) -> Seq<Seq<char>> {
    Seq::new(v.len(), |i: int| v[i]@)
}

/// `s` begins with `pat`.
pub open spec fn starts_with(s: Seq<char>, pat: Seq<char>) -> bool {
    pat.len() <= s.len() && s.take(pat.len() as int) == pat
}

/// `pat` occurs somewhere in `s`.
pub open spec fn contains(s: Seq<char>, pat: Seq<char>) -> bool {
    exists|i: int| 0 <= i <= s.len() && #[trigger] starts_with(s.skip(i), pat)
}

/// `s` with every occurrence of `pat` replaced by `rep`, scanning from the
/// left and never looking again at replaced text. An empty pattern replaces
/// nothing.
pub open spec fn replace_all(s: Seq<char>, pat: Seq<char>, rep: Seq<char>) -> Seq<char>
    decreases s.len(),
{
    if pat.len() == 0 || s.len() == 0 {
        s
    } else if starts_with(s, pat) {
        rep + replace_all(s.skip(pat.len() as int), pat, rep)
    } else {
        seq![s[0]] + replace_all(s.skip(1), pat, rep)
    }
}

/// The pieces of `s` between occurrences of `sep`, where `cur` is the piece
/// under way.
pub open spec fn split_from(s: Seq<char>, sep: Seq<char>, cur: Seq<char>) -> Seq<Seq<char>>
    decreases s.len(),
{
    if s.len() == 0 {
        seq![cur]
    } else if sep.len() > 0 && starts_with(s, sep) {
        seq![cur] + split_from(s.skip(sep.len() as int), sep, Seq::empty())
    } else {
        split_from(s.skip(1), sep, cur.push(s[0]))
    }
}

/// The pieces of `s` between occurrences of `sep`: always at least one piece,
/// and empty pieces are kept.
pub open spec fn split_on(s: Seq<char>, sep: Seq<char>) -> Seq<Seq<char>> {
    split_from(s, sep, Seq::empty())
}

/// `sep` and a part, for each part in turn.
pub open spec fn join_rest(parts: Seq<Seq<char>>, sep: Seq<char>) -> Seq<char>
    decreases parts.len(),
{
    if parts.len() == 0 {
        Seq::empty()
    } else {
        sep + parts[0] + join_rest(parts.skip(1), sep)
    }
}

/// The parts in order with `sep` between neighbours.
pub open spec fn join_with(parts: Seq<Seq<char>>, sep: Seq<char>) -> Seq<char> {
    if parts.len() == 0 {
        Seq::empty()
    } else {
        parts[0] + join_rest(parts.skip(1), sep)
    }
}

/// How often `c` occurs in `s`.
pub open spec fn count_of(s: Seq<char>, c: char) -> nat
    decreases s.len(),
{
    if s.len() == 0 {
        0
    } else {
        count_of(s.drop_last(), c) + if s.last() == c { 1nat } else { 0nat }
    }
}

/// `n` copies of `c`.
pub open spec fn repeated(c: char, n: nat) -> Seq<char> {
    Seq::new(n, |i: int| c)
}

/// `s` centred in a field of `width` characters: padded with spaces on both
/// sides, the odd space going to the right; unchanged where it is already as
/// long as the field.
pub open spec fn centered(s: Seq<char>, width: nat) -> Seq<char> {
    if s.len() >= width {
        s
    } else {
        let pad = (width - s.len()) as nat;
        repeated(' ', pad / 2) + s + repeated(' ', (pad - pad / 2) as nat)
    }
}

/// White space as Unicode defines it.
pub open spec fn is_space(c: char) -> bool {
    let n = c as u32;
    (0x9 <= n <= 0xd) || n == 0x20 || n == 0x85 || n == 0xa0 || n == 0x1680 || (0x2000 <= n
        <= 0x200a) || n == 0x2028 || n == 0x2029 || n == 0x202f || n == 0x205f || n == 0x3000
}

/// The pieces that are ready when a word ends: the word, unless it is empty.
pub open spec fn word_done(cur: Seq<char>) -> Seq<Seq<char>> {
    if cur.len() > 0 {
        seq![cur]
    } else {
        Seq::empty()
    }
}

/// The words of `s`, where `cur` is the word under way.
pub open spec fn words_from(s: Seq<char>, cur: Seq<char>) -> Seq<Seq<char>>
    decreases s.len(),
{
    if s.len() == 0 {
        word_done(cur)
    } else if is_space(s[0]) {
        word_done(cur) + words_from(s.skip(1), Seq::empty())
    } else {
        words_from(s.skip(1), cur.push(s[0]))
    }
}

/// The maximal runs of characters of `s` that are not white space, in order.
pub open spec fn words(s: Seq<char>) -> Seq<Seq<char>> {
    words_from(s, Seq::empty())
}

/// Appends one character to a string.
///
/// Trusted: calls `String::push`, which std documents as appending the given
/// character to the end of the string.
#[verifier::external_body]
pub(crate) fn push_char(s: &mut String, c: char)
    ensures
        final(s)@ == old(s)@.push(c),
{
    s.push(c)
}

/// The characters of `s`, in order.
pub fn chars_of(s: &str) -> (r: Vec<char>)
    ensures
        r@ == s@,
{
    let mut r: Vec<char> = Vec::new();
    for c in it: s.chars()
        invariant
            it.seq() == s@,
            r@ == s@.take(it.index() as int),
    {
        r.push(c);
    }
    assert(r@ =~= s@);
    r
}

/// The string made of the characters of `v`, in order.
pub fn string_of(v: &Vec<char>) -> (r: String)
    ensures
        r@ == v@,
{
    let mut r = String::new();
    let mut i: usize = 0;
    while i < v.len()
        invariant
            i <= v.len(),
            r@ == v@.take(i as int),
        decreases v.len() - i,
    {
        push_char(&mut r, v[i]);
        i += 1;
        assert(v@.take(i as int) =~= v@.take(i as int - 1).push(v@[i as int - 1]));
    }
    assert(v@.take(v.len() as int) =~= v@);
    r
}

/// Whether two strings hold the same characters.
pub fn same_text(a: &str, b: &str) -> (r: bool)
    ensures
        r == (a@ == b@),
{
    let x = chars_of(a);
    let y = chars_of(b);
    same_chars(&x, &y)
}

/// Whether two character vectors are equal.
pub fn same_chars(x: &Vec<char>, y: &Vec<char>) -> (r: bool)
    ensures
        r == (x@ == y@),
{
    if x.len() != y.len() {
        return false;
    }
    let mut i: usize = 0;
    while i < x.len()
        invariant
            i <= x.len(),
            x.len() == y.len(),
            x@.take(i as int) == y@.take(i as int),
        decreases x.len() - i,
    {
        if x[i] != y[i] {
            return false;
        }
        i += 1;
        assert(x@.take(i as int) =~= x@.take(i as int - 1).push(x@[i as int - 1]));
        assert(y@.take(i as int) =~= y@.take(i as int - 1).push(y@[i as int - 1]));
    }
    assert(x@.take(x.len() as int) =~= x@);
    assert(y@.take(y.len() as int) =~= y@);
    true
}

/// Whether `pat` stands in `s` at position `at`.
pub fn matches_at(s: &Vec<char>, at: usize, pat: &Vec<char>) -> (r: bool)
    requires
        at <= s.len(),
    ensures
        r == starts_with(s@.skip(at as int), pat@),
{
    if pat.len() > s.len() - at {
        return false;
    }
    let mut k: usize = 0;
    while k < pat.len()
        invariant
            k <= pat.len(),
            at + pat.len() <= s.len(),
            forall|j: int| 0 <= j < k ==> s@[at + j] == pat@[j],
        decreases pat.len() - k,
    {
        if s[at + k] != pat[k] {
            proof {
                let t = s@.skip(at as int).take(pat.len() as int);
                assert(t[k as int] == s@[at + k]);
            }
            return false;
        }
        k += 1;
    }
    assert(s@.skip(at as int).take(pat.len() as int) =~= pat@);
    true
}

/// Appends the characters of `more` to `out`.
pub fn extend_chars(out: &mut Vec<char>, more: &Vec<char>)
    ensures
        final(out)@ == old(out)@ + more@,
{
    let mut i: usize = 0;
    while i < more.len()
        invariant
            i <= more.len(),
            out@ == old(out)@ + more@.take(i as int),
        decreases more.len() - i,
    {
        out.push(more[i]);
        i += 1;
        assert(more@.take(i as int) =~= more@.take(i as int - 1).push(more@[i as int - 1]));
        assert(out@ =~= old(out)@ + more@.take(i as int));
    }
    assert(more@.take(more.len() as int) =~= more@);
}

/// Replaces every occurrence of `pat` in `s` by `rep`.
pub fn replace_chars(s: &Vec<char>, pat: &Vec<char>, rep: &Vec<char>) -> (r: Vec<char>)
    ensures
        r@ == replace_all(s@, pat@, rep@),
{
    let mut out: Vec<char> = Vec::new();
    if pat.len() == 0 {
        extend_chars(&mut out, s);
        assert(out@ =~= s@);
        return out;
    }
    let mut i: usize = 0;
    assert(s@.skip(0) =~= s@);
    while i < s.len()
        invariant
            i <= s.len(),
            pat.len() > 0,
            out@ + replace_all(s@.skip(i as int), pat@, rep@) == replace_all(s@, pat@, rep@),
        decreases s.len() - i,
    {
        let ghost rest = s@.skip(i as int);
        if matches_at(s, i, pat) {
            let ghost before = out@;
            extend_chars(&mut out, rep);
            i += pat.len();
            assert(rest.skip(pat.len() as int) =~= s@.skip(i as int));
            assert(out@ + replace_all(s@.skip(i as int), pat@, rep@) =~= before + replace_all(
                rest,
                pat@,
                rep@,
            ));
        } else {
            let ghost before = out@;
            out.push(s[i]);
            i += 1;
            assert(rest.skip(1) =~= s@.skip(i as int));
            assert(out@ + replace_all(s@.skip(i as int), pat@, rep@) =~= before + replace_all(
                rest,
                pat@,
                rep@,
            ));
        }
    }
    assert(out@ + Seq::<char>::empty() =~= out@);
    out
}

/// Replaces every occurrence of `pat` in `s` by `rep`.
pub fn replace_text(s: &str, pat: &str, rep: &str) -> (r: String)
    ensures
        r@ == replace_all(s@, pat@, rep@),
{
    let out = replace_chars(&chars_of(s), &chars_of(pat), &chars_of(rep));
    string_of(&out)
}

/// Splits `s` at every occurrence of `sep`.
pub fn split_chars(s: &Vec<char>, sep: &Vec<char>) -> (r: Vec<Vec<char>>)
    ensures
        char_views(r@) == split_on(s@, sep@),
        r.len() >= 1,
{
    let mut pieces: Vec<Vec<char>> = Vec::new();
    let mut cur: Vec<char> = Vec::new();
    let mut i: usize = 0;
    assert(s@.skip(0) =~= s@);
    assert(char_views(pieces@) =~= Seq::<Seq<char>>::empty());
    assert(char_views(pieces@) + split_from(s@, sep@, cur@) =~= split_on(s@, sep@));
    while i < s.len()
        invariant
            i <= s.len(),
            char_views(pieces@) + split_from(s@.skip(i as int), sep@, cur@) == split_on(s@, sep@),
        decreases s.len() - i,
    {
        let ghost rest = s@.skip(i as int);
        let ghost before = char_views(pieces@);
        let ghost cur0 = cur@;
        if sep.len() > 0 && matches_at(s, i, sep) {
            pieces.push(cur);
            cur = Vec::new();
            i += sep.len();
            assert(rest.skip(sep.len() as int) =~= s@.skip(i as int));
            assert(char_views(pieces@) =~= before + seq![cur0]);
            assert(char_views(pieces@) + split_from(s@.skip(i as int), sep@, cur@) =~= before
                + split_from(rest, sep@, cur0));
        } else {
            cur.push(s[i]);
            i += 1;
            assert(rest.skip(1) =~= s@.skip(i as int));
        }
    }
    let ghost before = char_views(pieces@);
    let ghost cur0 = cur@;
    pieces.push(cur);
    assert(char_views(pieces@) =~= before + seq![cur0]);
    pieces
}

/// The strings made of each character vector in turn.
pub fn strings_of(v: &Vec<Vec<char>>) -> (r: Vec<String>)
    ensures
        views(r@) == char_views(v@),
{
    let mut r: Vec<String> = Vec::new();
    let mut i: usize = 0;
    while i < v.len()
        invariant
            i <= v.len(),
            r.len() == i,
            forall|j: int| 0 <= j < i ==> r@[j]@ == v@[j]@,
        decreases v.len() - i,
    {
        r.push(string_of(&v[i]));
        i += 1;
    }
    assert(views(r@) =~= char_views(v@));
    r
}

/// Splits `s` at every occurrence of `sep`.
pub fn split_text(s: &str, sep: &str) -> (r: Vec<String>)
    ensures
        views(r@) == split_on(s@, sep@),
        r.len() >= 1,
{
    let pieces = split_chars(&chars_of(s), &chars_of(sep));
    let r = strings_of(&pieces);
    assert(r.len() == views(r@).len());
    assert(pieces.len() == char_views(pieces@).len());
    r
}

/// Joins the parts with `sep` between neighbours.
pub fn join_text(parts: &Vec<String>, sep: &str) -> (r: String)
    ensures
        r@ == join_with(views(parts@), sep@),
{
    let mut out = String::new();
    if parts.len() == 0 {
        return out;
    }
    out.append(parts[0].as_str());
    let ghost all = views(parts@);
    let mut i: usize = 1;
    while i < parts.len()
        invariant
            1 <= i <= parts.len(),
            all == views(parts@),
            out@ + join_rest(all.skip(i as int), sep@) == join_with(all, sep@),
        decreases parts.len() - i,
    {
        let ghost before = out@;
        let ghost rest = all.skip(i as int);
        out.append(sep);
        out.append(parts[i].as_str());
        i += 1;
        assert(rest.skip(1) =~= all.skip(i as int));
        assert(rest[0] == parts@[i - 1]@);
        assert(out@ + join_rest(all.skip(i as int), sep@) =~= before + join_rest(rest, sep@));
    }
    assert(out@ + Seq::<char>::empty() =~= out@);
    out
}

/// Joins the parts with `sep` between neighbours.
pub fn join_chars(parts: &Vec<Vec<char>>, sep: &Vec<char>) -> (r: Vec<char>)
    ensures
        r@ == join_with(char_views(parts@), sep@),
{
    let mut out: Vec<char> = Vec::new();
    if parts.len() == 0 {
        return out;
    }
    extend_chars(&mut out, &parts[0]);
    let ghost all = char_views(parts@);
    let mut i: usize = 1;
    assert(out@ =~= all[0]);
    while i < parts.len()
        invariant
            1 <= i <= parts.len(),
            all == char_views(parts@),
            out@ + join_rest(all.skip(i as int), sep@) == join_with(all, sep@),
        decreases parts.len() - i,
    {
        let ghost before = out@;
        let ghost rest = all.skip(i as int);
        extend_chars(&mut out, sep);
        extend_chars(&mut out, &parts[i]);
        i += 1;
        assert(rest.skip(1) =~= all.skip(i as int));
        assert(rest[0] == parts@[i - 1]@);
        assert(out@ + join_rest(all.skip(i as int), sep@) =~= before + join_rest(rest, sep@));
    }
    assert(out@ + Seq::<char>::empty() =~= out@);
    out
}

/// Counts the occurrences of `c` in `s`.
pub fn count_char(s: &Vec<char>, c: char) -> (r: usize)
    ensures
        r == count_of(s@, c),
{
    let mut n: usize = 0;
    let mut i: usize = 0;
    assert(s@.take(0) =~= Seq::<char>::empty());
    while i < s.len()
        invariant
            i <= s.len(),
            n <= i,
            n == count_of(s@.take(i as int), c),
        decreases s.len() - i,
    {
        assert(s@.take(i + 1).drop_last() =~= s@.take(i as int));
        if s[i] == c {
            n += 1;
        }
        i += 1;
    }
    assert(s@.take(s.len() as int) =~= s@);
    n
}

/// Tells whether `c` is white space.
pub fn is_space_char(c: char) -> (r: bool)
    ensures
        r == is_space(c),
{
    let n: u32 = c as u32;
    (0x9 <= n && n <= 0xd) || n == 0x20 || n == 0x85 || n == 0xa0 || n == 0x1680 || (0x2000 <= n
        && n <= 0x200a) || n == 0x2028 || n == 0x2029 || n == 0x202f || n == 0x205f || n == 0x3000
}

/// The words of `s`: its maximal runs of characters that are not white space.
pub fn split_words(s: &Vec<char>) -> (r: Vec<Vec<char>>)
    ensures
        char_views(r@) == words(s@),
{
    let mut out: Vec<Vec<char>> = Vec::new();
    let mut cur: Vec<char> = Vec::new();
    let mut i: usize = 0;
    assert(s@.skip(0) =~= s@);
    assert(char_views(out@) + words_from(s@, cur@) =~= words(s@));
    while i < s.len()
        invariant
            i <= s.len(),
            char_views(out@) + words_from(s@.skip(i as int), cur@) == words(s@),
        decreases s.len() - i,
    {
        let ghost rest = s@.skip(i as int);
        let ghost before = char_views(out@);
        let ghost cur0 = cur@;
        assert(rest.skip(1) =~= s@.skip(i + 1));
        if is_space_char(s[i]) {
            if cur.len() > 0 {
                out.push(cur);
                cur = Vec::new();
                assert(char_views(out@) =~= before + seq![cur0]);
            }
            assert(char_views(out@) =~= before + word_done(cur0));
            assert(cur@ =~= Seq::<char>::empty());
            assert(rest[0] == s@[i as int]);
            assert(char_views(out@) + words_from(s@.skip(i + 1), cur@) =~= before + words_from(
                rest,
                cur0,
            ));
        } else {
            cur.push(s[i]);
        }
        i += 1;
    }
    let ghost before = char_views(out@);
    let ghost cur0 = cur@;
    if cur.len() > 0 {
        out.push(cur);
        assert(char_views(out@) =~= before + seq![cur0]);
    }
    assert(char_views(out@) =~= before + word_done(cur0));
    out
}

/// Appends `n` copies of `c` to `out`.
pub fn push_repeated(out: &mut Vec<char>, c: char, n: u128)
    ensures
        final(out)@ == old(out)@ + repeated(c, n as nat),
{
    let mut i: u128 = 0;
    assert(out@ =~= old(out)@ + repeated(c, 0));
    while i < n
        invariant
            i <= n,
            out@ == old(out)@ + repeated(c, i as nat),
        decreases n - i,
    {
        out.push(c);
        i += 1;
        assert(out@ =~= old(out)@ + repeated(c, i as nat));
    }
}

/// `inner` between the characters `left` and `right`.
pub open spec fn framed(left: char, inner: Seq<char>, right: char) -> Seq<char> {
    seq![left] + inner + seq![right]
}

/// `s`, centred in a field of `width` characters, between `left` and `right`.
pub fn framed_centered(left: char, s: &Vec<char>, width: u128, right: char) -> (out: Vec<char>)
    ensures
        out@ == framed(left, centered(s@, width as nat), right),
{
    let mut out: Vec<char> = Vec::new();
    out.push(left);
    let n: u128 = s.len() as u128;
    if n >= width {
        extend_chars(&mut out, s);
    } else {
        let pad: u128 = width - n;
        let half: u128 = pad / 2;
        push_repeated(&mut out, ' ', half);
        extend_chars(&mut out, s);
        push_repeated(&mut out, ' ', pad - half);
    }
    out.push(right);
    assert(out@ =~= framed(left, centered(s@, width as nat), right));
    out
}

/// `width` copies of `fill` between `left` and `right`.
pub fn framed_rule(left: char, fill: char, width: u128, right: char) -> (out: Vec<char>)
    ensures
        out@ == framed(left, repeated(fill, width as nat), right),
{
    let mut out: Vec<char> = Vec::new();
    out.push(left);
    push_repeated(&mut out, fill, width);
    out.push(right);
    assert(out@ =~= framed(left, repeated(fill, width as nat), right));
    out
}

} // verus!
