//! A model of file system paths as component lists.
//!
//! A path is a string whose components are separated by `/`.  Its view is
//! the sequence of non-empty components other than `.`, preceded by a root
//! marker component `/` when the path is absolute.  Rendering a view joins
//! the components with single separators, so paths that differ only in
//! repeated separators or `.` components share one view.

use vstd::prelude::*;

verus! {

/// The root marker component standing for the leading separator of an
/// absolute path.
pub open spec fn root_marker() -> Seq<char> {
    seq!['/']
}

/// A finished component: empty pieces and `.` pieces are dropped.
pub open spec fn close_component(cur: Seq<char>) -> Seq<Seq<char>> {
    if cur.len() == 0 || cur == seq!['.'] {
        seq![]
    } else {
        seq![cur]
    }
}

/// Splits the remainder `s` into components, with `cur` the piece read so
/// far of the component currently open.
pub open spec fn split_from(s: Seq<char>, cur: Seq<char>) -> Seq<Seq<char>>
    decreases s.len(),
{
    if s.len() == 0 {
        close_component(cur)
    } else if s[0] == '/' {
        close_component(cur) + split_from(s.drop_first(), Seq::empty())
    } else {
        split_from(s.drop_first(), cur.push(s[0]))
    }
}

/// The components of a path string, without any root marker.
pub open spec fn spec_components(s: Seq<char>) -> Seq<Seq<char>> {
    split_from(s, Seq::empty())
}

/// Whether a path string is absolute.
pub open spec fn spec_is_absolute(s: Seq<char>) -> bool {
    s.len() > 0 && s[0] == '/'
}

/// The view of a path string: a root marker when absolute, then the
/// components.
pub open spec fn spec_path_view(s: Seq<char>) -> Seq<Seq<char>> {
    if spec_is_absolute(s) {
        seq![root_marker()] + spec_components(s)
    } else {
        spec_components(s)
    }
}

/// Joins components with `/`, without a leading separator.
pub open spec fn join_comps(v: Seq<Seq<char>>) -> Seq<char>
    decreases v.len(),
{
    if v.len() == 0 {
        Seq::empty()
    } else if v.len() == 1 {
        v[0]
    } else {
        join_comps(v.drop_last()) + seq!['/'] + v.last()
    }
}

/// Renders a view back to a path string: a leading separator when the view
/// starts with the root marker, then the components joined with `/`.
pub open spec fn render_view(v: Seq<Seq<char>>) -> Seq<char> {
    if v.len() > 0 && v[0] == root_marker() {
        seq!['/'] + join_comps(v.drop_first())
    } else {
        join_comps(v)
    }
}

/// Whether `a` is a component-wise prefix of `b`.
pub open spec fn is_comp_prefix(a: Seq<Seq<char>>, b: Seq<Seq<char>>) -> bool {
    a.len() <= b.len() && a == b.take(a.len() as int)
}

/// Splits a path string into its absoluteness flag and its components.
pub fn split_path(s: &str) -> (r: (bool, Vec<String>))
    ensures
        r.0 == spec_is_absolute(s@),
        r.1.deep_view() == spec_components(s@),
{
    let n = s.unicode_len();
    let absolute = n > 0 && s.get_char(0) == '/';
    let mut comps: Vec<String> = Vec::new();
    let mut start: usize = 0;
    let mut i: usize = 0;
    proof {
        assert(s@.skip(0) =~= s@);
        assert(s@.subrange(0, 0) =~= Seq::<char>::empty());
        assert(comps.deep_view() + split_from(s@, Seq::empty()) =~~= split_from(
            s@,
            Seq::empty(),
        ));
    }
    while i < n
        invariant
            n == s@.len(),
            start <= i <= n,
            spec_components(s@) == comps.deep_view() + split_from(
                s@.skip(i as int),
                s@.subrange(start as int, i as int),
            ),
        decreases n - i,
    {
        if s.get_char(i) == '/' {
            proof {
                assert(s@.skip(i as int)[0] == s@[i as int]);
                assert(s@.skip(i as int).drop_first() =~= s@.skip(i + 1));
            }
            push_closed(&mut comps, s, start, i);
            start = i + 1;
            proof {
                assert(s@.subrange(start as int, i + 1) =~= Seq::<char>::empty());
            }
        } else {
            proof {
                assert(s@.skip(i as int)[0] == s@[i as int]);
                assert(s@.skip(i as int).drop_first() =~= s@.skip(i + 1));
                assert(s@.subrange(start as int, i as int).push(s@[i as int]) =~= s@.subrange(
                    start as int,
                    i + 1,
                ));
            }
        }
        i += 1;
    }
    proof {
        assert(s@.skip(n as int) =~= Seq::<char>::empty());
    }
    push_closed(&mut comps, s, start, n);
    (absolute, comps)
}

/// Appends the piece `s[start..end]` as a component unless it closes to
/// nothing.
fn push_closed(comps: &mut Vec<String>, s: &str, start: usize, end: usize)
    requires
        start <= end <= s@.len(),
    ensures
        final(comps).deep_view() == old(comps).deep_view() + close_component(
            s@.subrange(start as int, end as int),
        ),
{
    if start == end {
        proof {
            assert(s@.subrange(start as int, end as int) =~= Seq::<char>::empty());
            assert(comps.deep_view() =~= old(comps).deep_view() + close_component(
                s@.subrange(start as int, end as int),
            ));
        }
        return ;
    }
    let piece = s.substring_char(start, end);
    if end == start + 1 && piece.get_char(0) == '.' {
        proof {
            assert(s@.subrange(start as int, end as int) =~= seq!['.']);
            assert(comps.deep_view() =~= old(comps).deep_view() + close_component(
                s@.subrange(start as int, end as int),
            ));
        }
        return ;
    }
    comps.push(piece.to_owned());
    proof {
        let piece_view = s@.subrange(start as int, end as int);
        assert(piece_view.len() > 0);
        assert(piece_view == seq!['.'] ==> piece_view.len() == 1 && piece_view[0] == '.');
        assert(comps.deep_view() =~= old(comps).deep_view() + close_component(piece_view));
    }
}

/// The view of a path string, as a vector: a root marker component when
/// absolute, then the components.
pub fn path_view(s: &str) -> (r: Vec<String>)
    ensures
        r.deep_view() == spec_path_view(s@),
{
    let (absolute, comps) = split_path(s);
    if absolute {
        proof {
            reveal_strlit("/");
        }
        let mut v: Vec<String> = Vec::new();
        v.push(String::from_str("/"));
        let mut rest = comps;
        v.append(&mut rest);
        proof {
            assert(("/")@ =~= root_marker());
            assert(v.deep_view() =~~= spec_path_view(s@));
        }
        v
    } else {
        comps
    }
}

/// Joins components with `/`, without a leading separator.
pub fn join_components(v: &Vec<String>) -> (r: String)
    ensures
        r@ == join_comps(v.deep_view()),
{
    proof {
        reveal_strlit("/");
    }
    let mut s = String::new();
    let mut i: usize = 0;
    while i < v.len()
        invariant
            i <= v.len(),
            s@ == join_comps(v.deep_view().take(i as int)),
        decreases v.len() - i,
    {
        if i > 0 {
            s.append("/");
        }
        s.append(v[i].as_str());
        proof {
            reveal_strlit("/");
            assert(v.deep_view()[i as int] == v@[i as int]@);
            lemma_join_take_step(v.deep_view(), i as int);
            assert(("/")@ =~= seq!['/']);
        }
        i += 1;
    }
    proof {
        assert(v.deep_view().take(v.deep_view().len() as int) =~= v.deep_view());
    }
    s
}

/// Joining one more component appends a separator and the component,
/// except for the first component.
proof fn lemma_join_take_step(v: Seq<Seq<char>>, i: int)
    requires
        0 <= i < v.len(),
    ensures
        i == 0 ==> join_comps(v.take(i + 1)) == v[0],
        i > 0 ==> join_comps(v.take(i + 1)) == join_comps(v.take(i)) + seq!['/'] + v[i],
{
    assert(v.take(i + 1).drop_last() =~= v.take(i));
    assert(v.take(i + 1).last() == v[i]);
    if i == 0 {
        assert(v.take(1)[0] == v[0]);
    }
}

/// Whether `a` is a component-wise prefix of `b`, comparing the strings.
pub fn check_comp_prefix(a: &Vec<String>, b: &Vec<String>) -> (r: bool)
    ensures
        r == is_comp_prefix(a.deep_view(), b.deep_view()),
{
    if a.len() > b.len() {
        proof {
            assert(!is_comp_prefix(a.deep_view(), b.deep_view()));
        }
        return false;
    }
    let mut i: usize = 0;
    while i < a.len()
        invariant
            i <= a.len() <= b.len(),
            a@.len() == a.deep_view().len(),
            b@.len() == b.deep_view().len(),
            forall|j: int| 0 <= j < i ==> a.deep_view()[j] == b.deep_view()[j],
        decreases a.len() - i,
    {
        if !equal_strings(&a[i], &b[i]) {
            proof {
                assert(b.deep_view().take(a.deep_view().len() as int)[i as int] == b.deep_view()[
                    i as int
                ]);
            }
            return false;
        }
        i += 1;
    }
    proof {
        assert(a.deep_view() =~= b.deep_view().take(a.deep_view().len() as int));
    }
    true
}

/// Whether two strings hold the same characters.
pub fn equal_strings(a: &String, b: &String) -> (r: bool)
    ensures
        r == (a@ == b@),
{
    a.eq(b)
}

/// Whether a component holds no separator character.
pub open spec fn no_slash(c: Seq<char>) -> bool {
    forall|i: int| 0 <= i < c.len() ==> c[i] != '/'
}

/// Every component produced by splitting is non-empty and holds no
/// separator; in particular no component is the root marker.
pub proof fn lemma_split_components_clean(s: Seq<char>, cur: Seq<char>)
    requires
        no_slash(cur),
    ensures
        forall|k: int|
            0 <= k < split_from(s, cur).len() ==> (#[trigger] split_from(s, cur)[k]).len() > 0
                && no_slash(split_from(s, cur)[k]),
    decreases s.len(),
{
    if s.len() == 0 {
        assert(split_from(s, cur) == close_component(cur));
        if !(cur.len() == 0 || cur == seq!['.']) {
            assert(split_from(s, cur)[0] == cur);
        }
    } else if s[0] == '/' {
        lemma_split_components_clean(s.drop_first(), Seq::empty());
        assert forall|k: int| 0 <= k < split_from(s, cur).len() implies (#[trigger] split_from(
            s,
            cur,
        )[k]).len() > 0 && no_slash(split_from(s, cur)[k]) by {
            if k >= close_component(cur).len() {
                assert(split_from(s, cur)[k] == split_from(s.drop_first(), Seq::empty())[
                    k - close_component(cur).len()
                ]);
            } else {
                assert(split_from(s, cur)[k] == close_component(cur)[k]);
                assert(close_component(cur)[k] == cur);
            }
        }
    } else {
        assert(no_slash(cur.push(s[0])));
        lemma_split_components_clean(s.drop_first(), cur.push(s[0]));
        assert(split_from(s, cur) == split_from(s.drop_first(), cur.push(s[0])));
    }
}

/// No component of a path is the root marker.
pub proof fn lemma_components_not_marker(s: Seq<char>)
    ensures
        forall|k: int|
            0 <= k < spec_components(s).len() ==> #[trigger] spec_components(s)[k]
                != root_marker(),
{
    lemma_split_components_clean(s, Seq::empty());
    assert forall|k: int| 0 <= k < spec_components(s).len() implies #[trigger] spec_components(
        s,
    )[k] != root_marker() by {
        assert(no_slash(spec_components(s)[k]));
        assert(root_marker()[0] == '/');
    }
}

/// Whether a character is a decimal digit.
pub open spec fn spec_is_digit(c: char) -> bool {
    '0' <= c && c <= '9'
}

/// Whether a string is purely numeric: non-empty and all decimal digits.
pub open spec fn spec_numeric(s: Seq<char>) -> bool {
    s.len() > 0 && forall|i: int| 0 <= i < s.len() ==> spec_is_digit(s[i])
}

/// Whether a string is purely numeric.
pub fn is_numeric(s: &String) -> (r: bool)
    ensures
        r == spec_numeric(s@),
{
    let n = s.as_str().unicode_len();
    if n == 0 {
        return false;
    }
    let mut i: usize = 0;
    while i < n
        invariant
            i <= n,
            n == s@.len(),
            forall|j: int| 0 <= j < i ==> spec_is_digit(s@[j]),
        decreases n - i,
    {
        let c = s.as_str().get_char(i);
        if c < '0' || c > '9' {
            return false;
        }
        i += 1;
    }
    true
}

/// The extension of a file name: what follows the last `.`, provided that
/// `.` is not the leading character.  A name without such a dot has no
/// extension; a name ending in a dot has an empty one.
pub open spec fn spec_name_extension(c: Seq<char>) -> Option<Seq<char>>
    decreases c.len(),
{
    if c.len() <= 1 {
        None
    } else if c.last() == '.' {
        Some(Seq::empty())
    } else {
        match spec_name_extension(c.drop_last()) {
            Some(e) => Some(e.push(c.last())),
            None => None,
        }
    }
}

/// When position `j` holds the last dot of the name and is not leading,
/// the extension is everything after it.
proof fn lemma_extension_found(c: Seq<char>, j: int)
    requires
        1 <= j < c.len(),
        c[j] == '.',
        forall|k: int| j < k < c.len() ==> c[k] != '.',
    ensures
        spec_name_extension(c) == Some(c.skip(j + 1)),
    decreases c.len(),
{
    if j == c.len() - 1 {
        assert(c.skip(j + 1) =~= Seq::<char>::empty());
    } else {
        let d = c.drop_last();
        lemma_extension_found(d, j);
        assert(d.skip(j + 1).push(c.last()) =~= c.skip(j + 1));
    }
}

/// A name whose non-leading positions hold no dot has no extension.
proof fn lemma_extension_none(c: Seq<char>)
    requires
        forall|k: int| 1 <= k < c.len() ==> c[k] != '.',
    ensures
        spec_name_extension(c) is None,
    decreases c.len(),
{
    if c.len() > 1 {
        lemma_extension_none(c.drop_last());
    }
}

/// The extension of a file name, as a string.
pub fn name_extension(name: &str) -> (r: Option<String>)
    ensures
        r is Some <==> spec_name_extension(name@) is Some,
        r matches Some(e) ==> spec_name_extension(name@) == Some(e@),
{
    let n = name.unicode_len();
    if n < 2 {
        proof {
            lemma_extension_none(name@);
        }
        return None;
    }
    let mut j: usize = n - 1;
    loop
        invariant
            1 <= j <= n - 1,
            n == name@.len(),
            n >= 2,
            forall|k: int| j < k < n ==> name@[k] != '.',
        decreases j,
    {
        if name.get_char(j) == '.' {
            proof {
                lemma_extension_found(name@, j as int);
            }
            let e = name.substring_char(j + 1, n);
            return Some(e.to_owned());
        }
        if j == 1 {
            proof {
                lemma_extension_none(name@);
            }
            return None;
        }
        j -= 1;
    }
}

/// The ASCII-lowercase counterpart of a character: letters `A` through `Z`
/// map to their lowercase forms, every other character is unchanged.
pub open spec fn lower_char(c: char) -> char {
    if c == 'A' {
        'a'
    } else if c == 'B' {
        'b'
    } else if c == 'C' {
        'c'
    } else if c == 'D' {
        'd'
    } else if c == 'E' {
        'e'
    } else if c == 'F' {
        'f'
    } else if c == 'G' {
        'g'
    } else if c == 'H' {
        'h'
    } else if c == 'I' {
        'i'
    } else if c == 'J' {
        'j'
    } else if c == 'K' {
        'k'
    } else if c == 'L' {
        'l'
    } else if c == 'M' {
        'm'
    } else if c == 'N' {
        'n'
    } else if c == 'O' {
        'o'
    } else if c == 'P' {
        'p'
    } else if c == 'Q' {
        'q'
    } else if c == 'R' {
        'r'
    } else if c == 'S' {
        's'
    } else if c == 'T' {
        't'
    } else if c == 'U' {
        'u'
    } else if c == 'V' {
        'v'
    } else if c == 'W' {
        'w'
    } else if c == 'X' {
        'x'
    } else if c == 'Y' {
        'y'
    } else if c == 'Z' {
        'z'
    } else {
        c
    }
}

/// The ASCII-lowercase counterpart of a string.
pub open spec fn spec_ascii_lowercase(s: Seq<char>) -> Seq<char> {
    s.map_values(|c: char| lower_char(c))
}

/// One lowercase letter as a string slice, for an ASCII uppercase letter.
fn lower_letter_str(c: char) -> (r: &'static str)
    requires
        'A' <= c && c <= 'Z',
    ensures
        r@ == seq![lower_char(c)],
{
    proof {
        reveal_strlit("a");
        reveal_strlit("b");
        reveal_strlit("c");
        reveal_strlit("d");
        reveal_strlit("e");
        reveal_strlit("f");
        reveal_strlit("g");
        reveal_strlit("h");
        reveal_strlit("i");
        reveal_strlit("j");
        reveal_strlit("k");
        reveal_strlit("l");
        reveal_strlit("m");
        reveal_strlit("n");
        reveal_strlit("o");
        reveal_strlit("p");
        reveal_strlit("q");
        reveal_strlit("r");
        reveal_strlit("s");
        reveal_strlit("t");
        reveal_strlit("u");
        reveal_strlit("v");
        reveal_strlit("w");
        reveal_strlit("x");
        reveal_strlit("y");
        reveal_strlit("z");
    }
    match c {
        'A' => "a",
        'B' => "b",
        'C' => "c",
        'D' => "d",
        'E' => "e",
        'F' => "f",
        'G' => "g",
        'H' => "h",
        'I' => "i",
        'J' => "j",
        'K' => "k",
        'L' => "l",
        'M' => "m",
        'N' => "n",
        'O' => "o",
        'P' => "p",
        'Q' => "q",
        'R' => "r",
        'S' => "s",
        'T' => "t",
        'U' => "u",
        'V' => "v",
        'W' => "w",
        'X' => "x",
        'Y' => "y",
        _ => "z",
    }
}

/// The ASCII-lowercase counterpart of a string: letters `A` through `Z`
/// are mapped to their lowercase forms, every other character is copied.
pub fn ascii_lowercase(s: &str) -> (r: String)
    ensures
        r@ == spec_ascii_lowercase(s@),
{
    let n = s.unicode_len();
    let mut out = String::new();
    let mut i: usize = 0;
    proof {
        assert(out@ =~= s@.take(0).map_values(|c: char| lower_char(c)));
    }
    while i < n
        invariant
            i <= n,
            n == s@.len(),
            out@ == s@.take(i as int).map_values(|c: char| lower_char(c)),
        decreases n - i,
    {
        let c = s.get_char(i);
        if 'A' <= c && c <= 'Z' {
            out.append(lower_letter_str(c));
        } else {
            out.append(s.substring_char(i, i + 1));
            proof {
                assert(s@.subrange(i as int, i + 1) =~= seq![s@[i as int]]);
            }
        }
        proof {
            assert(s@.take(i + 1).map_values(|k: char| lower_char(k)) =~= s@.take(
                i as int,
            ).map_values(|k: char| lower_char(k)).push(lower_char(s@[i as int])));
        }
        i += 1;
    }
    proof {
        assert(s@.take(n as int) =~= s@);
    }
    out
}

} // verus!
