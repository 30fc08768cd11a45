//! General helpers: trimming one character at an end of a string, file-name
//! pieces of a path, and reading `--key=value` options off a command line.

use vstd::prelude::*;
use crate::foreign::{regex_erase_first, regex_erase_first_match, is_regex_meta, string_push};
use crate::text::{chars_of, string_of, owned, str_eq};

verus! {

/// The pattern that matches the character `c` literally: `c` itself, or
/// `\\c` when `c` is a regex meta character.
pub open spec fn escaped(c: char) -> Seq<char> {
    if is_regex_meta(c) { seq!['\\', c] } else { seq![c] }
}

/// The pattern that matches `c` at the end of a text.
pub open spec fn trailing_pattern(c: char) -> Seq<char> {
    escaped(c) + seq!['$']
}

/// The pattern that matches `c` at the start of a text.
pub open spec fn leading_pattern(c: char) -> Seq<char> {
    seq!['^'] + escaped(c)
}

/// `s` without its last character when that character is `c`.
pub open spec fn strip_last(s: Seq<char>, c: char) -> Seq<char> {
    if s.len() > 0 && s.last() == c { s.drop_last() } else { s }
}

/// `s` without its first character when that character is `c`.
pub open spec fn strip_first(s: Seq<char>, c: char) -> Seq<char> {
    if s.len() > 0 && s[0] == c { s.drop_first() } else { s }
}

/// The pattern that matches `c` literally, at the end of a text.
fn trailing_pattern_of(c: char) -> (r: String)
    ensures
        r@ == trailing_pattern(c),
{
    let mut r = String::new();
    if c == '\\' || c == '.' || c == '+' || c == '*' || c == '?' || c == '(' || c == ')' || c == '|'
        || c == '[' || c == ']' || c == '{' || c == '}' || c == '^' || c == '$' || c == '#'
        || c == '&' || c == '-' || c == '~' {
        string_push(&mut r, '\\');
    }
    string_push(&mut r, c);
    string_push(&mut r, '$');
    assert(r@ =~= trailing_pattern(c));
    r
}

/// The pattern that matches `c` literally, at the start of a text.
fn leading_pattern_of(c: char) -> (r: String)
    ensures
        r@ == leading_pattern(c),
{
    let mut r = String::new();
    string_push(&mut r, '^');
    if c == '\\' || c == '.' || c == '+' || c == '*' || c == '?' || c == '(' || c == ')' || c == '|'
        || c == '[' || c == ']' || c == '{' || c == '}' || c == '^' || c == '$' || c == '#'
        || c == '&' || c == '-' || c == '~' {
        string_push(&mut r, '\\');
    }
    string_push(&mut r, c);
    assert(r@ =~= leading_pattern(c));
    r
}

/// Strips `char` from the end of `str`: removes one `char` at the end, when
/// there is one, through the regular expression that matches `char`
/// literally at the end of a text.
///
/// ```text
/// rtrim_char("http://localhost/osm/", '/') == "http://localhost/osm"
/// rtrim_char("http://localhost/osm", '/') == "http://localhost/osm"
/// ```
pub fn rtrim_char(str: &String, char: char) -> (r: String)
    ensures
        r@ == strip_last(str@, char),
        regex_erase_first(trailing_pattern(char), str@) == Some(r@),
{
    let pattern = trailing_pattern_of(char);
    match regex_erase_first_match(pattern.as_str(), str.as_str()) {
        Some(s) => s,
        None => {
            assert(false);
            String::new()
        },
    }
}

/// Strips `char` from the start of `str`: removes one `char` at the start,
/// when there is one, through the regular expression that matches `char`
/// literally at the start of a text.
pub fn ltrim_char(str: &String, char: char) -> (r: String)
    ensures
        r@ == strip_first(str@, char),
        regex_erase_first(leading_pattern(char), str@) == Some(r@),
{
    let pattern = leading_pattern_of(char);
    match regex_erase_first_match(pattern.as_str(), str.as_str()) {
        Some(s) => s,
        None => {
            assert(false);
            String::new()
        },
    }
}

/// `rtrim_char` with `/`.
pub fn rtrim_slash(str: &String) -> (r: String)
    ensures
        r@ == strip_last(str@, '/'),
{
    rtrim_char(str, '/')
}

/// `ltrim_char` with `/`.
pub fn ltrim_slash(str: &String) -> (r: String)
    ensures
        r@ == strip_first(str@, '/'),
{
    ltrim_char(str, '/')
}

/// Position of the last `c` in `s`, `-1` when there is none.
pub open spec fn last_index_of(s: Seq<char>, c: char) -> int
    decreases s.len(),
{
    if s.len() == 0 {
        -1
    } else if s.last() == c {
        s.len() - 1
    } else {
        last_index_of(s.drop_last(), c)
    }
}

/// Position of the first `c` in `s`, `-1` when there is none.
pub open spec fn first_index_of(s: Seq<char>, c: char) -> int
    decreases s.len(),
{
    if s.len() == 0 {
        -1
    } else if s[0] == c {
        0
    } else {
        let i = first_index_of(s.drop_first(), c);
        if i < 0 { -1 } else { i + 1 }
    }
}

pub proof fn lemma_last_index_of(s: Seq<char>, c: char)
    ensures
        -1 <= last_index_of(s, c) < s.len(),
        last_index_of(s, c) >= 0 ==> s[last_index_of(s, c)] == c,
        forall|k: int| last_index_of(s, c) < k < s.len() ==> s[k] != c,
    decreases s.len(),
{
    if s.len() > 0 && s.last() != c {
        lemma_last_index_of(s.drop_last(), c);
        assert forall|k: int| last_index_of(s, c) < k < s.len() implies s[k] != c by {
            if k < s.len() - 1 {
                assert(s[k] == s.drop_last()[k]);
            }
        }
    }
}

pub proof fn lemma_first_index_of(s: Seq<char>, c: char)
    ensures
        -1 <= first_index_of(s, c) < s.len(),
        first_index_of(s, c) >= 0 ==> s[first_index_of(s, c)] == c,
        forall|k: int| 0 <= k < s.len() && (first_index_of(s, c) < 0 || k < first_index_of(s, c))
            ==> s[k] != c,
    decreases s.len(),
{
    if s.len() > 0 && s[0] != c {
        lemma_first_index_of(s.drop_first(), c);
        assert forall|k: int| 0 <= k < s.len() && (first_index_of(s, c) < 0 || k < first_index_of(s, c))
            implies s[k] != c by {
            if k > 0 {
                assert(s[k] == s.drop_first()[k - 1]);
            }
        }
    }
}

/// Position of the last `c` in `v`, `None` when there is none.
pub fn last_index_exec(v: &Vec<char>, c: char) -> (r: Option<usize>)
    ensures
        match r {
            Some(i) => i as int == last_index_of(v@, c),
            None => last_index_of(v@, c) == -1,
        },
{
    proof { lemma_last_index_of(v@, c); }
    let mut i: usize = v.len();
    assert(v@.take(i as int) =~= v@);
    while i > 0
        invariant
            i <= v.len(),
            last_index_of(v@.take(i as int), c) == last_index_of(v@, c),
        decreases i,
    {
        if v[i - 1] == c {
            assert(v@.take(i as int).last() == c);
            return Some(i - 1);
        }
        assert(v@.take(i as int).drop_last() =~= v@.take(i - 1));
        i = i - 1;
    }
    None
}

/// Position of the first `c` in `v`, `None` when there is none.
pub fn first_index_exec(v: &Vec<char>, c: char) -> (r: Option<usize>)
    ensures
        match r {
            Some(i) => i as int == first_index_of(v@, c),
            None => first_index_of(v@, c) == -1,
        },
{
    let mut i: usize = 0;
    while i < v.len()
        invariant
            i <= v.len(),
            forall|k: int| 0 <= k < i ==> v@[k] != c,
        decreases v.len() - i,
    {
        if v[i] == c {
            proof {
                lemma_first_index_of(v@, c);
                let f = first_index_of(v@, c);
                assert(v@[i as int] == c);
                if f < 0 || i < f {
                    assert(v@[i as int] != c);
                }
                if f < i {
                    assert(v@[f] == c);
                    assert(v@[f] != c);
                }
            }
            return Some(i);
        }
        i = i + 1;
    }
    proof {
        lemma_first_index_of(v@, c);
        let f = first_index_of(v@, c);
        if f >= 0 {
            assert(v@[f] == c);
        }
    }
    None
}

/// The characters of `v` from `from` up to `to`.
pub fn subvec(v: &Vec<char>, from: usize, to: usize) -> (r: Vec<char>)
    requires
        from <= to <= v.len(),
    ensures
        r@ == v@.subrange(from as int, to as int),
{
    let mut r: Vec<char> = Vec::new();
    let mut i: usize = from;
    while i < to
        invariant
            from <= i <= to <= v.len(),
            r@ == v@.subrange(from as int, i as int),
        decreases to - i,
    {
        r.push(v[i]);
        assert(v@.subrange(from as int, i + 1) =~= v@.subrange(from as int, i as int).push(v@[i as int]));
        i = i + 1;
    }
    r
}

/// The file name of a path: what follows its last `/`.
pub open spec fn file_name_of(path: Seq<char>) -> Seq<char> {
    path.skip(last_index_of(path, '/') + 1)
}

/// The extension of a path: what follows the last `.` of its file name, when
/// that `.` is not the first character of the name; empty otherwise.
pub open spec fn extension_of(path: Seq<char>) -> Seq<char> {
    let name = file_name_of(path);
    let i = last_index_of(name, '.');
    if i > 0 { name.skip(i + 1) } else { Seq::empty() }
}

/// A file name without its extension and the `.` before it.
pub open spec fn without_extension(name: Seq<char>) -> Seq<char> {
    let i = last_index_of(name, '.');
    if i > 0 { name.take(i) } else { name }
}

/// The file name of a path: what follows its last `/`.
pub fn get_file_name(path: &str) -> (r: String)
    ensures
        r@ == file_name_of(path@),
{
    let v = chars_of(path);
    proof { lemma_last_index_of(v@, '/'); }
    let start: usize = match last_index_exec(&v, '/') {
        Some(i) => i + 1,
        None => 0,
    };
    let r = subvec(&v, start, v.len());
    assert(r@ =~= file_name_of(path@));
    string_of(&r)
}

/// The extension of a path, empty when its file name has none.
pub fn get_extension(path: &str) -> (r: String)
    ensures
        r@ == extension_of(path@),
{
    let name = get_file_name(path);
    let v = chars_of(name.as_str());
    proof {
        lemma_last_index_of(path@, '/');
        lemma_last_index_of(v@, '.');
    }
    match last_index_exec(&v, '.') {
        Some(i) if i > 0 => {
            let r = subvec(&v, i + 1, v.len());
            assert(r@ =~= extension_of(path@));
            string_of(&r)
        },
        _ => String::new(),
    }
}

/// A file name without its extension and the `.` before it.
pub fn remove_extension(name: &str) -> (r: String)
    ensures
        r@ == without_extension(name@),
{
    let v = chars_of(name);
    proof { lemma_last_index_of(v@, '.'); }
    match last_index_exec(&v, '.') {
        Some(i) if i > 0 => {
            let r = subvec(&v, 0, i);
            assert(r@ =~= without_extension(name@));
            string_of(&r)
        },
        _ => owned(name),
    }
}

/// A connection to an Elastic search server: the URL of its index.
pub struct Elastic {
    pub url: String,
}

impl Clone for Elastic {
    fn clone(&self) -> (r: Self)
        ensures
            r.url@ == self.url@,
    {
        Elastic { url: self.url.clone() }
    }
}

/// The option named by a command-line argument, with its value: `--key=value`
/// and `-key=value` give `(key, value)`, `--key` and `-key` give `(key, "")`.
/// Other arguments name no option.
pub open spec fn option_of(arg: Seq<char>) -> Option<(Seq<char>, Seq<char>)> {
    if arg.len() >= 2 && arg[0] == '-' {
        let body = if arg[1] == '-' { arg.skip(2) } else { arg.skip(1) };
        let eq = first_index_of(body, '=');
        if eq >= 0 {
            Some((body.take(eq), body.skip(eq + 1)))
        } else {
            Some((body, Seq::empty()))
        }
    } else {
        None
    }
}

/// Position of the option named `k` in `o`, `-1` when there is none.
pub open spec fn key_index(o: Seq<(Seq<char>, Seq<char>)>, k: Seq<char>) -> int
    decreases o.len(),
{
    if o.len() == 0 {
        -1
    } else if o.last().0 == k {
        o.len() - 1
    } else {
        key_index(o.drop_last(), k)
    }
}

/// `o` where the option named `k` takes the value `v`: replaced in place
/// when `k` is there, added at the end otherwise.
pub open spec fn insert_option(o: Seq<(Seq<char>, Seq<char>)>, k: Seq<char>, v: Seq<char>) -> Seq<(Seq<char>, Seq<char>)> {
    let i = key_index(o, k);
    if i >= 0 { o.update(i, (k, v)) } else { o.push((k, v)) }
}

/// The options of a command line, read from left to right; a later value
/// of an option replaces an earlier one.
pub open spec fn options_of(args: Seq<Seq<char>>) -> Seq<(Seq<char>, Seq<char>)>
    decreases args.len(),
{
    if args.len() == 0 {
        Seq::empty()
    } else {
        let prev = options_of(args.drop_last());
        match option_of(args.last()) {
            Some(kv) => insert_option(prev, kv.0, kv.1),
            None => prev,
        }
    }
}

/// The character sequences of a list of options.
pub open spec fn option_views(o: Seq<(String, String)>) -> Seq<(Seq<char>, Seq<char>)> {
    o.map_values(|p: (String, String)| (p.0@, p.1@))
}

pub proof fn lemma_key_index(o: Seq<(Seq<char>, Seq<char>)>, k: Seq<char>)
    ensures
        -1 <= key_index(o, k) < o.len(),
        key_index(o, k) >= 0 ==> o[key_index(o, k)].0 == k,
        key_index(o, k) < 0 ==> forall|j: int| 0 <= j < o.len() ==> o[j].0 != k,
        forall|j: int| key_index(o, k) < j < o.len() ==> o[j].0 != k,
    decreases o.len(),
{
    if o.len() > 0 && o.last().0 != k {
        lemma_key_index(o.drop_last(), k);
        assert forall|j: int| key_index(o, k) < j < o.len() implies o[j].0 != k by {
            if j < o.len() - 1 {
                assert(o[j] == o.drop_last()[j]);
            }
        }
        if key_index(o, k) < 0 {
            assert forall|j: int| 0 <= j < o.len() implies o[j].0 != k by {
                if j < o.len() - 1 {
                    assert(o[j] == o.drop_last()[j]);
                }
            }
        }
    }
}

/// The position `key_index` gives is the last one with the name.
pub proof fn lemma_key_index_last(o: Seq<(Seq<char>, Seq<char>)>, k: Seq<char>, i: int)
    requires
        0 <= i < o.len(),
        o[i].0 == k,
        forall|j: int| i < j < o.len() ==> o[j].0 != k,
    ensures
        key_index(o, k) == i,
    decreases o.len(),
{
    if i < o.len() - 1 {
        assert(o.last() == o[o.len() - 1]);
        assert forall|j: int| i < j < o.drop_last().len() implies o.drop_last()[j].0 != k by {
            assert(o.drop_last()[j] == o[j]);
        }
        lemma_key_index_last(o.drop_last(), k, i);
    }
}

/// Two lists of options whose names are the same at every position give
/// every name the same position.
pub proof fn lemma_key_index_same_names(o: Seq<(Seq<char>, Seq<char>)>, p: Seq<(Seq<char>, Seq<char>)>, k: Seq<char>)
    requires
        o.len() == p.len(),
        forall|j: int| 0 <= j < o.len() ==> (o[j].0 == k) == (p[j].0 == k),
    ensures
        key_index(o, k) == key_index(p, k),
    decreases o.len(),
{
    if o.len() > 0 {
        assert(o.last() == o[o.len() - 1] && p.last() == p[p.len() - 1]);
        if o.last().0 != k {
            assert forall|j: int| 0 <= j < o.drop_last().len() implies (o.drop_last()[j].0 == k) == (p.drop_last()[j].0 == k) by {
                assert(o.drop_last()[j] == o[j] && p.drop_last()[j] == p[j]);
            }
            lemma_key_index_same_names(o.drop_last(), p.drop_last(), k);
        }
    }
}

/// Setting an option gives it the value it was set to.
pub proof fn lemma_insert_sets(o: Seq<(Seq<char>, Seq<char>)>, k: Seq<char>, v: Seq<char>)
    ensures
        key_index(insert_option(o, k, v), k) >= 0,
        insert_option(o, k, v)[key_index(insert_option(o, k, v), k)] == (k, v),
{
    lemma_key_index(o, k);
    let n = insert_option(o, k, v);
    let i = key_index(o, k);
    if i >= 0 {
        assert forall|j: int| i < j < n.len() implies n[j].0 != k by {
            assert(n[j] == o[j]);
        }
        lemma_key_index_last(n, k, i);
    } else {
        assert(n.last() == (k, v));
    }
}

/// Setting an option: afterwards it has the value it was set to, and every
/// other option keeps its position and value.
pub proof fn law_insert_option(o: Seq<(Seq<char>, Seq<char>)>, k: Seq<char>, v: Seq<char>, other: Seq<char>)
    requires
        other != k,
    ensures
        key_index(insert_option(o, k, v), k) >= 0,
        insert_option(o, k, v)[key_index(insert_option(o, k, v), k)] == (k, v),
        key_index(insert_option(o, k, v), other) == key_index(o, other),
        key_index(o, other) >= 0 ==> insert_option(o, k, v)[key_index(o, other)] == o[key_index(o, other)],
{
    lemma_key_index(o, k);
    lemma_key_index(o, other);
    let n = insert_option(o, k, v);
    let i = key_index(o, k);
    if i >= 0 {
        assert forall|j: int| i < j < n.len() implies n[j].0 != k by {
            assert(n[j] == o[j]);
        }
        lemma_key_index_last(n, k, i);
        assert forall|j: int| 0 <= j < o.len() implies (o[j].0 == other) == (n[j].0 == other) by {
            if j != i {
                assert(n[j] == o[j]);
            }
        }
        lemma_key_index_same_names(o, n, other);
    } else {
        assert(n.last() == (k, v));
        assert(n.drop_last() =~= o);
    }
}

/// Every name occurs once among the options of a command line.
pub open spec fn names_unique(o: Seq<(Seq<char>, Seq<char>)>) -> bool {
    forall|i: int, j: int| 0 <= i < j < o.len() ==> o[i].0 != o[j].0
}

/// Setting an option keeps every name once.
pub proof fn lemma_insert_keeps_unique(o: Seq<(Seq<char>, Seq<char>)>, k: Seq<char>, v: Seq<char>)
    requires
        names_unique(o),
    ensures
        names_unique(insert_option(o, k, v)),
{
    lemma_key_index(o, k);
    let n = insert_option(o, k, v);
    let i = key_index(o, k);
    assert forall|a: int, b: int| 0 <= a < b < n.len() implies n[a].0 != n[b].0 by {
        if i >= 0 {
            if a != i && b != i {
                assert(n[a] == o[a] && n[b] == o[b]);
            } else if a == i {
                assert(n[b] == o[b]);
            } else {
                assert(n[a] == o[a]);
            }
        } else {
            if b < o.len() {
                assert(n[a] == o[a] && n[b] == o[b]);
            } else {
                assert(n[a] == o[a]);
            }
        }
    }
}

/// Every name occurs once among the options of a command line, and the
/// value of an option is that of its last occurrence on the line.
pub proof fn law_options_of(args: Seq<Seq<char>>)
    ensures
        names_unique(options_of(args)),
        args.len() > 0 ==> match option_of(args.last()) {
            Some(kv) => ({
                let o = options_of(args);
                key_index(o, kv.0) >= 0 && o[key_index(o, kv.0)] == kv
            }),
            None => options_of(args) == options_of(args.drop_last()),
        },
    decreases args.len(),
{
    if args.len() > 0 {
        law_options_of(args.drop_last());
        match option_of(args.last()) {
            Some(kv) => {
                lemma_insert_keeps_unique(options_of(args.drop_last()), kv.0, kv.1);
                lemma_insert_sets(options_of(args.drop_last()), kv.0, kv.1);
            },
            None => {},
        }
    }
}

/// Position of the option named `k` in `o`: the last one with that name.
pub fn option_key_index(o: &Vec<(String, String)>, k: &str) -> (r: Option<usize>)
    ensures
        match r {
            Some(i) => i as int == key_index(option_views(o@), k@) && i < o.len(),
            None => key_index(option_views(o@), k@) == -1,
        },
{
    let ghost ov = option_views(o@);
    let mut i: usize = o.len();
    assert(ov.take(i as int) =~= ov);
    while i > 0
        invariant
            i <= o.len(),
            ov == option_views(o@),
            key_index(ov.take(i as int), k@) == key_index(ov, k@),
        decreases i,
    {
        let ghost t = ov.take(i as int);
        if str_eq(o[i - 1].0.as_str(), k) {
            assert(t.last().0 == k@);
            return Some(i - 1);
        }
        assert(t.drop_last() =~= ov.take(i - 1));
        i = i - 1;
    }
    None
}

/// A copy of a list of options.
pub fn copy_options(o: &Vec<(String, String)>) -> (r: Vec<(String, String)>)
    ensures
        option_views(r@) == option_views(o@),
{
    let mut r: Vec<(String, String)> = Vec::new();
    let mut i: usize = 0;
    while i < o.len()
        invariant
            i <= o.len(),
            option_views(r@) == option_views(o@).take(i as int),
        decreases o.len() - i,
    {
        let k = o[i].0.clone();
        let v = o[i].1.clone();
        let ghost before = r@;
        r.push((k, v));
        assert(option_views(r@) =~= option_views(before).push((k@, v@)));
        assert(option_views(o@)[i as int] == (k@, v@));
        assert(option_views(r@) =~= option_views(o@).take(i + 1));
        i = i + 1;
    }
    assert(option_views(o@).take(i as int) =~= option_views(o@));
    r
}

/// Sets the option `key` to `value` in `o`: replaced in place when the
/// option is there, added at the end otherwise.
pub fn set_option(o: &mut Vec<(String, String)>, key: String, value: String)
    ensures
        option_views(final(o)@) == insert_option(option_views(old(o)@), key@, value@),
{
    let i = option_key_index(o, key.as_str());
    proof { lemma_key_index(option_views(o@), key@); }
    let ghost o0 = o@;
    match i {
        Some(i) => {
            o.set(i, (key, value));
            assert(option_views(o@) =~= option_views(o0).update(i as int, (key@, value@)));
        },
        None => {
            o.push((key, value));
            assert(option_views(o@) =~= option_views(o0).push((key@, value@)));
        },
    }
}

/// The options of a command line: every argument `--key=value`,
/// `-key=value`, `--key` or `-key`, read from left to right, a later value
/// of an option replacing an earlier one.
pub fn parse_command_option(args: &Vec<String>) -> (r: Vec<(String, String)>)
    ensures
        option_views(r@) == options_of(crate::text::views(args@)),
        names_unique(option_views(r@)),
{
    proof { law_options_of(crate::text::views(args@)); }
    let ghost a = crate::text::views(args@);
    let mut r: Vec<(String, String)> = Vec::new();
    let mut i: usize = 0;
    assert(a.take(0) =~= Seq::<Seq<char>>::empty());
    while i < args.len()
        invariant
            i <= args.len(),
            a == crate::text::views(args@),
            option_views(r@) == options_of(a.take(i as int)),
        decreases args.len() - i,
    {
        let v = chars_of(args[i].as_str());
        let ghost arg = a[i as int];
        assert(a.take(i + 1).drop_last() =~= a.take(i as int));
        assert(a.take(i + 1).last() == arg);
        if v.len() >= 2 && v[0] == '-' {
            let skip: usize = if v[1] == '-' { 2 } else { 1 };
            let body = subvec(&v, skip, v.len());
            assert(body@ =~= (if arg[1] == '-' { arg.skip(2) } else { arg.skip(1) }));
            proof { lemma_first_index_of(body@, '='); }
            match first_index_exec(&body, '=') {
                Some(eq) => {
                    let k = subvec(&body, 0, eq);
                    let val = subvec(&body, eq + 1, body.len());
                    assert(k@ =~= body@.take(eq as int));
                    assert(val@ =~= body@.skip(eq + 1));
                    set_option(&mut r, string_of(&k), string_of(&val));
                },
                None => {
                    set_option(&mut r, string_of(&body), String::new());
                },
            }
        }
        i = i + 1;
    }
    assert(a.take(i as int) =~= a);
    r
}

/// Whether `e` is one of the video file extensions the program handles.
pub open spec fn is_video_ext(e: Seq<char>) -> bool {
    e == "mkv"@ || e == "mp4"@ || e == "avi"@ || e == "webm"@ || e == "mov"@ || e == "wmv"@ || e == "flv"@ || e == "m4v"@ || e == "mpg"@ || e == "mpeg"@ || e == "ts"@ || e == "3gp"@ || e == "ogv"@
}

/// Whether `e` is one of the video file extensions the program handles.
pub fn is_video_extension(e: &str) -> (r: bool)
    ensures
        r == is_video_ext(e@),
{
    str_eq(e, "mkv") || str_eq(e, "mp4") || str_eq(e, "avi") || str_eq(e, "webm") || str_eq(e, "mov") || str_eq(e, "wmv") || str_eq(e, "flv") || str_eq(e, "m4v") || str_eq(e, "mpg") || str_eq(e, "mpeg") || str_eq(e, "ts") || str_eq(e, "3gp") || str_eq(e, "ogv")
}

/// Whether `e` is one of the audio file extensions the program handles.
pub open spec fn is_audio_ext(e: Seq<char>) -> bool {
    e == "mp3"@ || e == "wav"@ || e == "flac"@ || e == "ogg"@ || e == "m4a"@ || e == "aac"@ || e == "wma"@
}

/// Whether `e` is one of the audio file extensions the program handles.
pub fn is_audio_extension(e: &str) -> (r: bool)
    ensures
        r == is_audio_ext(e@),
{
    str_eq(e, "mp3") || str_eq(e, "wav") || str_eq(e, "flac") || str_eq(e, "ogg") || str_eq(e, "m4a") || str_eq(e, "aac") || str_eq(e, "wma")
}

/// Whether `e` is one of the image file extensions the program handles.
pub open spec fn is_image_ext(e: Seq<char>) -> bool {
    e == "jpg"@ || e == "jpeg"@ || e == "png"@ || e == "gif"@ || e == "bmp"@ || e == "webp"@
}

/// Whether `e` is one of the image file extensions the program handles.
pub fn is_image_extension(e: &str) -> (r: bool)
    ensures
        r == is_image_ext(e@),
{
    str_eq(e, "jpg") || str_eq(e, "jpeg") || str_eq(e, "png") || str_eq(e, "gif") || str_eq(e, "bmp") || str_eq(e, "webp")
}

/// Whether `e` is one of the pdf file extensions the program handles.
pub open spec fn is_pdf_ext(e: Seq<char>) -> bool {
    e == "pdf"@
}

/// Whether `e` is one of the pdf file extensions the program handles.
pub fn is_pdf_extension(e: &str) -> (r: bool)
    ensures
        r == is_pdf_ext(e@),
{
    str_eq(e, "pdf")
}

/// Whether the file at `path` is a video, by its extension in lowercase.
pub open spec fn is_video_path(path: Seq<char>) -> bool {
    is_video_ext(crate::foreign::lowercase(extension_of(path)))
}

/// Whether the file at `path` is a video, by its extension in lowercase.
pub fn is_video_file(path: &str) -> (r: bool)
    ensures
        r == is_video_path(path@),
{
    let e = get_extension(path);
    let l = crate::foreign::to_lowercase(e.as_str());
    is_video_extension(l.as_str())
}

} // verus!
