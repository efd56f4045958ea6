//! Loading configuration directories: the name a file's configuration is known by
//! (the stem of its file name), and the table the parsed files fill.

use vstd::prelude::*;
use crate::error::DaemonError;
use crate::table::ConfigTable;
use crate::text::push_char;

verus! {

/// The `/`-separated segments of a path, empty ones included.
pub open spec fn path_segments(p: Seq<char>) -> Seq<Seq<char>>
    decreases p.len(),
{
    if p.len() == 0 {
        seq![Seq::empty()]
    } else if p.last() == '/' {
        path_segments(p.drop_last()).push(Seq::empty())
    } else {
        let s = path_segments(p.drop_last());
        s.update(s.len() - 1, s.last().push(p.last()))
    }
}

/// A segment that names a component: neither empty nor `.`.
pub open spec fn is_component(seg: Seq<char>) -> bool {
    seg.len() > 0 && seg != seq!['.']
}

/// The segments that name components, in order.
pub open spec fn keep_components(s: Seq<Seq<char>>) -> Seq<Seq<char>> {
    s.filter(|seg: Seq<char>| is_component(seg))
}

/// The components of a path, in order.
pub open spec fn path_components(p: Seq<char>) -> Seq<Seq<char>> {
    keep_components(path_segments(p))
}

/// The file name of a path: its last component, unless there is none or it is `..`.
pub open spec fn file_name_of(p: Seq<char>) -> Option<Seq<char>> {
    let c = path_components(p);
    if c.len() > 0 && c.last() != seq!['.', '.'] {
        Some(c.last())
    } else {
        None
    }
}

/// Index of the last `.` of `n`, or -1.
pub open spec fn last_dot(n: Seq<char>) -> int
    decreases n.len(),
{
    if n.len() == 0 {
        -1
    } else if n.last() == '.' {
        n.len() - 1
    } else {
        last_dot(n.drop_last())
    }
}

/// The stem of a file name: the part before its last `.`; the whole name when it has
/// no `.` or its only `.` is the first character.
pub open spec fn stem_of(n: Seq<char>) -> Seq<char> {
    if last_dot(n) <= 0 {
        n
    } else {
        n.take(last_dot(n))
    }
}

/// The stem of a path's file name, when it has one.
pub open spec fn file_stem_of(p: Seq<char>) -> Option<Seq<char>> {
    match file_name_of(p) {
        Some(n) => Some(stem_of(n)),
        None => None,
    }
}

proof fn lemma_last_dot_bounds(n: Seq<char>)
    ensures
        -1 <= last_dot(n) < n.len(),
        last_dot(n) >= 0 ==> n[last_dot(n)] == '.',
        forall|k: int| last_dot(n) < k < n.len() ==> n[k] != '.',
    decreases n.len(),
{
    if n.len() > 0 {
        lemma_last_dot_bounds(n.drop_last());
        assert forall|k: int| last_dot(n) < k < n.len() implies n[k] != '.' by {
            if k < n.len() - 1 {
                assert(n[k] == n.drop_last()[k]);
            }
        }
    }
}

fn find_last_dot(name: &Vec<char>) -> (r: Option<usize>)
    ensures
        match r {
            Some(d) => d == last_dot(name@),
            None => last_dot(name@) == -1,
        },
{
    proof {
        lemma_last_dot_bounds(name@);
    }
    let mut k: usize = name.len();
    while k > 0
        invariant
            k <= name@.len(),
            forall|j: int| k <= j < name@.len() ==> name@[j] != '.',
            -1 <= last_dot(name@) < name@.len(),
            last_dot(name@) >= 0 ==> name@[last_dot(name@)] == '.',
            forall|j: int| last_dot(name@) < j < name@.len() ==> name@[j] != '.',
        decreases k,
    {
        if name[k - 1] == '.' {
            assert(last_dot(name@) == k - 1) by {
                if last_dot(name@) > k - 1 {
                    assert(name@[last_dot(name@)] == '.');
                }
            }
            return Some(k - 1);
        }
        k = k - 1;
    }
    proof {
        if last_dot(name@) >= 0 {
            assert(name@[last_dot(name@)] == '.');
        }
    }
    None
}

fn string_of(chars: &Vec<char>, len: usize) -> (s: String)
    requires
        len <= chars@.len(),
    ensures
        s@ == chars@.take(len as int),
{
    let mut s = String::new();
    let mut i: usize = 0;
    while i < len
        invariant
            i <= len <= chars@.len(),
            s@ == chars@.take(i as int),
        decreases len - i,
    {
        push_char(&mut s, chars[i]);
        i = i + 1;
        assert(s@ =~= chars@.take(i as int));
    }
    s
}

/// The characters of the file name of `path`.
fn file_name_chars(path: &str) -> (r: Option<Vec<char>>)
    ensures
        match file_name_of(path@) {
            Some(n) => r matches Some(v) && v@ == n,
            None => r is None,
        },
{
    let ghost p = path@;
    let len = path.unicode_len();
    let mut cur: Vec<char> = Vec::new();
    let mut last_comp: Option<Vec<char>> = None;
    let mut i: usize = 0;
    proof {
        reveal_with_fuel(Seq::filter, 1);
        assert(p.take(0) =~= Seq::<char>::empty());
    }
    while i < len
        invariant
            len == p.len(),
            p == path@,
            i <= len,
            cur@ == path_segments(p.take(i as int)).last(),
            path_segments(p.take(i as int)).len() > 0,
            match last_comp {
                Some(c) => {
                    let f = path_segments(p.take(i as int)).drop_last().filter(|seg: Seq<char>| is_component(seg));
                    f.len() > 0 && c@ == f.last()
                },
                None => path_segments(p.take(i as int)).drop_last().filter(|seg: Seq<char>| is_component(seg)).len() == 0,
            },
        decreases len - i,
    {
        let c = path.get_char(i);
        let ghost before = path_segments(p.take(i as int));
        proof {
            assert(p.take(i + 1).drop_last() =~= p.take(i as int));
            assert(p.take(i + 1).last() == c);
        }
        if c == '/' {
            let component = cur.len() > 0 && !(cur.len() == 1 && cur[0] == '.');
            proof {
                reveal_with_fuel(Seq::filter, 1);
                let after = path_segments(p.take(i + 1));
                assert(after == before.push(Seq::<char>::empty()));
                assert(after.drop_last() =~= before);
                assert(component == is_component(cur@)) by {
                    if cur@.len() == 1 && cur@[0] == '.' {
                        assert(cur@ =~= seq!['.']);
                    }
                    if cur@ == seq!['.'] {
                        assert(cur@[0] == '.');
                    }
                }
            }
            if component {
                last_comp = Some(cur);
            }
            cur = Vec::new();
        } else {
            cur.push(c);
            proof {
                let after = path_segments(p.take(i + 1));
                assert(after.drop_last() =~= before.drop_last());
            }
        }
        i = i + 1;
    }
    proof {
        reveal_with_fuel(Seq::filter, 1);
        assert(p.take(len as int) =~= p);
    }
    let component = cur.len() > 0 && !(cur.len() == 1 && cur[0] == '.');
    proof {
        if cur@.len() == 1 && cur@[0] == '.' {
            assert(cur@ =~= seq!['.']);
        }
        if cur@ == seq!['.'] {
            assert(cur@[0] == '.');
        }
        assert(component == is_component(cur@));
    }
    let name = if component {
        cur
    } else {
        match last_comp {
            Some(c) => c,
            None => {
                return None;
            },
        }
    };
    if name.len() == 2 && name[0] == '.' && name[1] == '.' {
        assert(name@ =~= seq!['.', '.']);
        return None;
    }
    assert(name@ != seq!['.', '.']) by {
        if name@ == seq!['.', '.'] {
            assert(name@[0] == '.' && name@[1] == '.');
        }
    }
    Some(name)
}

/// The stem of the file name of `path` (the part before the last `.`), as a string.
pub fn get_file_stem(path: &str) -> (r: Option<String>)
    ensures
        match file_stem_of(path@) {
            Some(stem) => r matches Some(s) && s@ == stem,
            None => r is None,
        },
{
    let name = match file_name_chars(path) {
        Some(n) => n,
        None => {
            return None;
        },
    };
    proof {
        lemma_last_dot_bounds(name@);
    }
    // The stem ends before the last dot, unless that dot is the first character.
    match find_last_dot(&name) {
        Some(dot) if dot > 0 => Some(string_of(&name, dot)),
        _ => {
            assert(name@.take(name@.len() as int) =~= name@);
            Some(string_of(&name, name.len()))
        },
    }
}

/// The extension of a file name: the part after its last `.`, when that dot is not
/// the first character.
pub open spec fn extension_of(n: Seq<char>) -> Option<Seq<char>> {
    if last_dot(n) <= 0 {
        None
    } else {
        Some(n.skip(last_dot(n) + 1))
    }
}

/// A configuration file: one whose file name has the extension `ron`.
pub open spec fn is_config_file(p: Seq<char>) -> bool {
    file_name_of(p) matches Some(n) && extension_of(n) == Some(seq!['r', 'o', 'n'])
}

/// Whether `path` names a configuration file (`*.ron`).
pub fn is_config_path(path: &str) -> (r: bool)
    ensures
        r == is_config_file(path@),
{
    let name = match file_name_chars(path) {
        Some(n) => n,
        None => {
            return false;
        },
    };
    proof {
        lemma_last_dot_bounds(name@);
    }
    match find_last_dot(&name) {
        Some(dot) if dot > 0 => {
            let ghost ext = name@.skip(dot + 1);
            let r = name.len() - dot == 4 && name[dot + 1] == 'r' && name[dot + 2] == 'o' && name[dot + 3] == 'n';
            proof {
                if r {
                    assert(ext =~= seq!['r', 'o', 'n']);
                } else if ext == seq!['r', 'o', 'n'] {
                    assert(ext.len() == 3);
                    assert(ext[0] == 'r' && ext[1] == 'o' && ext[2] == 'n');
                }
            }
            r
        },
        _ => false,
    }
}

proof fn lemma_segments_slash_free(p: Seq<char>)
    ensures
        path_segments(p).len() > 0,
        forall|i: int| 0 <= i < path_segments(p).len() ==> !(#[trigger] path_segments(p)[i]).contains('/'),
    decreases p.len(),
{
    if p.len() > 0 {
        lemma_segments_slash_free(p.drop_last());
        let s = path_segments(p.drop_last());
        if p.last() != '/' {
            let u = s.update(s.len() - 1, s.last().push(p.last()));
            assert forall|i: int| 0 <= i < u.len() implies !(#[trigger] u[i]).contains('/') by {
                if i == s.len() - 1 {
                    assert(!s[i].contains('/'));
                    if u[i].contains('/') {
                        let j = choose|j: int| 0 <= j < u[i].len() && u[i][j] == '/';
                        if j < s[i].len() {
                            assert(s[i][j] == '/');
                        }
                    }
                } else {
                    assert(u[i] == s[i]);
                }
            }
        } else {
            let u = s.push(Seq::<char>::empty());
            assert forall|i: int| 0 <= i < u.len() implies !(#[trigger] u[i]).contains('/') by {
                if i < s.len() {
                    assert(u[i] == s[i]);
                }
            }
        }
    }
}

proof fn lemma_filter_keeps_slash_free(s: Seq<Seq<char>>)
    requires
        forall|i: int| 0 <= i < s.len() ==> !(#[trigger] s[i]).contains('/'),
    ensures
        forall|i: int| 0 <= i < keep_components(s).len() ==> !(#[trigger] keep_components(s)[i]).contains('/'),
    decreases s.len(),
{
    reveal_with_fuel(Seq::filter, 1);
    if s.len() > 0 {
        let t = s.drop_last();
        assert forall|i: int| 0 <= i < t.len() implies !(#[trigger] t[i]).contains('/') by {
            assert(t[i] == s[i]);
        }
        lemma_filter_keeps_slash_free(t);
        let f = keep_components(s);
        let g = keep_components(t);
        assert forall|i: int| 0 <= i < f.len() implies !(#[trigger] f[i]).contains('/') by {
            if i < g.len() {
                assert(f[i] == g[i]);
            } else {
                assert(f[i] == s.last());
                assert(s[s.len() - 1] == s.last());
            }
        }
    }
}

/// The stem of a file name is never empty and never holds a `/`.
pub proof fn law_file_stem_is_plain(p: Seq<char>)
    ensures
        file_stem_of(p) matches Some(st) ==> st.len() > 0 && !st.contains('/'),
{
    lemma_segments_slash_free(p);
    lemma_filter_keeps_slash_free(path_segments(p));
    let c = path_components(p);
    if c.len() > 0 && c.last() != seq!['.', '.'] {
        let n = c.last();
        path_segments(p).lemma_filter_pred(|seg: Seq<char>| is_component(seg), c.len() - 1);
        assert(is_component(n));
        assert(!c[c.len() - 1].contains('/'));
        lemma_last_dot_bounds(n);
        let st = stem_of(n);
        if st.contains('/') {
            let j = choose|j: int| 0 <= j < st.len() && st[j] == '/';
            assert(n[j] == '/');
        }
    }
}

/// The two kinds of configuration directory.
#[derive(Debug, Clone, Copy, PartialEq, Eq, Structural)]
pub enum ConfigKind {
    Backend,
    Tunnel,
}

/// The error text for a file of `kind` whose configuration did not parse.
pub open spec fn load_error_text(kind: ConfigKind, stem: Seq<char>, detail: Seq<char>) -> Seq<char> {
    match kind {
        ConfigKind::Backend => "Error when loading backend config "@ + stem + ": "@ + detail,
        ConfigKind::Tunnel => "Error when loading tunnel config "@ + stem + ": "@ + detail,
    }
}

/// Records what came of parsing the file whose stem is `stem`: a configuration is put
/// in the table under the stem (replacing one loaded before under it); a parse error
/// (`detail` is its text) becomes the error that ends the load.
pub fn record_loaded<T>(
    table: &mut ConfigTable<T>,
    kind: ConfigKind,
    stem: String,
    parsed: Result<T, String>,
) -> (r: Result<(), DaemonError>)
    requires
        old(table).wf(),
    ensures
        final(table).wf(),
        match parsed {
            Ok(config) => r is Ok && final(table)@ == old(table)@.insert(stem@, config),
            Err(detail) => (r matches Err(DaemonError::InvalidConfig(m)) && m@ == load_error_text(kind, stem@, detail@))
                && final(table)@ == old(table)@,
        },
{
    match parsed {
        Ok(config) => {
            table.insert(stem, config);
            Ok(())
        },
        Err(detail) => {
            let head = match kind {
                ConfigKind::Backend => "Error when loading backend config ",
                ConfigKind::Tunnel => "Error when loading tunnel config ",
            };
            let message = String::from_str(head).concat(stem.as_str()).concat(": ").concat(detail.as_str());
            Err(DaemonError::InvalidConfig(message))
        },
    }
}

}
