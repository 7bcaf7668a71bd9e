use vstd::prelude::*;
use vstd::std_specs::iter::IteratorSpec;

verus! {

broadcast use vstd::string::group_string_axioms;

/// Appends a character to a string.
///
/// Trusted: calls `String::push`, which std documents as appending the given
/// `char` to the end of the string; the contract says the string's characters
/// afterwards are the old ones followed by `c`.
#[verifier::external_body]
fn string_push(s: &mut String, c: char)
    ensures
        final(s)@ == old(s)@.push(c),
{
    s.push(c)
}

/// The characters of a string, in order.
pub fn chars_of(s: &str) -> (r: Vec<char>)
    ensures
        r@ == s@,
{
    let mut v: Vec<char> = Vec::new();
    let mut it = s.chars();
    loop
        invariant
            v@ + it.remaining() == s@,
            it.obeys_prophetic_iter_laws(),
            it.decrease() is Some,
        ensures
            v@ == s@,
        decreases it.decrease()->0,
    {
        match it.next() {
            Some(c) => {
                assert(v@.push(c) + it.remaining() =~= s@);
                v.push(c);
            },
            None => {
                assert(v@ =~= s@);
                break ;
            },
        }
    }
    v
}

/// A string holding the given characters.
pub fn string_of(chars: &Vec<char>) -> (r: String)
    ensures
        r@ == chars@,
{
    let mut s = String::new();
    let mut i: usize = 0;
    while i < chars.len()
        invariant
            i <= chars@.len(),
            s@ == chars@.subrange(0, i as int),
        decreases chars@.len() - i,
    {
        string_push(&mut s, chars[i]);
        assert(s@ =~= chars@.subrange(0, i + 1));
        i = i + 1;
    }
    assert(s@ =~= chars@);
    s
}


/// Unicode white space, as `char::is_whitespace` tells it.
pub open spec fn is_whitespace(c: char) -> bool {
    let u = c as u32;
    ||| 0x9 <= u <= 0xD
    ||| u == 0x20
    ||| u == 0x85
    ||| u == 0xA0
    ||| u == 0x1680
    ||| 0x2000 <= u <= 0x200A
    ||| u == 0x2028
    ||| u == 0x2029
    ||| u == 0x202F
    ||| u == 0x205F
    ||| u == 0x3000
}

fn is_whitespace_char(c: char) -> (r: bool)
    ensures
        r == is_whitespace(c),
{
    let u = c as u32;
    (0x9 <= u && u <= 0xD) || u == 0x20 || u == 0x85 || u == 0xA0 || u == 0x1680 || (0x2000 <= u
        && u <= 0x200A) || u == 0x2028 || u == 0x2029 || u == 0x202F || u == 0x205F || u == 0x3000
}

/// The characters without the white space they start with.
pub open spec fn trim_start(s: Seq<char>) -> Seq<char>
    decreases s.len(),
{
    if s.len() > 0 && is_whitespace(s[0]) {
        trim_start(s.drop_first())
    } else {
        s
    }
}

/// The characters without the white space they end with.
pub open spec fn trim_end(s: Seq<char>) -> Seq<char>
    decreases s.len(),
{
    if s.len() > 0 && is_whitespace(s.last()) {
        trim_end(s.drop_last())
    } else {
        s
    }
}

/// The characters without white space at either end.
pub open spec fn trim(s: Seq<char>) -> Seq<char> {
    trim_end(trim_start(s))
}

/// The characters of `s` from `from` to `to`, trimmed.
fn trimmed_range(s: &Vec<char>, from: usize) -> (r: Vec<char>)
    requires
        from <= s@.len(),
    ensures
        r@ == trim(s@.subrange(from as int, s@.len() as int)),
{
    let len = s.len();
    let mut a = from;
    while a < len && is_whitespace_char(s[a])
        invariant
            from <= a <= len,
            len == s@.len(),
            trim_start(s@.subrange(from as int, len as int)) == trim_start(
                s@.subrange(a as int, len as int),
            ),
        decreases len - a,
    {
        assert(s@.subrange(a as int, len as int).drop_first() =~= s@.subrange(
            a + 1,
            len as int,
        ));
        a = a + 1;
    }
    let ghost started = s@.subrange(a as int, len as int);
    assert(trim_start(started) == started);
    let mut b = len;
    while b > a && is_whitespace_char(s[b - 1])
        invariant
            a <= b <= len,
            len == s@.len(),
            started == s@.subrange(a as int, len as int),
            trim_end(started) == trim_end(s@.subrange(a as int, b as int)),
        decreases b - a,
    {
        assert(s@.subrange(a as int, b as int).drop_last() =~= s@.subrange(
            a as int,
            b - 1,
        ));
        b = b - 1;
    }
    let mut r: Vec<char> = Vec::new();
    let mut i = a;
    while i < b
        invariant
            a <= i <= b,
            b <= s@.len(),
            r@ == s@.subrange(a as int, i as int),
        decreases b - i,
    {
        r.push(s[i]);
        assert(r@ =~= s@.subrange(a as int, i + 1));
        i = i + 1;
    }
    r
}

/// The line with a carriage return at its end taken off.
pub open spec fn strip_cr(line: Seq<char>) -> Seq<char> {
    if line.len() > 0 && line.last() == '\r' {
        line.drop_last()
    } else {
        line
    }
}

/// The lines of `s`, where `cur` is the part of a line already read: lines end
/// at `'\n'`, a `'\r'` right before it is not part of the line, and a last
/// line without `'\n'` counts only if it is not empty.
pub open spec fn lines_from(s: Seq<char>, cur: Seq<char>) -> Seq<Seq<char>>
    decreases s.len(),
{
    if s.len() == 0 {
        if cur.len() == 0 {
            seq![]
        } else {
            seq![cur]
        }
    } else if s[0] == '\n' {
        seq![strip_cr(cur)] + lines_from(s.drop_first(), seq![])
    } else {
        lines_from(s.drop_first(), cur.push(s[0]))
    }
}

/// The lines of `s`, as `str::lines` gives them.
pub open spec fn lines(s: Seq<char>) -> Seq<Seq<char>> {
    lines_from(s, seq![])
}

/// The characters of each line.
pub open spec fn lines_view(v: Seq<Vec<char>>) -> Seq<Seq<char>> {
    v.map_values(|l: Vec<char>| l@)
}

/// Splits text into lines, as `str::lines` does.
pub fn split_lines(s: &Vec<char>) -> (r: Vec<Vec<char>>)
    ensures
        lines_view(r@) == lines(s@),
        r@.len() == newline_count(s@) + (if s@.len() > 0 && s@.last() != '\n' {
            1nat
        } else {
            0nat
        }),
        join_lines(lines_view(r@)) == without_final_newline(crlf_to_lf(s@)),
{
    proof {
        lemma_lines_keep_text(s@);
    }
    let len = s.len();
    let mut out: Vec<Vec<char>> = Vec::new();
    let mut cur: Vec<char> = Vec::new();
    let mut i: usize = 0;
    assert(s@.subrange(0, len as int) =~= s@);
    assert(lines_view(out@) =~= seq![]);
    assert(seq![] + lines(s@) =~= lines(s@));
    while i < len
        invariant
            i <= len,
            len == s@.len(),
            lines_view(out@) + lines_from(s@.subrange(i as int, len as int), cur@) == lines(s@),
        decreases len - i,
    {
        let ghost rest = s@.subrange(i as int, len as int);
        assert(rest.drop_first() =~= s@.subrange(i + 1, len as int));
        if s[i] == '\n' {
            let ghost before = lines_view(out@);
            let mut line = cur;
            let l = line.len();
            if l > 0 && line[l - 1] == '\r' {
                line.pop();
            }
            assert(line@ =~= strip_cr(cur@));
            out.push(line);
            cur = Vec::new();
            assert(lines_view(out@) =~= before.push(line@));
            assert(lines_view(out@) + lines_from(s@.subrange(i + 1, len as int), cur@) =~= before
                + (seq![line@] + lines_from(s@.subrange(i + 1, len as int), seq![])));
        } else {
            cur.push(s[i]);
        }
        i = i + 1;
    }
    if cur.len() > 0 {
        let ghost before = lines_view(out@);
        out.push(cur);
        assert(lines_view(out@) =~= before + lines_from(seq![], out@.last()@));
    } else {
        assert(lines_view(out@) =~= lines_view(out@) + lines_from(seq![], cur@));
    }
    out
}

/// The lines joined by `'\n'`.
pub open spec fn join_lines(parts: Seq<Seq<char>>) -> Seq<char>
    decreases parts.len(),
{
    if parts.len() == 0 {
        seq![]
    } else if parts.len() == 1 {
        parts[0]
    } else {
        join_lines(parts.drop_last()) + seq!['\n'] + parts.last()
    }
}

fn join_parts(parts: &Vec<Vec<char>>) -> (r: Vec<char>)
    ensures
        r@ == join_lines(lines_view(parts@)),
{
    let mut out: Vec<char> = Vec::new();
    let mut i: usize = 0;
    while i < parts.len()
        invariant
            i <= parts@.len(),
            out@ == join_lines(lines_view(parts@).subrange(0, i as int)),
        decreases parts@.len() - i,
    {
        let ghost done = lines_view(parts@).subrange(0, i as int);
        if i > 0 {
            out.push('\n');
        }
        let part = &parts[i];
        let mut j: usize = 0;
        let ghost start = out@;
        while j < part.len()
            invariant
                j <= part@.len(),
                out@ == start + part@.subrange(0, j as int),
            decreases part@.len() - j,
        {
            out.push(part[j]);
            assert(out@ =~= start + part@.subrange(0, j + 1));
            j = j + 1;
        }
        let ghost next = lines_view(parts@).subrange(0, i + 1);
        assert(next.drop_last() =~= done);
        assert(part@.subrange(0, part@.len() as int) =~= part@);
        if i == 0 {
            assert(out@ =~= next[0]);
        } else {
            assert(out@ =~= join_lines(done) + seq!['\n'] + next.last());
        }
        i = i + 1;
    }
    assert(lines_view(parts@).subrange(0, parts@.len() as int) =~= lines_view(parts@));
    out
}

/// The characters `//# include ` that start a line naming a file to include.
pub open spec fn include_prefix() -> Seq<char> {
    seq!['/', '/', '#', ' ', 'i', 'n', 'c', 'l', 'u', 'd', 'e', ' ']
}

/// The file a line includes, if it is an include line: what follows the
/// prefix, trimmed.
pub open spec fn include_of(line: Seq<char>) -> Option<Seq<char>> {
    if line.len() >= 12 && line.subrange(0, 12) == include_prefix() {
        Some(trim(line.subrange(12, line.len() as int)))
    } else {
        None
    }
}

fn include_of_line(line: &Vec<char>) -> (r: Option<Vec<char>>)
    ensures
        match r {
            Some(v) => include_of(line@) == Some(v@),
            None => include_of(line@) is None,
        },
{
    let prefix = vec!['/', '/', '#', ' ', 'i', 'n', 'c', 'l', 'u', 'd', 'e', ' '];
    assert(prefix@ =~= include_prefix());
    if line.len() < 12 {
        return None;
    }
    let mut i: usize = 0;
    while i < 12
        invariant
            i <= 12,
            line@.len() >= 12,
            prefix@ == include_prefix(),
            forall|k: int| 0 <= k < i ==> line@[k] == prefix@[k],
        decreases 12 - i,
    {
        if line[i] != prefix[i] {
            assert(line@.subrange(0, 12)[i as int] != include_prefix()[i as int]);
            return None;
        }
        i = i + 1;
    }
    assert(line@.subrange(0, 12) =~= include_prefix());
    Some(trimmed_range(line, 12))
}

/// The file the line includes, if it is an include line (`//# include `
/// followed by the file's name): the name, trimmed.
pub fn include_target(line: &str) -> (r: Option<String>)
    ensures
        match r {
            Some(s) => include_of(line@) == Some(s@),
            None => include_of(line@) is None,
        },
{
    let chars = chars_of(line);
    match include_of_line(&chars) {
        Some(name) => Some(string_of(&name)),
        None => None,
    }
}

/// The files a source includes, in the order of its lines.
pub open spec fn includes_in(ls: Seq<Seq<char>>) -> Seq<Seq<char>>
    decreases ls.len(),
{
    if ls.len() == 0 {
        seq![]
    } else {
        match include_of(ls.last()) {
            Some(name) => includes_in(ls.drop_last()).push(name),
            None => includes_in(ls.drop_last()),
        }
    }
}

/// The names of the files a source includes, in the order of its lines.
pub fn includes_of(source: &str) -> (r: Vec<String>)
    ensures
        r@.map_values(|s: String| s@) == includes_in(lines(source@)),
{
    let chars = chars_of(source);
    let ls = split_lines(&chars);
    let mut out: Vec<String> = Vec::new();
    let mut i: usize = 0;
    while i < ls.len()
        invariant
            i <= ls@.len(),
            lines_view(ls@) == lines(source@),
            out@.map_values(|s: String| s@) == includes_in(lines_view(ls@).subrange(0, i as int)),
        decreases ls@.len() - i,
    {
        let ghost done = lines_view(ls@).subrange(0, i as int);
        let ghost next = lines_view(ls@).subrange(0, i + 1);
        assert(next.drop_last() =~= done);
        assert(next.last() == ls@[i as int]@);
        match include_of_line(&ls[i]) {
            Some(name) => {
                let ghost before = out@.map_values(|s: String| s@);
                out.push(string_of(&name));
                assert(out@.map_values(|s: String| s@) =~= before.push(name@));
            },
            None => {},
        }
        i = i + 1;
    }
    assert(lines_view(ls@).subrange(0, ls@.len() as int) =~= lines_view(ls@));
    out
}

/// The text of the first file of the list with the given name.
pub open spec fn find_file(files: Seq<(Seq<char>, Seq<char>)>, name: Seq<char>) -> Option<
    Seq<char>,
>
    decreases files.len(),
{
    if files.len() == 0 {
        None
    } else if files[0].0 == name {
        Some(files[0].1)
    } else {
        find_file(files.drop_first(), name)
    }
}

/// The text of a file with its include lines replaced, recursively, by the
/// expanded text of the files they name, its lines joined by `'\n'`; none
/// when a named file is missing or includes nest deeper than `fuel` files.
pub open spec fn expand(files: Seq<(Seq<char>, Seq<char>)>, name: Seq<char>, fuel: nat) -> Option<
    Seq<char>,
>
    decreases fuel, 0nat, 0nat,
{
    if fuel == 0 {
        None
    } else {
        match find_file(files, name) {
            None => None,
            Some(text) => match expand_lines(files, lines(text), (fuel - 1) as nat) {
                Some(parts) => Some(join_lines(parts)),
                None => None,
            },
        }
    }
}

/// The lines with each include line replaced by the expanded text of the file
/// it names; none when one of those fails.
pub open spec fn expand_lines(
    files: Seq<(Seq<char>, Seq<char>)>,
    ls: Seq<Seq<char>>,
    fuel: nat,
) -> Option<Seq<Seq<char>>>
    decreases fuel, 1nat, ls.len(),
{
    if ls.len() == 0 {
        Some(seq![])
    } else {
        match expand_lines(files, ls.drop_last(), fuel) {
            None => None,
            Some(done) => match include_of(ls.last()) {
                None => Some(done.push(ls.last())),
                Some(dep) => match expand(files, dep, fuel) {
                    None => None,
                    Some(text) => Some(done.push(text)),
                },
            },
        }
    }
}

/// Name and text of each file.
pub open spec fn files_view(files: Seq<(Vec<char>, Vec<char>)>) -> Seq<(Seq<char>, Seq<char>)> {
    files.map_values(|f: (Vec<char>, Vec<char>)| (f.0@, f.1@))
}

fn find_file_exec(files: &Vec<(Vec<char>, Vec<char>)>, name: &Vec<char>) -> (r: Option<usize>)
    ensures
        match r {
            Some(i) => i < files@.len() && find_file(files_view(files@), name@) == Some(
                files@[i as int].1@,
            ),
            None => find_file(files_view(files@), name@) is None,
        },
{
    let mut i: usize = 0;
    assert(files_view(files@).subrange(0, files@.len() as int) =~= files_view(files@));
    while i < files.len()
        invariant
            i <= files@.len(),
            find_file(files_view(files@), name@) == find_file(
                files_view(files@).subrange(i as int, files@.len() as int),
                name@,
            ),
        decreases files@.len() - i,
    {
        let ghost rest = files_view(files@).subrange(i as int, files@.len() as int);
        assert(rest.drop_first() =~= files_view(files@).subrange(i + 1, files@.len() as int));
        assert(rest[0] == (files@[i as int].0@, files@[i as int].1@));
        let entry = &files[i];
        let mut same = entry.0.len() == name.len();
        let mut k: usize = 0;
        while same && k < name.len()
            invariant
                k <= name@.len(),
                same ==> entry.0@.len() == name@.len(),
                same ==> forall|j: int| 0 <= j < k ==> entry.0@[j] == name@[j],
                !same ==> entry.0@ != name@,
            decreases name@.len() - k + (if same {
                1int
            } else {
                0int
            }),
        {
            if entry.0[k] != name[k] {
                same = false;
            } else {
                k = k + 1;
            }
        }
        if same {
            assert(entry.0@ =~= name@);
            return Some(i);
        }
        i = i + 1;
    }
    None
}

fn expand_file(files: &Vec<(Vec<char>, Vec<char>)>, name: &Vec<char>, fuel: usize) -> (r: Option<
    Vec<char>,
>)
    ensures
        match r {
            Some(v) => expand(files_view(files@), name@, fuel as nat) == Some(v@),
            None => expand(files_view(files@), name@, fuel as nat) is None,
        },
    decreases fuel, 0nat, 0nat,
{
    if fuel == 0 {
        return None;
    }
    match find_file_exec(files, name) {
        None => None,
        Some(i) => {
            let ls = split_lines(&files[i].1);
            match expand_each(files, &ls, fuel - 1) {
                None => None,
                Some(parts) => Some(join_parts(&parts)),
            }
        },
    }
}

fn expand_each(files: &Vec<(Vec<char>, Vec<char>)>, ls: &Vec<Vec<char>>, fuel: usize) -> (r: Option<
    Vec<Vec<char>>,
>)
    ensures
        match r {
            Some(v) => expand_lines(files_view(files@), lines_view(ls@), fuel as nat) == Some(
                lines_view(v@),
            ),
            None => expand_lines(files_view(files@), lines_view(ls@), fuel as nat) is None,
        },
    decreases fuel, 1nat, ls@.len(),
{
    let ghost fv = files_view(files@);
    let mut out: Vec<Vec<char>> = Vec::new();
    let mut i: usize = 0;
    while i < ls.len()
        invariant
            i <= ls@.len(),
            fv == files_view(files@),
            expand_lines(fv, lines_view(ls@).subrange(0, i as int), fuel as nat) == Some(
                lines_view(out@),
            ),
        decreases ls@.len() - i,
    {
        let ghost done = lines_view(ls@).subrange(0, i as int);
        let ghost next = lines_view(ls@).subrange(0, i + 1);
        assert(next.drop_last() =~= done);
        assert(next.last() == ls@[i as int]@);
        let ghost before = lines_view(out@);
        match include_of_line(&ls[i]) {
            None => {
                let mut copy: Vec<char> = Vec::new();
                let line = &ls[i];
                let mut j: usize = 0;
                while j < line.len()
                    invariant
                        j <= line@.len(),
                        copy@ == line@.subrange(0, j as int),
                    decreases line@.len() - j,
                {
                    copy.push(line[j]);
                    assert(copy@ =~= line@.subrange(0, j + 1));
                    j = j + 1;
                }
                assert(copy@ =~= line@);
                out.push(copy);
                assert(lines_view(out@) =~= before.push(next.last()));
            },
            Some(dep) => {
                match expand_file(files, &dep, fuel) {
                    None => {
                        proof {
                            lemma_expand_lines_fails_on(fv, lines_view(ls@), i as int, fuel as nat);
                        }
                        return None;
                    },
                    Some(text) => {
                        out.push(text);
                        assert(lines_view(out@) =~= before.push(out@.last()@));
                    },
                }
            },
        }
        i = i + 1;
    }
    assert(lines_view(ls@).subrange(0, ls@.len() as int) =~= lines_view(ls@));
    Some(out)
}

/// Once expanding the first `i + 1` lines fails, expanding all of them fails.
proof fn lemma_expand_lines_fails_on(
    files: Seq<(Seq<char>, Seq<char>)>,
    ls: Seq<Seq<char>>,
    i: int,
    fuel: nat,
)
    requires
        0 <= i < ls.len(),
        expand_lines(files, ls.subrange(0, i + 1), fuel) is None,
    ensures
        expand_lines(files, ls, fuel) is None,
    decreases ls.len() - i,
{
    if i + 1 == ls.len() {
        assert(ls.subrange(0, i + 1) =~= ls);
    } else {
        let next = ls.subrange(0, i + 2);
        assert(next.drop_last() =~= ls.subrange(0, i + 1));
        lemma_expand_lines_fails_on(files, ls, i + 1, fuel);
    }
}

/// Name and text of each file, as characters.
pub open spec fn string_files_view(files: Seq<(String, String)>) -> Seq<(Seq<char>, Seq<char>)> {
    files.map_values(|f: (String, String)| (f.0@, f.1@))
}

/// The named shader source with every `//# include <file>` line replaced by
/// the expanded text of that file, lines joined by `'\n'`. Includes are
/// looked up by name among `files` (the first file of a name counts). None
/// when a named file is missing, or when includes nest deeper than there are
/// files, which only a cycle of includes does.
pub fn expand_shader(files: &Vec<(String, String)>, name: &str) -> (r: Option<String>)
    ensures
        match r {
            Some(s) => expand(string_files_view(files@), name@, files@.len() as nat) == Some(s@),
            None => expand(string_files_view(files@), name@, files@.len() as nat) is None,
        },
{
    let mut chars_files: Vec<(Vec<char>, Vec<char>)> = Vec::new();
    let mut i: usize = 0;
    while i < files.len()
        invariant
            i <= files@.len(),
            chars_files@.len() == i,
            files_view(chars_files@) == string_files_view(files@).subrange(0, i as int),
        decreases files@.len() - i,
    {
        let ghost before = files_view(chars_files@);
        let n = chars_of(files[i].0.as_str());
        let c = chars_of(files[i].1.as_str());
        let ghost nv = n@;
        let ghost cv = c@;
        assert(nv == files@[i as int].0@);
        assert(cv == files@[i as int].1@);
        chars_files.push((n, c));
        assert(chars_files@.len() == i + 1);
        assert(files_view(chars_files@)[i as int] == (nv, cv));
        assert(string_files_view(files@)[i as int] == (files@[i as int].0@, files@[i as int].1@));
        assert(files_view(chars_files@) =~= string_files_view(files@).subrange(0, i + 1));
        i = i + 1;
    }
    assert(string_files_view(files@).subrange(0, files@.len() as int) =~= string_files_view(
        files@,
    ));
    let name_chars = chars_of(name);
    match expand_file(&chars_files, &name_chars, files.len()) {
        Some(text) => Some(string_of(&text)),
        None => None,
    }
}

/// A source without include lines expands to its own lines, joined by
/// `'\n'`: its text with only the line endings normalised.
pub proof fn lemma_no_includes_expands_to_itself(
    files: Seq<(Seq<char>, Seq<char>)>,
    name: Seq<char>,
    fuel: nat,
)
    requires
        fuel >= 1,
        find_file(files, name) is Some,
        includes_in(lines(find_file(files, name).unwrap())).len() == 0,
    ensures
        expand(files, name, fuel) == Some(join_lines(lines(find_file(files, name).unwrap()))),
        expand(files, name, fuel) == Some(
            without_final_newline(crlf_to_lf(find_file(files, name).unwrap())),
        ),
{
    let ls = lines(find_file(files, name).unwrap());
    lemma_expand_lines_plain(files, ls, (fuel - 1) as nat);
    lemma_lines_keep_text(find_file(files, name).unwrap());
}

proof fn lemma_expand_lines_plain(files: Seq<(Seq<char>, Seq<char>)>, ls: Seq<Seq<char>>, fuel: nat)
    requires
        includes_in(ls).len() == 0,
    ensures
        expand_lines(files, ls, fuel) == Some(ls),
    decreases ls.len(),
{
    if ls.len() > 0 {
        if include_of(ls.last()) is Some {
            assert(includes_in(ls).len() == includes_in(ls.drop_last()).len() + 1);
        }
        lemma_expand_lines_plain(files, ls.drop_last(), fuel);
        assert(ls.drop_last().push(ls.last()) =~= ls);
    } else {
        assert(ls =~= seq![]);
    }
}

/// Number of `'\n'` characters in `s`.
pub open spec fn newline_count(s: Seq<char>) -> nat
    decreases s.len(),
{
    if s.len() == 0 {
        0
    } else {
        (if s[0] == '\n' {
            1nat
        } else {
            0nat
        }) + newline_count(s.drop_first())
    }
}

/// `s` with each `'\r'` that comes right before a `'\n'` taken out.
pub open spec fn crlf_to_lf(s: Seq<char>) -> Seq<char>
    decreases s.len(),
{
    if s.len() == 0 {
        seq![]
    } else if s.len() >= 2 && s[0] == '\r' && s[1] == '\n' {
        crlf_to_lf(s.drop_first())
    } else {
        seq![s[0]] + crlf_to_lf(s.drop_first())
    }
}

/// `s` without the `'\n'` it ends with, if it ends with one.
pub open spec fn without_final_newline(s: Seq<char>) -> Seq<char> {
    if s.len() > 0 && s.last() == '\n' {
        s.drop_last()
    } else {
        s
    }
}

/// `s` holds no `'\n'`.
pub open spec fn no_newline(s: Seq<char>) -> bool {
    forall|i: int| 0 <= i < s.len() ==> s[i] != '\n'
}

proof fn lemma_crlf_without_newline(s: Seq<char>)
    requires
        no_newline(s),
    ensures
        crlf_to_lf(s) == s,
    decreases s.len(),
{
    if s.len() > 0 {
        assert(no_newline(s.drop_first()));
        lemma_crlf_without_newline(s.drop_first());
        assert(s =~= seq![s[0]] + s.drop_first());
    }
}

proof fn lemma_crlf_nonempty(t: Seq<char>)
    ensures
        crlf_to_lf(t).len() == 0 <==> t.len() == 0,
{
    if t.len() >= 2 && t[0] == '\r' && t[1] == '\n' {
        let u = t.drop_first();
        assert(u[0] == '\n');
        assert(crlf_to_lf(u) == seq![u[0]] + crlf_to_lf(u.drop_first()));
    }
}

proof fn lemma_crlf_line_end(cur: Seq<char>, t: Seq<char>)
    requires
        no_newline(cur),
    ensures
        crlf_to_lf(cur + seq!['\n'] + t) == strip_cr(cur) + seq!['\n'] + crlf_to_lf(t),
    decreases cur.len(),
{
    let s = cur + seq!['\n'] + t;
    if cur.len() == 0 {
        assert(s =~= seq!['\n'] + t);
        assert(s.drop_first() =~= t);
        assert(strip_cr(cur) =~= seq![]);
    } else {
        let rest = cur.drop_first();
        assert(no_newline(rest));
        assert(s.drop_first() =~= rest + seq!['\n'] + t);
        if cur.len() == 1 && cur[0] == '\r' {
            assert(s[1] == '\n');
            assert(rest =~= seq![]);
            lemma_crlf_line_end(rest, t);
            assert(strip_cr(cur) =~= seq![]);
            assert(strip_cr(rest) =~= seq![]);
        } else {
            if cur.len() >= 2 {
                assert(s[1] == cur[1]);
            }
            lemma_crlf_line_end(rest, t);
            if rest.len() == 0 {
                assert(strip_cr(cur) =~= seq![cur[0]]);
                assert(strip_cr(rest) =~= seq![]);
            } else {
                assert(strip_cr(cur) =~= seq![cur[0]] + strip_cr(rest));
            }
            assert(crlf_to_lf(s) =~= strip_cr(cur) + seq!['\n'] + crlf_to_lf(t));
        }
    }
}

proof fn lemma_join_prepend(x: Seq<char>, ls: Seq<Seq<char>>)
    ensures
        join_lines(seq![x] + ls) == (if ls.len() == 0 {
            x
        } else {
            x + seq!['\n'] + join_lines(ls)
        }),
    decreases ls.len(),
{
    let all = seq![x] + ls;
    if ls.len() == 0 {
        assert(all =~= seq![x]);
    } else if ls.len() == 1 {
        assert(all.drop_last() =~= seq![x]);
        assert(join_lines(seq![x]) == x);
        assert(all.last() == ls[0]);
        assert(join_lines(all) == join_lines(all.drop_last()) + seq!['\n'] + all.last());
        assert(join_lines(ls) == ls[0]);
    } else {
        assert(all.drop_last() =~= seq![x] + ls.drop_last());
        lemma_join_prepend(x, ls.drop_last());
        assert(all.last() == ls.last());
        assert(join_lines(all) == join_lines(all.drop_last()) + seq!['\n'] + all.last());
        assert(join_lines(ls) == join_lines(ls.drop_last()) + seq!['\n'] + ls.last());
        assert(join_lines(all) =~= x + seq!['\n'] + join_lines(ls));
    }
}

proof fn lemma_lines_from_joined(s: Seq<char>, cur: Seq<char>)
    requires
        no_newline(cur),
    ensures
        join_lines(lines_from(s, cur)) == without_final_newline(crlf_to_lf(cur + s)),
    decreases s.len(),
{
    if s.len() == 0 {
        assert(cur + s =~= cur);
        lemma_crlf_without_newline(cur);
        if cur.len() > 0 {
            assert(cur.last() != '\n');
        }
    } else if s[0] == '\n' {
        let t = s.drop_first();
        let rest = lines_from(t, seq![]);
        assert(no_newline(seq![]));
        lemma_lines_from_joined(t, seq![]);
        assert(seq![] + t =~= t);
        lemma_join_prepend(strip_cr(cur), rest);
        assert(cur + s =~= cur + seq!['\n'] + t);
        lemma_crlf_line_end(cur, t);
        lemma_crlf_nonempty(t);
        let x = strip_cr(cur);
        let ct = crlf_to_lf(t);
        if t.len() == 0 {
            assert(rest =~= seq![]);
            assert((x + seq!['\n'] + ct).drop_last() =~= x);
        } else {
            assert(rest.len() > 0) by {
                if t[0] == '\n' {
                } else {
                    lemma_lines_from_nonempty(t.drop_first(), seq![t[0]]);
                }
            }
            assert(ct.len() > 0);
            assert((x + seq!['\n'] + ct).last() == ct.last());
            if ct.last() == '\n' {
                assert((x + seq!['\n'] + ct).drop_last() =~= x + seq!['\n'] + ct.drop_last());
            }
        }
    } else {
        let t = s.drop_first();
        let c2 = cur.push(s[0]);
        assert(no_newline(c2));
        lemma_lines_from_joined(t, c2);
        assert(c2 + t =~= cur + s);
    }
}

proof fn lemma_lines_from_nonempty(s: Seq<char>, cur: Seq<char>)
    requires
        cur.len() > 0,
    ensures
        lines_from(s, cur).len() > 0,
    decreases s.len(),
{
    if s.len() > 0 && s[0] != '\n' {
        lemma_lines_from_nonempty(s.drop_first(), cur.push(s[0]));
    }
}

proof fn lemma_lines_from_count(s: Seq<char>, cur: Seq<char>)
    ensures
        lines_from(s, cur).len() == newline_count(s) + (if s.len() == 0 {
            if cur.len() > 0 {
                1nat
            } else {
                0nat
            }
        } else if s.last() != '\n' {
            1nat
        } else {
            0nat
        }),
    decreases s.len(),
{
    if s.len() > 0 {
        let t = s.drop_first();
        if s[0] == '\n' {
            lemma_lines_from_count(t, seq![]);
        } else {
            lemma_lines_from_count(t, cur.push(s[0]));
        }
        if t.len() > 0 {
            assert(t.last() == s.last());
        }
    }
}

/// Text splits into lines as `str::lines` splits it, with nothing dropped:
/// there is one line per `'\n'`, and one more when the text does not end in
/// `'\n'`; and the lines joined by `'\n'` give the text back, without a final
/// `'\n'` and without each `'\r'` that came right before a `'\n'`.
pub proof fn lemma_lines_keep_text(s: Seq<char>)
    ensures
        lines(s).len() == newline_count(s) + (if s.len() > 0 && s.last() != '\n' {
            1nat
        } else {
            0nat
        }),
        join_lines(lines(s)) == without_final_newline(crlf_to_lf(s)),
{
    lemma_lines_from_count(s, seq![]);
    assert(no_newline(seq![]));
    lemma_lines_from_joined(s, seq![]);
    assert(seq![] + s =~= s);
}

} // verus!
