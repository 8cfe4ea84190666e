//! Source-code lint rules: bare `pub` in a binary crate, public struct fields,
//! and a limit on the number of lines per file. The rules read file contents
//! that the caller has gathered, each as a pair of its displayed path and text.
use vstd::prelude::*;
use crate::text::{
    chars_of, decimal, has_prefix, is_alphanumeric, leading_white_space, lines, push_decimal, push_str,
    split_lines, starts_with, string_from_chars, trim_start, unicode_alphanumeric,
    is_white_space, lemma_trim_start_skip,
};

verus! {

/// A binary crate must not expose items with a bare `pub`.
pub struct BinVisibilityRule;

/// Structs must not have `pub` fields.
pub struct PubFieldsRule;

/// No `.rs` file may reach the line limit.
pub struct LineLimitRule;

impl LineLimitRule {
    /// Files with this many lines or more break the line limit.
    pub const LIMIT: usize = 200;
}

/// The hits `path:<line number>` for the lines of `ls` that `flag` marks,
/// numbered from 1.
pub open spec fn line_hits(path: Seq<char>, ls: Seq<Seq<char>>, flag: spec_fn(Seq<char>) -> bool) -> Seq<Seq<char>>
    decreases ls.len(),
{
    if ls.len() == 0 {
        seq![]
    } else {
        let prev = line_hits(path, ls.drop_last(), flag);
        if flag(ls.last()) {
            prev.push(path + ":"@ + decimal(ls.len()))
        } else {
            prev
        }
    }
}

/// The hits over all `(path, contents)` files, file after file.
pub open spec fn file_hits(files: Seq<(Seq<char>, Seq<char>)>, flag: spec_fn(Seq<char>) -> bool) -> Seq<Seq<char>>
    decreases files.len(),
{
    if files.len() == 0 {
        seq![]
    } else {
        file_hits(files.drop_last(), flag) + line_hits(files.last().0, lines(files.last().1), flag)
    }
}

/// The `(path, contents)` pairs that `files` holds, as character sequences.
pub open spec fn file_views(files: Seq<(String, String)>) -> Seq<(Seq<char>, Seq<char>)> {
    files.map_values(|f: (String, String)| (f.0@, f.1@))
}

/// A line that starts with a bare `pub ` once its indentation is removed.
pub open spec fn bare_pub(line: Seq<char>) -> bool {
    starts_with(trim_start(line), "pub "@)
}

/// Length of the identifier-like word at the start of `s` (alphanumeric or `_`).
pub open spec fn word_len(s: Seq<char>) -> nat
    decreases s.len(),
{
    if s.len() > 0 && (unicode_alphanumeric(s[0]) || s[0] == '_') {
        1 + word_len(s.drop_first())
    } else {
        0
    }
}

/// The words that may follow `pub ` in an item that is not a field.
pub open spec fn item_keyword(w: Seq<char>) -> bool {
    w == "fn"@ || w == "const"@ || w == "use"@ || w == "mod"@ || w == "struct"@ || w == "enum"@
        || w == "trait"@ || w == "type"@ || w == "static"@ || w == "async"@ || w == "unsafe"@
}

/// A line of the form `pub <ident>:`: a public field.
pub open spec fn pub_field(line: Seq<char>) -> bool {
    let t = trim_start(line);
    if !starts_with(t, "pub "@) {
        false
    } else {
        let rest = t.skip(4);
        let w = word_len(rest);
        w > 0 && !item_keyword(rest.take(w as int)) && starts_with(
            trim_start(rest.skip(w as int)),
            ":"@,
        )
    }
}

/// The line-limit violations `path (<n> linhas)` over all files, in order.
pub open spec fn limit_hits(files: Seq<(Seq<char>, Seq<char>)>) -> Seq<Seq<char>>
    decreases files.len(),
{
    if files.len() == 0 {
        seq![]
    } else {
        let prev = limit_hits(files.drop_last());
        let n = lines(files.last().1).len();
        if n >= LineLimitRule::LIMIT {
            prev.push(files.last().0 + " ("@ + decimal(n) + " linhas)"@)
        } else {
            prev
        }
    }
}

fn same_chars(a: &Vec<char>, b: &str) -> (r: bool)
    ensures
        r == (a@ == b@),
{
    let c = chars_of(b);
    if a.len() != c.len() {
        return false;
    }
    let mut i: usize = 0;
    while i < a.len()
        invariant
            a.len() == c.len(),
            c@ == b@,
            i <= a.len(),
            forall|k: int| 0 <= k < i ==> a@[k] == c@[k],
        decreases a.len() - i,
    {
        if a[i] != c[i] {
            return false;
        }
        i = i + 1;
    }
    assert(a@ =~= c@);
    true
}

fn starts_with_str(s: &Vec<char>, p: &str) -> (r: bool)
    ensures
        r == starts_with(s@, p@),
{
    crate::text::has_prefix(s, &chars_of(p))
}

// Appends `path:n` to `hits`.
fn hit(path: &str, n: u64) -> (r: String)
    ensures
        r@ == path@ + ":"@ + decimal(n as nat),
{
    let mut v: Vec<char> = Vec::new();
    push_str(&mut v, path);
    push_str(&mut v, ":");
    push_decimal(&mut v, n);
    assert(v@ =~= path@ + ":"@ + decimal(n as nat));
    string_from_chars(v)
}

impl BinVisibilityRule {
    /// Lists `path:line` for each line with a bare `pub` in the given files.
    pub fn check(files: &Vec<(String, String)>) -> (hits: Vec<String>)
        ensures
            hits@.map_values(|h: String| h@) == file_hits(
                file_views(files@),
                |l: Seq<char>| bare_pub(l),
            ),
    {
        scan_files(files, true)
    }

    /// `pub ` followed by a space: `pub(crate)`, `pub(super)` and comments do not count.
    pub fn is_bare_pub(line: &str) -> (b: bool)
        ensures
            b == bare_pub(line@),
    {
        Self::bare_pub_chars(&chars_of(line))
    }

    fn bare_pub_chars(line: &Vec<char>) -> (b: bool)
        ensures
            b == bare_pub(line@),
    {
        let a = leading_white_space(line);
        let t = crate::text::slice_chars(line, a, line.len());
        assert(t@ =~= line@.skip(a as int));
        starts_with_str(&t, "pub ")
    }
}

impl PubFieldsRule {
    /// Lists `path:line` for each line that declares a public field.
    pub fn check(files: &Vec<(String, String)>) -> (hits: Vec<String>)
        ensures
            hits@.map_values(|h: String| h@) == file_hits(
                file_views(files@),
                |l: Seq<char>| pub_field(l),
            ),
    {
        scan_files(files, false)
    }

    /// Detects a line `pub <ident>:`, ignoring `pub fn/const/struct/...`, `pub use`
    /// and `pub(crate)`.
    pub fn is_pub_field(line: &str) -> (b: bool)
        ensures
            b == pub_field(line@),
    {
        Self::pub_field_chars(&chars_of(line))
    }

    fn is_keyword(w: &Vec<char>) -> (b: bool)
        ensures
            b == item_keyword(w@),
    {
        same_chars(w, "fn") || same_chars(w, "const") || same_chars(w, "use") || same_chars(w, "mod")
            || same_chars(w, "struct") || same_chars(w, "enum") || same_chars(w, "trait")
            || same_chars(w, "type") || same_chars(w, "static") || same_chars(w, "async")
            || same_chars(w, "unsafe")
    }

    fn pub_field_chars(line: &Vec<char>) -> (b: bool)
        ensures
            b == pub_field(line@),
    {
        let a = leading_white_space(line);
        let t = crate::text::slice_chars(line, a, line.len());
        assert(t@ =~= line@.skip(a as int));
        if !starts_with_str(&t, "pub ") {
            return false;
        }
        proof {
            reveal_strlit("pub ");
        }
        let rest = crate::text::slice_chars(&t, 4, t.len());
        let mut w: usize = 0;
        assert(rest@.skip(0) =~= rest@);
        while w < rest.len() && (is_alphanumeric(rest[w]) || rest[w] == '_')
            invariant
                w <= rest.len(),
                word_len(rest@) == w + word_len(rest@.skip(w as int)),
            decreases rest.len() - w,
        {
            assert(rest@.skip(w as int).drop_first() =~= rest@.skip(w + 1));
            w = w + 1;
        }
        assert(word_len(rest@) == w);
        if w == 0 {
            return false;
        }
        let word = crate::text::slice_chars(&rest, 0, w);
        assert(word@ =~= rest@.take(w as int));
        if Self::is_keyword(&word) {
            return false;
        }
        let after = crate::text::slice_chars(&rest, w, rest.len());
        assert(after@ =~= rest@.skip(w as int));
        let b = leading_white_space(&after);
        let tail = crate::text::slice_chars(&after, b, after.len());
        assert(tail@ =~= after@.skip(b as int));
        starts_with_str(&tail, ":")
    }
}

impl LineLimitRule {
    /// Lists `path (<n> linhas)` for each file with `LineLimitRule::LIMIT` lines or more.
    pub fn check(files: &Vec<(String, String)>) -> (hits: Vec<String>)
        ensures
            hits@.map_values(|h: String| h@) == limit_hits(file_views(files@)),
    {
        let mut hits: Vec<String> = Vec::new();
        let mut i: usize = 0;
        while i < files.len()
            invariant
                i <= files.len(),
                hits@.map_values(|h: String| h@) == limit_hits(file_views(files@).take(i as int)),
            decreases files.len() - i,
        {
            let ghost views = file_views(files@);
            assert(views.take(i + 1).drop_last() =~= views.take(i as int));
            let content = chars_of(files[i].1.as_str());
            let n = split_lines(&content).len();
            if n >= LineLimitRule::LIMIT {
                let mut v: Vec<char> = Vec::new();
                push_str(&mut v, files[i].0.as_str());
                push_str(&mut v, " (");
                push_decimal(&mut v, n as u64);
                push_str(&mut v, " linhas)");
                let h = string_from_chars(v);
                let ghost before = hits@.map_values(|h: String| h@);
                hits.push(h);
                assert(hits@.map_values(|h: String| h@) =~= before.push(h@));
            } else {
                assert(hits@.map_values(|h: String| h@) =~= limit_hits(views.take(i + 1)));
            }
            i = i + 1;
        }
        assert(file_views(files@).take(files.len() as int) =~= file_views(files@));
        hits
    }
}

// Scans every file for lines that the chosen rule flags.
fn scan_files(files: &Vec<(String, String)>, bare: bool) -> (hits: Vec<String>)
    ensures
        hits@.map_values(|h: String| h@) == file_hits(
            file_views(files@),
            if bare {
                |l: Seq<char>| bare_pub(l)
            } else {
                |l: Seq<char>| pub_field(l)
            },
        ),
{
    let ghost flag = if bare {
        |l: Seq<char>| bare_pub(l)
    } else {
        |l: Seq<char>| pub_field(l)
    };
    let mut hits: Vec<String> = Vec::new();
    let mut i: usize = 0;
    while i < files.len()
        invariant
            i <= files.len(),
            flag == (if bare {
                |l: Seq<char>| bare_pub(l)
            } else {
                |l: Seq<char>| pub_field(l)
            }),
            hits@.map_values(|h: String| h@) == file_hits(file_views(files@).take(i as int), flag),
        decreases files.len() - i,
    {
        let ghost views = file_views(files@);
        assert(views.take(i + 1).drop_last() =~= views.take(i as int));
        let path = files[i].0.as_str();
        let content = chars_of(files[i].1.as_str());
        let ls = split_lines(&content);
        let ghost base = hits@.map_values(|h: String| h@);
        let ghost all = lines(content@);
        let mut j: usize = 0;
        while j < ls.len()
            invariant
                j <= ls.len(),
                ls@.len() == all.len(),
                forall|k: int| 0 <= k < ls@.len() ==> #[trigger] ls@[k]@ == all[k],
                flag == (if bare {
                    |l: Seq<char>| bare_pub(l)
                } else {
                    |l: Seq<char>| pub_field(l)
                }),
                hits@.map_values(|h: String| h@) == base + line_hits(path@, all.take(j as int), flag),
            decreases ls.len() - j,
        {
            assert(all.take(j + 1).drop_last() =~= all.take(j as int));
            assert(all.take(j + 1).last() == ls@[j as int]@);
            let flagged = if bare {
                BinVisibilityRule::bare_pub_chars(&ls[j])
            } else {
                PubFieldsRule::pub_field_chars(&ls[j])
            };
            if flagged {
                let h = hit(path, (j + 1) as u64);
                let ghost before = hits@.map_values(|h: String| h@);
                hits.push(h);
                assert(hits@.map_values(|h: String| h@) =~= before.push(h@));
            } else {
                assert(hits@.map_values(|h: String| h@) =~= base + line_hits(path@, all.take(j + 1), flag));
            }
            j = j + 1;
        }
        assert(all.take(ls.len() as int) =~= all);
        i = i + 1;
    }
    assert(file_views(files@).take(files.len() as int) =~= file_views(files@));
    hits
}


/// A lint rule that the build tool can run.
#[derive(Debug, Clone, Copy, PartialEq, Eq, Structural)]
pub enum LintRule {
    /// The line limit, over `crates`.
    LineLimit,
    /// No public fields, over `crates`.
    PubFields,
    /// No bare `pub` in the binary, over `crates/app/src`.
    BinVisibility,
}

/// The rules that a build-tool command runs, in order: each rule by its own
/// name, all three for `check`, none for any other command.
pub open spec fn command_rules(command: Seq<char>) -> Option<Seq<LintRule>> {
    if command == "line-limit"@ {
        Some(seq![LintRule::LineLimit])
    } else if command == "pub-fields"@ {
        Some(seq![LintRule::PubFields])
    } else if command == "bin-visibility"@ {
        Some(seq![LintRule::BinVisibility])
    } else if command == "check"@ {
        Some(seq![LintRule::LineLimit, LintRule::PubFields, LintRule::BinVisibility])
    } else {
        None
    }
}

// `s` is exactly the text `t`.
fn is_text(s: &Vec<char>, t: &str) -> (b: bool)
    ensures
        b == (s@ == t@),
{
    let tc = chars_of(t);
    if s.len() != tc.len() {
        return false;
    }
    let r = has_prefix(s, &tc);
    assert(s@.subrange(0, tc@.len() as int) =~= s@);
    r
}

impl LintRule {
    /// The rules that the build-tool command `command` runs; `None` for a
    /// command it does not know, for which it prints its usage and fails.
    pub fn rules_for(command: &str) -> (r: Option<Vec<LintRule>>)
        ensures
            match r {
                Some(v) => command_rules(command@) == Some(v@),
                None => command_rules(command@) is None,
            },
    {
        let c = chars_of(command);
        if is_text(&c, "line-limit") {
            Some(vec![LintRule::LineLimit])
        } else if is_text(&c, "pub-fields") {
            Some(vec![LintRule::PubFields])
        } else if is_text(&c, "bin-visibility") {
            Some(vec![LintRule::BinVisibility])
        } else if is_text(&c, "check") {
            Some(vec![LintRule::LineLimit, LintRule::PubFields, LintRule::BinVisibility])
        } else {
            None
        }
    }
}

/// Every character of an identifier (alphanumeric, in the sense of
/// `char::is_alphanumeric`, or `_`) counts toward the word at the start of a
/// line's rest: a word `w` of such characters followed by `t` is `w` plus the
/// word that starts `t`.
pub proof fn lemma_word_covers_identifier(w: Seq<char>, t: Seq<char>)
    requires
        forall|i: int| 0 <= i < w.len() ==> unicode_alphanumeric(#[trigger] w[i]) || w[i] == '_',
    ensures
        word_len(w + t) == w.len() + word_len(t),
    decreases w.len(),
{
    if w.len() > 0 {
        assert((w + t)[0] == w[0]);
        assert((w + t).drop_first() =~= w.drop_first() + t);
        lemma_word_covers_identifier(w.drop_first(), t);
    } else {
        assert(w + t =~= t);
    }
}

/// A line `pub <ident>: ...`, after any indentation, is flagged as a public
/// field for every identifier `<ident>` (alphanumeric characters and `_`,
/// `file_name` as well as `name`) that is not an item keyword. The colon is
/// not alphanumeric, which the statement takes as given.
pub proof fn lemma_pub_field_flags_identifiers(indent: Seq<char>, w: Seq<char>, rest: Seq<char>)
    requires
        forall|i: int| 0 <= i < indent.len() ==> is_white_space(#[trigger] indent[i]),
        w.len() > 0,
        forall|i: int| 0 <= i < w.len() ==> unicode_alphanumeric(#[trigger] w[i]) || w[i] == '_',
        !item_keyword(w),
        !unicode_alphanumeric(':'),
    ensures
        pub_field(indent + "pub "@ + w + ":"@ + rest),
{
    reveal_strlit("pub ");
    reveal_strlit(":");
    let line = indent + "pub "@ + w + ":"@ + rest;
    let x = "pub "@ + w + ":"@ + rest;
    assert(line.skip(indent.len() as int) =~= x);
    assert forall|k: int| 0 <= k < indent.len() implies is_white_space(#[trigger] line[k]) by {
        assert(line[k] == indent[k]);
    }
    lemma_trim_start_skip(line, indent.len() as int);
    assert(x[0] == 'p');
    assert(trim_start(x) == x);
    assert(x.subrange(0, 4) =~= "pub "@);
    let r = x.skip(4);
    let c = ":"@ + rest;
    assert(r =~= w + c);
    lemma_word_covers_identifier(w, c);
    assert(c[0] == ':');
    assert(word_len(c) == 0);
    assert(r.take(w.len() as int) =~= w);
    assert(r.skip(w.len() as int) =~= c);
    assert(trim_start(c) == c);
    assert(c.subrange(0, 1) =~= ":"@);
}

} // verus!
