//! Reading `/proc/mounts`: the mount point of a block device or of one of its
//! partitions.
use vstd::prelude::*;
use crate::text::{
    all_digits, chars_of, find_char, has_prefix, index_of, is_digit, lemma_index_of,
    lemma_replace_all_leaves_none, lemma_replace_all_splits, lemma_replace_all_untouched, lines,
    occurs_at, occurs_before, replace, replace_all, slice_chars, split_lines, starts_with,
    string_from_chars,
};

verus! {

/// Locates partition mount points in the text of `/proc/mounts`.
pub struct MountTable;

/// `dev` is the device `name` itself or a partition of it: `name` followed
/// only by ASCII digits.
pub open spec fn device_matches(dev: Seq<char>, name: Seq<char>) -> bool {
    starts_with(dev, name) && all_digits(dev.skip(name.len() as int))
}

/// A mount path with the octal escapes of `/proc/mounts` decoded, in this
/// order: `\040` to a space, `\011` to a tab, `\134` to a backslash.
pub open spec fn decoded(raw: Seq<char>) -> Seq<char> {
    replace_all(
        replace_all(replace_all(raw, "\\040"@, " "@), "\\011"@, "\t"@),
        "\\134"@,
        "\\"@,
    )
}

/// The mount point that one line of the table names for `name`: the line's
/// first space-separated field must be `/dev/<dev>` with `dev` matching `name`,
/// and its second field, decoded, is the mount point.
pub open spec fn entry_mount_point(line: Seq<char>, name: Seq<char>) -> Option<Seq<char>> {
    let a = index_of(line, ' ', 0);
    if a >= line.len() {
        None
    } else {
        let source = line.take(a);
        let mount = line.subrange(a + 1, index_of(line, ' ', a + 1));
        if starts_with(source, "/dev/"@) && device_matches(
            source.skip("/dev/"@.len() as int),
            name,
        ) {
            Some(decoded(mount))
        } else {
            None
        }
    }
}

/// The mount point named by the first line of `ls` that names one for `name`.
pub open spec fn first_mount_point(ls: Seq<Seq<char>>, name: Seq<char>) -> Option<Seq<char>>
    decreases ls.len(),
{
    if ls.len() == 0 {
        None
    } else {
        match entry_mount_point(ls[0], name) {
            Some(m) => Some(m),
            None => first_mount_point(ls.drop_first(), name),
        }
    }
}

/// The mount point that the table `contents` gives for the device `name`.
pub open spec fn mount_point_of(contents: Seq<char>, name: Seq<char>) -> Option<Seq<char>> {
    first_mount_point(lines(contents), name)
}

impl MountTable {
    /// First mount point whose device is `/dev/<name>` or `/dev/<name><digits>`.
    pub fn mount_point_for(contents: &str, name: &str) -> (r: Option<String>)
        ensures
            match r {
                Some(m) => mount_point_of(contents@, name@) == Some(m@),
                None => mount_point_of(contents@, name@) is None,
            },
    {
        let text = chars_of(contents);
        let wanted = chars_of(name);
        let ls = split_lines(&text);
        let ghost all = lines(text@);
        assert(all.skip(0) =~= all);
        let mut j: usize = 0;
        while j < ls.len()
            invariant
                j <= ls.len(),
                ls@.len() == all.len(),
                all == lines(contents@),
                wanted@ == name@,
                forall|i: int| 0 <= i < ls@.len() ==> #[trigger] ls@[i]@ == all[i],
                first_mount_point(all, name@) == first_mount_point(all.skip(j as int), name@),
            decreases ls.len() - j,
        {
            assert(all.skip(j as int)[0] == all[j as int]);
            assert(all.skip(j as int).drop_first() =~= all.skip(j + 1));
            if let Some(m) = Self::line_mount_point(&ls[j], &wanted) {
                return Some(m);
            }
            j = j + 1;
        }
        None
    }

    // The mount point that one line names for `name`, if any.
    fn line_mount_point(line: &Vec<char>, name: &Vec<char>) -> (r: Option<String>)
        ensures
            match r {
                Some(m) => entry_mount_point(line@, name@) == Some(m@),
                None => entry_mount_point(line@, name@) is None,
            },
    {
        let a = find_char(line, ' ', 0);
        proof {
            lemma_index_of(line@, ' ', 0);
        }
        if a >= line.len() {
            return None;
        }
        let b = find_char(line, ' ', a + 1);
        proof {
            lemma_index_of(line@, ' ', a + 1);
        }
        let source = slice_chars(line, 0, a);
        let prefix = chars_of("/dev/");
        if !has_prefix(&source, &prefix) {
            assert(source@ =~= line@.take(a as int));
            return None;
        }
        let dev = slice_chars(&source, prefix.len(), source.len());
        assert(source@ =~= line@.take(a as int));
        assert(dev@ =~= source@.skip("/dev/"@.len() as int));
        if !Self::matches(&dev, name) {
            return None;
        }
        let mount = slice_chars(line, a + 1, b);
        Some(Self::decode(&mount))
    }

    // `dev` is the device `name` itself or a partition `name<digits>`.
    fn matches(dev: &Vec<char>, name: &Vec<char>) -> (b: bool)
        ensures
            b == device_matches(dev@, name@),
    {
        if !has_prefix(dev, name) {
            return false;
        }
        let mut i = name.len();
        while i < dev.len()
            invariant
                name.len() <= i <= dev.len(),
                forall|k: int| name.len() <= k < i ==> is_digit(#[trigger] dev@[k]),
            decreases dev.len() - i,
        {
            let v = dev[i] as u32;
            if v < 48 || v > 57 {
                assert(dev@.skip(name.len() as int)[i - name.len()] == dev@[i as int]);
                return false;
            }
            i = i + 1;
        }
        assert forall|k: int| 0 <= k < dev@.skip(name.len() as int).len() implies is_digit(
            #[trigger] dev@.skip(name.len() as int)[k],
        ) by {
            assert(dev@.skip(name.len() as int)[k] == dev@[name.len() + k]);
        }
        true
    }

    // Decodes the octal escapes of `/proc/mounts` (`\040` becomes a space).
    fn decode(raw: &Vec<char>) -> (r: String)
        ensures
            r@ == decoded(raw@),
    {
        let space = chars_of("\\040");
        let tab = chars_of("\\011");
        let backslash = chars_of("\\134");
        proof {
            reveal_strlit("\\040");
            reveal_strlit("\\011");
            reveal_strlit("\\134");
        }
        let s1 = replace(raw, &space, &chars_of(" "));
        let s2 = replace(&s1, &tab, &chars_of("\t"));
        let s3 = replace(&s2, &backslash, &chars_of("\\"));
        string_from_chars(s3)
    }
}

/// Every backslash of `raw` begins a `\040` escape.
pub open spec fn only_space_escapes(raw: Seq<char>) -> bool {
    forall|i: int| 0 <= i < raw.len() && raw[i] == '\\' ==> occurs_at(raw, "\\040"@, i)
}

/// `s` holds no backslash.
pub open spec fn no_backslash(s: Seq<char>) -> bool {
    forall|i: int| 0 <= i < s.len() ==> s[i] != '\\'
}

proof fn lemma_escape_literals()
    ensures
        "\\040"@ == seq!['\\', '0', '4', '0'],
        "\\011"@ == seq!['\\', '0', '1', '1'],
        "\\134"@ == seq!['\\', '1', '3', '4'],
        " "@ == seq![' '],
        "\t"@ == seq!['\t'],
{
    reveal_strlit("\\040");
    reveal_strlit("\\011");
    reveal_strlit("\\134");
    reveal_strlit(" ");
    reveal_strlit("\t");
    assert("\\040"@ =~= seq!['\\', '0', '4', '0']);
    assert("\\011"@ =~= seq!['\\', '0', '1', '1']);
    assert("\\134"@ =~= seq!['\\', '1', '3', '4']);
    assert(" "@ =~= seq![' ']);
    assert("\t"@ =~= seq!['\t']);
}

/// A mount path whose only escapes are `\040` decodes with every one of them
/// turned into a space and no backslash left.
pub proof fn lemma_decoded_spaces(raw: Seq<char>)
    requires
        only_space_escapes(raw),
    ensures
        no_backslash(decoded(raw)),
        decoded(raw) == replace_all(raw, "\\040"@, " "@),
{
    lemma_escape_literals();
    let r1 = replace_all(raw, "\\040"@, " "@);
    lemma_replace_all_leaves_none(raw, "\\040"@, " "@);
    assert(no_backslash(r1)) by {
        assert forall|i: int| 0 <= i < r1.len() implies r1[i] != '\\' by {
            assert(r1[i] != "\\040"@[0]);
        }
    }
    lemma_replace_all_untouched(r1, "\\011"@, "\t"@);
    lemma_replace_all_untouched(r1, "\\134"@, "\\"@);
}

/// Decoding goes on after the first escape: a path made of a part `a` with no
/// backslash, a `\040`, and a rest `b` whose only escapes are `\040` decodes
/// to `a`, a space, and the decoded rest.
pub proof fn lemma_decoded_split(a: Seq<char>, b: Seq<char>)
    requires
        no_backslash(a),
        only_space_escapes(b),
    ensures
        decoded(a + "\\040"@ + b) == a + " "@ + decoded(b),
{
    lemma_escape_literals();
    let p = "\\040"@;
    let s = a + p + b;
    assert(!occurs_before(s, p, a.len() as int)) by {
        if occurs_before(s, p, a.len() as int) {
            let i = choose|i: int| 0 <= i < a.len() && occurs_at(s, p, i);
            assert(s.subrange(i, i + p.len())[0] == s[i]);
            assert(s[i] == a[i]);
        }
    }
    lemma_replace_all_splits(a, p, b, " "@);
    assert(only_space_escapes(s)) by {
        assert forall|i: int| 0 <= i < s.len() && s[i] == '\\' implies occurs_at(s, p, i) by {
            if i < a.len() {
                assert(s[i] == a[i]);
            } else if i < a.len() + p.len() {
                assert(s[i] == p[i - a.len()]);
                assert(i == a.len());
                assert(s.subrange(i, i + p.len()) =~= p);
            } else {
                let j = i - a.len() - p.len();
                assert(s[i] == b[j]);
                assert(occurs_at(b, p, j));
                assert(s.subrange(i, i + p.len()) =~= b.subrange(j, j + p.len()));
            }
        }
    }
    lemma_decoded_spaces(s);
    lemma_decoded_spaces(b);
}

} // verus!
