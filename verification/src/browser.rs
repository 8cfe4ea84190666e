//! Choices of the device browser: which directory entries of `/sys/block/<dev>`
//! are partitions, in which order they are tried, and what the search for a
//! mountable partition reports.
use vstd::prelude::*;
use crate::domain::BrowseError;
use crate::text::{chars_of, has_prefix, starts_with};
use crate::udisks::Udisks2DeviceBrowser;

verus! {

broadcast use vstd::seq_lib::group_seq_properties;

/// `a` comes no later than `b` in the order of `String`: code point by code
/// point, a prefix first.
pub open spec fn lex_le(a: Seq<char>, b: Seq<char>) -> bool
    decreases a.len(),
{
    if a.len() == 0 {
        true
    } else if b.len() == 0 {
        false
    } else if (a[0] as int) < (b[0] as int) {
        true
    } else if a[0] == b[0] {
        lex_le(a.drop_first(), b.drop_first())
    } else {
        false
    }
}

/// Any two names are ordered one way or the other.
pub proof fn lemma_lex_total(a: Seq<char>, b: Seq<char>)
    ensures
        lex_le(a, b) || lex_le(b, a),
    decreases a.len(),
{
    if a.len() > 0 && b.len() > 0 && a[0] == b[0] {
        lemma_lex_total(a.drop_first(), b.drop_first());
    }
    if a.len() > 0 && b.len() > 0 && a[0] != b[0] {
        assert((a[0] as int) != (b[0] as int));
    }
}

/// The order is transitive.
pub proof fn lemma_lex_transitive(a: Seq<char>, b: Seq<char>, c: Seq<char>)
    requires
        lex_le(a, b),
        lex_le(b, c),
    ensures
        lex_le(a, c),
    decreases a.len(),
{
    if a.len() > 0 && b.len() > 0 && c.len() > 0 && a[0] == b[0] && b[0] == c[0] {
        lemma_lex_transitive(a.drop_first(), b.drop_first(), c.drop_first());
    }
}

/// `entry` names a partition of the device `name`: it starts with `name` and
/// is longer.
pub open spec fn is_partition_of(entry: Seq<char>, name: Seq<char>) -> bool {
    starts_with(entry, name) && entry.len() > name.len()
}

/// The texts of a list of strings.
pub open spec fn texts(v: Seq<String>) -> Seq<Seq<char>> {
    v.map_values(|s: String| s@)
}

/// Each name is no later than the ones after it.
pub open spec fn sorted_names(s: Seq<Seq<char>>) -> bool {
    forall|i: int, j: int| 0 <= i < j < s.len() ==> lex_le(s[i], s[j])
}

/// The partitions of `name` among `entries`.
pub open spec fn partitions_among(entries: Seq<Seq<char>>, name: Seq<char>) -> Seq<Seq<char>> {
    entries.filter(|e: Seq<char>| is_partition_of(e, name))
}

fn lex_le_exec(a: &Vec<char>, b: &Vec<char>) -> (r: bool)
    ensures
        r == lex_le(a@, b@),
{
    let mut i: usize = 0;
    assert(a@.skip(0) =~= a@);
    assert(b@.skip(0) =~= b@);
    while i < a.len() && i < b.len() && a[i] == b[i]
        invariant
            i <= a.len(),
            i <= b.len(),
            lex_le(a@, b@) == lex_le(a@.skip(i as int), b@.skip(i as int)),
        decreases a.len() - i,
    {
        assert(a@.skip(i as int).drop_first() =~= a@.skip(i + 1));
        assert(b@.skip(i as int).drop_first() =~= b@.skip(i + 1));
        i = i + 1;
    }
    if i == a.len() {
        true
    } else if i == b.len() {
        false
    } else {
        assert(a@.skip(i as int)[0] == a@[i as int]);
        assert(b@.skip(i as int)[0] == b@[i as int]);
        a[i] < b[i]
    }
}

impl Udisks2DeviceBrowser {
    /// Creates the browser.
    pub fn new() -> (r: Udisks2DeviceBrowser)
        ensures
            r == Udisks2DeviceBrowser,
    {
        Udisks2DeviceBrowser
    }

    /// The partition names of device `name` among the entries of its sysfs
    /// directory (such as `sdb1`, `sdb2`), in ascending order.
    pub fn partitions(name: &str, entries: &Vec<String>) -> (r: Vec<String>)
        ensures
            sorted_names(texts(r@)),
            texts(r@).to_multiset() == partitions_among(texts(entries@), name@).to_multiset(),
    {
        let n = chars_of(name);
        let mut r: Vec<String> = Vec::new();
        let mut rc: Vec<Vec<char>> = Vec::new();
        let ghost all = texts(entries@);
        let ghost pred = |e: Seq<char>| is_partition_of(e, name@);
        let mut i: usize = 0;
        assert(texts(r@) =~= Seq::<Seq<char>>::empty());
        assert(all.take(0) =~= Seq::<Seq<char>>::empty());
        while i < entries.len()
            invariant
                i <= entries.len(),
                n@ == name@,
                all == texts(entries@),
                pred == (|e: Seq<char>| is_partition_of(e, name@)),
                rc@.len() == r@.len(),
                forall|k: int| 0 <= k < r@.len() ==> #[trigger] rc@[k]@ == r@[k]@,
                sorted_names(texts(r@)),
                texts(r@).to_multiset() == all.take(i as int).filter(pred).to_multiset(),
            decreases entries.len() - i,
        {
            let e = chars_of(entries[i].as_str());
            assert(all.take(i + 1) =~= all.take(i as int).push(e@));
            assert(pred(e@) == is_partition_of(e@, name@));
            proof {
                all.take(i as int).lemma_filter_push(e@, pred);
            }
            if e.len() > n.len() && has_prefix(&e, &n) {
                let mut k: usize = 0;
                while k < rc.len() && lex_le_exec(&rc[k], &e)
                    invariant
                        k <= rc@.len(),
                        rc@.len() == r@.len(),
                        forall|j: int| 0 <= j < r@.len() ==> #[trigger] rc@[j]@ == r@[j]@,
                        forall|j: int| 0 <= j < k ==> lex_le(#[trigger] r@[j]@, e@),
                    decreases rc.len() - k,
                {
                    k = k + 1;
                }
                let ghost old_texts = texts(r@);
                proof {
                    assert forall|j: int| k <= j < old_texts.len() implies lex_le(
                        e@,
                        #[trigger] old_texts[j],
                    ) by {
                        lemma_lex_total(old_texts[k as int], e@);
                        if j > k {
                            lemma_lex_transitive(e@, old_texts[k as int], old_texts[j]);
                        }
                    }
                }
                r.insert(k, entries[i].clone());
                rc.insert(k, e);
                proof {
                    assert(texts(r@) =~= old_texts.insert(k as int, e@));
                    vstd::seq_lib::to_multiset_insert(old_texts, k as int, e@);
                    vstd::seq_lib::to_multiset_build(all.take(i as int).filter(pred), e@);
                    assert forall|a: int, b: int| 0 <= a < b < texts(r@).len() implies lex_le(
                        texts(r@)[a],
                        texts(r@)[b],
                    ) by {
                        if a < k && b > k {
                            lemma_lex_transitive(old_texts[a], e@, old_texts[b - 1]);
                        }
                    }
                }
            }
            i = i + 1;
        }
        assert(all.take(entries.len() as int) =~= all);
        r
    }
}

/// The search for a partition that mounts: the partitions in the order they
/// are tried, how many have failed, and the last failure (no filesystem at all
/// when there is no partition).
pub struct MountSearch {
    parts: Vec<String>,
    tried: usize,
    last: BrowseError,
}

impl MountSearch {
    /// Partitions in the order they are tried.
    pub closed spec fn spec_parts(&self) -> Seq<String> {
        self.parts@
    }

    /// Number of partitions that failed so far.
    pub closed spec fn spec_tried(&self) -> nat {
        self.tried as nat
    }

    /// The failure to report if no partition mounts.
    pub closed spec fn spec_last(&self) -> BrowseError {
        self.last
    }

    /// Starts the search over `parts`.
    pub fn new(parts: Vec<String>) -> (r: MountSearch)
        ensures
            r.spec_parts() == parts@,
            r.spec_tried() == 0,
            r.spec_last() == BrowseError::NoFilesystem,
    {
        MountSearch { parts, tried: 0, last: BrowseError::NoFilesystem }
    }

    /// The next partition to try, if any is left.
    pub fn next_partition(&self) -> (r: Option<&String>)
        ensures
            match r {
                Some(p) => self.spec_tried() < self.spec_parts().len() && *p == self.spec_parts()[self.spec_tried() as int],
                None => self.spec_tried() >= self.spec_parts().len(),
            },
    {
        if self.tried < self.parts.len() {
            Some(&self.parts[self.tried])
        } else {
            None
        }
    }

    /// Records that the current partition failed to mount with `e`.
    pub fn record_failure(&mut self, e: BrowseError)
        requires
            old(self).spec_tried() < old(self).spec_parts().len(),
        ensures
            final(self).spec_parts() == old(self).spec_parts(),
            final(self).spec_tried() == old(self).spec_tried() + 1,
            final(self).spec_last() == e,
    {
        let n = self.parts.len();
        assert(self.tried < n);
        self.tried = self.tried + 1;
        self.last = e;
    }

    /// The error of a search in which no partition mounted: the last failure,
    /// or no filesystem when there was no partition.
    pub fn failure(self) -> (e: BrowseError)
        ensures
            e == self.spec_last(),
    {
        self.last
    }

    /// What the search does next: mount the next partition, or give up with
    /// the last failure once every partition has been tried.
    pub fn step(&self) -> (r: BrowseStep)
        ensures
            r == next_step(self.spec_parts(), self.spec_tried(), self.spec_last()),
    {
        if self.tried < self.parts.len() {
            BrowseStep::Mount(self.parts[self.tried].clone())
        } else {
            BrowseStep::Fail(self.last.duplicate())
        }
    }

    /// Takes the outcome of mounting the partition that `step` named: a
    /// mounted partition is opened at once; a failure is recorded and the
    /// search moves on.
    pub fn after_mount(&mut self, outcome: Result<String, BrowseError>) -> (r: BrowseStep)
        requires
            old(self).spec_tried() < old(self).spec_parts().len(),
        ensures
            match outcome {
                Ok(path) => r == BrowseStep::Launch(path) && *final(self) == *old(self),
                Err(e) => {
                    &&& final(self).spec_parts() == old(self).spec_parts()
                    &&& final(self).spec_tried() == old(self).spec_tried() + 1
                    &&& final(self).spec_last() == e
                    &&& r == next_step(final(self).spec_parts(), final(self).spec_tried(), e)
                },
            },
    {
        match outcome {
            Ok(path) => BrowseStep::Launch(path),
            Err(e) => {
                self.record_failure(e);
                self.step()
            },
        }
    }
}

/// A step of opening a device in the file manager.
#[derive(Debug, PartialEq, Eq)]
pub enum BrowseStep {
    /// Open the file manager at this mount point.
    Launch(String),
    /// Mount this partition through udisks2.
    Mount(String),
    /// Report this failure.
    Fail(BrowseError),
}

/// The step after `tried` of the partitions `parts` have failed, the last with
/// `last`.
pub open spec fn next_step(parts: Seq<String>, tried: nat, last: BrowseError) -> BrowseStep {
    if tried < parts.len() {
        BrowseStep::Mount(parts[tried as int])
    } else {
        BrowseStep::Fail(last)
    }
}

impl Udisks2DeviceBrowser {
    /// The first step of opening a device: a partition of it that is already
    /// mounted is opened where it is; otherwise the search over its
    /// partitions begins.
    pub fn run(mounted: Option<String>, search: &MountSearch) -> (r: BrowseStep)
        ensures
            match mounted {
                Some(path) => r == BrowseStep::Launch(path),
                None => r == next_step(search.spec_parts(), search.spec_tried(), search.spec_last()),
            },
    {
        match mounted {
            Some(path) => BrowseStep::Launch(path),
            None => search.step(),
        }
    }
}

} // verus!
