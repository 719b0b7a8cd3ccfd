//! Ordered lists of crate releases in which nothing occurs twice.

use vstd::prelude::*;

use crate::text::{precedes, same_text, text_lt};
use crate::text::{text_order_is_irreflexive, text_order_is_total, text_order_is_transitive};

verus! {

/// A release of a crate, mathematically.
pub struct ReleaseView {
    pub name: Seq<char>,
    pub version: Seq<char>,
}

/// A release of a crate: its name and its version.
#[derive(Debug)]
pub struct Release {
    pub name: String,
    pub version: String,
}

impl View for Release {
    type V = ReleaseView;

    open spec fn view(&self) -> ReleaseView {
        ReleaseView { name: self.name@, version: self.version@ }
    }
}

/// The order of releases: by name, then by version, each as a string.
pub open spec fn release_lt(a: ReleaseView, b: ReleaseView) -> bool {
    text_lt(a.name, b.name) || (a.name == b.name && text_lt(a.version, b.version))
}

/// Every release comes before those that follow it.
pub open spec fn strictly_sorted(releases: Seq<ReleaseView>) -> bool {
    forall|i: int, j: int|
        0 <= i < j < releases.len() ==> release_lt(#[trigger] releases[i], #[trigger] releases[j])
}

/// The releases of a list.
pub open spec fn release_views(releases: Seq<Release>) -> Seq<ReleaseView> {
    releases.map_values(|release: Release| release@)
}

/// No release comes before itself.
pub proof fn release_order_is_irreflexive(a: ReleaseView)
    ensures
        !release_lt(a, a),
{
    text_order_is_irreflexive(a.name);
    text_order_is_irreflexive(a.version);
}

/// If `a` comes before `b` and `b` before `c`, `a` comes before `c`.
pub proof fn release_order_is_transitive(a: ReleaseView, b: ReleaseView, c: ReleaseView)
    requires
        release_lt(a, b),
        release_lt(b, c),
    ensures
        release_lt(a, c),
{
    if text_lt(a.name, b.name) && text_lt(b.name, c.name) {
        text_order_is_transitive(a.name, b.name, c.name);
    } else if a.name == b.name && b.name == c.name {
        text_order_is_transitive(a.version, b.version, c.version);
    }
}

/// Of two different releases one comes before the other.
pub proof fn release_order_is_total(a: ReleaseView, b: ReleaseView)
    ensures
        release_lt(a, b) || a == b || release_lt(b, a),
{
    text_order_is_total(a.name, b.name);
    text_order_is_total(a.version, b.version);
}

/// A strictly sorted list is determined by which releases are in it.
pub proof fn sorted_releases_are_determined(a: Seq<ReleaseView>, b: Seq<ReleaseView>)
    requires
        strictly_sorted(a),
        strictly_sorted(b),
        forall|release: ReleaseView| #[trigger] a.contains(release) <==> b.contains(release),
    ensures
        a == b,
    decreases a.len(),
{
    if a.len() == 0 {
        if b.len() > 0 {
            assert(b.contains(b[0]) && !a.contains(b[0]));
        }
    } else {
        assert(a.contains(a[0]));
        assert(b.contains(b[0]) && a.contains(b[0]));
        let k = choose|k: int| 0 <= k < b.len() && b[k] == a[0];
        let m = choose|m: int| 0 <= m < a.len() && a[m] == b[0];
        if k > 0 {
            assert(release_lt(b[0], a[0]));
            if m > 0 {
                release_order_is_transitive(b[0], a[0], b[0]);
            }
            release_order_is_irreflexive(b[0]);
        }
        let a_rest = a.drop_first();
        let b_rest = b.drop_first();
        assert forall|release: ReleaseView| #[trigger]
            a_rest.contains(release) <==> b_rest.contains(release) by {
            first_does_not_recur(a);
            first_does_not_recur(b);
            membership_of_rest(a, release);
            membership_of_rest(b, release);
            assert(a.contains(release) <==> b.contains(release));
        }
        sorted_releases_are_determined(a_rest, b_rest);
        assert(a == seq![a[0]] + a_rest);
        assert(b == seq![b[0]] + b_rest);
    }
}

proof fn first_does_not_recur(a: Seq<ReleaseView>)
    requires
        strictly_sorted(a),
        a.len() > 0,
    ensures
        !a.drop_first().contains(a[0]),
{
    if a.drop_first().contains(a[0]) {
        let k = choose|k: int| 0 <= k < a.drop_first().len() && a.drop_first()[k] == a[0];
        assert(release_lt(a[0], a[k + 1]));
        release_order_is_irreflexive(a[0]);
    }
}

proof fn membership_of_rest(a: Seq<ReleaseView>, release: ReleaseView)
    requires
        a.len() > 0,
    ensures
        a.contains(release) <==> release == a[0] || a.drop_first().contains(release),
{
    if a.contains(release) && release != a[0] {
        let k = choose|k: int| 0 <= k < a.len() && a[k] == release;
        assert(a.drop_first()[k - 1] == release);
    }
    if a.drop_first().contains(release) {
        let k = choose|k: int| 0 <= k < a.drop_first().len() && a.drop_first()[k] == release;
        assert(a[k + 1] == release);
    }
}

/// Whether release `a` comes before release `b`.
pub fn release_precedes(a: &Release, b: &Release) -> (before: bool)
    ensures
        before == release_lt(a@, b@),
{
    precedes(a.name.as_str(), b.name.as_str()) || (same_text(a.name.as_str(), b.name.as_str())
        && precedes(a.version.as_str(), b.version.as_str()))
}

/// The releases in a list, each once, in order.
#[derive(Debug)]
pub struct ReleaseSet {
    releases: Vec<Release>,
}

impl View for ReleaseSet {
    type V = Seq<ReleaseView>;

    closed spec fn view(&self) -> Seq<ReleaseView> {
        release_views(self.releases@)
    }
}

impl ReleaseSet {
    #[verifier::type_invariant]
    spec fn is_sorted(self) -> bool {
        strictly_sorted(self@)
    }

    /// No releases.
    pub fn new() -> (set: ReleaseSet)
        ensures
            set@ == Seq::<ReleaseView>::empty(),
    {
        ReleaseSet { releases: Vec::new() }
    }

    /// The releases, in order.
    pub fn releases(&self) -> (releases: &Vec<Release>)
        ensures
            release_views(releases@) == self@,
            strictly_sorted(self@),
    {
        proof {
            use_type_invariant(self);
        }
        &self.releases
    }

    /// Adds a release, at its place, unless it is there already.
    pub fn insert(&mut self, release: Release)
        ensures
            strictly_sorted(final(self)@),
            forall|other: ReleaseView| #[trigger]
                final(self)@.contains(other) <==> other == release@ || old(self)@.contains(other),
    {
        proof {
            use_type_invariant(&*self);
        }
        let mut releases: Vec<Release> = Vec::new();
        std::mem::swap(&mut releases, &mut self.releases);
        insert_release(&mut releases, release);
        self.releases = releases;
    }
}

/// Adds a release to a sorted list, at its place, unless the list has it already.
fn insert_release(releases: &mut Vec<Release>, release: Release)
    requires
        strictly_sorted(release_views(old(releases)@)),
    ensures
        strictly_sorted(release_views(final(releases)@)),
        forall|other: ReleaseView| #[trigger]
            release_views(final(releases)@).contains(other) <==> other == release@
                || release_views(old(releases)@).contains(other),
{
    let ghost before = release_views(releases@);
    let mut place: usize = 0;
    while place < releases.len() && release_precedes(&releases[place], &release)
        invariant
            *releases == *old(releases),
            place <= releases@.len(),
            forall|i: int| 0 <= i < place ==> release_lt(#[trigger] releases@[i]@, release@),
        decreases releases@.len() - place,
    {
        place += 1;
    }
    if place < releases.len() && !release_precedes(&release, &releases[place]) {
        proof {
            release_order_is_total(release@, releases@[place as int]@);
            assert(before[place as int] == release@);
        }
        return ;
    }
    releases.insert(place, release);
    proof {
        let after = release_views(releases@);
        assert(after == before.insert(place as int, release@));
        assert forall|i: int, j: int| 0 <= i < j < after.len() implies release_lt(
            #[trigger] after[i],
            #[trigger] after[j],
        ) by {
            if i == place && j > place + 1 {
                release_order_is_transitive(release@, before[place as int], before[j - 1]);
            } else if j == place {
                assert(after[i] == before[i]);
            } else if i < place && j > place {
                assert(after[i] == before[i] && after[j] == before[j - 1]);
            } else if i < place && j < place {
                assert(after[i] == before[i] && after[j] == before[j]);
            } else if i > place {
                assert(after[i] == before[i - 1] && after[j] == before[j - 1]);
            }
        }
        assert forall|other: ReleaseView| #[trigger]
            after.contains(other) <==> other == release@ || before.contains(other) by {
            if after.contains(other) {
                let k = choose|k: int| 0 <= k < after.len() && after[k] == other;
                if k < place {
                    assert(before[k] == other);
                } else if k > place {
                    assert(before[k - 1] == other);
                }
            }
            if other == release@ {
                assert(after[place as int] == other);
            }
            if before.contains(other) {
                let k = choose|k: int| 0 <= k < before.len() && before[k] == other;
                if k < place {
                    assert(after[k] == other);
                } else {
                    assert(after[k + 1] == other);
                }
            }
        }
    }
}

/// Releases are ordered by name and, where the names are the same, by version.
pub proof fn names_are_compared_before_versions(
    a: &Release,
    b: &Release,
    before: bool,
    name: &str,
    other_name: &str,
    name_before: bool,
    version: &str,
    other_version: &str,
    version_before: bool,
)
    requires
        call_ensures(release_precedes, (a, b), before),
        name@ == a.name@,
        other_name@ == b.name@,
        call_ensures(precedes, (name, other_name), name_before),
        version@ == a.version@,
        other_version@ == b.version@,
        call_ensures(precedes, (version, other_version), version_before),
    ensures
        before <==> name_before || (a.name@ == b.name@ && version_before),
{
}

} // verus!
