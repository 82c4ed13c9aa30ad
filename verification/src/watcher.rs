//! The watcher: one polling cycle over the tracked sources.
//!
//! The caller opens and reads the files and hands in what it found, one
//! [`SourceProbe`] per tracked source. The watcher decides whether anything is
//! news and assembles the bundle to send.
//!
//! A bundle holds only what was read in its own cycle. A role whose file
//! could not be opened or read is left out; text from an earlier cycle is not
//! carried over. The render side in turn compiles no bundle that lacks vertex
//! or fragment text, so a reload waits until both can be read again.

use crate::bundle::{
    optional_view, BundleView, ProbeView, ShaderBundle, ShaderRole, SourceProbe, SourceView,
    TrackedSource,
};
use crate::ledger::{is_news, noted, ModificationLedger};
use vstd::prelude::*;

verus! {

/// How long the watcher rests between two cycles, in milliseconds.
pub const POLL_INTERVAL_MS: u64 = 500;

/// The tracked sources as contracts see them.
pub open spec fn source_views(watched: Seq<TrackedSource>) -> Seq<SourceView> {
    watched.map_values(|source: TrackedSource| source@)
}

/// The probes of one cycle as contracts see them.
pub open spec fn probe_views(probes: Seq<SourceProbe>) -> Seq<ProbeView> {
    probes.map_values(|probe: SourceProbe| probe@)
}

/// The probe for the source at index `i`. A source that was handed no probe
/// counts as unavailable.
pub open spec fn probe_at(probes: Seq<ProbeView>, i: int) -> ProbeView {
    if 0 <= i < probes.len() {
        probes[i]
    } else {
        ProbeView::Unavailable
    }
}

/// Whether a probe is news to a ledger: the file was opened, and the ledger
/// has no entry for it or a strictly older one.
pub open spec fn advances(ledger: Map<Seq<char>, u64>, source: SourceView, probe: ProbeView) -> bool {
    match probe {
        ProbeView::Unavailable => false,
        ProbeView::Opened { modified, .. } => is_news(ledger, source.id, modified),
    }
}

/// The ledger after one source has been looked at.
pub open spec fn ledger_step(
    ledger: Map<Seq<char>, u64>,
    source: SourceView,
    probe: ProbeView,
) -> Map<Seq<char>, u64> {
    match probe {
        ProbeView::Unavailable => ledger,
        ProbeView::Opened { modified, .. } => noted(ledger, source.id, modified),
    }
}

/// The bundle after one source has been looked at: text that was read lands
/// under the source's role, anything else leaves the bundle alone.
pub open spec fn bundle_step(bundle: BundleView, source: SourceView, probe: ProbeView) -> BundleView {
    match probe.text() {
        Some(text) => bundle.with_text(source.role, text),
        None => bundle,
    }
}

/// The ledger after the first `n` sources of a cycle have been looked at.
pub open spec fn ledger_after(
    ledger: Map<Seq<char>, u64>,
    watched: Seq<SourceView>,
    probes: Seq<ProbeView>,
    n: nat,
) -> Map<Seq<char>, u64>
    decreases n,
{
    if n == 0 {
        ledger
    } else {
        ledger_step(
            ledger_after(ledger, watched, probes, (n - 1) as nat),
            watched[n - 1],
            probe_at(probes, n - 1),
        )
    }
}

/// Whether the source at index `i` is news to the ledger that the cycle
/// started with.
pub open spec fn advances_at(
    ledger: Map<Seq<char>, u64>,
    watched: Seq<SourceView>,
    probes: Seq<ProbeView>,
    i: int,
) -> bool {
    advances(ledger, watched[i], probe_at(probes, i))
}

/// Whether any of the first `n` sources is news to the ledger that the cycle
/// started with.
pub open spec fn changed_within(
    ledger: Map<Seq<char>, u64>,
    watched: Seq<SourceView>,
    probes: Seq<ProbeView>,
    n: nat,
) -> bool {
    exists|i: int| 0 <= i < n && #[trigger] advances_at(ledger, watched, probes, i)
}

/// Whether the source at index `i` feeds `role` and its text was read.
pub open spec fn supplies(
    watched: Seq<SourceView>,
    probes: Seq<ProbeView>,
    role: ShaderRole,
    i: int,
) -> bool {
    watched[i].role == role && probe_at(probes, i).text() is Some
}

/// The text for `role` among the first `n` sources: that of the last one
/// which feeds the role and was read.
pub open spec fn role_text(
    watched: Seq<SourceView>,
    probes: Seq<ProbeView>,
    role: ShaderRole,
    n: nat,
) -> Option<Seq<char>>
    decreases n,
{
    if n == 0 {
        None
    } else if supplies(watched, probes, role, n - 1) {
        probe_at(probes, n - 1).text()
    } else {
        role_text(watched, probes, role, (n - 1) as nat)
    }
}

/// The bundle assembled from the first `n` sources.
pub open spec fn bundle_of(watched: Seq<SourceView>, probes: Seq<ProbeView>, n: nat) -> BundleView {
    BundleView {
        vertex: role_text(watched, probes, ShaderRole::Vertex, n),
        fragment: role_text(watched, probes, ShaderRole::Fragment, n),
        geometry: role_text(watched, probes, ShaderRole::Geometry, n),
    }
}

/// What a cycle sends: the assembled bundle if any source was news, nothing
/// otherwise.
pub open spec fn cycle_output(
    ledger: Map<Seq<char>, u64>,
    watched: Seq<SourceView>,
    probes: Seq<ProbeView>,
) -> Option<BundleView> {
    if changed_within(ledger, watched, probes, watched.len()) {
        Some(bundle_of(watched, probes, watched.len()))
    } else {
        None
    }
}

/// Looks at one source: takes note of its modification time and stores its
/// text in the bundle. Returns whether the modification time was news.
///
/// An unavailable source changes nothing. A source that was opened but could
/// not be read still has its modification time noted, and leaves the bundle
/// alone.
pub fn observe(
    ledger: &mut ModificationLedger,
    bundle: &mut ShaderBundle,
    source: &TrackedSource,
    probe: &SourceProbe,
) -> (advanced: bool)
    ensures
        advanced == advances(old(ledger)@, source@, probe@),
        final(ledger)@ == ledger_step(old(ledger)@, source@, probe@),
        final(bundle)@ == bundle_step(old(bundle)@, source@, probe@),
{
    match probe {
        SourceProbe::Unavailable => false,
        SourceProbe::Opened { modified, content } => {
            let advanced = ledger.record(&source.id, *modified);
            match content {
                Some(text) => {
                    bundle.set(source.role, text.clone());
                },
                None => {},
            }
            advanced
        },
    }
}

/// The polling side of the pipeline: a fixed watch list and the ledger of
/// what has been seen of it.
pub struct Watcher {
    watched: Vec<TrackedSource>,
    ledger: ModificationLedger,
}

impl Watcher {
    /// The watch list as contracts see it.
    pub closed spec fn sources(&self) -> Seq<SourceView> {
        source_views(self.watched@)
    }

    /// The ledger as contracts see it.
    pub closed spec fn seen(&self) -> Map<Seq<char>, u64> {
        self.ledger@
    }

    /// A watcher for `watched` that has not seen anything yet.
    pub fn new(watched: Vec<TrackedSource>) -> (watcher: Watcher)
        ensures
            watcher.sources() == source_views(watched@),
            watcher.seen() == Map::<Seq<char>, u64>::empty(),
    {
        Watcher { watched, ledger: ModificationLedger::new() }
    }

    /// The watch list, in polling order.
    pub fn watch_list(&self) -> (watched: &Vec<TrackedSource>)
        ensures
            source_views(watched@) == self.sources(),
    {
        &self.watched
    }

    /// The ledger.
    pub fn ledger(&self) -> (ledger: &ModificationLedger)
        ensures
            ledger@ == self.seen(),
    {
        &self.ledger
    }

    /// Runs one cycle. `probes[i]` is what was found of the tracked source at
    /// index `i`; a source without a probe counts as unavailable, and probes
    /// beyond the watch list are ignored.
    ///
    /// Returns the bundle to send, or `None` when no source was news.
    pub fn scan(&mut self, probes: &Vec<SourceProbe>) -> (sent: Option<ShaderBundle>)
        ensures
            final(self).sources() == old(self).sources(),
            final(self).seen() == ledger_after(
                old(self).seen(),
                old(self).sources(),
                probe_views(probes@),
                old(self).sources().len(),
            ),
            optional_view(sent) == cycle_output(
                old(self).seen(),
                old(self).sources(),
                probe_views(probes@),
            ),
    {
        let ghost start = self.ledger@;
        let ghost watched = source_views(self.watched@);
        let ghost views = probe_views(probes@);
        let unavailable = SourceProbe::Unavailable;
        let mut bundle = ShaderBundle::new();
        let mut changed = false;
        let mut i: usize = 0;
        while i < self.watched.len()
            invariant
                i <= self.watched.len(),
                watched == source_views(self.watched@),
                views == probe_views(probes@),
                unavailable@ == ProbeView::Unavailable,
                self.ledger@ == ledger_after(start, watched, views, i as nat),
                bundle@ == bundle_of(watched, views, i as nat),
                changed == changed_within(start, watched, views, i as nat),
            decreases self.watched.len() - i,
        {
            let probe = if i < probes.len() {
                &probes[i]
            } else {
                &unavailable
            };
            assert(probe@ == probe_at(views, i as int));
            assert(self.watched[i as int]@ == watched[i as int]);
            proof {
                lemma_changed_step(start, watched, views, i as nat);
            }
            let advanced = observe(&mut self.ledger, &mut bundle, &self.watched[i], probe);
            if advanced {
                changed = true;
            }
            i += 1;
        }
        if changed {
            Some(bundle)
        } else {
            None
        }
    }
}

/// While no source has been news, the ledger is the one the cycle started
/// with.
pub proof fn lemma_quiet_keeps_ledger(
    ledger: Map<Seq<char>, u64>,
    watched: Seq<SourceView>,
    probes: Seq<ProbeView>,
    n: nat,
)
    requires
        !changed_within(ledger, watched, probes, n),
    ensures
        ledger_after(ledger, watched, probes, n) == ledger,
    decreases n,
{
    if n > 0 {
        assert forall|i: int| 0 <= i < n - 1 implies !#[trigger] advances_at(
            ledger,
            watched,
            probes,
            i,
        ) by {}
        lemma_quiet_keeps_ledger(ledger, watched, probes, (n - 1) as nat);
        assert(!advances_at(ledger, watched, probes, n - 1));
    }
}

/// Looking at one more source: something is news among the first `n + 1`
/// sources exactly if something was among the first `n`, or the next source
/// is news to the ledger as it then stands.
pub proof fn lemma_changed_step(
    ledger: Map<Seq<char>, u64>,
    watched: Seq<SourceView>,
    probes: Seq<ProbeView>,
    n: nat,
)
    ensures
        changed_within(ledger, watched, probes, n + 1) == (changed_within(
            ledger,
            watched,
            probes,
            n,
        ) || advances(
            ledger_after(ledger, watched, probes, n),
            watched[n as int],
            probe_at(probes, n as int),
        )),
{
    if changed_within(ledger, watched, probes, n) {
        let i = choose|i: int| 0 <= i < n && #[trigger] advances_at(ledger, watched, probes, i);
        assert(advances_at(ledger, watched, probes, i));
    } else {
        lemma_quiet_keeps_ledger(ledger, watched, probes, n);
        if advances_at(ledger, watched, probes, n as int) {
        } else {
            assert forall|i: int| 0 <= i < n + 1 implies !#[trigger] advances_at(
                ledger,
                watched,
                probes,
                i,
            ) by {}
        }
    }
}

/// During a cycle the ledger only grows: an identifier on record stays on
/// record, and its time does not go back.
pub proof fn law_ledger_only_grows(
    ledger: Map<Seq<char>, u64>,
    watched: Seq<SourceView>,
    probes: Seq<ProbeView>,
    n: nat,
    id: Seq<char>,
)
    requires
        ledger.contains_key(id),
    ensures
        ledger_after(ledger, watched, probes, n).contains_key(id),
        ledger_after(ledger, watched, probes, n)[id] >= ledger[id],
    decreases n,
{
    if n > 0 {
        law_ledger_only_grows(ledger, watched, probes, (n - 1) as nat, id);
    }
}

/// A cycle puts nothing on record but the sources on the watch list: an
/// identifier on record afterwards was on record before, or is that of a
/// source that was looked at.
pub proof fn law_ledger_holds_only_watched(
    ledger: Map<Seq<char>, u64>,
    watched: Seq<SourceView>,
    probes: Seq<ProbeView>,
    n: nat,
    id: Seq<char>,
)
    requires
        ledger_after(ledger, watched, probes, n).contains_key(id),
    ensures
        ledger.contains_key(id) || exists|i: int| 0 <= i < n && (#[trigger] watched[i]).id == id,
    decreases n,
{
    if n > 0 {
        if ledger_after(ledger, watched, probes, (n - 1) as nat).contains_key(id) {
            law_ledger_holds_only_watched(ledger, watched, probes, (n - 1) as nat, id);
        } else {
            assert(watched[n - 1].id == id);
        }
    }
}

/// Once a source that was opened has been looked at, the ledger holds a time
/// for it that is at least as new as the one found.
pub proof fn lemma_ledger_covers(
    ledger: Map<Seq<char>, u64>,
    watched: Seq<SourceView>,
    probes: Seq<ProbeView>,
    n: nat,
    i: int,
)
    requires
        0 <= i < n,
        probe_at(probes, i) is Opened,
    ensures
        ledger_after(ledger, watched, probes, n).contains_key(watched[i].id),
        ledger_after(ledger, watched, probes, n)[watched[i].id] >= probe_at(
            probes,
            i,
        )->modified,
    decreases n,
{
    if i < n - 1 {
        lemma_ledger_covers(ledger, watched, probes, (n - 1) as nat, i);
    }
}

/// Last write wins: the text that a bundle holds for a role is that of the
/// last source which feeds the role and was read, and the role is empty
/// exactly if there is no such source.
pub proof fn law_last_write_wins(
    watched: Seq<SourceView>,
    probes: Seq<ProbeView>,
    role: ShaderRole,
    n: nat,
)
    ensures
        match role_text(watched, probes, role, n) {
            None => forall|i: int| 0 <= i < n ==> !supplies(watched, probes, role, i),
            Some(text) => exists|i: int|
                {
                    &&& 0 <= i < n
                    &&& #[trigger] supplies(watched, probes, role, i)
                    &&& probe_at(probes, i).text() == Some(text)
                    &&& forall|j: int| i < j < n ==> !supplies(watched, probes, role, j)
                },
        },
    decreases n,
{
    if n > 0 {
        if supplies(watched, probes, role, n - 1) {
        } else {
            law_last_write_wins(watched, probes, role, (n - 1) as nat);
            match role_text(watched, probes, role, (n - 1) as nat) {
                None => {},
                Some(text) => {
                    let i = choose|i: int|
                        {
                            &&& 0 <= i < n - 1
                            &&& #[trigger] supplies(watched, probes, role, i)
                            &&& probe_at(probes, i).text() == Some(text)
                            &&& forall|j: int| i < j < n - 1 ==> !supplies(watched, probes, role, j)
                        };
                    assert(supplies(watched, probes, role, i));
                },
            }
        }
    }
}

/// The text for a role depends only on the probes of the sources that feed
/// that role.
pub proof fn lemma_role_text_agrees(
    watched: Seq<SourceView>,
    first: Seq<ProbeView>,
    second: Seq<ProbeView>,
    role: ShaderRole,
    n: nat,
)
    requires
        forall|i: int|
            0 <= i < n && watched[i].role == role ==> #[trigger] probe_at(second, i) == probe_at(
                first,
                i,
            ),
    ensures
        role_text(watched, second, role, n) == role_text(watched, first, role, n),
    decreases n,
{
    if n > 0 {
        lemma_role_text_agrees(watched, first, second, role, (n - 1) as nat);
        if watched[n - 1].role == role {
            assert(probe_at(second, n - 1) == probe_at(first, n - 1));
        }
    }
}

/// Whether what a file shows now is no newer than what it showed before: it
/// cannot be opened now, or it was opened both times and its modification
/// time has not moved forward.
pub open spec fn not_newer(now: ProbeView, before: ProbeView) -> bool {
    match now {
        ProbeView::Unavailable => true,
        ProbeView::Opened { modified, .. } => before is Opened && modified <= before->modified,
    }
}

/// A cycle in which no file is newer than in the cycle before sends nothing
/// and leaves the ledger as it is.
pub proof fn law_quiet_cycle_sends_nothing(
    ledger: Map<Seq<char>, u64>,
    watched: Seq<SourceView>,
    first: Seq<ProbeView>,
    second: Seq<ProbeView>,
)
    requires
        forall|i: int|
            0 <= i < watched.len() ==> not_newer(#[trigger] probe_at(second, i), probe_at(first, i)),
    ensures
        ({
            let seen = ledger_after(ledger, watched, first, watched.len());
            &&& cycle_output(seen, watched, second) is None
            &&& ledger_after(seen, watched, second, watched.len()) == seen
        }),
{
    let seen = ledger_after(ledger, watched, first, watched.len());
    assert forall|i: int| 0 <= i < watched.len() implies !#[trigger] advances_at(
        seen,
        watched,
        second,
        i,
    ) by {
        assert(not_newer(probe_at(second, i), probe_at(first, i)));
        if probe_at(second, i) is Opened {
            lemma_ledger_covers(ledger, watched, first, watched.len(), i);
        }
    }
    lemma_quiet_keeps_ledger(seen, watched, second, watched.len());
}

/// When one file alone differs from the cycle before and its modification
/// time is newer than the one on record, the cycle sends a bundle. Under
/// every other role the bundle holds what the cycle before assembled. Under
/// the file's own role it holds the file's new text, provided that the text
/// was read and no later source of the same role was read too.
pub proof fn law_single_change_is_delivered(
    ledger: Map<Seq<char>, u64>,
    watched: Seq<SourceView>,
    first: Seq<ProbeView>,
    second: Seq<ProbeView>,
    k: int,
)
    requires
        0 <= k < watched.len(),
        forall|i: int|
            0 <= i < watched.len() && i != k ==> #[trigger] probe_at(second, i) == probe_at(
                first,
                i,
            ),
        advances(
            ledger_after(ledger, watched, first, watched.len()),
            watched[k],
            probe_at(second, k),
        ),
    ensures
        ({
            let seen = ledger_after(ledger, watched, first, watched.len());
            let before = bundle_of(watched, first, watched.len());
            let now = bundle_of(watched, second, watched.len());
            &&& cycle_output(seen, watched, second) == Some(now)
            &&& forall|role: ShaderRole|
                role != watched[k].role ==> #[trigger] now.text(role) == before.text(role)
            &&& (probe_at(second, k).text() is Some && forall|j: int|
                k < j < watched.len() ==> !supplies(watched, second, watched[k].role, j))
                ==> now.text(watched[k].role) == probe_at(second, k).text()
        }),
{
    let n = watched.len();
    let seen = ledger_after(ledger, watched, first, n);
    let before = bundle_of(watched, first, n);
    let now = bundle_of(watched, second, n);
    assert(advances_at(seen, watched, second, k));
    assert forall|role: ShaderRole| role != watched[k].role implies #[trigger] now.text(role)
        == before.text(role) by {
        lemma_role_text_agrees(watched, first, second, role, n);
    }
    let own = watched[k].role;
    if probe_at(second, k).text() is Some && forall|j: int|
        k < j < n ==> !supplies(watched, second, own, j) {
        law_last_write_wins(watched, second, own, n);
        assert(supplies(watched, second, own, k));
    }
}

} // verus!
