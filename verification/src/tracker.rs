//! Deciding which application processes to observe.
//!
//! For each live application process that should be observed, the platform
//! layer attaches a native observer that forwards focus and hide
//! notifications. This module holds the decisions: which applications are
//! allowed to be observed, which pids are currently the target of
//! observation, and how the set of attached observers is reconciled with
//! that target whenever the running-process set changes.

use vstd::prelude::*;
use vstd::hash_map::StringHashMap;

verus! {

broadcast use vstd::set::group_set_axioms;

/// Bundle identifiers of system-shell applications that are never observed:
/// native observers cannot be created for them, or hiding them sends no
/// notification.
pub open spec fn excluded_app_ids() -> Seq<Seq<char>> {
    seq![
        "com.apple.dock"@,
        "com.apple.universalcontrol"@,
        "com.apple.controlcenter"@,
        "com.apple.notificationcenterui"@,
    ]
}

/// Bundle identifiers of known launcher-style applications whose main window
/// is only a popup and may not register as a normal window; they are allowed
/// even so.
pub open spec fn popup_only_app_ids() -> Seq<Seq<char>> {
    seq![
        "com.apple.Spotlight"@,
        "com.runningwithcrayons.Alfred"@,
        "at.obdev.LaunchBar"@,
        "com.raycast.macos"@,
        "com.googlecode.iterm2"@,
        "com.xunyong.hapigo"@,
        "com.hezongyidev.Bob"@,
        "com.ripperhe.Bob"@,
        "org.yuanli.utools"@,
        "com.1password.1password"@,
        "com.eusoft.eudic.LightPeek"@,
        "com.contextsformac.Contexts"@,
    ]
}

/// The built-in denylist as owned strings.
pub fn excluded_app_id_list() -> (v: Vec<String>)
    ensures
        v@.map_values(|s: String| s@) == excluded_app_ids(),
{
    let mut v: Vec<String> = Vec::new();
    v.push("com.apple.dock".to_owned());
    v.push("com.apple.universalcontrol".to_owned());
    v.push("com.apple.controlcenter".to_owned());
    v.push("com.apple.notificationcenterui".to_owned());
    proof {
        assert(v@.map_values(|s: String| s@) =~= excluded_app_ids());
    }
    v
}

/// The built-in popup-only allowlist as owned strings.
pub fn popup_only_app_id_list() -> (v: Vec<String>)
    ensures
        v@.map_values(|s: String| s@) == popup_only_app_ids(),
{
    let mut v: Vec<String> = Vec::new();
    v.push("com.apple.Spotlight".to_owned());
    v.push("com.runningwithcrayons.Alfred".to_owned());
    v.push("at.obdev.LaunchBar".to_owned());
    v.push("com.raycast.macos".to_owned());
    v.push("com.googlecode.iterm2".to_owned());
    v.push("com.xunyong.hapigo".to_owned());
    v.push("com.hezongyidev.Bob".to_owned());
    v.push("com.ripperhe.Bob".to_owned());
    v.push("org.yuanli.utools".to_owned());
    v.push("com.1password.1password".to_owned());
    v.push("com.eusoft.eudic.LightPeek".to_owned());
    v.push("com.contextsformac.Contexts".to_owned());
    proof {
        assert(v@.map_values(|s: String| s@) =~= popup_only_app_ids());
    }
    v
}

/// The set of applications whose processes may be observed: the caller's
/// extra identifiers and the built-in popup-only allowlist, minus the
/// built-in denylist.
pub struct AllowedApps {
    ids: StringHashMap<()>,
}

impl View for AllowedApps {
    type V = Set<Seq<char>>;

    closed spec fn view(&self) -> Set<Seq<char>> {
        self.ids@.dom()
    }
}

impl AllowedApps {
    /// Builds the allowed set from the caller's extra identifiers: an
    /// identifier is allowed when it was given or is a known popup-only
    /// application, and is not on the denylist.
    pub fn new(extra: Vec<String>) -> (s: Self)
        ensures
            forall|id: Seq<char>|
                #[trigger] s@.contains(id) <==> ((extra@.map_values(|x: String| x@).contains(id)
                    || popup_only_app_ids().contains(id)) && !excluded_app_ids().contains(id)),
    {
        let ghost extras: Seq<Seq<char>> = extra@.map_values(|x: String| x@);
        let mut ids: StringHashMap<()> = StringHashMap::new();

        let mut i: usize = 0;
        while i < extra.len()
            invariant
                i <= extra.len(),
                extras == extra@.map_values(|x: String| x@),
                forall|id: Seq<char>|
                    #[trigger] ids@.dom().contains(id) <==> exists|k: int|
                        0 <= k < i && extras[k] == id,
            decreases extra.len() - i,
        {
            ids.insert(extra[i].clone(), ());
            proof {
                assert(extras[i as int] == extra@[i as int]@);
            }
            i += 1;
        }
        proof {
            assert(forall|id: Seq<char>| #[trigger] ids@.dom().contains(id) <==> extras.contains(
                id,
            ));
        }

        let popups = popup_only_app_id_list();
        let ghost popup_seq: Seq<Seq<char>> = popups@.map_values(|x: String| x@);
        let mut j: usize = 0;
        while j < popups.len()
            invariant
                j <= popups.len(),
                popup_seq == popups@.map_values(|x: String| x@),
                popup_seq == popup_only_app_ids(),
                forall|id: Seq<char>|
                    #[trigger] ids@.dom().contains(id) <==> (extras.contains(id) || exists|k: int|
                        0 <= k < j && popup_seq[k] == id),
            decreases popups.len() - j,
        {
            ids.insert(popups[j].clone(), ());
            proof {
                assert(popup_seq[j as int] == popups@[j as int]@);
            }
            j += 1;
        }
        proof {
            assert(forall|id: Seq<char>| #[trigger] ids@.dom().contains(id) <==> (extras.contains(
                id,
            ) || popup_only_app_ids().contains(id)));
        }

        let excluded = excluded_app_id_list();
        let ghost excluded_seq: Seq<Seq<char>> = excluded@.map_values(|x: String| x@);
        let mut m: usize = 0;
        while m < excluded.len()
            invariant
                m <= excluded.len(),
                excluded_seq == excluded@.map_values(|x: String| x@),
                excluded_seq == excluded_app_ids(),
                forall|id: Seq<char>|
                    #[trigger] ids@.dom().contains(id) <==> ((extras.contains(id)
                        || popup_only_app_ids().contains(id)) && !(exists|k: int|
                        0 <= k < m && excluded_seq[k] == id)),
            decreases excluded.len() - m,
        {
            ids.remove(excluded[m].as_str());
            proof {
                assert(excluded_seq[m as int] == excluded@[m as int]@);
            }
            m += 1;
        }

        AllowedApps { ids }
    }

    /// Whether `bundle_id` names an application that may be observed.
    pub fn contains(&self, bundle_id: &str) -> (r: bool)
        ensures
            r == self@.contains(bundle_id@),
    {
        self.ids.contains_key(bundle_id)
    }
}

/// No pid occurs twice.
pub open spec fn no_dup_pids(pids: Seq<i32>) -> bool {
    forall|i: int, j: int| 0 <= i < j < pids.len() ==> pids[i] != pids[j]
}

/// What the core reads of one OS-reported running application process.
pub struct RunningApp {
    /// The process id.
    pub pid: i32,
    /// The application's bundle identifier, when the OS reports one.
    pub bundle_id: Option<String>,
}

/// Whether a running application should be observed: its process owns at
/// least one on-screen window and its identifier is in the allowed set.
pub open spec fn is_target(app: RunningApp, windowed: Seq<i32>, allowed: Set<Seq<char>>) -> bool {
    &&& windowed.contains(app.pid)
    &&& match app.bundle_id {
        Some(b) => allowed.contains(b@),
        None => false,
    }
}

/// Whether `pids` lists `pid`.
fn pid_listed(pids: &Vec<i32>, pid: i32) -> (r: bool)
    ensures
        r == pids@.contains(pid),
{
    let mut i: usize = 0;
    while i < pids.len()
        invariant
            i <= pids.len(),
            forall|k: int| 0 <= k < i ==> pids@[k] != pid,
        decreases pids.len() - i,
    {
        if pids[i] == pid {
            return true;
        }
        i += 1;
    }
    false
}

/// Computes the pids whose processes should be observed, without
/// duplicates: those of the running applications that own an on-screen
/// window and whose identifier is allowed.
pub fn target_pids(running: &Vec<RunningApp>, windowed: &Vec<i32>, allowed: &AllowedApps) -> (r:
    Vec<i32>)
    ensures
        no_dup_pids(r@),
        forall|p: i32|
            #[trigger] r@.contains(p) <==> exists|k: int|
                0 <= k < running@.len() && (#[trigger] running@[k]).pid == p && is_target(
                    running@[k],
                    windowed@,
                    allowed@,
                ),
{
    let mut out: Vec<i32> = Vec::new();
    let mut i: usize = 0;
    while i < running.len()
        invariant
            i <= running.len(),
            no_dup_pids(out@),
            forall|p: i32|
                #[trigger] out@.contains(p) <==> exists|k: int|
                    0 <= k < i && (#[trigger] running@[k]).pid == p && is_target(
                        running@[k],
                        windowed@,
                        allowed@,
                    ),
        decreases running.len() - i,
    {
        let app = &running[i];
        let allowed_here = match &app.bundle_id {
            Some(b) => allowed.contains(b.as_str()),
            None => false,
        };
        if allowed_here && pid_listed(windowed, app.pid) && !pid_listed(&out, app.pid) {
            let ghost old_out = out@;
            out.push(app.pid);
            proof {
                assert forall|p: i32| #[trigger] out@.contains(p) <==> (old_out.contains(p) || p
                    == running@[i as int].pid) by {
                    if old_out.contains(p) {
                        let k = choose|k: int| 0 <= k < old_out.len() && old_out[k] == p;
                        assert(out@[k] == p);
                    }
                    if p == running@[i as int].pid {
                        assert(out@[old_out.len() as int] == p);
                    }
                    if out@.contains(p) {
                        let k = choose|k: int| 0 <= k < out@.len() && out@[k] == p;
                        if k < old_out.len() {
                            assert(old_out[k] == p);
                        }
                    }
                }
            }
        }
        i += 1;
    }
    out
}

/// The set of pids that currently have a live observer attached. The
/// platform layer owns the observers themselves; this tracker decides which
/// pids to tear down and which to attach, and never holds a pid twice.
pub struct ProcessTracker {
    observed: Vec<i32>,
}

impl View for ProcessTracker {
    type V = Set<i32>;

    closed spec fn view(&self) -> Set<i32> {
        self.observed@.to_set()
    }
}

impl ProcessTracker {
    #[verifier::type_invariant]
    spec fn wf(&self) -> bool {
        no_dup_pids(self.observed@)
    }

    /// A tracker with no observed process.
    pub fn new() -> (s: Self)
        ensures
            s@ == Set::<i32>::empty(),
    {
        let s = ProcessTracker { observed: Vec::new() };
        proof {
            assert(s@ =~= Set::<i32>::empty());
        }
        s
    }

    /// Whether `pid` currently has an observer attached.
    pub fn observes(&self, pid: i32) -> (r: bool)
        ensures
            r == self@.contains(pid),
    {
        pid_listed(&self.observed, pid)
    }

    /// The observed pids that are no longer in the target set: their
    /// observers must be torn down.
    pub fn removals(&self, target: &Vec<i32>) -> (r: Vec<i32>)
        ensures
            no_dup_pids(r@),
            forall|p: i32| #[trigger] r@.contains(p) <==> self@.contains(p) && !target@.contains(p),
    {
        let mut out: Vec<i32> = Vec::new();
        let mut i: usize = 0;
        while i < self.observed.len()
            invariant
                i <= self.observed.len(),
                no_dup_pids(out@),
                forall|p: i32|
                    #[trigger] out@.contains(p) <==> ((exists|k: int|
                        0 <= k < i && self.observed@[k] == p) && !target@.contains(p)),
            decreases self.observed.len() - i,
        {
            let pid = self.observed[i];
            if !pid_listed(target, pid) && !pid_listed(&out, pid) {
                let ghost old_out = out@;
                out.push(pid);
                proof {
                    lemma_push_contains(old_out, out@, pid);
                }
            }
            i += 1;
        }
        out
    }

    /// The target pids that are not observed yet: observers must be created
    /// for them.
    pub fn additions(&self, target: &Vec<i32>) -> (r: Vec<i32>)
        ensures
            no_dup_pids(r@),
            forall|p: i32| #[trigger] r@.contains(p) <==> target@.contains(p) && !self@.contains(p),
    {
        let mut out: Vec<i32> = Vec::new();
        let mut i: usize = 0;
        while i < target.len()
            invariant
                i <= target.len(),
                no_dup_pids(out@),
                forall|p: i32|
                    #[trigger] out@.contains(p) <==> ((exists|k: int|
                        0 <= k < i && target@[k] == p) && !self@.contains(p)),
            decreases target.len() - i,
        {
            let pid = target[i];
            if !self.observes(pid) && !pid_listed(&out, pid) {
                let ghost old_out = out@;
                out.push(pid);
                proof {
                    lemma_push_contains(old_out, out@, pid);
                }
            }
            i += 1;
        }
        out
    }

    /// Records that `pid`'s observer was torn down (or that its process
    /// vanished). Safe to call for a pid that was never observed.
    pub fn drop_pid(&mut self, pid: i32)
        ensures
            final(self)@ == old(self)@.remove(pid),
    {
        let mut kept: Vec<i32> = Vec::new();
        let mut i: usize = 0;
        while i < self.observed.len()
            invariant
                i <= self.observed.len(),
                no_dup_pids(kept@),
                forall|p: i32|
                    #[trigger] kept@.contains(p) <==> ((exists|k: int|
                        0 <= k < i && self.observed@[k] == p) && p != pid),
            decreases self.observed.len() - i,
        {
            let q = self.observed[i];
            if q != pid && !pid_listed(&kept, q) {
                let ghost old_kept = kept@;
                kept.push(q);
                proof {
                    lemma_push_contains(old_kept, kept@, q);
                }
            }
            i += 1;
        }
        self.observed = kept;
        proof {
            assert(self@ =~= old(self)@.remove(pid));
        }
    }

    /// Records that an observer is now attached to `pid`. Attaching is
    /// idempotent: a pid already observed is not recorded twice.
    pub fn confirm_pid(&mut self, pid: i32)
        ensures
            final(self)@ == old(self)@.insert(pid),
    {
        let mut grown: Vec<i32> = Vec::new();
        let mut i: usize = 0;
        while i < self.observed.len()
            invariant
                i <= self.observed.len(),
                no_dup_pids(grown@),
                forall|p: i32|
                    #[trigger] grown@.contains(p) <==> exists|k: int|
                        0 <= k < i && self.observed@[k] == p,
            decreases self.observed.len() - i,
        {
            let q = self.observed[i];
            if !pid_listed(&grown, q) {
                let ghost old_grown = grown@;
                grown.push(q);
                proof {
                    lemma_push_contains(old_grown, grown@, q);
                }
            }
            i += 1;
        }
        if !pid_listed(&grown, pid) {
            let ghost old_grown = grown@;
            grown.push(pid);
            proof {
                lemma_push_contains(old_grown, grown@, pid);
            }
        }
        self.observed = grown;
        proof {
            assert(self@ =~= old(self)@.insert(pid));
        }
    }
}

/// After pushing `x` onto `before`, the result contains exactly the old
/// elements and `x`.
proof fn lemma_push_contains(before: Seq<i32>, after: Seq<i32>, x: i32)
    requires
        after == before.push(x),
    ensures
        forall|p: i32| #[trigger] after.contains(p) <==> (before.contains(p) || p == x),
{
    assert forall|p: i32| #[trigger] after.contains(p) <==> (before.contains(p) || p == x) by {
        if before.contains(p) {
            let k = choose|k: int| 0 <= k < before.len() && before[k] == p;
            assert(after[k] == p);
        }
        if p == x {
            assert(after[before.len() as int] == p);
        }
        if after.contains(p) {
            let k = choose|k: int| 0 <= k < after.len() && after[k] == p;
            if k < before.len() {
                assert(before[k] == p);
            }
        }
    }
}

/// Law: one reconciliation pass drives the observed set exactly onto the
/// target: tearing down every observed pid outside the target and attaching
/// an observer for every target pid not yet observed leaves precisely the
/// target set, whatever was observed before — repeated recomputations are
/// idempotent and leak no observer for a vanished pid.
pub proof fn lemma_reconciliation_exact(observed: Set<i32>, target: Set<i32>)
    ensures
        observed.difference(observed.difference(target)).union(target.difference(observed))
            == target,
{
    assert(observed.difference(observed.difference(target)).union(target.difference(observed))
        =~= target);
}

} // verus!
