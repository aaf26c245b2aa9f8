//! The viewport registry: which viewport is shown in which native window, how
//! many UI passes each viewport has completed, and the scheduling decision
//! taken for each event.
use vstd::prelude::*;
use std::sync::Arc;
use egui::accesskit::ActionRequest;
use egui::ViewportId;
use std::time::Instant;
use winit::window::WindowId;
use crate::event::{EventResult, UserEvent};
use crate::ids::{viewport_key, viewport_key_of, window_key, window_key_of};

verus! {

/// Relies on `Arc::clone`: the clone points to the same allocation, so it
/// designates the same value.
#[verifier::external_body]
fn share<W>(handle: &Arc<W>) -> (r: Arc<W>)
    ensures
        r == *handle,
{
    Arc::clone(handle)
}

/// A viewport that is shown in a native window.
pub struct ViewportWindow<W> {
    pub viewport_id: ViewportId,
    pub window_id: WindowId,
    pub window: Arc<W>,
}

/// The number of UI passes a viewport has completed.
pub struct FrameCount {
    pub viewport_id: ViewportId,
    pub frame_nr: u64,
}

/// An accessibility action waiting for the UI pass of its window.
pub struct PendingAction {
    pub window_id: WindowId,
    pub request: ActionRequest,
}

/// What a UI pass asked for when it completed.
pub enum PassOutcome {
    /// The program should end.
    Exit,
    /// Another pass right away (continuous repaint).
    RepaintNext,
    /// Another pass at the given instant.
    RepaintAt(Instant),
    /// Nothing until the next event.
    Idle,
}

/// What a native window reported, by kind.
pub enum WindowEventKind {
    /// The user asked to close the window.
    CloseRequested,
    /// The window is gone.
    Destroyed,
    /// The platform asks for the window to be redrawn now.
    RedrawRequested,
    /// The window changed size.
    Resized,
    /// Input, focus or any other change that the next frame should show.
    Input,
}

/// The scheduling outcome of a completed pass of `window_id`.
pub open spec fn pass_result(window_id: WindowId, outcome: PassOutcome) -> EventResult {
    match outcome {
        PassOutcome::Exit => EventResult::Exit,
        PassOutcome::RepaintNext => EventResult::RepaintNext(window_id),
        PassOutcome::RepaintAt(when) => EventResult::RepaintAt(window_id, when),
        PassOutcome::Idle => EventResult::Wait,
    }
}

/// Registry of live viewports, shared window handles and frame counters.
/// `W` is the native window type; the registry holds one reference to each.
pub struct ViewportRegistry<W> {
    root: ViewportId,
    windows: Vec<ViewportWindow<W>>,
    frames: Vec<FrameCount>,
    pending: Vec<PendingAction>,
    destroyed: bool,
}

impl<W> ViewportRegistry<W> {
    /// Viewport keys and window keys each occur at most once, and so do the
    /// viewport keys of the frame counters.
    pub closed spec fn wf(self) -> bool {
        &&& forall|i: int, j: int|
            0 <= i < self.windows@.len() && 0 <= j < self.windows@.len() && i != j
                ==> viewport_key(#[trigger] self.windows@[i].viewport_id) != viewport_key(
                #[trigger] self.windows@[j].viewport_id,
            )
        &&& forall|i: int, j: int|
            0 <= i < self.windows@.len() && 0 <= j < self.windows@.len() && i != j
                ==> window_key(#[trigger] self.windows@[i].window_id) != window_key(
                #[trigger] self.windows@[j].window_id,
            )
        &&& self.destroyed ==> self.windows@.len() == 0 && self.pending@.len() == 0
        &&& forall|i: int, j: int|
            0 <= i < self.frames@.len() && 0 <= j < self.frames@.len() && i != j
                ==> viewport_key(#[trigger] self.frames@[i].viewport_id) != viewport_key(
                #[trigger] self.frames@[j].viewport_id,
            )
    }

    pub closed spec fn has_viewport_at(self, i: int, vk: u64) -> bool {
        0 <= i < self.windows@.len() && viewport_key(self.windows@[i].viewport_id) == vk
    }

    pub closed spec fn has_window_at(self, i: int, wk: u64) -> bool {
        0 <= i < self.windows@.len() && window_key(self.windows@[i].window_id) == wk
    }

    pub closed spec fn has_frames_at(self, i: int, vk: u64) -> bool {
        0 <= i < self.frames@.len() && viewport_key(self.frames@[i].viewport_id) == vk
    }

    /// The window in which the viewport with key `vk` is shown.
    pub closed spec fn window_id_for(self, vk: u64) -> Option<WindowId> {
        if exists|i: int| self.has_viewport_at(i, vk) {
            Some(self.windows@[choose|i: int| self.has_viewport_at(i, vk)].window_id)
        } else {
            None
        }
    }

    /// The viewport shown in the window with key `wk`.
    pub closed spec fn viewport_id_for(self, wk: u64) -> Option<ViewportId> {
        if exists|i: int| self.has_window_at(i, wk) {
            Some(self.windows@[choose|i: int| self.has_window_at(i, wk)].viewport_id)
        } else {
            None
        }
    }

    /// The handle of the window with key `wk`.
    pub closed spec fn window_for(self, wk: u64) -> Option<Arc<W>> {
        if exists|i: int| self.has_window_at(i, wk) {
            Some(self.windows@[choose|i: int| self.has_window_at(i, wk)].window)
        } else {
            None
        }
    }

    /// The number of UI passes the viewport with key `vk` has completed.
    pub closed spec fn frame_of(self, vk: u64) -> u64 {
        if exists|i: int| self.has_frames_at(i, vk) {
            self.frames@[choose|i: int| self.has_frames_at(i, vk)].frame_nr
        } else {
            0
        }
    }

    /// The key of the root viewport, whose window closing ends the program.
    pub closed spec fn root_key(self) -> u64 {
        viewport_key(self.root)
    }

    /// Whether the registry has been shut down.
    pub closed spec fn is_destroyed(self) -> bool {
        self.destroyed
    }

    /// The accessibility actions not yet handed to a UI pass.
    pub closed spec fn pending_actions(self) -> Seq<PendingAction> {
        self.pending@
    }

    /// An empty registry whose root viewport is `root`.
    pub fn new(root: ViewportId) -> (r: Self)
        ensures
            r.wf(),
            r.root_key() == viewport_key(root),
            !r.is_destroyed(),
            r.pending_actions().len() == 0,
            forall|vk: u64| #[trigger] r.window_id_for(vk) is None && r.frame_of(vk) == 0,
            forall|wk: u64| #[trigger] r.viewport_id_for(wk) is None && r.window_for(wk) is None,
    {
        ViewportRegistry {
            root,
            windows: Vec::new(),
            frames: Vec::new(),
            pending: Vec::new(),
            destroyed: false,
        }
    }

    fn find_viewport(&self, vk: u64) -> (r: Option<usize>)
        requires
            self.wf(),
        ensures
            match r {
                Some(i) => self.has_viewport_at(i as int, vk),
                None => !exists|i: int| self.has_viewport_at(i, vk),
            },
    {
        let mut i: usize = 0;
        while i < self.windows.len()
            invariant
                i <= self.windows@.len(),
                forall|j: int| 0 <= j < i ==> !self.has_viewport_at(j, vk),
            decreases self.windows@.len() - i,
        {
            if viewport_key_of(&self.windows[i].viewport_id) == vk {
                return Some(i);
            }
            i = i + 1;
        }
        None
    }

    fn find_window(&self, wk: u64) -> (r: Option<usize>)
        requires
            self.wf(),
        ensures
            match r {
                Some(i) => self.has_window_at(i as int, wk),
                None => !exists|i: int| self.has_window_at(i, wk),
            },
    {
        let mut i: usize = 0;
        while i < self.windows.len()
            invariant
                i <= self.windows@.len(),
                forall|j: int| 0 <= j < i ==> !self.has_window_at(j, wk),
            decreases self.windows@.len() - i,
        {
            if window_key_of(&self.windows[i].window_id) == wk {
                return Some(i);
            }
            i = i + 1;
        }
        None
    }

    fn find_frames(&self, vk: u64) -> (r: Option<usize>)
        requires
            self.wf(),
        ensures
            match r {
                Some(i) => self.has_frames_at(i as int, vk),
                None => !exists|i: int| self.has_frames_at(i, vk),
            },
    {
        let mut i: usize = 0;
        while i < self.frames.len()
            invariant
                i <= self.frames@.len(),
                forall|j: int| 0 <= j < i ==> !self.has_frames_at(j, vk),
            decreases self.frames@.len() - i,
        {
            if viewport_key_of(&self.frames[i].viewport_id) == vk {
                return Some(i);
            }
            i = i + 1;
        }
        None
    }

    /// The number of UI passes completed for `viewport_id`; 0 for a viewport
    /// that is unknown or not rendered yet.
    pub fn frame_nr(&self, viewport_id: ViewportId) -> (r: u64)
        requires
            self.wf(),
        ensures
            r == self.frame_of(viewport_key(viewport_id)),
    {
        let vk = viewport_key_of(&viewport_id);
        match self.find_frames(vk) {
            Some(i) => self.frames[i].frame_nr,
            None => 0,
        }
    }

    /// The window in which `id` is shown, if it has one.
    pub fn window_id_from_viewport_id(&self, id: ViewportId) -> (r: Option<WindowId>)
        requires
            self.wf(),
        ensures
            r == self.window_id_for(viewport_key(id)),
    {
        let vk = viewport_key_of(&id);
        match self.find_viewport(vk) {
            Some(i) => Some(self.windows[i].window_id),
            None => None,
        }
    }

    /// The viewport shown in `window_id`, if the window is known.
    pub fn viewport_id_from_window_id(&self, window_id: WindowId) -> (r: Option<ViewportId>)
        requires
            self.wf(),
        ensures
            r == self.viewport_id_for(window_key(window_id)),
    {
        let wk = window_key_of(&window_id);
        match self.find_window(wk) {
            Some(i) => Some(self.windows[i].viewport_id),
            None => None,
        }
    }

    /// The handle of `window_id`; nothing if it was destroyed or never existed.
    pub fn window(&self, window_id: WindowId) -> (r: Option<Arc<W>>)
        requires
            self.wf(),
        ensures
            r == self.window_for(window_key(window_id)),
    {
        let wk = window_key_of(&window_id);
        match self.find_window(wk) {
            Some(i) => Some(share(&self.windows[i].window)),
            None => None,
        }
    }

    proof fn lemma_viewport_at(self, i: int, vk: u64)
        requires
            self.wf(),
            self.has_viewport_at(i, vk),
        ensures
            self.window_id_for(vk) == Some(self.windows@[i].window_id),
    {
        let j = choose|j: int| self.has_viewport_at(j, vk);
        assert(self.has_viewport_at(j, vk));
        assert(viewport_key(self.windows@[i].viewport_id) == viewport_key(self.windows@[j].viewport_id));
    }

    proof fn lemma_window_at(self, i: int, wk: u64)
        requires
            self.wf(),
            self.has_window_at(i, wk),
        ensures
            self.viewport_id_for(wk) == Some(self.windows@[i].viewport_id),
            self.window_for(wk) == Some(self.windows@[i].window),
    {
        let j = choose|j: int| self.has_window_at(j, wk);
        assert(self.has_window_at(j, wk));
        assert(window_key(self.windows@[i].window_id) == window_key(self.windows@[j].window_id));
    }

    proof fn lemma_frames_at(self, i: int, vk: u64)
        requires
            self.wf(),
            self.has_frames_at(i, vk),
        ensures
            self.frame_of(vk) == self.frames@[i].frame_nr,
    {
        let j = choose|j: int| self.has_frames_at(j, vk);
        assert(self.has_frames_at(j, vk));
        assert(viewport_key(self.frames@[i].viewport_id) == viewport_key(self.frames@[j].viewport_id));
    }

    /// The two registries show the same viewports in the same windows.
    pub open spec fn same_windows(self, other: Self) -> bool {
        &&& forall|vk: u64| #[trigger] self.window_id_for(vk) == other.window_id_for(vk)
        &&& forall|wk: u64|
            #[trigger] self.viewport_id_for(wk) == other.viewport_id_for(wk) && self.window_for(wk)
                == other.window_for(wk)
    }

    /// The two registries agree on everything but their windows.
    pub open spec fn same_bookkeeping(self, other: Self) -> bool {
        &&& self.root_key() == other.root_key()
        &&& self.pending_actions() == other.pending_actions()
        &&& self.is_destroyed() == other.is_destroyed()
        &&& forall|vk: u64| #[trigger] self.frame_of(vk) == other.frame_of(vk)
    }

    proof fn lemma_same_windows(self, other: Self)
        requires
            self.wf(),
            other.wf(),
            self.windows@ == other.windows@,
        ensures
            self.same_windows(other),
    {
        assert forall|vk: u64| #[trigger] self.window_id_for(vk) == other.window_id_for(vk) by {
            if exists|i: int| self.has_viewport_at(i, vk) {
                let i = choose|i: int| self.has_viewport_at(i, vk);
                self.lemma_viewport_at(i, vk);
                other.lemma_viewport_at(i, vk);
            } else {
                assert forall|i: int| !other.has_viewport_at(i, vk) by {
                    assert(!self.has_viewport_at(i, vk));
                }
            }
        }
        assert forall|wk: u64|
            #[trigger] self.viewport_id_for(wk) == other.viewport_id_for(wk) && self.window_for(wk)
                == other.window_for(wk) by {
            if exists|i: int| self.has_window_at(i, wk) {
                let i = choose|i: int| self.has_window_at(i, wk);
                self.lemma_window_at(i, wk);
                other.lemma_window_at(i, wk);
            } else {
                assert forall|i: int| !other.has_window_at(i, wk) by {
                    assert(!self.has_window_at(i, wk));
                }
            }
        }
    }

    proof fn lemma_same_frames(self, other: Self)
        requires
            self.wf(),
            other.wf(),
            self.frames@ == other.frames@,
        ensures
            forall|vk: u64| #[trigger] self.frame_of(vk) == other.frame_of(vk),
    {
        assert forall|vk: u64| #[trigger] self.frame_of(vk) == other.frame_of(vk) by {
            if exists|i: int| self.has_frames_at(i, vk) {
                let i = choose|i: int| self.has_frames_at(i, vk);
                self.lemma_frames_at(i, vk);
                other.lemma_frames_at(i, vk);
            } else {
                assert forall|i: int| !other.has_frames_at(i, vk) by {
                    assert(!self.has_frames_at(i, vk));
                }
            }
        }
    }

    /// Lookups by any other key than `vk` and `wk` agree between `a` and `b`
    /// when `b`'s windows are `a`'s, but for entries holding both keys: each
    /// other entry of `a` stands in `b` at `to_b(i)`, and each other entry of
    /// `b` stands in `a` at `to_a(j)`.
    proof fn lemma_others_kept(
        a: Self,
        b: Self,
        vk: u64,
        wk: u64,
        to_b: spec_fn(int) -> int,
        to_a: spec_fn(int) -> int,
    )
        requires
            a.wf(),
            b.wf(),
            forall|i: int|
                0 <= i < a.windows@.len() ==> (viewport_key(#[trigger] a.windows@[i].viewport_id)
                    == vk <==> window_key(a.windows@[i].window_id) == wk),
            forall|i: int|
                0 <= i < a.windows@.len() && viewport_key(a.windows@[i].viewport_id) != vk ==> 0
                    <= #[trigger] to_b(i) < b.windows@.len() && b.windows@[to_b(i)] == a.windows@[i],
            forall|j: int|
                0 <= j < b.windows@.len() && (viewport_key(b.windows@[j].viewport_id) != vk
                    || window_key(b.windows@[j].window_id) != wk) ==> 0 <= #[trigger] to_a(j)
                    < a.windows@.len() && a.windows@[to_a(j)] == b.windows@[j],
        ensures
            forall|vk2: u64|
                vk2 != vk ==> #[trigger] b.window_id_for(vk2) == a.window_id_for(vk2),
            forall|wk2: u64|
                wk2 != wk ==> #[trigger] b.viewport_id_for(wk2) == a.viewport_id_for(wk2)
                    && b.window_for(wk2) == a.window_for(wk2),
    {
        assert forall|vk2: u64| vk2 != vk implies #[trigger] b.window_id_for(vk2)
            == a.window_id_for(vk2) by {
            if exists|i: int| a.has_viewport_at(i, vk2) {
                let i = choose|i: int| a.has_viewport_at(i, vk2);
                a.lemma_viewport_at(i, vk2);
                let j = to_b(i);
                b.lemma_viewport_at(j, vk2);
            } else {
                assert forall|j: int| !b.has_viewport_at(j, vk2) by {
                    if 0 <= j < b.windows@.len() && viewport_key(b.windows@[j].viewport_id) == vk2 {
                        let i = to_a(j);
                        assert(a.has_viewport_at(i, vk2));
                    }
                }
            }
        }
        assert forall|wk2: u64| wk2 != wk implies #[trigger] b.viewport_id_for(wk2)
            == a.viewport_id_for(wk2) && b.window_for(wk2) == a.window_for(wk2) by {
            if exists|i: int| a.has_window_at(i, wk2) {
                let i = choose|i: int| a.has_window_at(i, wk2);
                a.lemma_window_at(i, wk2);
                let j = to_b(i);
                b.lemma_window_at(j, wk2);
            } else {
                assert forall|j: int| !b.has_window_at(j, wk2) by {
                    if 0 <= j < b.windows@.len() && window_key(b.windows@[j].window_id) == wk2 {
                        let i = to_a(j);
                        assert(a.has_window_at(i, wk2));
                    }
                }
            }
        }
    }

    /// Frame counters of every viewport but `vk` agree between `a` and `b`
    /// when `b`'s counters are `a`'s, index for index, but for entries of `vk`.
    proof fn lemma_other_frames_kept(a: Self, b: Self, vk: u64)
        requires
            a.wf(),
            b.wf(),
            forall|i: int|
                0 <= i < a.frames@.len() && viewport_key(#[trigger] a.frames@[i].viewport_id) != vk
                    ==> i < b.frames@.len() && b.frames@[i] == a.frames@[i],
            forall|j: int|
                0 <= j < b.frames@.len() && viewport_key(#[trigger] b.frames@[j].viewport_id) != vk
                    ==> j < a.frames@.len() && a.frames@[j] == b.frames@[j],
        ensures
            forall|vk2: u64| vk2 != vk ==> #[trigger] b.frame_of(vk2) == a.frame_of(vk2),
    {
        assert forall|vk2: u64| vk2 != vk implies #[trigger] b.frame_of(vk2) == a.frame_of(vk2) by {
            if exists|i: int| a.has_frames_at(i, vk2) {
                let i = choose|i: int| a.has_frames_at(i, vk2);
                a.lemma_frames_at(i, vk2);
                b.lemma_frames_at(i, vk2);
            } else {
                assert forall|j: int| !b.has_frames_at(j, vk2) by {
                    if b.has_frames_at(j, vk2) {
                        assert(a.has_frames_at(j, vk2));
                    }
                }
            }
        }
    }

    /// Registers `window` as the native window of `viewport_id`. Refused
    /// (`false`, nothing changes) after shutdown, or when the viewport already
    /// has a window or the window already shows a viewport.
    pub fn add_window(&mut self, viewport_id: ViewportId, window_id: WindowId, window: Arc<W>) -> (r:
        bool)
        requires
            old(self).wf(),
        ensures
            final(self).wf(),
            r == (!old(self).is_destroyed() && old(self).window_id_for(viewport_key(viewport_id))
                is None && old(self).viewport_id_for(window_key(window_id)) is None),
            final(self).same_bookkeeping(*old(self)),
            !r ==> final(self).same_windows(*old(self)),
            r ==> final(self).window_id_for(viewport_key(viewport_id)) == Some(window_id),
            r ==> final(self).viewport_id_for(window_key(window_id)) == Some(viewport_id),
            r ==> final(self).window_for(window_key(window_id)) == Some(window),
            forall|vk: u64|
                vk != viewport_key(viewport_id) ==> #[trigger] final(self).window_id_for(vk)
                    == old(self).window_id_for(vk),
            forall|wk: u64|
                wk != window_key(window_id) ==> #[trigger] final(self).viewport_id_for(wk)
                    == old(self).viewport_id_for(wk) && final(self).window_for(wk)
                    == old(self).window_for(wk),
    {
        let vk = viewport_key_of(&viewport_id);
        let wk = window_key_of(&window_id);
        if self.destroyed || self.find_viewport(vk).is_some() || self.find_window(wk).is_some() {
            return false;
        }
        let ghost before = *self;
        self.windows.push(ViewportWindow { viewport_id, window_id, window });
        let ghost n = before.windows@.len() as int;
        proof {
            assert(forall|i: int| 0 <= i < n ==> self.windows@[i] == before.windows@[i]);
            assert forall|i: int, j: int|
                0 <= i < self.windows@.len() && 0 <= j < self.windows@.len() && i != j implies viewport_key(
                #[trigger] self.windows@[i].viewport_id) != viewport_key(
                #[trigger] self.windows@[j].viewport_id,
            ) by {
                if i == n {
                    assert(!before.has_viewport_at(j, vk));
                } else if j == n {
                    assert(!before.has_viewport_at(i, vk));
                }
            }
            assert forall|i: int, j: int|
                0 <= i < self.windows@.len() && 0 <= j < self.windows@.len() && i != j implies window_key(
                #[trigger] self.windows@[i].window_id) != window_key(
                #[trigger] self.windows@[j].window_id,
            ) by {
                if i == n {
                    assert(!before.has_window_at(j, wk));
                } else if j == n {
                    assert(!before.has_window_at(i, wk));
                }
            }
            assert(self.wf());
            self.lemma_viewport_at(n, vk);
            self.lemma_window_at(n, wk);
            self.lemma_same_frames(before);
            assert(forall|i: int| 0 <= i < n ==> self.windows@[i] == before.windows@[i]);
            ViewportRegistry::lemma_others_kept(before, *self, vk, wk, |i: int| i, |j: int| j);
        }
        true
    }

    /// Forgets `window_id` and releases the registry's handle of it. Returns
    /// the viewport it showed; nothing changes for an unknown window.
    pub fn remove_window(&mut self, window_id: WindowId) -> (r: Option<ViewportId>)
        requires
            old(self).wf(),
        ensures
            final(self).wf(),
            r == old(self).viewport_id_for(window_key(window_id)),
            final(self).same_bookkeeping(*old(self)),
            r is None ==> final(self).same_windows(*old(self)),
            final(self).viewport_id_for(window_key(window_id)) is None,
            final(self).window_for(window_key(window_id)) is None,
            r matches Some(v) ==> final(self).window_id_for(viewport_key(v)) is None,
            forall|vk: u64|
                (r matches Some(v) ==> vk != viewport_key(v)) ==> #[trigger] final(self).window_id_for(vk)
                    == old(self).window_id_for(vk),
            forall|wk: u64|
                wk != window_key(window_id) ==> #[trigger] final(self).viewport_id_for(wk)
                    == old(self).viewport_id_for(wk) && final(self).window_for(wk)
                    == old(self).window_for(wk),
    {
        let wk = window_key_of(&window_id);
        let k = match self.find_window(wk) {
            Some(k) => k,
            None => {
                return None;
            },
        };
        let ghost before = *self;
        proof {
            before.lemma_window_at(k as int, wk);
        }
        let removed = self.windows.remove(k);
        let ghost vk = viewport_key(removed.viewport_id);
        proof {
            let n = self.windows@.len() as int;
            assert forall|j: int| 0 <= j < n implies #[trigger] self.windows@[j] == before.windows@[
                if j < k { j } else { j + 1 }] by {}
            assert forall|i: int, j: int|
                0 <= i < n && 0 <= j < n && i != j implies viewport_key(
                #[trigger] self.windows@[i].viewport_id) != viewport_key(
                #[trigger] self.windows@[j].viewport_id,
            ) by {
                let i0 = if i < k { i } else { i + 1 };
                let j0 = if j < k { j } else { j + 1 };
                assert(viewport_key(before.windows@[i0].viewport_id) != viewport_key(before.windows@[j0].viewport_id));
            }
            assert forall|i: int, j: int|
                0 <= i < n && 0 <= j < n && i != j implies window_key(
                #[trigger] self.windows@[i].window_id) != window_key(
                #[trigger] self.windows@[j].window_id,
            ) by {
                let i0 = if i < k { i } else { i + 1 };
                let j0 = if j < k { j } else { j + 1 };
                assert(window_key(before.windows@[i0].window_id) != window_key(before.windows@[j0].window_id));
            }
            assert(self.wf());
            self.lemma_same_frames(before);
            ViewportRegistry::lemma_others_kept(
                before,
                *self,
                vk,
                wk,
                |i: int| if i < k { i } else { i - 1 },
                |j: int| if j < k { j } else { j + 1 },
            );
            assert forall|j: int| !self.has_viewport_at(j, vk) by {
                if 0 <= j < n {
                    let j0 = if j < k { j } else { j + 1 };
                    assert(viewport_key(before.windows@[j0].viewport_id) != viewport_key(before.windows@[k as int].viewport_id));
                }
            }
            assert forall|j: int| !self.has_window_at(j, wk) by {
                if 0 <= j < n {
                    let j0 = if j < k { j } else { j + 1 };
                    assert(window_key(before.windows@[j0].window_id) != window_key(before.windows@[k as int].window_id));
                }
            }
        }
        Some(removed.viewport_id)
    }

    /// Records a completed UI pass of `window_id`: the frame counter of the
    /// viewport it shows goes up by one, and no other counter moves. The pass
    /// outcome is turned into the next scheduling step. A pass of an unknown
    /// window (destroyed, or after shutdown) is ignored and yields `Wait`.
    pub fn record_pass(&mut self, window_id: WindowId, outcome: PassOutcome) -> (r: EventResult)
        requires
            old(self).wf(),
            old(self).viewport_id_for(window_key(window_id)) matches Some(v) ==> old(
                self,
            ).frame_of(viewport_key(v)) < u64::MAX,
        ensures
            final(self).wf(),
            final(self).same_windows(*old(self)),
            final(self).root_key() == old(self).root_key(),
            final(self).is_destroyed() == old(self).is_destroyed(),
            final(self).pending_actions() == old(self).pending_actions(),
            match old(self).viewport_id_for(window_key(window_id)) {
                Some(v) => {
                    &&& r == pass_result(window_id, outcome)
                    &&& final(self).frame_of(viewport_key(v)) == old(self).frame_of(viewport_key(v)) + 1
                    &&& forall|vk: u64|
                        vk != viewport_key(v) ==> #[trigger] final(self).frame_of(vk) == old(
                            self,
                        ).frame_of(vk)
                },
                None => {
                    &&& r == EventResult::Wait
                    &&& forall|vk: u64| #[trigger] final(self).frame_of(vk) == old(self).frame_of(vk)
                },
            },
    {
        let wk = window_key_of(&window_id);
        let viewport_id = match self.find_window(wk) {
            Some(k) => {
                proof {
                    self.lemma_window_at(k as int, wk);
                }
                self.windows[k].viewport_id
            },
            None => {
                return EventResult::Wait;
            },
        };
        let vk = viewport_key_of(&viewport_id);
        let ghost before = *self;
        match self.find_frames(vk) {
            Some(i) => {
                proof {
                    before.lemma_frames_at(i as int, vk);
                }
                let next = self.frames[i].frame_nr + 1;
                let id = self.frames[i].viewport_id;
                self.frames.set(i, FrameCount { viewport_id: id, frame_nr: next });
                proof {
                    assert forall|a: int, b: int|
                        0 <= a < self.frames@.len() && 0 <= b < self.frames@.len() && a != b implies viewport_key(
                        #[trigger] self.frames@[a].viewport_id) != viewport_key(
                        #[trigger] self.frames@[b].viewport_id,
                    ) by {
                        assert(viewport_key(before.frames@[a].viewport_id) != viewport_key(before.frames@[b].viewport_id));
                    }
                    assert(self.wf());
                    self.lemma_frames_at(i as int, vk);
                    ViewportRegistry::lemma_other_frames_kept(before, *self, vk);
                }
            },
            None => {
                self.frames.push(FrameCount { viewport_id, frame_nr: 1 });
                proof {
                    let n = before.frames@.len() as int;
                    assert forall|a: int, b: int|
                        0 <= a < self.frames@.len() && 0 <= b < self.frames@.len() && a != b implies viewport_key(
                        #[trigger] self.frames@[a].viewport_id) != viewport_key(
                        #[trigger] self.frames@[b].viewport_id,
                    ) by {
                        if a == n {
                            assert(!before.has_frames_at(b, vk));
                        } else if b == n {
                            assert(!before.has_frames_at(a, vk));
                        }
                    }
                    assert(self.wf());
                    self.lemma_frames_at(n, vk);
                    ViewportRegistry::lemma_other_frames_kept(before, *self, vk);
                }
            },
        }
        proof {
            self.lemma_same_windows(before);
        }
        match outcome {
            PassOutcome::Exit => EventResult::Exit,
            PassOutcome::RepaintNext => EventResult::RepaintNext(window_id),
            PassOutcome::RepaintAt(when) => EventResult::RepaintAt(window_id, when),
            PassOutcome::Idle => EventResult::Wait,
        }
    }

    /// The outcome of a repaint request for the viewport with key `vk`, made
    /// when its frame counter stood at `frame_nr`. A request is fresh while
    /// the counter has not moved since; a stale request, or one for a
    /// viewport without a window, asks for nothing.
    pub open spec fn repaint_request_result(self, vk: u64, when: Instant, frame_nr: u64) -> EventResult {
        match self.window_id_for(vk) {
            Some(window_id) => if self.frame_of(vk) == frame_nr {
                EventResult::RepaintAt(window_id, when)
            } else {
                EventResult::Wait
            },
            None => EventResult::Wait,
        }
    }

    /// Handles an event posted to the loop. A repaint request yields
    /// `repaint_request_result` and changes nothing. An accessibility action
    /// for a known window is queued for that window's next UI pass, which it
    /// asks for; one for an unknown window is dropped. Ignored accessibility
    /// events change nothing.
    pub fn on_user_event(&mut self, event: UserEvent) -> (r: EventResult)
        requires
            old(self).wf(),
        ensures
            final(self).wf(),
            final(self).same_windows(*old(self)),
            final(self).root_key() == old(self).root_key(),
            final(self).is_destroyed() == old(self).is_destroyed(),
            forall|vk: u64| #[trigger] final(self).frame_of(vk) == old(self).frame_of(vk),
            match event {
                UserEvent::RequestRepaint { viewport_id, when, frame_nr } => {
                    &&& r == old(self).repaint_request_result(viewport_key(viewport_id), when, frame_nr)
                    &&& final(self).pending_actions() == old(self).pending_actions()
                },
                UserEvent::AccessKitActionRequest { request, window_id } => {
                    if old(self).viewport_id_for(window_key(window_id)) is Some {
                        &&& r == EventResult::RepaintNext(window_id)
                        &&& final(self).pending_actions() == old(self).pending_actions().push(
                            PendingAction { window_id, request },
                        )
                    } else {
                        &&& r == EventResult::Wait
                        &&& final(self).pending_actions() == old(self).pending_actions()
                    }
                },
                UserEvent::AccessKitIgnored { .. } => {
                    &&& r == EventResult::Wait
                    &&& final(self).pending_actions() == old(self).pending_actions()
                },
            },
    {
        match event {
            UserEvent::RequestRepaint { viewport_id, when, frame_nr } => {
                let current = self.frame_nr(viewport_id);
                match self.window_id_from_viewport_id(viewport_id) {
                    Some(window_id) => if current == frame_nr {
                        EventResult::RepaintAt(window_id, when)
                    } else {
                        EventResult::Wait
                    },
                    None => EventResult::Wait,
                }
            },
            UserEvent::AccessKitActionRequest { request, window_id } => {
                let wk = window_key_of(&window_id);
                match self.find_window(wk) {
                    Some(k) => {
                        proof {
                            self.lemma_window_at(k as int, wk);
                        }
                        let ghost before = *self;
                        self.pending.push(PendingAction { window_id, request });
                        proof {
                            self.lemma_same_windows(before);
                            self.lemma_same_frames(before);
                        }
                        EventResult::RepaintNext(window_id)
                    },
                    None => EventResult::Wait,
                }
            },
            UserEvent::AccessKitIgnored { .. } => EventResult::Wait,
        }
    }

    /// Hands over the queued accessibility actions, oldest first.
    pub fn take_pending_actions(&mut self) -> (r: Vec<PendingAction>)
        requires
            old(self).wf(),
        ensures
            final(self).wf(),
            r@ == old(self).pending_actions(),
            final(self).pending_actions().len() == 0,
            final(self).same_windows(*old(self)),
            final(self).root_key() == old(self).root_key(),
            final(self).is_destroyed() == old(self).is_destroyed(),
            forall|vk: u64| #[trigger] final(self).frame_of(vk) == old(self).frame_of(vk),
    {
        let ghost before = *self;
        let mut taken: Vec<PendingAction> = Vec::new();
        std::mem::swap(&mut taken, &mut self.pending);
        proof {
            self.lemma_same_windows(before);
            self.lemma_same_frames(before);
        }
        taken
    }

    /// Handles a native event of `window_id`. Events of unknown windows are
    /// ignored (`Wait`). Closing the root viewport's window ends the program
    /// (`Exit`); closing another one forgets it. A redraw the platform asks
    /// for is done now; other changes are shown by the next frame.
    pub fn on_window_event(&mut self, window_id: WindowId, event: WindowEventKind) -> (r: EventResult)
        requires
            old(self).wf(),
        ensures
            final(self).wf(),
            final(self).same_bookkeeping(*old(self)),
            match old(self).viewport_id_for(window_key(window_id)) {
                None => r == EventResult::Wait && final(self).same_windows(*old(self)),
                Some(v) => match event {
                    WindowEventKind::CloseRequested | WindowEventKind::Destroyed => {
                        if viewport_key(v) == old(self).root_key() {
                            r == EventResult::Exit && final(self).same_windows(*old(self))
                        } else {
                            &&& r == EventResult::Wait
                            &&& final(self).viewport_id_for(window_key(window_id)) is None
                            &&& final(self).window_for(window_key(window_id)) is None
                            &&& final(self).window_id_for(viewport_key(v)) is None
                            &&& forall|vk: u64|
                                vk != viewport_key(v) ==> #[trigger] final(self).window_id_for(vk)
                                    == old(self).window_id_for(vk)
                            &&& forall|wk: u64|
                                wk != window_key(window_id) ==> #[trigger] final(self).viewport_id_for(wk)
                                    == old(self).viewport_id_for(wk)
                                    && final(self).window_for(wk) == old(self).window_for(wk)
                        }
                    },
                    WindowEventKind::RedrawRequested => r == EventResult::RepaintNow(window_id)
                        && final(self).same_windows(*old(self)),
                    _ => r == EventResult::RepaintNext(window_id) && final(self).same_windows(
                        *old(self),
                    ),
                },
            },
    {
        let viewport_id = match self.viewport_id_from_window_id(window_id) {
            Some(v) => v,
            None => {
                return EventResult::Wait;
            },
        };
        match event {
            WindowEventKind::CloseRequested | WindowEventKind::Destroyed => {
                let vk = viewport_key_of(&viewport_id);
                let root_key = viewport_key_of(&self.root);
                if vk == root_key {
                    EventResult::Exit
                } else {
                    self.remove_window(window_id);
                    EventResult::Wait
                }
            },
            WindowEventKind::RedrawRequested => EventResult::RepaintNow(window_id),
            WindowEventKind::Resized | WindowEventKind::Input => EventResult::RepaintNext(window_id),
        }
    }

    /// The state after shutdown from `before`: `persist` says whether the GUI
    /// memory is to be saved now, which is so only the first time. No window
    /// handle is held and no action is pending afterwards; frame counters stay.
    pub open spec fn destroyed_from(before: Self, after: Self, persist: bool) -> bool {
        &&& after.wf()
        &&& persist == !before.is_destroyed()
        &&& after.is_destroyed()
        &&& after.root_key() == before.root_key()
        &&& after.pending_actions().len() == 0
        &&& forall|vk: u64|
            #![trigger after.window_id_for(vk)]
            #![trigger after.frame_of(vk)]
            after.window_id_for(vk) is None && after.frame_of(vk) == before.frame_of(vk)
        &&& forall|wk: u64|
            #![trigger after.viewport_id_for(wk)]
            #![trigger after.window_for(wk)]
            after.viewport_id_for(wk) is None && after.window_for(wk) is None
    }

    /// Shuts down: releases every window handle the registry holds and drops
    /// pending actions. Returns whether the caller is to persist the GUI
    /// memory now: only on the first call, so calling twice is harmless.
    pub fn save_and_destroy(&mut self) -> (r: bool)
        requires
            old(self).wf(),
        ensures
            Self::destroyed_from(*old(self), *final(self), r),
    {
        let ghost before = *self;
        let persist = !self.destroyed;
        self.windows.clear();
        self.pending.clear();
        self.destroyed = true;
        proof {
            self.lemma_same_frames(before);
        }
        persist
    }
}

} // verus!

verus! {

/// The two lookups agree at every point: a viewport is shown in a window
/// exactly when that window shows that viewport, and a window has a handle
/// exactly when it shows a viewport. So no viewport resolves to a window
/// unknown to the registry, nor a window to an unknown viewport. Following a
/// lookup and then the reverse one comes back to the very same id, and no
/// two viewports share a window.
pub proof fn lemma_lookups_agree<W>(reg: ViewportRegistry<W>, vk: u64, vk2: u64, wk: u64)
    requires
        reg.wf(),
    ensures
        reg.window_id_for(vk) matches Some(w) ==> reg.viewport_id_for(window_key(w)) matches Some(v)
            && viewport_key(v) == vk && reg.window_id_for(viewport_key(v)) == Some(w),
        reg.viewport_id_for(wk) matches Some(v) ==> reg.window_id_for(viewport_key(v)) matches Some(w)
            && window_key(w) == wk && reg.viewport_id_for(window_key(w)) == Some(v),
        reg.window_id_for(vk) is Some && reg.window_id_for(vk) == reg.window_id_for(vk2) ==> vk
            == vk2,
        (reg.window_id_for(vk) matches Some(w) && window_key(w) == wk) <==> (reg.viewport_id_for(
            wk,
        ) matches Some(v) && viewport_key(v) == vk),
        reg.window_for(wk) is Some <==> reg.viewport_id_for(wk) is Some,
{
    if exists|i: int| reg.has_viewport_at(i, vk) {
        let i = choose|i: int| reg.has_viewport_at(i, vk);
        reg.lemma_viewport_at(i, vk);
        reg.lemma_window_at(i, window_key(reg.windows@[i].window_id));
        if window_key(reg.windows@[i].window_id) == wk {
            reg.lemma_window_at(i, wk);
        }
        if exists|j: int| reg.has_viewport_at(j, vk2) {
            let j = choose|j: int| reg.has_viewport_at(j, vk2);
            reg.lemma_viewport_at(j, vk2);
            if i != j {
                assert(window_key(reg.windows@[i].window_id) != window_key(reg.windows@[j].window_id));
            }
        }
    }
    if exists|i: int| reg.has_window_at(i, wk) {
        let i = choose|i: int| reg.has_window_at(i, wk);
        reg.lemma_window_at(i, wk);
        reg.lemma_viewport_at(i, viewport_key(reg.windows@[i].viewport_id));
        if viewport_key(reg.windows@[i].viewport_id) == vk {
            reg.lemma_viewport_at(i, vk);
        }
    }
}

/// A repaint request tagged with a frame the viewport has already passed is
/// stale: it asks for no repaint at all, let alone an immediate one.
pub proof fn lemma_stale_request_waits<W>(
    reg: ViewportRegistry<W>,
    vk: u64,
    when: Instant,
    frame_nr: u64,
)
    requires
        reg.frame_of(vk) > frame_nr,
    ensures
        reg.repaint_request_result(vk, when, frame_nr) == EventResult::Wait,
        !(reg.repaint_request_result(vk, when, frame_nr) is RepaintNow),
        !(reg.repaint_request_result(vk, when, frame_nr) is RepaintNext),
{
}

/// Shutting down twice in a row is harmless: the second call asks for no
/// second save and changes nothing.
pub proof fn lemma_save_and_destroy_twice<W>(
    a: ViewportRegistry<W>,
    b: ViewportRegistry<W>,
    c: ViewportRegistry<W>,
    first: bool,
    second: bool,
)
    requires
        a.wf(),
        ViewportRegistry::destroyed_from(a, b, first),
        ViewportRegistry::destroyed_from(b, c, second),
    ensures
        !second,
        c.same_windows(b),
        c.same_bookkeeping(b),
{
    assert(c.pending_actions() =~= b.pending_actions());
}

} // verus!
