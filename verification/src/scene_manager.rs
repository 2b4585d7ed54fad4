use core::marker::PhantomData;
use vstd::prelude::*;

use crate::input::{ExitSignal, InputEvent};
use crate::scene::{Scene, SceneContext};

verus! {

/// One registered scene together with its label.
struct SceneEntry<S> {
    label: String,
    scene: S,
}

/// Handles adding, getting and switching scenes.
///
/// Scenes are stored under a unique label.  Two labels are kept besides the
/// registry: an `active_scene` label, and a `next_scene` label which, when
/// set, indicates that the pending transition must be applied by `update`.
pub struct SceneManager<G, S> {
    scenes: Vec<SceneEntry<S>>,
    active_scene: Option<String>,
    next_scene: Option<String>,
    calls: Ghost<Seq<LifecycleCall>>,
    context: PhantomData<G>,
}

/// The scene-lifecycle state a manager's operations act on, as it appears
/// in contracts: which labels are registered, which of the registered
/// scenes are initialized, the active scene and the pending transition.
pub ghost struct LifecycleState {
    pub registered: Set<Seq<char>>,
    pub initialized: Set<Seq<char>>,
    pub active: Option<Seq<char>>,
    pub next: Option<Seq<char>>,
}

/// The effect of `add_scene` on the lifecycle state: the label becomes
/// registered, and whether it counts as initialized is decided by the newly
/// stored scene (a registration overwrites any earlier scene under the same
/// label).
pub open spec fn register_transition(
    m: LifecycleState,
    label: Seq<char>,
    scene_initialized: bool,
) -> LifecycleState {
    LifecycleState {
        registered: m.registered.insert(label),
        initialized: if scene_initialized {
            m.initialized.insert(label)
        } else {
            m.initialized.remove(label)
        },
        active: m.active,
        next: m.next,
    }
}

/// The effect of `request_scene_change` on the lifecycle state: a
/// registered label that is not already active becomes the pending
/// transition; any other request changes nothing.
pub open spec fn request_transition(m: LifecycleState, label: Seq<char>) -> LifecycleState {
    if m.registered.contains(label) && m.active != Some(label) {
        LifecycleState {
            registered: m.registered,
            initialized: m.initialized,
            active: m.active,
            next: Some(label),
        }
    } else {
        m
    }
}

/// The effect of `update` on the lifecycle state: a pending transition
/// makes its target the active, initialized scene and clears the pending
/// label; without one, nothing changes.
pub open spec fn reconcile_transition(m: LifecycleState) -> LifecycleState {
    match m.next {
        Some(l) => LifecycleState {
            registered: m.registered,
            initialized: m.initialized.insert(l),
            active: Some(l),
            next: None,
        },
        None => m,
    }
}

/// One lifecycle call the manager has made: `cleanup` on the scene under
/// the label, or `init` on it.
pub ghost enum LifecycleCall {
    Cleanup(Seq<char>),
    Init(Seq<char>),
}

/// The cleanup/init calls one reconcile makes, in order: `cleanup` on the
/// active scene when there is one, then `init` on the target unless it is
/// already initialized.  Cleanup of the outgoing scene always precedes
/// initialization of the incoming one.
pub open spec fn reconcile_calls(
    active: Option<Seq<char>>,
    target: Seq<char>,
    target_initialized: bool,
) -> Seq<LifecycleCall> {
    (match active {
        Some(a) => seq![LifecycleCall::Cleanup(a)],
        None => Seq::<LifecycleCall>::empty(),
    }) + (if target_initialized {
        Seq::<LifecycleCall>::empty()
    } else {
        seq![LifecycleCall::Init(target)]
    })
}

impl<G: SceneContext, S: Scene<G>> SceneManager<G, S> {
    /// The registered labels, in registration order.
    pub closed spec fn labels(&self) -> Seq<Seq<char>> {
        self.scenes@.map_values(|e: SceneEntry<S>| e.label@)
    }

    /// Whether a scene is registered under `label`.
    pub open spec fn has_scene(&self, label: Seq<char>) -> bool {
        self.labels().contains(label)
    }

    /// The registry position of `label`; meaningful only when the label is
    /// registered and the labels are distinct.
    pub closed spec fn index_of(&self, label: Seq<char>) -> int {
        choose|i: int| 0 <= i < self.labels().len() && self.labels()[i] == label
    }

    /// The scene registered under `label`; meaningful only when the label is
    /// registered.
    pub closed spec fn scene_of(&self, label: Seq<char>) -> S {
        self.scenes@[self.index_of(label)].scene
    }

    /// The label of the active scene, if any.
    pub closed spec fn active(&self) -> Option<Seq<char>> {
        match self.active_scene {
            Some(l) => Some(l@),
            None => None,
        }
    }

    /// The label of the pending transition target, if any.
    pub closed spec fn next(&self) -> Option<Seq<char>> {
        match self.next_scene {
            Some(l) => Some(l@),
            None => None,
        }
    }

    /// Every `cleanup` and `init` call this manager has made, oldest
    /// first.
    pub closed spec fn calls(&self) -> Seq<LifecycleCall> {
        self.calls@
    }

    /// The lifecycle state of this manager.
    pub open spec fn lifecycle(&self) -> LifecycleState {
        LifecycleState {
            registered: Set::new(|l: Seq<char>| self.has_scene(l)),
            initialized: Set::new(
                |l: Seq<char>| self.has_scene(l) && self.scene_of(l).initialized(),
            ),
            active: self.active(),
            next: self.next(),
        }
    }

    /// No two registered scenes share a label.
    pub closed spec fn distinct_labels(&self) -> bool {
        forall|i: int, j: int|
            0 <= i < j < self.labels().len() ==> self.labels()[i] != self.labels()[j]
    }

    /// Well-formedness: labels are distinct, the active and pending labels
    /// are registered, and a pending transition never targets the scene
    /// that is already active.
    pub closed spec fn wf(&self) -> bool {
        &&& self.distinct_labels()
        &&& (self.active() matches Some(l) ==> self.has_scene(l))
        &&& (self.next() matches Some(l) ==> self.has_scene(l) && self.active() != Some(l))
    }

    proof fn lemma_label_at(&self, i: int)
        requires
            0 <= i < self.scenes@.len(),
        ensures
            self.labels().len() == self.scenes@.len(),
            self.labels()[i] == self.scenes@[i].label@,
    {
    }

    proof fn lemma_index_props(&self, label: Seq<char>)
        requires
            self.has_scene(label),
        ensures
            0 <= self.index_of(label) < self.labels().len(),
            self.labels()[self.index_of(label)] == label,
            self.labels().len() == self.scenes@.len(),
            self.scenes@[self.index_of(label)].label@ == label,
    {
        let i = choose|i: int| 0 <= i < self.labels().len() && self.labels()[i] == label;
        assert(self.labels()[i] == label);
        self.lemma_label_at(self.index_of(label));
    }

    proof fn lemma_index_unique(&self, label: Seq<char>, i: int)
        requires
            self.distinct_labels(),
            0 <= i < self.labels().len(),
            self.labels()[i] == label,
        ensures
            self.index_of(label) == i,
            self.scene_of(label) == self.scenes@[i].scene,
    {
        assert(self.has_scene(label));
        self.lemma_index_props(label);
        let k = self.index_of(label);
        if k != i {
            if k < i {
                assert(self.labels()[k] != self.labels()[i]);
            } else {
                assert(self.labels()[i] != self.labels()[k]);
            }
        }
    }

    proof fn lemma_same_scenes(&self, m0: SceneManager<G, S>)
        requires
            m0.distinct_labels(),
            self.scenes@ == m0.scenes@,
        ensures
            self.labels() == m0.labels(),
            self.distinct_labels(),
            forall|m: Seq<char>| self.has_scene(m) == m0.has_scene(m),
            forall|m: Seq<char>| m0.has_scene(m) ==> self.scene_of(m) == m0.scene_of(m),
    {
        assert(self.labels() =~= m0.labels());
        assert(self.distinct_labels());
        assert forall|m: Seq<char>| m0.has_scene(m) implies self.scene_of(m) == m0.scene_of(
            m,
        ) by {
            m0.lemma_index_props(m);
            let k = m0.index_of(m);
            m0.lemma_index_unique(m, k);
            self.lemma_index_unique(m, k);
        }
    }

    /// Creates an empty manager: no scenes, no active scene, no pending
    /// transition.
    pub fn new() -> (r: SceneManager<G, S>)
        ensures
            r.wf(),
            r.labels() == Seq::<Seq<char>>::empty(),
            forall|l: Seq<char>| !r.has_scene(l),
            r.active() is None,
            r.next() is None,
            r.calls() == Seq::<LifecycleCall>::empty(),
    {
        let r = SceneManager {
            scenes: Vec::new(),
            active_scene: None,
            next_scene: None,
            calls: Ghost(Seq::empty()),
            context: PhantomData,
        };
        proof {
            assert(r.labels() =~= Seq::<Seq<char>>::empty());
        }
        r
    }

    fn find_index(&self, label: &String) -> (r: Option<usize>)
        ensures
            match r {
                Some(i) => {
                    &&& i < self.scenes@.len()
                    &&& self.scenes@[i as int].label@ == label@
                    &&& self.has_scene(label@)
                },
                None => !self.has_scene(label@),
            },
    {
        let n = self.scenes.len();
        let mut i: usize = 0;
        while i < n
            invariant
                n == self.scenes@.len(),
                i <= n,
                forall|j: int| 0 <= j < i ==> self.scenes@[j].label@ != label@,
            decreases n - i,
        {
            let e = &self.scenes[i];
            if e.label == *label {
                proof {
                    self.lemma_label_at(i as int);
                }
                return Some(i);
            }
            i = i + 1;
        }
        proof {
            assert forall|j: int| 0 <= j < self.labels().len() implies self.labels()[j]
                != label@ by {
                self.lemma_label_at(j);
            }
        }
        None
    }

    /// Registers `scene` under `label`.  A label that is already registered
    /// is overwritten: the last registration wins, and the labels that were
    /// registered, the active scene and the pending transition all stay as
    /// they were.
    pub fn add_scene(&mut self, label: &str, scene: S)
        requires
            old(self).wf(),
        ensures
            final(self).wf(),
            final(self).has_scene(label@),
            final(self).scene_of(label@) == scene,
            final(self).active() == old(self).active(),
            final(self).next() == old(self).next(),
            forall|m: Seq<char>|
                m != label@ ==> final(self).has_scene(m) == old(self).has_scene(m),
            forall|m: Seq<char>|
                m != label@ && old(self).has_scene(m) ==> final(self).scene_of(m)
                    == old(self).scene_of(m),
            final(self).lifecycle() == register_transition(
                old(self).lifecycle(),
                label@,
                scene.initialized(),
            ),
            final(self).calls() == old(self).calls(),
    {
        let ls: String = label.to_owned();
        let ghost m0 = *self;
        match self.find_index(&ls) {
            Some(i) => {
                let e = &mut self.scenes[i];
                e.scene = scene;
                proof {
                    assert(self.labels() =~= m0.labels());
                    assert(self.distinct_labels());
                    m0.lemma_index_unique(label@, i as int);
                    self.lemma_index_unique(label@, i as int);
                    assert forall|m: Seq<char>| m != label@ && m0.has_scene(m) implies self
                        .scene_of(m) == m0.scene_of(m) by {
                        m0.lemma_index_props(m);
                        let k = m0.index_of(m);
                        m0.lemma_index_unique(m, k);
                        self.lemma_index_unique(m, k);
                        assert(k != i as int);
                    }
                    self.lemma_add_post(m0, label@, scene);
                }
            },
            None => {
                self.scenes.push(SceneEntry { label: ls, scene });
                proof {
                    assert(self.labels() =~= m0.labels().push(label@));
                    let n = m0.labels().len();
                    assert forall|x: int, y: int|
                        0 <= x < y < self.labels().len() implies self.labels()[x] != self
                        .labels()[y] by {
                        if y < n {
                        } else {
                            assert(self.labels()[y] == label@);
                            assert(m0.labels()[x] == self.labels()[x]);
                            assert(!m0.has_scene(label@));
                            if self.labels()[x] == label@ {
                                assert(m0.labels().contains(label@));
                            }
                        }
                    }
                    assert(self.distinct_labels());
                    self.lemma_index_unique(label@, n as int);
                    assert forall|m: Seq<char>| m != label@ && m0.has_scene(m) implies self
                        .has_scene(m) && self.scene_of(m) == m0.scene_of(m) by {
                        m0.lemma_index_props(m);
                        let k = m0.index_of(m);
                        assert(self.labels()[k] == m);
                        assert(self.has_scene(m));
                        self.lemma_index_unique(m, k);
                    }
                    assert forall|m: Seq<char>| m != label@ && self.has_scene(m) implies m0
                        .has_scene(m) by {
                        self.lemma_index_props(m);
                        let k = self.index_of(m);
                        assert(k != n);
                        assert(m0.labels()[k] == m);
                    }
                    self.lemma_add_post(m0, label@, scene);
                }
            },
        }
    }

    proof fn lemma_add_post(&self, m0: SceneManager<G, S>, label: Seq<char>, scene: S)
        requires
            self.has_scene(label),
            self.scene_of(label) == scene,
            self.active() == m0.active(),
            self.next() == m0.next(),
            forall|m: Seq<char>| m != label ==> self.has_scene(m) == m0.has_scene(m),
            forall|m: Seq<char>|
                m != label && m0.has_scene(m) ==> self.scene_of(m) == m0.scene_of(m),
        ensures
            self.lifecycle() == register_transition(m0.lifecycle(), label, scene.initialized()),
    {
        let target = register_transition(m0.lifecycle(), label, scene.initialized());
        assert(self.lifecycle().registered =~= target.registered);
        assert forall|m: Seq<char>|
            self.lifecycle().initialized.contains(m) == target.initialized.contains(m) by {
            if m != label {
                assert(self.has_scene(m) == m0.has_scene(m));
            }
        }
        assert(self.lifecycle().initialized =~= target.initialized);
    }

    /// Sets the pending transition to `label` when a scene is registered
    /// under it and it is not already the active scene.  Requesting an
    /// unknown label, or the label of the scene that is already active, is
    /// a no-op: the registry, the active scene and the pending transition
    /// all stay unchanged.
    pub fn request_scene_change(&mut self, label: &str)
        requires
            old(self).wf(),
        ensures
            final(self).wf(),
            forall|m: Seq<char>| final(self).has_scene(m) == old(self).has_scene(m),
            forall|m: Seq<char>|
                old(self).has_scene(m) ==> final(self).scene_of(m) == old(self).scene_of(m),
            final(self).active() == old(self).active(),
            final(self).next() == (if old(self).has_scene(label@) && old(self).active() != Some(
                label@,
            ) {
                Some(label@)
            } else {
                old(self).next()
            }),
            !(old(self).has_scene(label@) && old(self).active() != Some(label@)) ==> *final(self)
                == *old(self),
            final(self).lifecycle() == request_transition(old(self).lifecycle(), label@),
            final(self).calls() == old(self).calls(),
    {
        let ghost m0 = *self;
        let ls: String = label.to_owned();
        match self.find_index(&ls) {
            Some(_) => {
                let is_active = match &self.active_scene {
                    Some(a) => *a == ls,
                    None => false,
                };
                if !is_active {
                    self.next_scene = Some(ls);
                }
            },
            None => {},
        }
        proof {
            self.lemma_same_scenes(m0);
            assert(self.lifecycle().registered =~= request_transition(
                m0.lifecycle(),
                label@,
            ).registered);
            assert(self.lifecycle().initialized =~= request_transition(
                m0.lifecycle(),
                label@,
            ).initialized);
        }
    }

    /// Applies a pending transition, if one is set: calls `cleanup` on the
    /// active scene (if any), makes the pending scene the active one, clears
    /// the pending label, and calls `init` on the newly active scene if it
    /// has not been initialized yet.  With no pending transition this does
    /// nothing at all.  The calls made are appended to `calls()`, so the
    /// contract fixes that cleanup of the outgoing scene happens at most
    /// once and before the one initialization of the incoming scene.
    pub fn update(&mut self, graphics: &mut G)
        requires
            old(self).wf(),
            old(graphics).inv(),
        ensures
            final(self).wf(),
            final(graphics).inv(),
            forall|m: Seq<char>| final(self).has_scene(m) == old(self).has_scene(m),
            final(self).next() is None,
            final(self).active() == (if old(self).next() is Some {
                old(self).next()
            } else {
                old(self).active()
            }),
            old(self).next() is None ==> *final(self) == *old(self) && *final(graphics)
                == *old(graphics),
            final(self).lifecycle() == reconcile_transition(old(self).lifecycle()),
            final(self).calls() == old(self).calls() + (match old(self).next() {
                Some(l) => reconcile_calls(
                    old(self).active(),
                    l,
                    old(self).scene_of(l).initialized(),
                ),
                None => Seq::<LifecycleCall>::empty(),
            }),
            old(self).next() matches Some(l) ==> {
                &&& final(self).scene_of(l).initialized()
                &&& (old(self).scene_of(l).initialized() ==> final(self).scene_of(l)
                    == old(self).scene_of(l))
                &&& (old(self).active() matches Some(a) ==> final(self).scene_of(a).initialized()
                    == old(self).scene_of(a).initialized())
                &&& (forall|m: Seq<char>|
                    old(self).has_scene(m) && m != l && Some(m) != old(self).active()
                        ==> final(self).scene_of(m) == old(self).scene_of(m))
            },
    {
        let ghost m0 = *self;
        let nxt = match &self.next_scene {
            Some(s) => Some(s.clone()),
            None => None,
        };
        match nxt {
            None => {},
            Some(l) => {
                let act = match &self.active_scene {
                    Some(a) => Some(a.clone()),
                    None => None,
                };
                match act {
                    Some(a) => {
                        match self.find_index(&a) {
                            Some(i) => {
                                proof {
                                    m0.lemma_index_unique(a@, i as int);
                                }
                                let e = &mut self.scenes[i];
                                e.scene.cleanup();
                                proof {
                                    self.calls@ = self.calls@.push(LifecycleCall::Cleanup(a@));
                                    assert(self.labels() =~= m0.labels());
                                }
                            },
                            None => {
                                proof {
                                    assert(false);
                                }
                            },
                        }
                    },
                    None => {},
                }
                let ghost m1 = *self;
                proof {
                    assert(m1.labels() == m0.labels());
                }
                self.active_scene = Some(l.clone());
                let ghost m2 = *self;
                proof {
                    assert(m2.labels() == m0.labels());
                    assert(m2.scenes@ == m1.scenes@);
                }
                match self.find_index(&l) {
                    Some(i) => {
                        proof {
                            m2.lemma_index_unique(l@, i as int);
                        }
                        let e = &mut self.scenes[i];
                        if !e.scene.is_initialized() {
                            e.scene.init(graphics);
                            proof {
                                self.calls@ = self.calls@.push(LifecycleCall::Init(l@));
                            }
                        }
                        proof {
                            assert(self.labels() =~= m2.labels());
                        }
                    },
                    None => {
                        proof {
                            assert(false);
                        }
                    },
                }
                self.next_scene = None;
                proof {
                    self.lemma_update_post(m0, m1, m2, l@);
                    assert(self.calls@ =~= m0.calls@ + reconcile_calls(
                        m0.active(),
                        l@,
                        m0.scene_of(l@).initialized(),
                    ));
                    let target = reconcile_transition(m0.lifecycle());
                    assert(self.lifecycle().registered =~= target.registered);
                    assert forall|m: Seq<char>|
                        self.lifecycle().initialized.contains(m) == target.initialized.contains(
                            m,
                        ) by {
                        if m != l@ {
                            assert(self.has_scene(m) == m0.has_scene(m));
                            if m0.has_scene(m) {
                                if m0.active() == Some(m) {
                                    assert(self.scene_of(m).initialized() == m0.scene_of(
                                        m,
                                    ).initialized());
                                } else {
                                    assert(self.scene_of(m) == m0.scene_of(m));
                                }
                            }
                        }
                    }
                    assert(self.lifecycle().initialized =~= target.initialized);
                }
            },
        }
    }

    proof fn lemma_update_post(
        &self,
        m0: SceneManager<G, S>,
        m1: SceneManager<G, S>,
        m2: SceneManager<G, S>,
        l: Seq<char>,
    )
        requires
            m0.wf(),
            m0.next() == Some(l),
            self.labels() == m0.labels(),
            m1.labels() == m0.labels(),
            m2.labels() == m0.labels(),
            self.active() == Some(l),
            self.next() is None,
            // the cleanup step: m1 differs from m0 at most at the active entry
            match m0.active() {
                Some(a) => {
                    &&& m1.scenes@ == m0.scenes@.update(
                        m0.index_of(a),
                        m1.scenes@[m0.index_of(a)],
                    )
                    &&& m1.scenes@[m0.index_of(a)].scene.initialized() == m0.scene_of(
                        a,
                    ).initialized()
                },
                None => m1.scenes@ == m0.scenes@,
            },
            m2.scenes@ == m1.scenes@,
            // the init step: self differs from m2 at most at the target entry
            self.scenes@ == m2.scenes@.update(m2.index_of(l), self.scenes@[m2.index_of(l)]),
            self.scenes@[m2.index_of(l)].scene.initialized(),
            m2.scene_of(l).initialized() ==> self.scenes@[m2.index_of(l)] == m2.scenes@[m2.index_of(
                l,
            )],
        ensures
            self.wf(),
            forall|m: Seq<char>| self.has_scene(m) == m0.has_scene(m),
            m2.scene_of(l) == m0.scene_of(l),
            self.scene_of(l).initialized(),
            m0.scene_of(l).initialized() ==> self.scene_of(l) == m0.scene_of(l),
            m0.active() matches Some(a) ==> self.scene_of(a).initialized() == m0.scene_of(
                a,
            ).initialized(),
            forall|m: Seq<char>|
                m0.has_scene(m) && m != l && Some(m) != m0.active() ==> self.scene_of(m) == m0
                    .scene_of(m),
    {
        assert(m1.distinct_labels());
        assert(m2.distinct_labels());
        assert(self.distinct_labels());
        assert(m0.has_scene(l));
        m0.lemma_index_props(l);
        let il = m0.index_of(l);
        m2.lemma_index_unique(l, il);
        self.lemma_index_unique(l, il);
        match m0.active() {
            Some(a) => {
                m0.lemma_index_props(a);
                let ia = m0.index_of(a);
                assert(a != l);
                assert(ia != il);
                m2.lemma_index_unique(a, ia);
                self.lemma_index_unique(a, ia);
                assert(self.scene_of(a).initialized() == m0.scene_of(a).initialized());
                assert(m2.scene_of(l) == m0.scene_of(l));
                assert forall|m: Seq<char>|
                    m0.has_scene(m) && m != l && Some(m) != m0.active() implies self.scene_of(m)
                    == m0.scene_of(m) by {
                    m0.lemma_index_props(m);
                    let k = m0.index_of(m);
                    m0.lemma_index_unique(m, k);
                    m2.lemma_index_unique(m, k);
                    self.lemma_index_unique(m, k);
                    assert(k != ia && k != il);
                }
            },
            None => {
                assert(m2.scene_of(l) == m0.scene_of(l));
                assert forall|m: Seq<char>|
                    m0.has_scene(m) && m != l && Some(m) != m0.active() implies self.scene_of(m)
                    == m0.scene_of(m) by {
                    m0.lemma_index_props(m);
                    let k = m0.index_of(m);
                    m0.lemma_index_unique(m, k);
                    m2.lemma_index_unique(m, k);
                    self.lemma_index_unique(m, k);
                    assert(k != il);
                }
            },
        }
    }

    proof fn lemma_scene_update_at(&self, m0: SceneManager<G, S>, i: int)
        requires
            m0.distinct_labels(),
            0 <= i < m0.scenes@.len(),
            self.scenes@ == m0.scenes@.update(i, self.scenes@[i]),
            self.scenes@[i].label == m0.scenes@[i].label,
            self.active_scene == m0.active_scene,
            self.next_scene == m0.next_scene,
        ensures
            self.labels() == m0.labels(),
            self.distinct_labels(),
            self.active() == m0.active(),
            self.next() == m0.next(),
            forall|m: Seq<char>| self.has_scene(m) == m0.has_scene(m),
            self.scene_of(m0.labels()[i]) == self.scenes@[i].scene,
            forall|m: Seq<char>|
                m0.has_scene(m) && m != m0.labels()[i] ==> self.scene_of(m) == m0.scene_of(m),
            m0.wf() ==> self.wf(),
    {
        assert(self.labels() =~= m0.labels());
        assert(self.distinct_labels());
        self.lemma_index_unique(m0.labels()[i], i);
        assert forall|m: Seq<char>|
            m0.has_scene(m) && m != m0.labels()[i] implies self.scene_of(m) == m0.scene_of(
            m,
        ) by {
            m0.lemma_index_props(m);
            let k = m0.index_of(m);
            m0.lemma_index_unique(m, k);
            self.lemma_index_unique(m, k);
            assert(k != i);
        }
    }

    /// Returns the currently active scene, or `None` when no scene is
    /// active.  What a caller does through the returned borrow is beyond
    /// these contracts; the `update_active`, `input_active` and
    /// `draw_active` dispatchers below carry exact contracts for the
    /// per-tick calls.
    pub fn get_active_scene(&mut self) -> (r: Option<&mut S>)
        requires
            old(self).wf(),
        ensures
            r is Some <==> old(self).active() is Some,
            final(self).active() == old(self).active(),
            final(self).next() == old(self).next(),
            final(self).calls() == old(self).calls(),
            match r {
                Some(s) => *s == old(self).scene_of(old(self).active()->0),
                None => *final(self) == *old(self),
            },
    {
        let ghost m0 = *self;
        let act = match &self.active_scene {
            Some(a) => Some(a.clone()),
            None => None,
        };
        match act {
            None => None,
            Some(a) => {
                proof {
                    assert(m0.active() == Some(a@));
                }
                match self.find_index(&a) {
                    Some(i) => {
                        proof {
                            m0.lemma_index_unique(a@, i as int);
                        }
                        let e = &mut self.scenes[i];
                        Some(&mut e.scene)
                    },
                    None => {
                        proof {
                            assert(false);
                        }
                        None
                    },
                }
            },
        }
    }

    /// Calls `update` on the active scene with the elapsed milliseconds;
    /// with no active scene this does nothing.  Only the active scene's
    /// state can change, and its initialization flag stays put, so the
    /// lifecycle state is untouched.
    pub fn update_active(&mut self, delta_ms: u32)
        requires
            old(self).wf(),
        ensures
            final(self).wf(),
            final(self).active() == old(self).active(),
            final(self).next() == old(self).next(),
            forall|m: Seq<char>| final(self).has_scene(m) == old(self).has_scene(m),
            final(self).lifecycle() == old(self).lifecycle(),
            final(self).calls() == old(self).calls(),
            old(self).active() is None ==> *final(self) == *old(self),
            old(self).active() matches Some(a) ==> forall|m: Seq<char>|
                old(self).has_scene(m) && m != a ==> final(self).scene_of(m) == old(
                    self,
                ).scene_of(m),
    {
        let ghost m0 = *self;
        let act = match &self.active_scene {
            Some(a) => Some(a.clone()),
            None => None,
        };
        match act {
            None => {},
            Some(a) => {
                proof {
                    assert(m0.active() == Some(a@));
                }
                match self.find_index(&a) {
                    Some(i) => {
                        proof {
                            m0.lemma_index_unique(a@, i as int);
                        }
                        let e = &mut self.scenes[i];
                        e.scene.update(delta_ms);
                        proof {
                            self.lemma_scene_update_at(m0, i as int);
                            assert(self.scene_of(a@).initialized() == m0.scene_of(
                                a@,
                            ).initialized());
                            assert(self.lifecycle().registered =~= m0.lifecycle().registered);
                            assert forall|m: Seq<char>|
                                self.lifecycle().initialized.contains(m) == m0
                                .lifecycle().initialized.contains(m) by {
                                if m0.has_scene(m) && m != a@ {
                                    assert(self.scene_of(m) == m0.scene_of(m));
                                }
                            }
                            assert(self.lifecycle().initialized =~= m0.lifecycle().initialized);
                        }
                    },
                    None => {
                        proof {
                            assert(false);
                        }
                    },
                }
            },
        }
    }

    /// Forwards an input notification to the active scene, together with
    /// the exit capability; with no active scene this does nothing.  Only
    /// the active scene's state can change.
    pub fn input_active(&mut self, event: &InputEvent, exit: &mut ExitSignal)
        requires
            old(self).wf(),
        ensures
            final(self).wf(),
            final(self).active() == old(self).active(),
            final(self).next() == old(self).next(),
            forall|m: Seq<char>| final(self).has_scene(m) == old(self).has_scene(m),
            final(self).calls() == old(self).calls(),
            old(self).active() is None ==> *final(self) == *old(self) && *final(exit)
                == *old(exit),
            old(self).active() matches Some(a) ==> forall|m: Seq<char>|
                old(self).has_scene(m) && m != a ==> final(self).scene_of(m) == old(
                    self,
                ).scene_of(m),
    {
        let ghost m0 = *self;
        let act = match &self.active_scene {
            Some(a) => Some(a.clone()),
            None => None,
        };
        match act {
            None => {},
            Some(a) => {
                proof {
                    assert(m0.active() == Some(a@));
                }
                match self.find_index(&a) {
                    Some(i) => {
                        proof {
                            m0.lemma_index_unique(a@, i as int);
                        }
                        let e = &mut self.scenes[i];
                        e.scene.input(event, exit);
                        proof {
                            self.lemma_scene_update_at(m0, i as int);
                        }
                    },
                    None => {
                        proof {
                            assert(false);
                        }
                    },
                }
            },
        }
    }

    /// Calls `draw` on the active scene, which may reconfigure the graphics
    /// context for the next frame; with no active scene this does nothing.
    pub fn draw_active(&self, graphics: &mut G)
        requires
            self.wf(),
            old(graphics).inv(),
        ensures
            final(graphics).inv(),
            self.active() is None ==> *final(graphics) == *old(graphics),
    {
        let act = match &self.active_scene {
            Some(a) => Some(a.clone()),
            None => None,
        };
        match act {
            None => {},
            Some(a) => {
                proof {
                    assert(self.active() == Some(a@));
                }
                match self.find_index(&a) {
                    Some(i) => {
                        let e = &self.scenes[i];
                        e.scene.draw(graphics);
                    },
                    None => {
                        proof {
                            assert(false);
                        }
                    },
                }
            },
        }
    }
}

/// Requesting a registered scene and reconciling once makes that scene the
/// active one, initialized.  The side conditions rule out the one state
/// from which this cannot hold: a scene that is already active while
/// another transition is pending, or that was overwritten while active
/// without ever being initialized, stays as the reconcile of that pending
/// state leaves it.
pub proof fn lemma_request_then_reconcile_activates(m: LifecycleState, label: Seq<char>)
    requires
        m.registered.contains(label),
        m.active == Some(label) ==> m.next is None && m.initialized.contains(label),
    ensures
        reconcile_transition(request_transition(m, label)).active == Some(label),
        reconcile_transition(request_transition(m, label)).initialized.contains(label),
{
}

/// Reconciling is idempotent: once a pending transition has been applied,
/// reconciling again performs no further cleanup or initialization.
pub proof fn lemma_reconcile_idempotent(m: LifecycleState)
    ensures
        reconcile_transition(reconcile_transition(m)) == reconcile_transition(m),
{
}

/// Requesting a transition to an unregistered label leaves the lifecycle
/// state unchanged.
pub proof fn lemma_request_unknown_noop(m: LifecycleState, label: Seq<char>)
    requires
        !m.registered.contains(label),
    ensures
        request_transition(m, label) == m,
{
}

/// In the calls one reconcile makes there is at most one cleanup and at
/// most one initialization, and the cleanup of the outgoing scene always
/// comes before the initialization of the incoming one.
pub proof fn lemma_cleanup_precedes_init(
    active: Option<Seq<char>>,
    target: Seq<char>,
    target_initialized: bool,
)
    ensures
        ({
            let cs = reconcile_calls(active, target, target_initialized);
            &&& cs.len() <= 2
            &&& forall|i: int, j: int|
                0 <= i < j < cs.len() ==> cs[i] is Cleanup && cs[j] is Init
        }),
{
}

/// A scene that has been initialized stays initialized across any request
/// and any reconcile: reactivating a scene never runs its initialization
/// again.
pub proof fn lemma_initialized_stays(m: LifecycleState, label: Seq<char>)
    requires
        m.initialized.contains(label),
    ensures
        reconcile_transition(m).initialized.contains(label),
        forall|l: Seq<char>|
            #[trigger] request_transition(m, l).initialized.contains(label),
{
}

} // verus!
