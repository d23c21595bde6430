use vstd::prelude::*;

verus! {

/// A value that names one screen of the application.
///
/// Screens are told apart by their view (`@`): two names with the same view
/// stand for the same screen.
pub trait NavView: View + Sized {
    /// Whether `self` and `other` name the same screen.
    fn same_view(&self, other: &Self) -> (b: bool)
        ensures
            b == (self@ == other@),
    ;

    /// A copy of this name.
    fn clone_view(&self) -> (c: Self)
        ensures
            c == *self,
    ;
}

/// The part of the application data that records which screens are open,
/// bottom first: the last one is the screen the user sees.
pub trait ViewController<T: NavView> {
    /// The open screens, bottom first.
    spec fn view_stack(&self) -> Seq<T>;

    /// Opens `view` on top of the others.
    fn add_view(&mut self, view: T)
        ensures
            final(self).view_stack() == old(self).view_stack().push(view),
    ;

    /// Closes the top screen; does nothing when none is open.
    fn pop_view(&mut self)
        ensures
            final(self).view_stack() == pop_screen(old(self).view_stack()),
    ;

    /// The screen on top.
    fn current_view(&self) -> (r: &T)
        requires
            self.view_stack().len() > 0,
        ensures
            *r == self.view_stack().last(),
    ;

    /// How many screens are open.
    fn len(&self) -> (n: usize)
        ensures
            n == self.view_stack().len(),
    ;
}

/// A stack of screens after its top one is closed: the same stack when it
/// is empty.
pub open spec fn pop_screen<T>(s: Seq<T>) -> Seq<T> {
    if s.len() == 0 {
        s
    } else {
        s.drop_last()
    }
}

/// A stack of widgets after its top one is taken off, unless it is the only
/// one: the bottom widget always stays.
pub open spec fn pop_keeping_root<T>(s: Seq<T>) -> Seq<T> {
    if s.len() <= 1 {
        s
    } else {
        s.drop_last()
    }
}

/// Closing a screen right after opening one gives back the screens that
/// were open before.
pub proof fn law_pop_undoes_add<T>(s: Seq<T>, v: T)
    ensures
        pop_screen(s.push(v)) == s,
{
    assert(s.push(v).drop_last() =~= s);
}

/// Taking the top widget off right after pushing one gives back the stack
/// that was there before.
pub proof fn law_pop_undoes_push<T>(s: Seq<T>, b: T)
    requires
        s.len() >= 1,
    ensures
        pop_keeping_root(s.push(b)) == s,
{
    assert(s.push(b).drop_last() =~= s);
}

/// The bottom widget always stays: taking the top widget off never empties
/// the stack nor changes its bottom.
pub proof fn law_root_stays<T>(s: Seq<T>)
    requires
        s.len() >= 1,
    ensures
        pop_keeping_root(s).len() >= 1,
        pop_keeping_root(s)[0] == s[0],
{
}

/// Closing a screen removes the top one and keeps all others in place; with
/// no screen open nothing changes.
pub proof fn law_pop_screen_drops_top<T>(s: Seq<T>)
    ensures
        s.len() == 0 ==> pop_screen(s) == s,
        s.len() > 0 ==> pop_screen(s).len() == s.len() - 1,
        forall|i: int| 0 <= i < pop_screen(s).len() ==> #[trigger] pop_screen(s)[i] == s[i],
{
}

/// Taking the top widget off removes it and keeps all others in place; a
/// single widget stays.
pub proof fn law_pop_keeping_root_drops_top<T>(s: Seq<T>)
    requires
        s.len() >= 1,
    ensures
        s.len() == 1 ==> pop_keeping_root(s) == s,
        s.len() > 1 ==> pop_keeping_root(s).len() == s.len() - 1,
        forall|i: int|
            0 <= i < pop_keeping_root(s).len() ==> #[trigger] pop_keeping_root(s)[i] == s[i],
{
}

/// What the widget layer has to do after the navigator has followed a
/// change of the application data.
#[derive(Debug, PartialEq, Eq, Clone, Copy)]
pub enum NavUpdate {
    /// The data is the same as before: only the top widget is updated.
    UpdateTop,
    /// A screen was opened: a widget made by the builder of this index was
    /// put on top; the children changed.
    Pushed(usize),
    /// More screens are open, but the top one did not change: nothing to do.
    Unchanged,
    /// A screen was closed: the top widget was taken off when `removed`; the
    /// children changed and the new top widget is updated.
    Popped { removed: bool },
    /// As many screens as before, but the data changed: the children changed.
    ChildrenChanged,
}

/// The positions on a stack of `depth` widgets that an event goes to: every
/// one, bottom first, when it is meant for hidden widgets too, else the top
/// one only.
pub open spec fn event_targets(depth: nat, to_hidden: bool) -> Seq<usize> {
    if to_hidden {
        Seq::new(depth, |i: int| i as usize)
    } else {
        seq![(depth - 1) as usize]
    }
}

/// An event meant for hidden widgets goes to every widget once, bottom
/// first; any other goes to the top widget alone.
pub proof fn law_event_targets(depth: nat, to_hidden: bool)
    requires
        depth >= 1,
        depth <= usize::MAX,
    ensures
        to_hidden ==> event_targets(depth, to_hidden).len() == depth,
        to_hidden ==> forall|i: int|
            0 <= i < depth ==> #[trigger] event_targets(depth, to_hidden)[i] == i,
        !to_hidden ==> event_targets(depth, to_hidden).len() == 1,
        !to_hidden ==> event_targets(depth, to_hidden)[0] == depth - 1,
{
}

/// What to do with an event: hand it to the widgets at `targets`, in that
/// order, then close the top screen of the data when `pop_view`.
pub struct EventPlan {
    pub targets: Vec<usize>,
    pub pop_view: bool,
}

/// What to do with a life-cycle notice: first tell that the children changed
/// when `children_changed`, then hand it to the widgets at `targets`, in that
/// order.
pub struct LifecyclePlan {
    pub targets: Vec<usize>,
    pub children_changed: bool,
}

/// A stack of screens, each shown by a widget of type `W`.
///
/// Each registered screen name has a builder of type `B`; the name
/// registered `i`-th has builder `i`. Widgets are made from builders by a
/// function that the caller hands in. The stack holds, bottom first, the
/// widget of each open screen and the index of the builder that made it.
pub struct Navigator<H, B, W> {
    stack: Vec<usize>,
    pods: Vec<W>,
    names: Vec<H>,
    makers: Vec<B>,
}

impl<H: NavView, B, W> Navigator<H, B, W> {
    /// The registered screen names, in the order of their builders.
    pub closed spec fn registered(&self) -> Seq<H::V> {
        self.names@.map_values(|v: H| v@)
    }

    /// The builders, in the order of the names they belong to.
    pub closed spec fn makers(&self) -> Seq<B> {
        self.makers@
    }

    /// The index of the builder of each widget on the stack, bottom first.
    pub closed spec fn builders(&self) -> Seq<usize> {
        self.stack@
    }

    /// The widgets on the stack, bottom first.
    pub closed spec fn pods(&self) -> Seq<W> {
        self.pods@
    }

    /// The screen name of each widget on the stack, bottom first.
    pub open spec fn screens(&self) -> Seq<H::V> {
        self.builders().map_values(|b: usize| self.registered()[b as int])
    }

    /// Well-formed: at least one widget is on the stack, each widget has a
    /// registered builder, each name has one builder, and no name is
    /// registered twice.
    pub open spec fn wf(&self) -> bool {
        &&& self.builders().len() >= 1
        &&& self.pods().len() == self.builders().len()
        &&& self.makers().len() == self.registered().len()
        &&& forall|i: int|
            0 <= i < self.builders().len() ==> #[trigger] self.builders()[i] < self.registered().len()
        &&& forall|i: int, j: int|
            0 <= i < self.registered().len() && 0 <= j < self.registered().len() && i != j
                ==> self.registered()[i] != self.registered()[j]
    }

    /// A navigator that shows the screen `name`, with a widget that `build`
    /// makes from `ui_builder`, the builder 0.
    pub fn new<F: FnOnce(&B) -> W>(name: H, ui_builder: B, build: F) -> (nav: Self)
        requires
            forall|m: &B| build.requires((m,)),
        ensures
            nav.wf(),
            nav.registered() == seq![name@],
            nav.makers() == seq![ui_builder],
            nav.builders() == seq![0usize],
            nav.pods().len() == 1,
            build.ensures((&ui_builder,), nav.pods()[0]),
    {
        let pod = build(&ui_builder);
        let mut stack: Vec<usize> = Vec::new();
        stack.push(0);
        let mut pods: Vec<W> = Vec::new();
        pods.push(pod);
        let mut names: Vec<H> = Vec::new();
        let ghost v = name@;
        names.push(name);
        let mut makers: Vec<B> = Vec::new();
        makers.push(ui_builder);
        let nav = Navigator { stack, pods, names, makers };
        assert(nav.registered() =~= seq![v]);
        assert(nav.builders() =~= seq![0usize]);
        assert(nav.makers() =~= seq![ui_builder]);
        nav
    }

    /// The index of the builder registered for `name`, if any.
    pub fn builder_index(&self, name: &H) -> (r: Option<usize>)
        ensures
            match r {
                Some(i) => i < self.registered().len() && self.registered()[i as int] == name@,
                None => !self.registered().contains(name@),
            },
    {
        let n = self.names.len();
        let mut i: usize = 0;
        while i < n
            invariant
                n == self.names@.len(),
                i <= n,
                forall|j: int| 0 <= j < i ==> self.names@[j]@ != name@,
            decreases n - i,
        {
            if self.names[i].same_view(name) {
                return Some(i);
            }
            i = i + 1;
        }
        assert forall|j: int| 0 <= j < self.registered().len() implies self.registered()[j]
            != name@ by {
            assert(self.registered()[j] == self.names@[j]@);
        }
        None
    }

    /// Whether a builder is registered for `name`.
    pub fn has_view(&self, name: &H) -> (b: bool)
        ensures
            b == self.registered().contains(name@),
    {
        match self.builder_index(name) {
            Some(i) => {
                assert(self.registered()[i as int] == name@);
                true
            },
            None => false,
        }
    }

    /// Registers `name` with `view_builder`, as the next builder, whose
    /// index is the number of names registered before. A name is registered
    /// once only.
    pub fn with_view_builder(self, name: H, view_builder: B) -> (nav: Self)
        requires
            self.wf(),
            !self.registered().contains(name@),
        ensures
            nav.wf(),
            nav.registered() == self.registered().push(name@),
            nav.makers() == self.makers().push(view_builder),
            nav.builders() == self.builders(),
            nav.pods() == self.pods(),
    {
        let Navigator { stack, pods, mut names, mut makers } = self;
        names.push(name);
        makers.push(view_builder);
        let nav = Navigator { stack, pods, names, makers };
        assert(nav.registered() =~= self.registered().push(name@));
        assert forall|i: int, j: int|
            0 <= i < nav.registered().len() && 0 <= j < nav.registered().len() && i != j
                implies nav.registered()[i] != nav.registered()[j] by {
            if i < self.registered().len() && j < self.registered().len() {
            } else if i == self.registered().len() {
                assert(self.registered()[j] == nav.registered()[j]);
            } else {
                assert(self.registered()[i] == nav.registered()[i]);
            }
        }
        nav
    }

    /// Puts a widget for the screen `view` on top of the stack, made by
    /// `build` from the builder registered for `view`; returns that
    /// builder's index.
    pub fn push_view<F: FnOnce(&B) -> W>(&mut self, view: H, build: F) -> (b: usize)
        requires
            old(self).wf(),
            old(self).registered().contains(view@),
            forall|m: &B| build.requires((m,)),
        ensures
            final(self).wf(),
            b < old(self).registered().len(),
            old(self).registered()[b as int] == view@,
            final(self).registered() == old(self).registered(),
            final(self).makers() == old(self).makers(),
            final(self).builders() == old(self).builders().push(b),
            final(self).pods().drop_last() == old(self).pods(),
            build.ensures((&old(self).makers()[b as int],), final(self).pods().last()),
    {
        let b = match self.builder_index(&view) {
            Some(i) => i,
            None => {
                assert(false);
                0
            },
        };
        self.push_built(b, build);
        b
    }

    /// Puts a widget made by `build` from builder `b` on top of the stack.
    fn push_built<F: FnOnce(&B) -> W>(&mut self, b: usize, build: F)
        requires
            old(self).wf(),
            b < old(self).registered().len(),
            forall|m: &B| build.requires((m,)),
        ensures
            final(self).wf(),
            final(self).registered() == old(self).registered(),
            final(self).makers() == old(self).makers(),
            final(self).builders() == old(self).builders().push(b),
            final(self).pods().len() == old(self).pods().len() + 1,
            final(self).pods().drop_last() == old(self).pods(),
            build.ensures((&old(self).makers()[b as int],), final(self).pods().last()),
    {
        let pod = build(&self.makers[b]);
        self.stack.push(b);
        self.pods.push(pod);
        assert(self.pods@.drop_last() =~= old(self).pods@);
        assert(self.registered() == old(self).registered());
    }

    /// Takes the top widget off the stack, unless it is the only one.
    pub fn pop_view(&mut self)
        requires
            old(self).wf(),
        ensures
            final(self).wf(),
            final(self).registered() == old(self).registered(),
            final(self).makers() == old(self).makers(),
            final(self).builders() == pop_keeping_root(old(self).builders()),
            final(self).pods() == pop_keeping_root(old(self).pods()),
    {
        if self.stack.len() == 1 {
            return ;
        }
        self.stack.pop();
        self.pods.pop();
        assert(self.stack@ =~= old(self).stack@.drop_last());
        assert(self.pods@ =~= old(self).pods@.drop_last());
        assert(self.registered() == old(self).registered());
    }

    /// How many widgets are on the stack.
    pub fn depth(&self) -> (n: usize)
        ensures
            n == self.builders().len(),
    {
        self.stack.len()
    }

    /// The builder of the widget on top.
    pub fn top(&self) -> (b: usize)
        requires
            self.wf(),
        ensures
            b == self.builders().last(),
    {
        self.stack[self.stack.len() - 1]
    }

    /// The widget at position `k` of the stack, bottom first, to work on.
    pub fn pod_mut(&mut self, k: usize) -> (r: &mut W)
        requires
            old(self).wf(),
            k < old(self).builders().len(),
        ensures
            *r == old(self).pods()[k as int],
            final(self).pods() == old(self).pods().update(k as int, *final(r)),
            final(self).registered() == old(self).registered(),
            final(self).makers() == old(self).makers(),
            final(self).builders() == old(self).builders(),
    {
        &mut self.pods[k]
    }

    /// The widget on top of the stack, to work on.
    pub fn top_pod_mut(&mut self) -> (r: &mut W)
        requires
            old(self).wf(),
        ensures
            *r == old(self).pods().last(),
            final(self).pods() == old(self).pods().update(
                old(self).pods().len() - 1,
                *final(r),
            ),
            final(self).registered() == old(self).registered(),
            final(self).makers() == old(self).makers(),
            final(self).builders() == old(self).builders(),
    {
        let k = self.pods.len() - 1;
        &mut self.pods[k]
    }
}

impl<H: NavView, B, W> Navigator<H, B, W> {
    /// When the data changed and more screens are open than before, the old
    /// data must have had a screen open (its top screen is read), and a new
    /// top screen that differs from the old one must have a builder.
    pub open spec fn update_allowed<C: ViewController<H>>(
        &self,
        old_data: &C,
        data: &C,
        same: bool,
    ) -> bool {
        (!same && data.view_stack().len() > old_data.view_stack().len()) ==> {
            &&& old_data.view_stack().len() > 0
            &&& data.view_stack().last()@ != old_data.view_stack().last()@
                ==> self.registered().contains(data.view_stack().last()@)
        }
    }

    /// Follows a change of the application data from `old_data` to `data`;
    /// `same` tells whether the two are the same data.
    ///
    /// Unchanged data updates the top widget. Otherwise: when more screens
    /// are open and the top one differs, a widget for it is made by `build`
    /// and pushed; when fewer are open, the top widget is popped; when as
    /// many are open, the children changed.
    pub fn update<C: ViewController<H>, F: FnOnce(&B) -> W>(
        &mut self,
        old_data: &C,
        data: &C,
        same: bool,
        build: F,
    ) -> (r: NavUpdate)
        requires
            old(self).wf(),
            old(self).update_allowed(old_data, data, same),
            forall|m: &B| build.requires((m,)),
        ensures
            final(self).wf(),
            final(self).registered() == old(self).registered(),
            final(self).makers() == old(self).makers(),
            same ==> r == NavUpdate::UpdateTop,
            !same && data.view_stack().len() > old_data.view_stack().len()
                && data.view_stack().last()@ == old_data.view_stack().last()@ ==> r
                == NavUpdate::Unchanged,
            !same && data.view_stack().len() > old_data.view_stack().len()
                && data.view_stack().last()@ != old_data.view_stack().last()@ ==> ({
                &&& r is Pushed
                &&& r->Pushed_0 < old(self).registered().len()
                &&& old(self).registered()[r->Pushed_0 as int] == data.view_stack().last()@
                &&& final(self).builders() == old(self).builders().push(r->Pushed_0)
                &&& final(self).pods().drop_last() == old(self).pods()
                &&& build.ensures(
                    (&old(self).makers()[r->Pushed_0 as int],),
                    final(self).pods().last(),
                )
            }),
            !same && data.view_stack().len() < old_data.view_stack().len() ==> r
                == (NavUpdate::Popped { removed: old(self).builders().len() > 1 }),
            !same && data.view_stack().len() < old_data.view_stack().len()
                ==> final(self).builders() == pop_keeping_root(old(self).builders()),
            !same && data.view_stack().len() < old_data.view_stack().len()
                ==> final(self).pods() == pop_keeping_root(old(self).pods()),
            !same && data.view_stack().len() == old_data.view_stack().len() ==> r
                == NavUpdate::ChildrenChanged,
            !(r is Pushed || r is Popped) ==> final(self).builders() == old(self).builders()
                && final(self).pods() == old(self).pods(),
            // A navigator that showed the old top screen shows the new one
            // after more screens were opened.
            !same && data.view_stack().len() > old_data.view_stack().len()
                && old(self).screens().last() == old_data.view_stack().last()@
                ==> final(self).screens().last() == data.view_stack().last()@,
    {
        if !same {
            let new_len = data.len();
            let old_len = old_data.len();
            if new_len > old_len {
                if !data.current_view().same_view(old_data.current_view()) {
                    let b = self.push_view(data.current_view().clone_view(), build);
                    NavUpdate::Pushed(b)
                } else {
                    NavUpdate::Unchanged
                }
            } else if new_len < old_len {
                let removed = self.depth() > 1;
                self.pop_view();
                NavUpdate::Popped { removed }
            } else {
                NavUpdate::ChildrenChanged
            }
        } else {
            NavUpdate::UpdateTop
        }
    }

    /// The positions of the widgets an event or a life-cycle notice goes
    /// to, in order.
    fn targets(&self, to_hidden: bool) -> (t: Vec<usize>)
        requires
            self.wf(),
        ensures
            t@ == event_targets(self.builders().len(), to_hidden),
    {
        let n = self.stack.len();
        let mut t: Vec<usize> = Vec::new();
        if to_hidden {
            for i in 0..n
                invariant
                    n == self.builders().len(),
                    t@ == Seq::new(i as nat, |k: int| k as usize),
            {
                t.push(i);
                assert(t@ =~= Seq::new((i + 1) as nat, |k: int| k as usize));
            }
        } else {
            t.push(n - 1);
        }
        assert(t@ =~= event_targets(self.builders().len(), to_hidden));
        t
    }

    /// What an event leads to: an event meant for hidden widgets too goes to
    /// every widget, bottom first, any other to the top widget only; after
    /// that, a command to close the current screen closes the top screen of
    /// the data.
    pub fn event(&self, to_hidden: bool, pop_command: bool) -> (plan: EventPlan)
        requires
            self.wf(),
        ensures
            plan.targets@ == event_targets(self.builders().len(), to_hidden),
            forall|i: int| 0 <= i < plan.targets@.len() ==> #[trigger] plan.targets@[i] < self.builders().len(),
            plan.pop_view == pop_command,
    {
        EventPlan { targets: self.targets(to_hidden), pop_view: pop_command }
    }

    /// What a life-cycle notice leads to: it goes where an event would; the
    /// children changed when a widget was added and the notice is not for
    /// hidden widgets.
    pub fn lifecycle(&self, to_hidden: bool, widget_added: bool) -> (plan: LifecyclePlan)
        requires
            self.wf(),
        ensures
            plan.targets@ == event_targets(self.builders().len(), to_hidden),
            forall|i: int| 0 <= i < plan.targets@.len() ==> #[trigger] plan.targets@[i] < self.builders().len(),
            plan.children_changed == (!to_hidden && widget_added),
    {
        LifecyclePlan {
            targets: self.targets(to_hidden),
            children_changed: !to_hidden && widget_added,
        }
    }
}

} // verus!
