//! The drawables of one frame, in the order of their submission.
use crate::corange::render_object;
use vstd::prelude::*;

verus! {

/// The drawables pushed since the last drain, oldest first.
///
/// The order of insertion is the order of drawing. The collector never
/// reorders, drops or repeats a drawable.
pub struct RenderObjectCollector {
    objects: Vec<render_object>,
}

/// The sequence after `object` has been pushed onto `objects`.
pub open spec fn push_model(objects: Seq<render_object>, object: render_object) -> Seq<
    render_object,
> {
    objects.push(object)
}

/// What draining `objects` leaves, and what it yields: nothing is left, and
/// all of it is yielded as it stood.
pub open spec fn drain_model(objects: Seq<render_object>) -> (Seq<render_object>, Seq<render_object>) {
    (Seq::empty(), objects)
}

impl View for RenderObjectCollector {
    type V = Seq<render_object>;

    closed spec fn view(&self) -> Seq<render_object> {
        self.objects@
    }
}

impl RenderObjectCollector {
    /// A collector that holds nothing.
    pub fn new() -> (collector: Self)
        ensures
            collector@ == Seq::<render_object>::empty(),
    {
        RenderObjectCollector { objects: Vec::new() }
    }

    /// Appends `object` to the drawables of the current frame.
    pub fn push(&mut self, object: render_object)
        ensures
            final(self)@ == push_model(old(self)@, object),
    {
        self.objects.push(object);
    }

    /// Returns the drawables of the current frame, oldest first, and leaves
    /// the collector empty.
    pub fn drain(&mut self) -> (drained: Vec<render_object>)
        ensures
            (final(self)@, drained@) == drain_model(old(self)@),
    {
        let mut drained = Vec::new();
        core::mem::swap(&mut self.objects, &mut drained);
        drained
    }

    /// Forgets the drawables that wait.
    pub fn clear(&mut self)
        ensures
            final(self)@ == Seq::<render_object>::empty(),
    {
        self.objects.clear();
    }

    /// The number of drawables that wait.
    pub fn len(&self) -> (n: usize)
        ensures
            n == self@.len(),
    {
        self.objects.len()
    }

    /// Whether no drawable waits.
    pub fn is_empty(&self) -> (empty: bool)
        ensures
            empty == (self@.len() == 0),
    {
        self.objects.len() == 0
    }
}

/// Pushing `a` and then `b` and then draining yields what waited before,
/// then `a`, then `b`; and a second drain that no push precedes yields
/// nothing.
pub proof fn law_drain_yields_pushes_in_order(
    objects: Seq<render_object>,
    a: render_object,
    b: render_object,
)
    ensures
        ({
            let first = drain_model(push_model(push_model(objects, a), b));
            let second = drain_model(first.0);
            &&& first.1 == objects + seq![a, b]
            &&& first.0.len() == 0
            &&& second.1.len() == 0
            &&& second.0.len() == 0
        }),
        drain_model(push_model(push_model(Seq::empty(), a), b)).1 == seq![a, b],
{
}

/// A drain yields as many drawables as were pushed since the last one, and
/// the i-th of them is the i-th pushed.
pub proof fn law_push_appends(objects: Seq<render_object>, object: render_object)
    ensures
        push_model(objects, object).len() == objects.len() + 1,
        push_model(objects, object).last() == object,
        forall|i: int| 0 <= i < objects.len() ==> push_model(objects, object)[i] == objects[i],
{
}

/// The sequence after the drawables of `more` have been pushed, in order,
/// onto `objects`.
pub open spec fn push_all(objects: Seq<render_object>, more: Seq<render_object>) -> Seq<
    render_object,
>
    decreases more.len(),
{
    if more.len() == 0 {
        objects
    } else {
        push_model(push_all(objects, more.drop_last()), more.last())
    }
}

/// Whatever is pushed between two drains, the second drain yields exactly
/// that, in the order of the pushes.
pub proof fn law_drain_yields_all_pushes(objects: Seq<render_object>, more: Seq<render_object>)
    ensures
        push_all(objects, more) == objects + more,
        drain_model(push_all(drain_model(objects).0, more)).1 == more,
    decreases more.len(),
{
    if more.len() == 0 {
    } else {
        law_drain_yields_all_pushes(objects, more.drop_last());
    }
}

} // verus!
