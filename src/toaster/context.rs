use vstd::prelude::*;

use crate::toast::{
    ToastBuilder, ToastData, ToastId, ToastLevel, ToastPosition, DEFAULT_EXPIRY, DEFAULT_POSITION,
};

verus! {

/// Counters kept beside the queue.
#[derive(Clone, Copy, Debug)]
struct ToasterStats {
    /// Toasts added and not yet removed.
    visible: u32,
    /// Toasts ever added; the next id is one more.
    total: u64,
}

/// The state of a toaster: the ordered queue of active toasts, the counters
/// that give the next id, and optional settings that the quick methods
/// (`info`, `success`, `warn`, `error`) start from.
#[derive(Debug)]
pub struct ToasterContext {
    stats: ToasterStats,
    queue: Vec<ToastData>,
    defaults: Option<ToastBuilder>,
}

/// `t` asked to leave the screen, otherwise unchanged.
pub open spec fn dismissed(t: ToastData) -> ToastData {
    ToastData { cleared: true, ..t }
}

impl ToasterContext {
    /// The active toasts, oldest first.
    pub closed spec fn spec_queue(&self) -> Seq<ToastData> {
        self.queue@
    }

    pub closed spec fn spec_visible(&self) -> nat {
        self.stats.visible as nat
    }

    pub closed spec fn spec_total(&self) -> nat {
        self.stats.total as nat
    }

    pub closed spec fn spec_defaults(&self) -> Option<ToastBuilder> {
        self.defaults
    }

    /// Well-formed: `visible` counts the queue, every id lies in `1..=total`,
    /// and ids strictly increase along the queue (so they are unique).
    pub open spec fn wf(&self) -> bool {
        &&& self.spec_visible() == self.spec_queue().len()
        &&& forall|i: int|
            0 <= i < self.spec_queue().len() ==> 1 <= #[trigger] self.spec_queue()[i].id
                <= self.spec_total()
        &&& forall|i: int, j: int|
            0 <= i < j < self.spec_queue().len() ==> #[trigger] self.spec_queue()[i].id
                < #[trigger] self.spec_queue()[j].id
    }

    /// Whether one more toast fits the counters.
    pub open spec fn has_room_spec(&self) -> bool {
        self.spec_total() < u64::MAX && self.spec_visible() < u32::MAX
    }

    /// Whether some toast in the queue has id `id`.
    pub open spec fn holds_id(&self, id: ToastId) -> bool {
        exists|i: int| 0 <= i < self.spec_queue().len() && #[trigger] self.spec_queue()[i].id == id
    }

    /// The id that the next toast gets.
    pub open spec fn next_id(&self) -> nat {
        self.spec_total() + 1
    }

    /// `after` is `before` with `t` appended under the next id.
    pub open spec fn toasted(before: ToasterContext, t: ToastData, after: ToasterContext) -> bool {
        &&& t.id == before.next_id()
        &&& after.spec_queue() == before.spec_queue().push(t)
        &&& after.spec_total() == before.spec_total() + 1
        &&& after.spec_visible() == before.spec_visible() + 1
        &&& after.spec_defaults() == before.spec_defaults()
    }

    /// The toast that a quick method of the given level makes from `message`:
    /// the defaults' expiry and corner where defaults are set, else the
    /// builder's own.
    pub open spec fn preset(&self, t: ToastData, message: Seq<char>, level: ToastLevel) -> bool {
        &&& t.id == self.next_id()
        &&& t.message@ == message
        &&& t.level == level
        &&& !t.cleared
        &&& match self.spec_defaults() {
            Some(d) => t.expiry == d.expiry && t.position == d.position,
            None => t.expiry == Some(DEFAULT_EXPIRY) && t.position == DEFAULT_POSITION,
        }
    }

    /// `after` is `before` with the toast of id `id` taken out, if there is one.
    pub open spec fn removed(before: ToasterContext, id: ToastId, after: ToasterContext) -> bool {
        &&& after.spec_total() == before.spec_total()
        &&& after.spec_defaults() == before.spec_defaults()
        &&& if before.holds_id(id) {
            &&& exists|i: int|
                0 <= i < before.spec_queue().len() && before.spec_queue()[i].id == id
                    && #[trigger] before.spec_queue().remove(i) == after.spec_queue()
            &&& after.spec_visible() == before.spec_visible() - 1
        } else {
            &&& after.spec_queue() == before.spec_queue()
            &&& after.spec_visible() == before.spec_visible()
        }
    }

    /// An empty toaster whose quick methods start from `defaults`.
    pub fn new_with_defaults(defaults: ToastBuilder) -> (r: ToasterContext)
        ensures
            r.wf(),
            r.spec_queue().len() == 0,
            r.spec_total() == 0,
            r.spec_defaults() == Some(defaults),
    {
        ToasterContext {
            stats: ToasterStats { visible: 0, total: 0 },
            queue: Vec::new(),
            defaults: Some(defaults),
        }
    }

    /// The active toasts, oldest first.
    pub fn queue(&self) -> (r: &Vec<ToastData>)
        ensures
            r@ == self.spec_queue(),
    {
        &self.queue
    }

    /// How many toasts were added and not removed.
    pub fn visible(&self) -> (r: u32)
        ensures
            r == self.spec_visible(),
    {
        self.stats.visible
    }

    /// How many toasts were ever added.
    pub fn total(&self) -> (r: u64)
        ensures
            r == self.spec_total(),
    {
        self.stats.total
    }

    /// Whether `toast` may be called: both counters can grow by one.
    pub fn has_room(&self) -> (r: bool)
        ensures
            r == self.has_room_spec(),
    {
        self.stats.total < u64::MAX && self.stats.visible < u32::MAX
    }

    /// Appends the toast that `builder` makes, under the next id.
    pub fn toast(&mut self, builder: ToastBuilder)
        requires
            old(self).wf(),
            old(self).has_room_spec(),
        ensures
            final(self).wf(),
            Self::toasted(*old(self), builder.built(old(self).next_id() as ToastId), *final(self)),
    {
        let toast = builder.build(self.stats.total + 1);
        self.queue.push(toast);
        self.stats.visible = self.stats.visible + 1;
        self.stats.total = self.stats.total + 1;
    }

    /// The builder from which a quick method of `level` starts.
    fn preset_builder(&self, message: &str, level: ToastLevel) -> (r: ToastBuilder)
        ensures
            r.message@ == message@,
            r.level == level,
            match self.spec_defaults() {
                Some(d) => r.expiry == d.expiry && r.position == d.position,
                None => r.expiry == Some(DEFAULT_EXPIRY) && r.position == DEFAULT_POSITION,
            },
    {
        match &self.defaults {
            Some(d) => ToastBuilder {
                message: message.to_string(),
                level,
                expiry: d.expiry,
                position: d.position,
            },
            None => ToastBuilder::new(message).with_level(level),
        }
    }

    fn toast_preset(&mut self, message: &str, level: ToastLevel)
        requires
            old(self).wf(),
            old(self).has_room_spec(),
        ensures
            final(self).wf(),
            Self::toasted(*old(self), final(self).spec_queue().last(), *final(self)),
            old(self).preset(final(self).spec_queue().last(), message@, level),
    {
        let builder = self.preset_builder(message, level);
        self.toast(builder);
    }

    /// Appends an `Info` toast with `message`, from the defaults if set.
    pub fn info(&mut self, message: &str)
        requires
            old(self).wf(),
            old(self).has_room_spec(),
        ensures
            final(self).wf(),
            Self::toasted(*old(self), final(self).spec_queue().last(), *final(self)),
            old(self).preset(final(self).spec_queue().last(), message@, ToastLevel::Info),
    {
        self.toast_preset(message, ToastLevel::Info);
    }

    /// Appends a `Success` toast with `message`, from the defaults if set.
    pub fn success(&mut self, message: &str)
        requires
            old(self).wf(),
            old(self).has_room_spec(),
        ensures
            final(self).wf(),
            Self::toasted(*old(self), final(self).spec_queue().last(), *final(self)),
            old(self).preset(final(self).spec_queue().last(), message@, ToastLevel::Success),
    {
        self.toast_preset(message, ToastLevel::Success);
    }

    /// Appends a `Warn` toast with `message`, from the defaults if set.
    pub fn warn(&mut self, message: &str)
        requires
            old(self).wf(),
            old(self).has_room_spec(),
        ensures
            final(self).wf(),
            Self::toasted(*old(self), final(self).spec_queue().last(), *final(self)),
            old(self).preset(final(self).spec_queue().last(), message@, ToastLevel::Warn),
    {
        self.toast_preset(message, ToastLevel::Warn);
    }

    /// Appends an `Error` toast with `message`, from the defaults if set.
    pub fn error(&mut self, message: &str)
        requires
            old(self).wf(),
            old(self).has_room_spec(),
        ensures
            final(self).wf(),
            Self::toasted(*old(self), final(self).spec_queue().last(), *final(self)),
            old(self).preset(final(self).spec_queue().last(), message@, ToastLevel::Error),
    {
        self.toast_preset(message, ToastLevel::Error);
    }

    /// Asks every toast in the queue to leave the screen. The queue keeps its
    /// entries: each goes when `remove` is called with its id.
    pub fn clear(&mut self)
        requires
            old(self).wf(),
        ensures
            final(self).wf(),
            final(self).spec_queue() == old(self).spec_queue().map_values(|t: ToastData| dismissed(t)),
            final(self).spec_queue().len() == old(self).spec_queue().len(),
            forall|i: int|
                0 <= i < final(self).spec_queue().len() ==> (#[trigger] final(self).spec_queue()[i]).cleared,
            final(self).spec_visible() == old(self).spec_visible(),
            final(self).spec_total() == old(self).spec_total(),
            final(self).spec_defaults() == old(self).spec_defaults(),
    {
        let n = self.queue.len();
        let mut i: usize = 0;
        while i < n
            invariant
                0 <= i <= n,
                n == old(self).queue@.len(),
                self.queue@.len() == n,
                self.stats == old(self).stats,
                self.defaults == old(self).defaults,
                forall|j: int| 0 <= j < i ==> #[trigger] self.queue@[j] == dismissed(old(self).queue@[j]),
                forall|j: int| i <= j < n ==> #[trigger] self.queue@[j] == old(self).queue@[j],
            decreases n - i,
        {
            self.queue[i].cleared = true;
            i = i + 1;
        }
        assert(self.queue@ =~= old(self).queue@.map_values(|t: ToastData| dismissed(t)));
    }

    /// Takes out the toast with id `toast_id`; nothing happens where there is none.
    pub fn remove(&mut self, toast_id: ToastId)
        requires
            old(self).wf(),
        ensures
            final(self).wf(),
            Self::removed(*old(self), toast_id, *final(self)),
    {
        let n = self.queue.len();
        let mut i: usize = 0;
        let mut index: Option<usize> = None;
        while i < n
            invariant_except_break
                index.is_none(),
            invariant
                0 <= i <= n,
                n == self.queue@.len(),
                forall|j: int| 0 <= j < i ==> #[trigger] self.queue@[j].id != toast_id,
            ensures
                match index {
                    Some(k) => k < n && self.queue@[k as int].id == toast_id,
                    None => forall|j: int| 0 <= j < n ==> #[trigger] self.queue@[j].id != toast_id,
                },
            decreases n - i,
        {
            if self.queue[i].id == toast_id {
                index = Some(i);
                break;
            }
            i = i + 1;
        }
        if let Some(index) = index {
            self.queue.remove(index);
            self.stats.visible = self.stats.visible - 1;
            assert(old(self).queue@.remove(index as int) == self.queue@);
            assert forall|a: int, b: int| 0 <= a < b < self.queue@.len() implies
                #[trigger] self.queue@[a].id < #[trigger] self.queue@[b].id by {
                let a0 = if a < index { a } else { a + 1 };
                let b0 = if b < index { b } else { b + 1 };
                assert(self.queue@[a] == old(self).queue@[a0]);
                assert(self.queue@[b] == old(self).queue@[b0]);
            }
            assert forall|a: int| 0 <= a < self.queue@.len() implies
                1 <= #[trigger] self.queue@[a].id <= self.stats.total by {
                let a0 = if a < index { a } else { a + 1 };
                assert(self.queue@[a] == old(self).queue@[a0]);
            }
        }
    }

    /// Whether the toast with id `toast_id` is queued and asked to leave.
    pub fn is_dismissed(&self, toast_id: ToastId) -> (r: bool)
        ensures
            r == exists|i: int|
                0 <= i < self.spec_queue().len() && #[trigger] self.spec_queue()[i].id == toast_id
                    && self.spec_queue()[i].cleared,
    {
        let mut i: usize = 0;
        while i < self.queue.len()
            invariant
                0 <= i <= self.queue@.len(),
                forall|j: int|
                    0 <= j < i ==> !(#[trigger] self.queue@[j].id == toast_id && self.queue@[j].cleared),
            decreases self.queue@.len() - i,
        {
            if self.queue[i].id == toast_id && self.queue[i].cleared {
                return true;
            }
            i = i + 1;
        }
        false
    }

    /// The toasts shown in the corner `position`, in queue order.
    pub fn queue_at(&self, position: ToastPosition) -> (r: Vec<ToastData>)
        ensures
            r@ == self.spec_queue().filter(|t: ToastData| t.position == position),
    {
        let mut r: Vec<ToastData> = Vec::new();
        let mut i: usize = 0;
        while i < self.queue.len()
            invariant
                0 <= i <= self.queue@.len(),
                r@ == self.queue@.take(i as int).filter(|t: ToastData| t.position == position),
            decreases self.queue@.len() - i,
        {
            proof {
                assert(self.queue@.take(i + 1).drop_last() =~= self.queue@.take(i as int));
                reveal(Seq::filter);
            }
            if self.queue[i].position == position {
                r.push(self.queue[i].clone());
            }
            i = i + 1;
        }
        assert(self.queue@.take(self.queue@.len() as int) =~= self.queue@);
        r
    }
}

impl Default for ToasterContext {
    /// An empty toaster without defaults.
    fn default() -> (r: ToasterContext)
        ensures
            r.wf(),
            r.spec_queue().len() == 0,
            r.spec_total() == 0,
            r.spec_defaults().is_none(),
    {
        ToasterContext {
            stats: ToasterStats { visible: 0, total: 0 },
            queue: Vec::new(),
            defaults: None,
        }
    }
}

} // verus!
