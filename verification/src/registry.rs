//! The rectangle registry: which rectangles are alive.
//!
//! A rectangle is known by an identifier that the registry hands out when the
//! rectangle is spawned. Identifiers grow by one with every spawn and are never
//! handed out twice, so a host may keep whatever it draws under them.

use vstd::prelude::*;

verus! {

/// The identifiers `next`, `next + 1`, ... of `n` rectangles spawned in a row.
pub open spec fn fresh_ids(next: nat, n: nat) -> Seq<u64> {
    Seq::new(n, |i: int| (next + i) as u64)
}

/// `ids` is strictly increasing and stays below `bound`.
pub open spec fn increasing_below(ids: Seq<u64>, bound: nat) -> bool {
    &&& forall|i: int, j: int| 0 <= i < j < ids.len() ==> ids[i] < ids[j]
    &&& forall|i: int| 0 <= i < ids.len() ==> ids[i] < bound
}

/// How many of `len` live rectangles go when `num` are to be despawned.
pub open spec fn despawn_len(len: nat, num: nat) -> nat {
    if num <= len {
        num
    } else {
        len
    }
}

/// The rectangles a reconciliation by `delta` creates, when the next identifier is `next`.
pub open spec fn spawned_by(next: nat, delta: int) -> Seq<u64> {
    if delta > 0 {
        fresh_ids(next, delta as nat)
    } else {
        Seq::empty()
    }
}

/// The rectangles a reconciliation by `delta` removes from `live`: the oldest ones.
pub open spec fn despawned_by(live: Seq<u64>, delta: int) -> Seq<u64> {
    if delta < 0 {
        live.take(despawn_len(live.len(), (-delta) as nat) as int)
    } else {
        Seq::empty()
    }
}

/// The live rectangles after a reconciliation by `delta`.
pub open spec fn reconciled(live: Seq<u64>, next: nat, delta: int) -> Seq<u64> {
    if delta < 0 {
        live.skip(despawn_len(live.len(), (-delta) as nat) as int)
    } else {
        live + spawned_by(next, delta)
    }
}

/// The rectangles a reconciliation by `delta` touches: those it creates or removes.
pub open spec fn changed_by(live: Seq<u64>, next: nat, delta: int) -> Seq<u64> {
    if delta < 0 {
        despawned_by(live, delta)
    } else {
        spawned_by(next, delta)
    }
}

/// No identifier is handed out twice: an identifier below `next` whose rectangle is
/// not alive before a reconciliation is not alive after it, and the live identifiers
/// stay in increasing order below the next to be handed out.
pub proof fn lemma_identifiers_are_not_reused(live: Seq<u64>, next: nat, delta: int, id: u64)
    requires
        increasing_below(live, next),
        next + spawned_by(next, delta).len() <= u64::MAX,
        id < next,
        !live.contains(id),
    ensures
        !reconciled(live, next, delta).contains(id),
        increasing_below(reconciled(live, next, delta), next + spawned_by(next, delta).len()),
{
}

/// The live rectangles, oldest first.
///
/// Identifiers are handed out in increasing order and never twice: the live ones are
/// strictly increasing and lie below the next to be handed out.
pub struct Registry {
    live: Vec<u64>,
    next: u64,
}

impl View for Registry {
    type V = Seq<u64>;

    closed spec fn view(&self) -> Seq<u64> {
        self.live@
    }
}

impl Registry {
    /// Holds of every registry at all times.
    #[verifier::type_invariant]
    spec fn ordered(self) -> bool {
        increasing_below(self.live@, self.next as nat)
    }

    /// The identifier that the next rectangle to be spawned gets.
    pub closed spec fn next_id(&self) -> nat {
        self.next as nat
    }

    /// A registry without rectangles.
    pub fn new() -> (registry: Self)
        ensures
            registry@ == Seq::<u64>::empty(),
            registry.next_id() == 0,
    {
        Registry { live: Vec::new(), next: 0 }
    }

    /// How many rectangles are alive.
    pub fn len(&self) -> (len: usize)
        ensures
            len == self@.len(),
    {
        self.live.len()
    }

    /// The live rectangles, oldest first: their identifiers, in increasing order.
    pub fn rectangles(&self) -> (live: &Vec<u64>)
        ensures
            live@ == self@,
            increasing_below(live@, self.next_id()),
    {
        proof {
            use_type_invariant(self);
        }
        &self.live
    }

    /// Whether the rectangle `id` is alive.
    pub fn contains(&self, id: u64) -> (alive: bool)
        ensures
            alive == self@.contains(id),
    {
        proof {
            use_type_invariant(self);
        }
        let mut below: usize = 0;
        let mut above: usize = self.live.len();
        while below < above
            invariant
                below <= above <= self.live@.len(),
                increasing_below(self.live@, self.next as nat),
                forall|i: int| 0 <= i < below ==> self.live@[i] < id,
                forall|i: int| above <= i < self.live@.len() ==> id < self.live@[i],
            decreases above - below,
        {
            let probe: usize = below + (above - below) / 2;
            let found: u64 = self.live[probe];
            if found == id {
                assert(self.live@[probe as int] == id);
                return true;
            }
            if found < id {
                below = probe + 1;
            } else {
                above = probe;
            }
        }
        false
    }

    /// The identifier that the next rectangle to be spawned gets.
    pub fn next(&self) -> (next: u64)
        ensures
            next == self.next_id(),
    {
        self.next
    }

    /// Creates `num` rectangles and returns their identifiers.
    pub fn spawn_rectangles(&mut self, num: u64) -> (spawned: Vec<u64>)
        requires
            old(self).next_id() + num <= u64::MAX,
        ensures
            spawned@ == fresh_ids(old(self).next_id(), num as nat),
            final(self)@ == old(self)@ + spawned@,
            final(self).next_id() == old(self).next_id() + num,
    {
        proof {
            use_type_invariant(&*self);
        }
        let first: u64 = self.next;
        let mut live: Vec<u64> = Vec::new();
        std::mem::swap(&mut live, &mut self.live);
        let mut spawned: Vec<u64> = Vec::new();
        let mut done: u64 = 0;
        while done < num
            invariant
                done <= num,
                first + num <= u64::MAX,
                increasing_below(live@, (first + done) as nat),
                spawned@ == fresh_ids(first as nat, done as nat),
                live@ == old(self).live@ + spawned@,
            decreases num - done,
        {
            live.push(first + done);
            spawned.push(first + done);
            done = done + 1;
        }
        self.next = first + num;
        self.live = live;
        spawned
    }

    /// Removes the `num` oldest rectangles, or all of them where there are fewer, and
    /// returns their identifiers.
    pub fn despawn_rectangles(&mut self, num: u64) -> (despawned: Vec<u64>)
        ensures
            despawned@ == old(self)@.take(despawn_len(old(self)@.len(), num as nat) as int),
            final(self)@ == old(self)@.skip(despawn_len(old(self)@.len(), num as nat) as int),
            final(self).next_id() == old(self).next_id(),
    {
        proof {
            use_type_invariant(&*self);
        }
        let mut despawned: Vec<u64> = Vec::new();
        std::mem::swap(&mut despawned, &mut self.live);
        let len: usize = despawned.len();
        let going: usize = if num <= len as u64 {
            num as usize
        } else {
            len
        };
        let staying: Vec<u64> = despawned.split_off(going);
        self.live = staying;
        despawned
    }

    /// Brings the number of live rectangles up or down by `delta`: a positive `delta`
    /// spawns that many, a negative one despawns that many of the oldest. Returns the
    /// identifiers of the rectangles that were spawned or despawned.
    pub fn reconcile(&mut self, delta: i64) -> (changed: Vec<u64>)
        requires
            delta > 0 ==> old(self).next_id() + delta <= u64::MAX,
        ensures
            final(self)@ == reconciled(old(self)@, old(self).next_id(), delta as int),
            changed@ == changed_by(old(self)@, old(self).next_id(), delta as int),
            final(self).next_id() == old(self).next_id() + spawned_by(
                old(self).next_id(),
                delta as int,
            ).len(),
    {
        if delta < 0 {
            let num: u64 = (-(delta + 1)) as u64 + 1;
            self.despawn_rectangles(num)
        } else {
            self.spawn_rectangles(delta as u64)
        }
    }
}

} // verus!
