//! The resource ledger: bounded numeric quantities with clamped accumulation.

use vstd::prelude::*;

verus! {

/// A bounded quantity. The intended invariant, established by every mutation,
/// is `0 <= cur_val <= max_val`; values only change through the clamping
/// accumulator [`Resource::add_or_max`].
#[derive(Clone, Copy, Debug, PartialEq, Eq, Structural)]
pub struct Resource {
    pub cur_val: u32,
    pub max_val: u32,
}

impl Resource {
    /// Well-formedness: the current value never exceeds the capacity.
    pub open spec fn wf(self) -> bool {
        self.cur_val <= self.max_val
    }
}

/// The result of adding `delta` to `cur`, clamped into `[0, max]`.
pub open spec fn clamped(cur: int, delta: int, max: int) -> int {
    if cur + delta > max {
        max
    } else if cur + delta < 0 {
        0
    } else {
        cur + delta
    }
}

impl Resource {
    /// Clamping accumulator: adds `delta` (which may be negative) and clamps
    /// the result into `[0, max_val]`. Total: no input can overflow or panic.
    pub fn add_or_max(&mut self, delta: i32)
        ensures
            final(self).max_val == old(self).max_val,
            final(self).cur_val == clamped(old(self).cur_val as int, delta as int, old(self).max_val as int),
            final(self).wf(),
    {
        let sum: i64 = self.cur_val as i64 + delta as i64;
        let mut new_val: i64 = sum;
        if new_val > self.max_val as i64 {
            new_val = self.max_val as i64;
        }
        if new_val < 0 {
            new_val = 0;
        }
        self.cur_val = new_val as u32;
    }
}

/// Accumulation keeps every resource within its bounds: whatever the starting
/// value and whatever the delta, the clamped result lies in `[0, max]`.
pub proof fn lemma_accumulate_in_bounds(cur: int, delta: int, max: int)
    requires
        0 <= max,
    ensures
        0 <= clamped(cur, delta, max) <= max,
{
}

/// The value of a resource after one clamped accumulation.
pub open spec fn accumulated(r: Resource, delta: int) -> Resource {
    Resource { cur_val: clamped(r.cur_val as int, delta, r.max_val as int) as u32, max_val: r.max_val }
}

impl Resource {
    /// Renders the resource as `"<name>: <cur> / <max>"`.
    pub fn display(&self, name: &String) -> (r: String)
        ensures
            r@ == name@ + ": "@ + crate::decimal::dec_rep(self.cur_val as int) + " / "@
                + crate::decimal::dec_rep(self.max_val as int),
    {
        let mut s = name.clone();
        s.append(": ");
        s.append(crate::decimal::u32_to_dec(self.cur_val).as_str());
        s.append(" / ");
        s.append(crate::decimal::u32_to_dec(self.max_val).as_str());
        s
    }
}

/// The names of the ledger's resources. The key set is fixed at
/// initialization, so lookup by name is total.
#[derive(Clone, Copy, Debug, PartialEq, Eq, Structural)]
pub enum ResourceName {
    Energy,
    IronOre,
    Bauxite,
    Sandstone,
}

/// The resource ledger: one bounded quantity per known name.
#[derive(Clone, Copy, Debug, PartialEq, Eq, Structural)]
pub struct Resources {
    pub energy: Resource,
    pub iron_ore: Resource,
    pub bauxite: Resource,
    pub sandstone: Resource,
}

impl Resources {
    /// Every quantity of the ledger is within its bounds.
    pub open spec fn wf(self) -> bool {
        &&& self.energy.wf()
        &&& self.iron_ore.wf()
        &&& self.bauxite.wf()
        &&& self.sandstone.wf()
    }

    /// The entry that `name` selects.
    pub open spec fn spec_peek(self, name: ResourceName) -> Resource {
        match name {
            ResourceName::Energy => self.energy,
            ResourceName::IronOre => self.iron_ore,
            ResourceName::Bauxite => self.bauxite,
            ResourceName::Sandstone => self.sandstone,
        }
    }

    /// The ledger after one clamped accumulation on the entry that `name`
    /// selects; the other entries are untouched.
    pub open spec fn spec_accumulate(self, name: ResourceName, delta: int) -> Resources {
        match name {
            ResourceName::Energy => Resources { energy: accumulated(self.energy, delta), ..self },
            ResourceName::IronOre => Resources { iron_ore: accumulated(self.iron_ore, delta), ..self },
            ResourceName::Bauxite => Resources { bauxite: accumulated(self.bauxite, delta), ..self },
            ResourceName::Sandstone => Resources { sandstone: accumulated(self.sandstone, delta), ..self },
        }
    }

    /// Read-only snapshot of one resource.
    pub fn peek(&self, name: ResourceName) -> (r: Resource)
        ensures
            r == self.spec_peek(name),
    {
        match name {
            ResourceName::Energy => self.energy,
            ResourceName::IronOre => self.iron_ore,
            ResourceName::Bauxite => self.bauxite,
            ResourceName::Sandstone => self.sandstone,
        }
    }

    /// Clamped accumulation on the named resource. The name set is closed, so
    /// the operation is total; the result stays within `[0, max]`.
    pub fn accumulate(&mut self, name: ResourceName, delta: i32)
        ensures
            *final(self) == old(self).spec_accumulate(name, delta as int),
            final(self).spec_peek(name).wf(),
    {
        match name {
            ResourceName::Energy => self.energy.add_or_max(delta),
            ResourceName::IronOre => self.iron_ore.add_or_max(delta),
            ResourceName::Bauxite => self.bauxite.add_or_max(delta),
            ResourceName::Sandstone => self.sandstone.add_or_max(delta),
        }
    }
}

/// Clamped accumulation preserves well-formedness of the whole ledger, for
/// every name and every delta.
pub proof fn lemma_ledger_accumulate_wf(r: Resources, name: ResourceName, delta: int)
    requires
        r.wf(),
    ensures
        r.spec_accumulate(name, delta).wf(),
{
}

} // verus!
