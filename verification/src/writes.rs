use vstd::prelude::*;

verus! {

/// The things whose writes the lighting pass counts.
#[derive(Clone, Copy, Debug, PartialEq, Eq, Structural)]
pub enum WriteTarget {
    /// A managed sun light.
    Sun,
    /// A managed moon light.
    Moon,
    /// The global ambient light.
    Ambient,
    /// Distance or volumetric fog on a camera.
    Fog,
    /// The exposure of a camera.
    Exposure,
    /// The atmosphere environment-map light of a camera.
    EnvironmentMap,
}

/// How many writes the lighting pass has made, per target.
#[derive(Clone, Copy, Debug, PartialEq, Eq, Structural)]
pub struct WriteCounters {
    pub sun_writes: u64,
    pub moon_writes: u64,
    pub ambient_writes: u64,
    pub fog_writes: u64,
    pub exposure_writes: u64,
    pub environment_map_writes: u64,
}

impl WriteCounters {
    /// The counter that belongs to `target`.
    pub open spec fn count(self, target: WriteTarget) -> u64 {
        match target {
            WriteTarget::Sun => self.sun_writes,
            WriteTarget::Moon => self.moon_writes,
            WriteTarget::Ambient => self.ambient_writes,
            WriteTarget::Fog => self.fog_writes,
            WriteTarget::Exposure => self.exposure_writes,
            WriteTarget::EnvironmentMap => self.environment_map_writes,
        }
    }

    /// All counters at zero.
    pub fn new() -> (counters: Self)
        ensures
            forall|t: WriteTarget| #[trigger] counters.count(t) == 0,
    {
        WriteCounters {
            sun_writes: 0,
            moon_writes: 0,
            ambient_writes: 0,
            fog_writes: 0,
            exposure_writes: 0,
            environment_map_writes: 0,
        }
    }

    /// The counter that belongs to `target`.
    pub fn get(&self, target: WriteTarget) -> (n: u64)
        ensures
            n == self.count(target),
    {
        match target {
            WriteTarget::Sun => self.sun_writes,
            WriteTarget::Moon => self.moon_writes,
            WriteTarget::Ambient => self.ambient_writes,
            WriteTarget::Fog => self.fog_writes,
            WriteTarget::Exposure => self.exposure_writes,
            WriteTarget::EnvironmentMap => self.environment_map_writes,
        }
    }

    /// Counts one write to `target` where `wrote` holds; leaves every counter
    /// as it is otherwise.
    pub fn record(&mut self, target: WriteTarget, wrote: bool)
        requires
            wrote ==> old(self).count(target) < u64::MAX,
        ensures
            final(self).count(target) == old(self).count(target) + (if wrote { 1int } else { 0int }),
            forall|t: WriteTarget| t != target ==> #[trigger] final(self).count(t) == old(self).count(t),
            forall|t: WriteTarget| #[trigger] final(self).count(t) >= old(self).count(t),
            target == WriteTarget::Moon ==> final(self).moon_writes == old(self).moon_writes
                + (if wrote { 1int } else { 0int }),
            target == WriteTarget::Exposure ==> final(self).exposure_writes
                == old(self).exposure_writes + (if wrote { 1int } else { 0int }),
            target == WriteTarget::Sun ==> final(self).sun_writes == old(self).sun_writes + (if wrote {
                1int
            } else {
                0int
            }),
            target == WriteTarget::Ambient ==> final(self).ambient_writes
                == old(self).ambient_writes + (if wrote { 1int } else { 0int }),
            target == WriteTarget::Fog ==> final(self).fog_writes == old(self).fog_writes + (if wrote {
                1int
            } else {
                0int
            }),
            target == WriteTarget::EnvironmentMap ==> final(self).environment_map_writes
                == old(self).environment_map_writes + (if wrote { 1int } else { 0int }),
    {
        if wrote {
            match target {
                WriteTarget::Sun => self.sun_writes = self.sun_writes + 1,
                WriteTarget::Moon => self.moon_writes = self.moon_writes + 1,
                WriteTarget::Ambient => self.ambient_writes = self.ambient_writes + 1,
                WriteTarget::Fog => self.fog_writes = self.fog_writes + 1,
                WriteTarget::Exposure => self.exposure_writes = self.exposure_writes + 1,
                WriteTarget::EnvironmentMap => {
                    self.environment_map_writes = self.environment_map_writes + 1
                },
            }
        }
    }
}

/// Brings a flag of a light to the value that the resolved lighting asks for.
/// Returns whether the flag had to change.
pub fn update_flag(current: &mut bool, next: bool) -> (changed: bool)
    ensures
        *final(current) == next,
        changed == (*old(current) != next),
{
    if *current != next {
        *current = next;
        true
    } else {
        false
    }
}

/// Each target is counted in its own field: the counter of a target is the
/// field named after it, so recording a write to one target moves that field
/// and no other.
pub proof fn each_target_has_its_own_field(c: WriteCounters)
    ensures
        c.count(WriteTarget::Sun) == c.sun_writes,
        c.count(WriteTarget::Moon) == c.moon_writes,
        c.count(WriteTarget::Ambient) == c.ambient_writes,
        c.count(WriteTarget::Fog) == c.fog_writes,
        c.count(WriteTarget::Exposure) == c.exposure_writes,
        c.count(WriteTarget::EnvironmentMap) == c.environment_map_writes,
{
}

} // verus!
