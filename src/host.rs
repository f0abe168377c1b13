use vstd::prelude::*;
use vstd::string::StringExecFns;

verus! {

/// Memory above which a host counts as high end: 16 GiB.
pub const HIGH_END_MEMORY_BYTES: u64 = 17_179_869_184;

/// Cores from which a host counts as high end.
pub const HIGH_END_CORES: usize = 8;

/// Idle time after which a node turns to compute work, in seconds.
pub const IDLE_ENTER_SECS: u64 = 60;

/// Idle time under which a node returns to interactive use, in seconds.
pub const IDLE_LEAVE_SECS: u64 = 5;

/// How often idle time is polled, in seconds.
pub const IDLE_POLL_SECS: u64 = 5;

/// The part a host is suited for: heavy compute, or coordination.
#[derive(Debug, Clone, Copy, PartialEq, Eq, Structural)]
pub enum Role {
    Muscle,
    Nerve,
}

pub open spec fn recommended_role(cpu_cores: usize, total_memory: u64) -> Role {
    if total_memory > HIGH_END_MEMORY_BYTES && cpu_cores >= HIGH_END_CORES {
        Role::Muscle
    } else {
        Role::Nerve
    }
}

/// The role for a host with `cpu_cores` cores and `total_memory` bytes.
pub fn recommend_role(cpu_cores: usize, total_memory: u64) -> (r: Role)
    ensures
        r == recommended_role(cpu_cores, total_memory),
{
    if total_memory > HIGH_END_MEMORY_BYTES && cpu_cores >= HIGH_END_CORES {
        Role::Muscle
    } else {
        Role::Nerve
    }
}

impl Role {
    pub fn label(&self) -> (r: String)
        ensures
            r@ == (match *self {
                Role::Muscle => "Muscle"@,
                Role::Nerve => "Nerve"@,
            }),
    {
        proof {
            reveal_strlit("Muscle");
            reveal_strlit("Nerve");
        }
        match self {
            Role::Muscle => String::from_str("Muscle"),
            Role::Nerve => String::from_str("Nerve"),
        }
    }
}

/// A switch between interactive use and compute work.
#[derive(Debug, Clone, Copy, PartialEq, Eq, Structural)]
pub enum ModeChange {
    /// The user went idle: the node announces itself as a compute provider.
    ToMuscle,
    /// The user is back.
    ToNerve,
}

impl ModeChange {
    pub fn label(&self) -> (r: String)
        ensures
            r@ == (match *self {
                ModeChange::ToMuscle => "Muscle (Idle)"@,
                ModeChange::ToNerve => "Nerve (Active)"@,
            }),
    {
        proof {
            reveal_strlit("Muscle (Idle)");
            reveal_strlit("Nerve (Active)");
        }
        match self {
            ModeChange::ToMuscle => String::from_str("Muscle (Idle)"),
            ModeChange::ToNerve => String::from_str("Nerve (Active)"),
        }
    }
}

/// Follows the user's idle time and says when the node changes mode.
#[derive(Debug, Clone, Copy, PartialEq, Eq, Structural)]
pub struct IdleMonitor {
    pub muscle_mode: bool,
}

pub open spec fn idle_transition(muscle_mode: bool, idle_seconds: u64) -> Option<ModeChange> {
    if idle_seconds > IDLE_ENTER_SECS && !muscle_mode {
        Some(ModeChange::ToMuscle)
    } else if idle_seconds < IDLE_LEAVE_SECS && muscle_mode {
        Some(ModeChange::ToNerve)
    } else {
        None
    }
}

impl IdleMonitor {
    /// A monitor in interactive mode.
    pub fn new() -> (r: IdleMonitor)
        ensures
            !r.muscle_mode,
    {
        IdleMonitor { muscle_mode: false }
    }

    /// Takes one reading of the idle time and returns the switch it causes,
    /// if any.
    pub fn observe(&mut self, idle_seconds: u64) -> (r: Option<ModeChange>)
        ensures
            r == idle_transition(old(self).muscle_mode, idle_seconds),
            final(self).muscle_mode == (match r {
                Some(ModeChange::ToMuscle) => true,
                Some(ModeChange::ToNerve) => false,
                None => old(self).muscle_mode,
            }),
    {
        if idle_seconds > IDLE_ENTER_SECS && !self.muscle_mode {
            self.muscle_mode = true;
            Some(ModeChange::ToMuscle)
        } else if idle_seconds < IDLE_LEAVE_SECS && self.muscle_mode {
            self.muscle_mode = false;
            Some(ModeChange::ToNerve)
        } else {
            None
        }
    }
}

} // verus!
