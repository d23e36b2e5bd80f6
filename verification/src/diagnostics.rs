//! A record of the last missed PRO deadline and of accepted roundtrips.
//!
//! The record is kept as ten words and a version that is even while the words belong together.
use vstd::prelude::*;

verus! {

/// What was known when a PRO deadline was missed.
#[derive(Clone, Copy, Debug, PartialEq, Eq, Structural)]
pub struct ProMiss {
    pub generation: u64,
    pub session_id: u64,
    pub sequence: u64,
    pub wait_entry_budget_nanos: Option<u64>,
    pub cutoff_nanos: Option<u64>,
    pub selection_started_nanos: u64,
    pub published_nanos: Option<u64>,
    pub capture_to_publish_nanos: Option<u64>,
    pub core: bool,
    pub late: bool,
}

#[derive(Clone, Copy, Debug, PartialEq, Eq, Structural)]
pub struct ProDiagnosticsSnapshot {
    pub misses_recorded: u64,
    pub accepted_roundtrip_samples: u64,
    pub accepted_roundtrip_max_nanos: u64,
    pub last_miss: Option<ProMiss>,
}

#[derive(Clone, Copy, Debug)]
pub struct ProDiagnostics {
    enabled: bool,
    version: u64,
    fields: [u64; 10],
    accepted_roundtrip_samples: u64,
    accepted_roundtrip_max_nanos: u64,
}

impl Default for ProMiss {
    fn default() -> (miss: Self)
        ensures
            miss == (ProMiss {
                generation: 0,
                session_id: 0,
                sequence: 0,
                wait_entry_budget_nanos: None,
                cutoff_nanos: None,
                selection_started_nanos: 0,
                published_nanos: None,
                capture_to_publish_nanos: None,
                core: false,
                late: false,
            }),
    {
        ProMiss {
            generation: 0,
            session_id: 0,
            sequence: 0,
            wait_entry_budget_nanos: None,
            cutoff_nanos: None,
            selection_started_nanos: 0,
            published_nanos: None,
            capture_to_publish_nanos: None,
            core: false,
            late: false,
        }
    }
}

/// One bit.
pub open spec fn bit(flag: bool) -> u64 {
    if flag {
        1
    } else {
        0
    }
}

/// The word that tells which optional values are known; its lowest bit tells whether the miss was
/// late.
pub open spec fn flag_word(miss: ProMiss) -> u64 {
    (bit(miss.late) + 2 * bit(miss.wait_entry_budget_nanos is Some) + 4 * bit(
        miss.cutoff_nanos is Some,
    ) + 8 * bit(miss.published_nanos is Some) + 16 * bit(
        miss.capture_to_publish_nanos is Some,
    )) as u64
}

/// A value, where it is known.
pub open spec fn known(value: u64, flags: u64, weight: u64) -> Option<u64> {
    if (flags / weight) % 2 == 1 {
        Some(value)
    } else {
        None
    }
}

/// The miss that ten words hold.
pub open spec fn decoded(fields: Seq<u64>) -> ProMiss {
    ProMiss {
        generation: fields[0],
        session_id: fields[1],
        sequence: fields[2],
        wait_entry_budget_nanos: known(fields[3], fields[9], 2),
        cutoff_nanos: known(fields[4], fields[9], 4),
        selection_started_nanos: fields[5],
        published_nanos: known(fields[6], fields[9], 8),
        capture_to_publish_nanos: known(fields[7], fields[9], 16),
        core: fields[8] != 0,
        late: fields[9] % 2 == 1,
    }
}

fn one_bit(flag: bool) -> (word: u64)
    ensures
        word == bit(flag),
{
    if flag {
        1
    } else {
        0
    }
}

fn or_zero(value: Option<u64>) -> (word: u64)
    ensures
        word == match value {
            Some(v) => v,
            None => 0,
        },
{
    match value {
        Some(v) => v,
        None => 0,
    }
}

fn when_known(value: u64, flags: u64, weight: u64) -> (result: Option<u64>)
    requires
        weight > 0,
    ensures
        result == known(value, flags, weight),
{
    if (flags / weight) % 2 == 1 {
        Some(value)
    } else {
        None
    }
}

impl ProDiagnostics {
    /// The words belong together.
    #[verifier::type_invariant]
    closed spec fn at_rest(self) -> bool {
        self.version % 2 == 0
    }

    /// How many misses were recorded.
    pub closed spec fn misses(&self) -> u64 {
        self.version / 2
    }

    /// The last miss that was recorded.
    pub closed spec fn last_miss(&self) -> Option<ProMiss> {
        if self.version == 0 {
            None
        } else {
            Some(decoded(self.fields@))
        }
    }

    pub closed spec fn accepted(&self) -> (u64, u64) {
        (self.accepted_roundtrip_samples, self.accepted_roundtrip_max_nanos)
    }

    /// Whether misses and roundtrips are looked at.
    pub closed spec fn active(&self) -> bool {
        self.enabled
    }

    pub fn is_enabled(&self) -> (enabled: bool)
        ensures
            enabled == self.active(),
    {
        self.enabled
    }

    pub fn enable(&mut self)
        ensures
            final(self).active(),
            final(self).accepted() == old(self).accepted(),
            final(self).misses() == old(self).misses(),
            final(self).last_miss() == old(self).last_miss(),
    {
        proof {
            use_type_invariant(&*self);
        }
        self.enabled = true;
    }

    /// Notes an accepted roundtrip.
    pub fn record_accepted(&mut self, elapsed: u64)
        ensures
            final(self).accepted() == (
                old(self).accepted().0.wrapping_add(1),
                crate::timeline::maximum(old(self).accepted().1, elapsed),
            ),
            final(self).accepted().1 >= elapsed,
            final(self).accepted().1 >= old(self).accepted().1,
            final(self).accepted().1 == elapsed || final(self).accepted().1
                == old(self).accepted().1,
            final(self).misses() == old(self).misses(),
            final(self).last_miss() == old(self).last_miss(),
            final(self).active() == old(self).active(),
    {
        proof {
            use_type_invariant(&*self);
        }
        if elapsed > self.accepted_roundtrip_max_nanos {
            self.accepted_roundtrip_max_nanos = elapsed;
        }
        self.accepted_roundtrip_samples = self.accepted_roundtrip_samples.wrapping_add(1);
    }

    /// Records a miss in place of the last one.
    pub fn record_miss(&mut self, miss: ProMiss)
        requires
            old(self).misses() < u64::MAX / 2,
        ensures
            final(self).misses() == old(self).misses() + 1,
            final(self).last_miss() == Some(miss),
            final(self).accepted() == old(self).accepted(),
            final(self).active() == old(self).active(),
    {
        proof {
            use_type_invariant(&*self);
        }
        let flags: u64 = one_bit(miss.late) + 2 * one_bit(miss.wait_entry_budget_nanos.is_some())
            + 4 * one_bit(miss.cutoff_nanos.is_some()) + 8 * one_bit(
            miss.published_nanos.is_some(),
        ) + 16 * one_bit(miss.capture_to_publish_nanos.is_some());
        self.fields = [
            miss.generation,
            miss.session_id,
            miss.sequence,
            or_zero(miss.wait_entry_budget_nanos),
            or_zero(miss.cutoff_nanos),
            miss.selection_started_nanos,
            or_zero(miss.published_nanos),
            or_zero(miss.capture_to_publish_nanos),
            one_bit(miss.core),
            flags,
        ];
        self.version = self.version + 2;
        assert(self.fields@[9] == flag_word(miss));
        assert(decoded(self.fields@) == miss);
    }

    /// Everything that was recorded.
    pub fn snapshot(&self) -> (snapshot: Option<ProDiagnosticsSnapshot>)
        ensures
            snapshot == Some(
                ProDiagnosticsSnapshot {
                    misses_recorded: self.misses(),
                    accepted_roundtrip_samples: self.accepted().0,
                    accepted_roundtrip_max_nanos: self.accepted().1,
                    last_miss: self.last_miss(),
                },
            ),
    {
        proof {
            use_type_invariant(self);
        }
        if self.version % 2 != 0 {
            return None;
        }
        let flags: u64 = self.fields[9];
        Some(
            ProDiagnosticsSnapshot {
                misses_recorded: self.version / 2,
                accepted_roundtrip_samples: self.accepted_roundtrip_samples,
                accepted_roundtrip_max_nanos: self.accepted_roundtrip_max_nanos,
                last_miss: if self.version == 0 {
                    None
                } else {
                    Some(
                        ProMiss {
                            generation: self.fields[0],
                            session_id: self.fields[1],
                            sequence: self.fields[2],
                            wait_entry_budget_nanos: when_known(self.fields[3], flags, 2),
                            cutoff_nanos: when_known(self.fields[4], flags, 4),
                            selection_started_nanos: self.fields[5],
                            published_nanos: when_known(self.fields[6], flags, 8),
                            capture_to_publish_nanos: when_known(self.fields[7], flags, 16),
                            core: self.fields[8] != 0,
                            late: flags % 2 == 1,
                        },
                    )
                },
            },
        )
    }
}

impl Default for ProDiagnostics {
    /// Nothing recorded, and not enabled.
    fn default() -> (diagnostics: Self)
        ensures
            !diagnostics.active(),
            diagnostics.misses() == 0,
            diagnostics.last_miss() is None,
            diagnostics.accepted() == (0u64, 0u64),
    {
        ProDiagnostics {
            enabled: false,
            version: 0,
            fields: [0; 10],
            accepted_roundtrip_samples: 0,
            accepted_roundtrip_max_nanos: 0,
        }
    }
}

} // verus!
